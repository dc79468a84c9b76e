//! Laws that the classifier obeys, stated over the models that the
//! functions' contracts use.

use vstd::prelude::*;

use crate::errors::Failure;
use crate::parser::{classify, extract, load};
use crate::rules::{first_match, first_match_from, lemma_first_match_from, rule_captures, RuleSpec};
use crate::substitution::{
    capture_text, decimal, digit_run, expand, has_placeholder, is_digit, starts_with_placeholder,
    substitution,
    CaptureModel,
};
use crate::text::{trim, trim_end, trim_start};
use crate::yaml::{lookup, yaml_documents, YamlNode};

verus! {

/// Classification is a function of the rules and the text: the same parser
/// asked twice about the same text gives field-for-field equal records.
pub proof fn lemma_classify_repeatable(
    rules: Seq<RuleSpec>,
    defaults: Seq<int>,
    text1: Seq<char>,
    text2: Seq<char>,
)
    requires
        text1 == text2,
    ensures
        classify(rules, defaults, text1) == classify(rules, defaults, text2),
{
}

proof fn lemma_first_match_ignores_later(
    rules: Seq<RuleSpec>,
    other: Seq<RuleSpec>,
    text: Seq<char>,
    start: int,
    i: int,
)
    requires
        0 <= start <= i < rules.len(),
        i < other.len(),
        forall|k: int| start <= k <= i ==> #[trigger] rules[k] == other[k],
        rule_captures(rules[i], text) is Some,
    ensures
        first_match_from(rules, text, start) == first_match_from(other, text, start),
    decreases i - start,
{
    if start < i {
        lemma_first_match_ignores_later(rules, other, text, start + 1, i);
    }
}

/// Rule order decides: where rules `i` and `j > i` both match the text, the
/// fields come from rule `i` or an earlier one, and rule `j` is never
/// consulted: putting any other rule in its place changes nothing.
pub proof fn lemma_first_rule_wins(
    rules: Seq<RuleSpec>,
    defaults: Seq<int>,
    text: Seq<char>,
    i: int,
    j: int,
    replacement: RuleSpec,
)
    requires
        0 <= i < j < rules.len(),
        rule_captures(rules[i], text) is Some,
        rule_captures(rules[j], text) is Some,
    ensures
        first_match(rules, text) matches Some((k, _)) && k <= i,
        classify(rules.update(j, replacement), defaults, text) == classify(rules, defaults, text),
        (forall|k: int| 0 <= k < i ==> (#[trigger] rule_captures(rules[k], text)) is None)
            ==> classify(rules, defaults, text) == extract(
            rules[i],
            defaults,
            rule_captures(rules[i], text)->0,
        ),
{
    lemma_first_match_from(rules, text, 0);
    let other = rules.update(j, replacement);
    lemma_first_match_ignores_later(rules, other, text, 0, i);
    lemma_first_match_from(other, text, 0);
}

/// A template without placeholders is the field's value, whatever was
/// captured.
pub proof fn lemma_fixed_template(t: Seq<char>, index: int, caps: CaptureModel)
    requires
        !has_placeholder(t),
    ensures
        substitution(Some(t), index, caps) == Some(t),
{
}

proof fn lemma_digit_run_all_digits(d: Seq<char>, cap: nat)
    requires
        d.len() <= cap,
        forall|k: int| 0 <= k < d.len() ==> is_digit(#[trigger] d[k]),
    ensures
        digit_run(d, cap) == d.len(),
    decreases cap,
{
    if d.len() > 0 {
        lemma_digit_run_all_digits(d.drop_first(), (cap - 1) as nat);
    }
}

/// A placeholder naming a group past the end of the captures stands for
/// nothing; a template that is only such a placeholder gives no value.
pub proof fn lemma_out_of_range_placeholder(digits: Seq<char>, index: int, caps: CaptureModel)
    requires
        1 <= digits.len() <= 9,
        forall|k: int| 0 <= k < digits.len() ==> is_digit(#[trigger] digits[k]),
        decimal(digits) >= caps.len(),
    ensures
        capture_text(caps, decimal(digits)) == Seq::<char>::empty(),
        substitution(Some(seq!['$'] + digits), index, caps) is None,
{
    let t = seq!['$'] + digits;
    assert(t.drop_first() =~= digits);
    lemma_digit_run_all_digits(digits, 9);
    assert(t.subrange(1, 1 + digits.len() as int) =~= digits);
    assert(t.skip(1 + digits.len() as int) =~= Seq::<char>::empty());
    assert(t[0] == '$' && t[1] == digits[0]);
    assert(expand(Seq::<char>::empty(), caps) == Seq::<char>::empty());
    assert(expand(t, caps) =~= Seq::<char>::empty());
    assert(trim_start(Seq::<char>::empty()) == Seq::<char>::empty());
    assert(trim_end(Seq::<char>::empty()) == Seq::<char>::empty());
    assert(trim(Seq::<char>::empty()) == Seq::<char>::empty());
    assert(t.skip(0) =~= t);
    assert(starts_with_placeholder(t.skip(0)));
}

/// A document without any YAML document in it is refused as an incorrect
/// source.
pub proof fn lemma_empty_document_refused(text: Seq<char>)
    requires
        yaml_documents(text) == Some(Seq::<YamlNode>::empty()),
    ensures
        load(text) == Err::<(Seq<RuleSpec>, Seq<RuleSpec>, Seq<RuleSpec>), _>(
            Failure::IncorrectSource,
        ),
{
}

/// A document whose `user_agent_parsers` section is an empty list is refused
/// as an incorrect source.
pub proof fn lemma_empty_section_refused(
    text: Seq<char>,
    docs: Seq<YamlNode>,
    entries: Seq<(YamlNode, YamlNode)>,
    items: Vec<YamlNode>,
)
    requires
        yaml_documents(text) == Some(docs),
        docs.len() > 0,
        docs[0] matches YamlNode::Mapping(e) && e@ == entries,
        lookup(entries, "user_agent_parsers"@) == Some(YamlNode::List(items)),
        items@.len() == 0,
    ensures
        load(text) == Err::<(Seq<RuleSpec>, Seq<RuleSpec>, Seq<RuleSpec>), _>(
            Failure::IncorrectSource,
        ),
{
}

} // verus!
