//! Rules: a compiled pattern and one replacement template per output field.
//! Product, OS and device rules are read from a document; CPU and engine
//! rules are built in.

use vstd::prelude::*;

use crate::errors::{Failure, UserAgentParserError};
use crate::matcher::{pattern_captures, pattern_compiles, Matcher};
use crate::models::FieldModel;
use crate::substitution::CaptureModel;
use crate::yaml::{get, get_optional_text, lookup, optional_text, same_text, YamlNode};

verus! {

/// A rule as plain values: its pattern, whether it ignores case, and its
/// templates in field order.
pub ghost struct RuleSpec {
    pub pattern: Seq<char>,
    pub ignore_case: bool,
    pub templates: Seq<FieldModel>,
}

/// What the rule's pattern captures in `text`.
pub open spec fn rule_captures(rule: RuleSpec, text: Seq<char>) -> Option<CaptureModel> {
    pattern_captures(rule.pattern, rule.ignore_case, text)
}

/// A rule of one of the five kinds.
pub trait Rule {
    spec fn model(&self) -> RuleSpec;

    fn regex(&self) -> (m: &Matcher)
        ensures
            m.pattern() == self.model().pattern,
            m.ignore_case() == self.model().ignore_case,
    ;
}

pub open spec fn models<R: Rule>(rules: Seq<R>) -> Seq<RuleSpec> {
    rules.map_values(|r: R| r.model())
}

/// The first rule, from `start` on, that matches `text`, with its captures.
pub open spec fn first_match_from(rules: Seq<RuleSpec>, text: Seq<char>, start: int) -> Option<
    (int, CaptureModel),
>
    decreases rules.len() - start,
{
    if start < 0 || start >= rules.len() {
        None
    } else {
        match rule_captures(rules[start], text) {
            Some(caps) => Some((start, caps)),
            None => first_match_from(rules, text, start + 1),
        }
    }
}

/// The first rule that matches `text`, with its captures.
pub open spec fn first_match(rules: Seq<RuleSpec>, text: Seq<char>) -> Option<(int, CaptureModel)> {
    first_match_from(rules, text, 0)
}

/// The first match is a rule that matches, and no rule before it does.
pub proof fn lemma_first_match_from(rules: Seq<RuleSpec>, text: Seq<char>, start: int)
    requires
        0 <= start,
    ensures
        match first_match_from(rules, text, start) {
            Some((i, caps)) => start <= i < rules.len() && rule_captures(rules[i], text) == Some(
                caps,
            ) && forall|k: int| start <= k < i ==> (#[trigger] rule_captures(rules[k], text)) is None,
            None => forall|k: int|
                start <= k < rules.len() ==> (#[trigger] rule_captures(rules[k], text)) is None,
        },
    decreases rules.len() - start,
{
    if start < rules.len() {
        lemma_first_match_from(rules, text, start + 1);
    }
}

/// Tries the rules in order and stops at the first that matches.
pub fn find_first<'t, R: Rule>(rules: &Vec<R>, text: &'t str) -> (r: Option<
    (usize, Vec<Option<&'t str>>),
>)
    ensures
        match r {
            Some((i, caps)) => first_match(models(rules@), text@) == Some(
                (i as int, caps.deep_view()),
            ),
            None => first_match(models(rules@), text@) is None,
        },
        r matches Some((i, _)) ==> i < rules@.len(),
{
    let ghost specs = models(rules@);
    let mut i: usize = 0;
    while i < rules.len()
        invariant
            i <= rules@.len(),
            specs == models(rules@),
            first_match(specs, text@) == first_match_from(specs, text@, i as int),
        decreases rules@.len() - i,
    {
        let rule = &rules[i];
        assert(specs[i as int] == rule.model());
        proof {
            lemma_first_match_from(specs, text@, i as int);
        }
        match rule.regex().captures(text) {
            Some(caps) => {
                return Some((i, caps));
            },
            None => {},
        }
        i = i + 1;
    }
    None
}

/// The three kinds of rules that a document lists.
pub ghost enum Section {
    Product,
    Os,
    Device,
}

/// The template strings of the mapping `e` under `keys`, or `None` where one
/// of them is not a string.
pub open spec fn templates_from(e: Seq<(YamlNode, YamlNode)>, keys: Seq<Seq<char>>) -> Option<
    Seq<FieldModel>,
> {
    if forall|k: int| 0 <= k < keys.len() ==> (#[trigger] optional_text(e, keys[k])) is Ok {
        Some(Seq::new(keys.len(), |k: int| optional_text(e, keys[k])->Ok_0))
    } else {
        None
    }
}

pub open spec fn product_keys() -> Seq<Seq<char>> {
    seq!["family_replacement"@, "v1_replacement"@, "v2_replacement"@, "v3_replacement"@]
}

pub open spec fn os_keys() -> Seq<Seq<char>> {
    seq![
        "os_replacement"@,
        "os_v1_replacement"@,
        "os_v2_replacement"@,
        "os_v3_replacement"@,
        "os_v4_replacement"@,
    ]
}

pub open spec fn device_keys() -> Seq<Seq<char>> {
    seq!["device_replacement"@, "brand_replacement"@, "model_replacement"@]
}

/// A product or OS entry: a mapping whose `regex` is a string that compiles,
/// then template strings under `keys`.
pub open spec fn plain_entry(node: YamlNode, keys: Seq<Seq<char>>) -> Result<RuleSpec, Failure> {
    match node {
        YamlNode::Mapping(e) => match lookup(e@, "regex"@) {
            Some(YamlNode::Text(p)) => if !pattern_compiles(p@, false) {
                Err(Failure::BadPattern)
            } else {
                match templates_from(e@, keys) {
                    Some(t) => Ok(RuleSpec { pattern: p@, ignore_case: false, templates: t }),
                    None => Err(Failure::IncorrectSource),
                }
            },
            _ => Err(Failure::IncorrectSource),
        },
        _ => Err(Failure::IncorrectSource),
    }
}

/// A device entry: a mapping with template strings, then a `regex` string
/// that compiles. Only a `regex_flag` that is the string `"i"` makes it ignore
/// case; any other value, or none, leaves it case-sensitive.
pub open spec fn device_entry(node: YamlNode) -> Result<RuleSpec, Failure> {
    match node {
        YamlNode::Mapping(e) => match templates_from(e@, device_keys()) {
            None => Err(Failure::IncorrectSource),
            Some(t) => {
                let ignore_case = optional_text(e@, "regex_flag"@) == Ok::<_, ()>(Some("i"@));
                match lookup(e@, "regex"@) {
                    Some(YamlNode::Text(p)) => if !pattern_compiles(p@, ignore_case) {
                        Err(Failure::BadPattern)
                    } else {
                        Ok(RuleSpec { pattern: p@, ignore_case, templates: t })
                    },
                    _ => Err(Failure::IncorrectSource),
                }
            },
        },
        _ => Err(Failure::IncorrectSource),
    }
}

pub open spec fn entry(section: Section, node: YamlNode) -> Result<RuleSpec, Failure> {
    match section {
        Section::Product => plain_entry(node, product_keys()),
        Section::Os => plain_entry(node, os_keys()),
        Section::Device => device_entry(node),
    }
}

/// The rules of a list of entries, or the failure of its first bad entry.
pub open spec fn load_entries(section: Section, items: Seq<YamlNode>) -> Result<
    Seq<RuleSpec>,
    Failure,
>
    decreases items.len(),
{
    if items.len() == 0 {
        Ok(Seq::empty())
    } else {
        match load_entries(section, items.drop_last()) {
            Err(f) => Err(f),
            Ok(rs) => match entry(section, items.last()) {
                Err(f) => Err(f),
                Ok(r) => Ok(rs.push(r)),
            },
        }
    }
}

/// The rules of a section: a non-empty list of entries.
pub open spec fn load_section(section: Section, node: YamlNode) -> Result<Seq<RuleSpec>, Failure> {
    match node {
        YamlNode::List(items) => if items@.len() == 0 {
            Err(Failure::IncorrectSource)
        } else {
            load_entries(section, items@)
        },
        _ => Err(Failure::IncorrectSource),
    }
}

proof fn lemma_failure_persists(section: Section, items: Seq<YamlNode>, i: int)
    requires
        0 <= i <= items.len(),
        load_entries(section, items.take(i)) is Err,
    ensures
        load_entries(section, items) == load_entries(section, items.take(i)),
    decreases items.len(),
{
    if i == items.len() {
        assert(items.take(i) =~= items);
    } else {
        assert(items.drop_last().take(i) =~= items.take(i));
        lemma_failure_persists(section, items.drop_last(), i);
    }
}

/// A rule that a document lists.
pub trait DocumentRule: Rule + Sized {
    spec fn section() -> Section;

    /// The rule of one entry of the list.
    fn from_entry(node: &YamlNode) -> (r: Result<Self, UserAgentParserError>)
        ensures
            match r {
                Ok(rule) => entry(Self::section(), *node) == Ok::<_, Failure>(rule.model()),
                Err(e) => entry(Self::section(), *node) == Err::<RuleSpec, _>(e.failure()),
            },
    ;
}

/// The rules of a list section, in document order.
pub fn load_rules<R: DocumentRule>(yaml: &YamlNode) -> (r: Result<Vec<R>, UserAgentParserError>)
    ensures
        match r {
            Ok(v) => load_section(R::section(), *yaml) == Ok::<_, Failure>(models(v@)),
            Err(e) => load_section(R::section(), *yaml) == Err::<Seq<RuleSpec>, _>(e.failure()),
        },
{
    let items = match yaml {
        YamlNode::List(items) => items,
        _ => return Err(UserAgentParserError::IncorrectSource),
    };
    assert(*yaml == YamlNode::List(*items));
    if items.len() == 0 {
        return Err(UserAgentParserError::IncorrectSource);
    }
    let mut rules: Vec<R> = Vec::new();
    let mut i: usize = 0;
    assert(items@.take(0) =~= Seq::<YamlNode>::empty());
    assert(models(rules@) =~= Seq::<RuleSpec>::empty());
    while i < items.len()
        invariant
            *yaml == YamlNode::List(*items),
            items@.len() > 0,
            i <= items@.len(),
            load_entries(R::section(), items@.take(i as int)) == Ok::<_, Failure>(models(rules@)),
        decreases items@.len() - i,
    {
        assert(items@.take(i + 1).drop_last() =~= items@.take(i as int));
        match R::from_entry(&items[i]) {
            Ok(rule) => {
                let ghost before = rules@;
                rules.push(rule);
                assert(models(rules@) =~= models(before).push(rule.model()));
            },
            Err(e) => {
                proof {
                    assert(items@.take(i + 1).last() == items@[i as int]);
                    assert(load_entries(R::section(), items@.take(i + 1)) == Err::<
                        Seq<RuleSpec>,
                        _,
                    >(e.failure()));
                    lemma_failure_persists(R::section(), items@, i + 1);
                }
                return Err(e);
            },
        }
        i = i + 1;
    }
    assert(items@.take(i as int) =~= items@);
    Ok(rules)
}

/// A rule for the software product.
#[derive(Debug)]
pub struct ProductRegex {
    pub regex: Matcher,
    pub family_replacement: Option<String>,
    pub v1_replacement: Option<String>,
    pub v2_replacement: Option<String>,
    pub v3_replacement: Option<String>,
}

impl Rule for ProductRegex {
    open spec fn model(&self) -> RuleSpec {
        RuleSpec {
            pattern: self.regex.pattern(),
            ignore_case: self.regex.ignore_case(),
            templates: seq![
                self.family_replacement.deep_view(),
                self.v1_replacement.deep_view(),
                self.v2_replacement.deep_view(),
                self.v3_replacement.deep_view(),
            ],
        }
    }

    fn regex(&self) -> (m: &Matcher) {
        &self.regex
    }
}

impl ProductRegex {
    /// The rules of a `user_agent_parsers` list.
    pub fn from_yaml(yaml: &YamlNode) -> (r: Result<Vec<ProductRegex>, UserAgentParserError>)
        ensures
            match r {
                Ok(v) => load_section(Section::Product, *yaml) == Ok::<_, Failure>(models(v@)),
                Err(e) => load_section(Section::Product, *yaml) == Err::<Seq<RuleSpec>, _>(
                    e.failure(),
                ),
            },
    {
        load_rules(yaml)
    }
}

impl DocumentRule for ProductRegex {
    open spec fn section() -> Section {
        Section::Product
    }

    fn from_entry(node: &YamlNode) -> (r: Result<ProductRegex, UserAgentParserError>) {
        let e = match node {
            YamlNode::Mapping(e) => e,
            _ => return Err(UserAgentParserError::IncorrectSource),
        };
        let pattern = match get(e, "regex") {
            Some(YamlNode::Text(p)) => p,
            _ => return Err(UserAgentParserError::IncorrectSource),
        };
        let regex = match Matcher::new(pattern.as_str(), false) {
            Ok(m) => m,
            Err(err) => return Err(UserAgentParserError::RegexError(err)),
        };
        let ghost keys = product_keys();
        let family_replacement = match get_optional_text(e, "family_replacement") {
            Ok(t) => t,
            Err(_) => return Err(UserAgentParserError::IncorrectSource),
        };
        let v1_replacement = match get_optional_text(e, "v1_replacement") {
            Ok(t) => t,
            Err(_) => {
                assert(optional_text(e@, keys[1]) is Err);
                return Err(UserAgentParserError::IncorrectSource);
            },
        };
        let v2_replacement = match get_optional_text(e, "v2_replacement") {
            Ok(t) => t,
            Err(_) => {
                assert(optional_text(e@, keys[2]) is Err);
                return Err(UserAgentParserError::IncorrectSource);
            },
        };
        let v3_replacement = match get_optional_text(e, "v3_replacement") {
            Ok(t) => t,
            Err(_) => {
                assert(optional_text(e@, keys[3]) is Err);
                return Err(UserAgentParserError::IncorrectSource);
            },
        };
        let rule = ProductRegex {
            regex,
            family_replacement,
            v1_replacement,
            v2_replacement,
            v3_replacement,
        };
        assert(templates_from(e@, keys) == Some(rule.model().templates)) by {
            assert(optional_text(e@, keys[0]) is Ok);
            assert(optional_text(e@, keys[1]) is Ok);
            assert(optional_text(e@, keys[2]) is Ok);
            assert(optional_text(e@, keys[3]) is Ok);
            assert(Seq::new(keys.len(), |k: int| optional_text(e@, keys[k])->Ok_0)
                =~= rule.model().templates);
        }
        Ok(rule)
    }
}

/// A rule for the operating system.
#[derive(Debug)]
pub struct OSRegex {
    pub regex: Matcher,
    pub os_replacement: Option<String>,
    pub os_v1_replacement: Option<String>,
    pub os_v2_replacement: Option<String>,
    pub os_v3_replacement: Option<String>,
    pub os_v4_replacement: Option<String>,
}

impl Rule for OSRegex {
    open spec fn model(&self) -> RuleSpec {
        RuleSpec {
            pattern: self.regex.pattern(),
            ignore_case: self.regex.ignore_case(),
            templates: seq![
                self.os_replacement.deep_view(),
                self.os_v1_replacement.deep_view(),
                self.os_v2_replacement.deep_view(),
                self.os_v3_replacement.deep_view(),
                self.os_v4_replacement.deep_view(),
            ],
        }
    }

    fn regex(&self) -> (m: &Matcher) {
        &self.regex
    }
}

impl OSRegex {
    /// The rules of an `os_parsers` list.
    pub fn from_yaml(yaml: &YamlNode) -> (r: Result<Vec<OSRegex>, UserAgentParserError>)
        ensures
            match r {
                Ok(v) => load_section(Section::Os, *yaml) == Ok::<_, Failure>(models(v@)),
                Err(e) => load_section(Section::Os, *yaml) == Err::<Seq<RuleSpec>, _>(
                    e.failure(),
                ),
            },
    {
        load_rules(yaml)
    }
}

impl DocumentRule for OSRegex {
    open spec fn section() -> Section {
        Section::Os
    }

    fn from_entry(node: &YamlNode) -> (r: Result<OSRegex, UserAgentParserError>) {
        let e = match node {
            YamlNode::Mapping(e) => e,
            _ => return Err(UserAgentParserError::IncorrectSource),
        };
        let pattern = match get(e, "regex") {
            Some(YamlNode::Text(p)) => p,
            _ => return Err(UserAgentParserError::IncorrectSource),
        };
        let regex = match Matcher::new(pattern.as_str(), false) {
            Ok(m) => m,
            Err(err) => return Err(UserAgentParserError::RegexError(err)),
        };
        let ghost keys = os_keys();
        let os_replacement = match get_optional_text(e, "os_replacement") {
            Ok(t) => t,
            Err(_) => return Err(UserAgentParserError::IncorrectSource),
        };
        let os_v1_replacement = match get_optional_text(e, "os_v1_replacement") {
            Ok(t) => t,
            Err(_) => {
                assert(optional_text(e@, keys[1]) is Err);
                return Err(UserAgentParserError::IncorrectSource);
            },
        };
        let os_v2_replacement = match get_optional_text(e, "os_v2_replacement") {
            Ok(t) => t,
            Err(_) => {
                assert(optional_text(e@, keys[2]) is Err);
                return Err(UserAgentParserError::IncorrectSource);
            },
        };
        let os_v3_replacement = match get_optional_text(e, "os_v3_replacement") {
            Ok(t) => t,
            Err(_) => {
                assert(optional_text(e@, keys[3]) is Err);
                return Err(UserAgentParserError::IncorrectSource);
            },
        };
        let os_v4_replacement = match get_optional_text(e, "os_v4_replacement") {
            Ok(t) => t,
            Err(_) => {
                assert(optional_text(e@, keys[4]) is Err);
                return Err(UserAgentParserError::IncorrectSource);
            },
        };
        let rule = OSRegex {
            regex,
            os_replacement,
            os_v1_replacement,
            os_v2_replacement,
            os_v3_replacement,
            os_v4_replacement,
        };
        assert(templates_from(e@, keys) == Some(rule.model().templates)) by {
            assert(optional_text(e@, keys[0]) is Ok);
            assert(optional_text(e@, keys[1]) is Ok);
            assert(optional_text(e@, keys[2]) is Ok);
            assert(optional_text(e@, keys[3]) is Ok);
            assert(optional_text(e@, keys[4]) is Ok);
            assert(Seq::new(keys.len(), |k: int| optional_text(e@, keys[k])->Ok_0)
                =~= rule.model().templates);
        }
        Ok(rule)
    }
}

/// A rule for the device.
#[derive(Debug)]
pub struct DeviceRegex {
    pub regex: Matcher,
    pub device_replacement: Option<String>,
    pub brand_replacement: Option<String>,
    pub model_replacement: Option<String>,
}

impl Rule for DeviceRegex {
    open spec fn model(&self) -> RuleSpec {
        RuleSpec {
            pattern: self.regex.pattern(),
            ignore_case: self.regex.ignore_case(),
            templates: seq![
                self.device_replacement.deep_view(),
                self.brand_replacement.deep_view(),
                self.model_replacement.deep_view(),
            ],
        }
    }

    fn regex(&self) -> (m: &Matcher) {
        &self.regex
    }
}

impl DeviceRegex {
    /// The rules of a `device_parsers` list.
    pub fn from_yaml(yaml: &YamlNode) -> (r: Result<Vec<DeviceRegex>, UserAgentParserError>)
        ensures
            match r {
                Ok(v) => load_section(Section::Device, *yaml) == Ok::<_, Failure>(models(v@)),
                Err(e) => load_section(Section::Device, *yaml) == Err::<Seq<RuleSpec>, _>(
                    e.failure(),
                ),
            },
    {
        load_rules(yaml)
    }
}

impl DocumentRule for DeviceRegex {
    open spec fn section() -> Section {
        Section::Device
    }

    fn from_entry(node: &YamlNode) -> (r: Result<DeviceRegex, UserAgentParserError>) {
        let e = match node {
            YamlNode::Mapping(e) => e,
            _ => return Err(UserAgentParserError::IncorrectSource),
        };
        let ghost keys = device_keys();
        let device_replacement = match get_optional_text(e, "device_replacement") {
            Ok(t) => t,
            Err(_) => {
                assert(optional_text(e@, keys[0]) is Err);
                return Err(UserAgentParserError::IncorrectSource);
            },
        };
        let brand_replacement = match get_optional_text(e, "brand_replacement") {
            Ok(t) => t,
            Err(_) => {
                assert(optional_text(e@, keys[1]) is Err);
                return Err(UserAgentParserError::IncorrectSource);
            },
        };
        let model_replacement = match get_optional_text(e, "model_replacement") {
            Ok(t) => t,
            Err(_) => {
                assert(optional_text(e@, keys[2]) is Err);
                return Err(UserAgentParserError::IncorrectSource);
            },
        };
        let ghost templates = seq![
            device_replacement.deep_view(),
            brand_replacement.deep_view(),
            model_replacement.deep_view(),
        ];
        assert(templates_from(e@, keys) == Some(templates)) by {
            assert(optional_text(e@, keys[0]) is Ok);
            assert(optional_text(e@, keys[1]) is Ok);
            assert(optional_text(e@, keys[2]) is Ok);
            assert(Seq::new(keys.len(), |k: int| optional_text(e@, keys[k])->Ok_0) =~= templates);
        }
        let ignore_case = match get(e, "regex_flag") {
            Some(YamlNode::Text(flag)) => same_text(flag.as_str(), "i"),
            _ => false,
        };
        let pattern = match get(e, "regex") {
            Some(YamlNode::Text(p)) => p,
            _ => return Err(UserAgentParserError::IncorrectSource),
        };
        let regex = match Matcher::new(pattern.as_str(), ignore_case) {
            Ok(m) => m,
            Err(err) => return Err(UserAgentParserError::RegexError(err)),
        };
        Ok(DeviceRegex { regex, device_replacement, brand_replacement, model_replacement })
    }
}

} // verus!
