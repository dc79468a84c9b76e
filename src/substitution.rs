//! Replacement templates: `$N` placeholders (one to nine decimal digits) are
//! replaced by the captures of a match, and the result is trimmed.

use std::borrow::Cow;
use vstd::prelude::*;
use vstd::string::*;

use crate::text::{is_white, trim, trim_bounds, trim_str};

verus! {

/// What one match captured: group 0 is the whole match, a group that took no
/// part in the match holds `None`.
pub type CaptureModel = Seq<Option<Seq<char>>>;

pub open spec fn is_digit(c: char) -> bool {
    '0' <= c && c <= '9'
}

/// The number of decimal digits at the front of `s`, counting at most `cap`.
pub open spec fn digit_run(s: Seq<char>, cap: nat) -> nat
    decreases cap,
{
    if cap == 0 || s.len() == 0 || !is_digit(s[0]) {
        0
    } else {
        1 + digit_run(s.drop_first(), (cap - 1) as nat)
    }
}

/// The value of a string of decimal digits.
pub open spec fn decimal(d: Seq<char>) -> nat
    decreases d.len(),
{
    if d.len() == 0 {
        0
    } else {
        decimal(d.drop_last()) * 10 + (d.last() as nat - '0' as nat) as nat
    }
}

/// `t` starts with a placeholder: `$` and a digit.
pub open spec fn starts_with_placeholder(t: Seq<char>) -> bool {
    t.len() >= 2 && t[0] == '$' && is_digit(t[1])
}

/// The number of digits of the placeholder at the front of `t`.
pub open spec fn placeholder_digits(t: Seq<char>) -> nat {
    digit_run(t.drop_first(), 9)
}

/// A placeholder starts somewhere in `t`.
pub open spec fn has_placeholder(t: Seq<char>) -> bool {
    exists|i: int| 0 <= i < t.len() && #[trigger] starts_with_placeholder(t.skip(i))
}

/// The text that placeholder `$n` stands for: capture `n`, or nothing where
/// `n` is out of range or the group did not take part in the match.
pub open spec fn capture_text(caps: CaptureModel, n: nat) -> Seq<char> {
    if n < caps.len() && caps[n as int] is Some {
        caps[n as int]->0
    } else {
        Seq::empty()
    }
}

/// `t` with each placeholder, read from left to right, replaced.
pub open spec fn expand(t: Seq<char>, caps: CaptureModel) -> Seq<char>
    decreases t.len(),
    via expand_decreases
{
    if t.len() == 0 {
        Seq::empty()
    } else if starts_with_placeholder(t) {
        let k = placeholder_digits(t) as int;
        capture_text(caps, decimal(t.subrange(1, 1 + k))) + expand(t.skip(1 + k), caps)
    } else {
        seq![t[0]] + expand(t.drop_first(), caps)
    }
}

/// What a field becomes, given its template (if any), its default capture
/// index and the captures of the match.
pub open spec fn substitution(template: Option<Seq<char>>, index: int, caps: CaptureModel) -> Option<
    Seq<char>,
> {
    match template {
        None => if 0 <= index < caps.len() && caps[index] is Some && trim(caps[index]->0).len()
            > 0 {
            Some(trim(caps[index]->0))
        } else {
            None
        },
        Some(t) => if !has_placeholder(t) {
            Some(t)
        } else if trim(expand(t, caps)).len() > 0 {
            Some(trim(expand(t, caps)))
        } else {
            None
        },
    }
}

#[via_fn]
proof fn expand_decreases(t: Seq<char>, caps: CaptureModel) {
    if t.len() > 0 {
        lemma_digit_run_bound(t.drop_first(), 9);
    }
}

proof fn lemma_digit_run_bound(s: Seq<char>, cap: nat)
    ensures
        digit_run(s, cap) <= cap,
        digit_run(s, cap) <= s.len(),
    decreases cap,
{
    if cap > 0 && s.len() > 0 && is_digit(s[0]) {
        lemma_digit_run_bound(s.drop_first(), (cap - 1) as nat);
    }
}

pub open spec fn pow10(n: nat) -> nat
    decreases n,
{
    if n == 0 {
        1
    } else {
        10 * pow10((n - 1) as nat)
    }
}

proof fn lemma_pow10_mono(k: nat, m: nat)
    requires
        k <= m,
    ensures
        pow10(k) <= pow10(m),
    decreases m,
{
    if k < m {
        lemma_pow10_mono(k, (m - 1) as nat);
    }
}

/// Whether `t` holds a placeholder.
pub fn find_placeholder(t: &str) -> (r: bool)
    ensures
        r == has_placeholder(t@),
{
    let n = t.unicode_len();
    let mut i: usize = 0;
    while i < n && i + 1 < n
        invariant
            n == t@.len(),
            forall|j: int| 0 <= j < i ==> !#[trigger] starts_with_placeholder(t@.skip(j)),
        decreases n - i,
    {
        if t.get_char(i) == '$' && is_digit_char(t.get_char(i + 1)) {
            assert(starts_with_placeholder(t@.skip(i as int)));
            return true;
        }
        assert(!starts_with_placeholder(t@.skip(i as int)));
        i = i + 1;
    }
    assert forall|j: int| 0 <= j < t@.len() implies !#[trigger] starts_with_placeholder(
        t@.skip(j),
    ) by {
        if j >= i {
            assert(t@.skip(j).len() < 2);
        }
    }
    false
}

pub fn is_digit_char(c: char) -> (r: bool)
    ensures
        r == is_digit(c),
{
    '0' <= c && c <= '9'
}

/// `t` with each placeholder replaced by the capture that it names.
pub fn expand_template(t: &str, captures: &Vec<Option<&str>>) -> (r: String)
    ensures
        r@ == expand(t@, captures.deep_view()),
{
    let ghost caps = captures.deep_view();
    let n = t.unicode_len();
    let mut out = String::new();
    let mut i: usize = 0;
    assert(t@.skip(0) =~= t@);
    while i < n
        invariant
            i <= n,
            n == t@.len(),
            caps == captures.deep_view(),
            expand(t@, caps) == out@ + expand(t@.skip(i as int), caps),
        decreases n - i,
    {
        let ghost rest = t@.skip(i as int);
        if t.get_char(i) == '$' && i + 1 < n && is_digit_char(t.get_char(i + 1)) {
            let start = i + 1;
            let mut j: usize = start;
            let mut value: usize = 0;
            assert(rest.drop_first() =~= t@.skip(start as int));
            assert(t@.subrange(start as int, start as int) =~= Seq::<char>::empty());
            while j < n && j - start < 9 && is_digit_char(t.get_char(j))
                invariant
                    start == i + 1,
                    start <= j <= n,
                    j - start <= 9,
                    n == t@.len(),
                    rest == t@.skip(i as int),
                    value == decimal(t@.subrange(start as int, j as int)),
                    value < pow10((j - start) as nat),
                    placeholder_digits(rest) == (j - start) + digit_run(
                        t@.skip(j as int),
                        (9 - (j - start)) as nat,
                    ),
                decreases n - j,
            {
                let d = t.get_char(j);
                proof {
                    lemma_pow10_mono((j - start) as nat, 8);
                    reveal_with_fuel(pow10, 9);
                    assert(t@.skip(j as int).drop_first() =~= t@.skip(j + 1));
                    assert(t@.subrange(start as int, j + 1).drop_last() =~= t@.subrange(
                        start as int,
                        j as int,
                    ));
                }
                value = value * 10 + (d as u32 - '0' as u32) as usize;
                j = j + 1;
            }
            proof {
                let k = placeholder_digits(rest) as int;
                assert(k == j - start);
                assert(rest.subrange(1, 1 + k) =~= t@.subrange(start as int, j as int));
                assert(rest.skip(1 + k) =~= t@.skip(j as int));
            }
            let ghost before = out@;
            if value < captures.len() {
                match captures[value] {
                    Some(c) => {
                        out.append(c);
                    },
                    None => {},
                }
            }
            assert(out@ == before + capture_text(caps, value as nat));
            assert(expand(t@, caps) == out@ + expand(t@.skip(j as int), caps));
            i = j;
        } else {
            let ghost before = out@;
            out.append(t.substring_char(i, i + 1));
            assert(rest.drop_first() =~= t@.skip(i + 1));
            assert(out@ =~= before + seq![rest[0]]);
            assert(expand(t@, caps) =~= out@ + expand(t@.skip(i + 1), caps));
            i = i + 1;
        }
    }
    assert(t@.skip(n as int) =~= Seq::<char>::empty());
    assert(out@ =~= out@ + Seq::<char>::empty());
    out
}

/// The value of a field: its template with the placeholders replaced, or,
/// without a template, capture `index` trimmed. Empty results are absent.
pub fn substitute<'a>(template: Option<&'a str>, index: usize, captures: &Vec<Option<&'a str>>) -> (r:
    Option<Cow<'a, str>>)
    ensures
        r.deep_view() == substitution(template.deep_view(), index as int, captures.deep_view()),
{
    match template {
        Some(t) => {
            if !find_placeholder(t) {
                return Some(Cow::Borrowed(t));
            }
            let mut s = expand_template(t, captures);
            let ghost expanded = s@;
            let (lo, hi) = trim_bounds(s.as_str());
            if lo != 0 || hi != s.as_str().unicode_len() {
                s = s.as_str().substring_char(lo, hi).to_owned();
            } else {
                assert(expanded.subrange(lo as int, hi as int) =~= expanded);
            }
            if s.as_str().is_empty() {
                None
            } else {
                Some(Cow::Owned(s))
            }
        },
        None => {
            if index < captures.len() {
                match captures[index] {
                    Some(c) => {
                        let c = trim_str(c);
                        if c.is_empty() {
                            None
                        } else {
                            Some(Cow::Borrowed(c))
                        }
                    },
                    None => None,
                }
            } else {
                None
            }
        },
    }
}

} // verus!
