use std::borrow::Cow;

use user_agent_parser::substitution::{expand_template, find_placeholder, substitute};
use user_agent_parser::text::{trim_bounds, trim_str};

#[test]
fn two_placeholders_take_their_groups() {
    let caps = vec![Some("full"), Some("A"), Some("B")];
    assert_eq!(substitute(Some("$1 $2"), 1, &caps).as_deref(), Some("A B"));
}

#[test]
fn missing_group_gives_no_value() {
    let caps = vec![Some("full")];
    assert_eq!(substitute(Some("$1"), 1, &caps), None);
}

#[test]
fn fixed_template_is_kept_whatever_was_captured() {
    let caps = vec![Some("full"), Some("A")];
    let r = substitute(Some("Fixed"), 1, &caps);
    assert_eq!(r.as_deref(), Some("Fixed"));
    assert!(matches!(r, Some(Cow::Borrowed(_))));
    assert_eq!(substitute(Some("Fixed"), 1, &vec![]).as_deref(), Some("Fixed"));
}

#[test]
fn out_of_range_placeholder_collapses() {
    let caps = vec![Some("full"), Some("A"), Some("B")];
    assert_eq!(substitute(Some("$9"), 1, &caps), None);
    assert_eq!(substitute(Some("x $9"), 1, &caps).as_deref(), Some("x"));
}

#[test]
fn unmatched_group_stands_for_nothing() {
    let caps = vec![Some("full"), None, Some("B")];
    assert_eq!(substitute(Some("[$1]$2"), 1, &caps).as_deref(), Some("[]B"));
}

#[test]
fn placeholder_reads_all_its_digits() {
    let caps: Vec<Option<&str>> = (0..12).map(|i| Some(["g0", "g1", "g2", "g3", "g4", "g5", "g6", "g7", "g8", "g9", "g10", "g11"][i])).collect();
    assert_eq!(substitute(Some("$10"), 1, &caps).as_deref(), Some("g10"));
    assert_eq!(substitute(Some("$1-$11"), 1, &caps).as_deref(), Some("g1-g11"));
}

#[test]
fn placeholder_takes_at_most_nine_digits() {
    let caps = vec![Some("full"), Some("A")];
    assert_eq!(expand_template("$000000001", &caps), "A");
    assert_eq!(expand_template("$0000000001", &caps), "full1");
}

#[test]
fn dollar_without_digit_is_text() {
    let caps = vec![Some("full"), Some("A")];
    assert!(!find_placeholder("$ and $x"));
    assert_eq!(substitute(Some("$ and $x"), 1, &caps).as_deref(), Some("$ and $x"));
    assert_eq!(substitute(Some("$$1"), 1, &caps).as_deref(), Some("$A"));
    assert!(find_placeholder("a$1"));
}

#[test]
fn substituted_result_is_trimmed() {
    let caps = vec![Some("full"), Some("  A "), Some("B")];
    assert_eq!(substitute(Some(" $1 "), 1, &caps).as_deref(), Some("A"));
    assert_eq!(substitute(Some("$1 $2 $3"), 1, &caps).as_deref(), Some("A  B"));
}

#[test]
fn default_index_is_trimmed() {
    let caps = vec![Some("full"), Some("  Firefox  ")];
    let r = substitute(None, 1, &caps);
    assert_eq!(r.as_deref(), Some("Firefox"));
    assert!(matches!(r, Some(Cow::Borrowed(_))));
}

#[test]
fn default_index_blank_or_missing_is_absent() {
    let caps = vec![Some("full"), Some(" \t "), None];
    assert_eq!(substitute(None, 1, &caps), None);
    assert_eq!(substitute(None, 2, &caps), None);
    assert_eq!(substitute(None, 3, &caps), None);
}

#[test]
fn trim_uses_unicode_white_space() {
    assert_eq!(trim_str("\u{3000}\u{a0} Mozilla\u{2029}\n"), "Mozilla");
    assert_eq!(trim_str("   "), "");
    assert_eq!(trim_bounds(" ab "), (1, 3));
    assert_eq!(trim_bounds("é x "), (0, 3));
}
