//! Compiled patterns. Matching itself is Oniguruma's work (Ruby syntax); this
//! module names what it decides and hands the captures on as plain text.

use onig::{MatchParam, Regex, RegexOptions, Region, SearchOptions, Syntax};
use vstd::prelude::*;

use crate::substitution::CaptureModel;

verus! {

#[verifier::external_type_specification]
#[verifier::external_body]
pub struct ExRegex(Regex);

#[verifier::external_type_specification]
#[verifier::external_body]
pub struct ExRegexError(onig::Error);

/// Whether Oniguruma accepts `pattern` (Ruby syntax), compiled case-insensitive
/// or not.
pub uninterp spec fn pattern_compiles(pattern: Seq<char>, ignore_case: bool) -> bool;

/// The groups of the leftmost match of `pattern` in `text`, group 0 first;
/// `None` where nothing matches.
pub uninterp spec fn pattern_captures(pattern: Seq<char>, ignore_case: bool, text: Seq<char>) -> Option<
    CaptureModel,
>;

/// A pattern together with the matcher compiled from it.
#[derive(Debug)]
pub struct Matcher {
    regex: Regex,
    pattern: String,
    ignore_case: bool,
}

impl Matcher {
    pub closed spec fn pattern(&self) -> Seq<char> {
        self.pattern@
    }

    pub closed spec fn ignore_case(&self) -> bool {
        self.ignore_case
    }

    /// Compiles `pattern`.
    pub fn new(pattern: &str, ignore_case: bool) -> (r: Result<Matcher, onig::Error>)
        ensures
            r is Ok <==> pattern_compiles(pattern@, ignore_case),
            r matches Ok(m) ==> m.pattern() == pattern@ && m.ignore_case() == ignore_case,
    {
        match compile(pattern, ignore_case) {
            Ok(regex) => Ok(Matcher { regex, pattern: pattern.to_owned(), ignore_case }),
            Err(e) => Err(e),
        }
    }

    /// Relies on onig::Regex::search_with_param, then Region::len and
    /// Region::pos: the groups of the leftmost match, as slices of `text`. A
    /// search that Oniguruma aborts (its retry limit) counts as no match.
    #[verifier::external_body]
    pub(crate) fn captures<'t>(&self, text: &'t str) -> (r: Option<Vec<Option<&'t str>>>)
        ensures
            r.deep_view() == pattern_captures(self.pattern(), self.ignore_case(), text@),
    {
        let mut region = Region::new();
        let found = self.regex.search_with_param(
            text,
            0,
            text.len(),
            SearchOptions::SEARCH_OPTION_NONE,
            Some(&mut region),
            MatchParam::default(),
        );
        match found {
            Ok(Some(_)) => Some((0..region.len()).map(|i| region.pos(i).map(|(b, e)| &text[b..e])).collect()),
            _ => None,
        }
    }
}

/// Relies on onig::Regex::with_options with the default (Ruby) syntax: whether
/// the pattern compiles depends on the pattern and the option alone.
#[verifier::external_body]
fn compile(pattern: &str, ignore_case: bool) -> (r: Result<Regex, onig::Error>)
    ensures
        r is Ok <==> pattern_compiles(pattern@, ignore_case),
{
    let option = if ignore_case {
        RegexOptions::REGEX_OPTION_IGNORECASE
    } else {
        RegexOptions::REGEX_OPTION_NONE
    };
    Regex::with_options(pattern, option, Syntax::default())
}

} // verus!
