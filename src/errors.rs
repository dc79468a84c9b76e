//! What can go wrong when a parser is built.

use vstd::prelude::*;
use yaml_rust::ScanError;

verus! {

#[verifier::external_type_specification]
#[verifier::external_body]
pub struct ExIoError(std::io::Error);

/// Possible errors of `UserAgentParser`.
#[derive(Debug)]
pub enum UserAgentParserError {
    /// The document is not YAML.
    ScanError(ScanError),
    /// The document could not be read.
    IOError(std::io::Error),
    /// A `regex` field is not a valid pattern.
    RegexError(onig::Error),
    /// The document is YAML, but not shaped as a rule list.
    IncorrectSource,
}

/// The kinds of failure, without the payloads of the outside libraries.
pub ghost enum Failure {
    Malformed,
    Unreadable,
    BadPattern,
    IncorrectSource,
}

impl UserAgentParserError {
    pub open spec fn failure(&self) -> Failure {
        match self {
            UserAgentParserError::ScanError(_) => Failure::Malformed,
            UserAgentParserError::IOError(_) => Failure::Unreadable,
            UserAgentParserError::RegexError(_) => Failure::BadPattern,
            UserAgentParserError::IncorrectSource => Failure::IncorrectSource,
        }
    }
}

} // verus!
