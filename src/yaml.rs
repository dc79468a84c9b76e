//! Rule documents. yaml-rust parses the text; its values are copied into
//! `YamlNode`, which keeps what the rules are read from: strings, sequences
//! and mappings.

use vstd::prelude::*;
use vstd::string::*;
use yaml_rust::{ScanError, Yaml, YamlLoader};

verus! {

#[verifier::external_type_specification]
#[verifier::external_body]
pub struct ExScanError(ScanError);

#[verifier::external_type_specification]
#[verifier::external_body]
pub struct ExYaml(Yaml);

/// A YAML value, as far as rules are read from it.
#[derive(Debug)]
pub enum YamlNode {
    /// A string scalar.
    Text(String),
    /// A sequence.
    List(Vec<YamlNode>),
    /// A mapping, its entries in document order.
    Mapping(Vec<(YamlNode, YamlNode)>),
    /// Any other scalar: a number, a boolean, null.
    Other,
}

/// The documents that yaml-rust reads from `text`, or `None` where it reports
/// a scan error.
pub uninterp spec fn yaml_documents(text: Seq<char>) -> Option<Seq<YamlNode>>;

/// Relies on yaml_rust::YamlLoader::load_from_str: the documents of the text,
/// or its scan error; each document is copied into a `YamlNode`.
#[verifier::external_body]
pub(crate) fn load_documents(text: &str) -> (r: Result<Vec<YamlNode>, ScanError>)
    ensures
        match r {
            Ok(docs) => yaml_documents(text@) == Some(docs@),
            Err(_) => yaml_documents(text@) is None,
        },
{
    YamlLoader::load_from_str(text).map(|docs| docs.iter().map(node_of).collect())
}

/// Copies a yaml-rust value into a `YamlNode`, variant for variant; the
/// conversion behind `load_documents`.
#[verifier::external_body]
fn node_of(y: &Yaml) -> YamlNode {
    match y {
        Yaml::String(s) => YamlNode::Text(s.clone()),
        Yaml::Array(a) => YamlNode::List(a.iter().map(node_of).collect()),
        Yaml::Hash(h) => YamlNode::Mapping(h.iter().map(|(k, v)| (node_of(k), node_of(v))).collect()),
        _ => YamlNode::Other,
    }
}

/// The value under the first entry whose key is the string `key`.
pub open spec fn lookup(entries: Seq<(YamlNode, YamlNode)>, key: Seq<char>) -> Option<YamlNode>
    decreases entries.len(),
{
    if entries.len() == 0 {
        None
    } else if entries[0].0 is Text && entries[0].0->Text_0@ == key {
        Some(entries[0].1)
    } else {
        lookup(entries.drop_first(), key)
    }
}

/// The string under `key`, absent where there is no such entry; `Err` where
/// the value is not a string.
pub open spec fn optional_text(entries: Seq<(YamlNode, YamlNode)>, key: Seq<char>) -> Result<
    Option<Seq<char>>,
    (),
> {
    match lookup(entries, key) {
        None => Ok(None),
        Some(YamlNode::Text(s)) => Ok(Some(s@)),
        Some(_) => Err(()),
    }
}

/// Whether two texts hold the same characters.
pub fn same_text(a: &str, b: &str) -> (r: bool)
    ensures
        r == (a@ == b@),
{
    let n = a.unicode_len();
    if n != b.unicode_len() {
        return false;
    }
    let mut i: usize = 0;
    while i < n
        invariant
            i <= n,
            n == a@.len(),
            n == b@.len(),
            a@.subrange(0, i as int) == b@.subrange(0, i as int),
        decreases n - i,
    {
        if a.get_char(i) != b.get_char(i) {
            assert(a@[i as int] != b@[i as int]);
            return false;
        }
        assert(a@.subrange(0, i + 1) =~= a@.subrange(0, i as int).push(a@[i as int]));
        assert(b@.subrange(0, i + 1) =~= b@.subrange(0, i as int).push(b@[i as int]));
        i = i + 1;
    }
    assert(a@ =~= a@.subrange(0, n as int));
    assert(b@ =~= b@.subrange(0, n as int));
    true
}

/// The value under the first entry whose key is the string `key`.
pub fn get<'a>(entries: &'a Vec<(YamlNode, YamlNode)>, key: &str) -> (r: Option<&'a YamlNode>)
    ensures
        match r {
            Some(v) => lookup(entries@, key@) == Some(*v),
            None => lookup(entries@, key@) is None,
        },
{
    let mut i: usize = 0;
    assert(entries@.skip(0) =~= entries@);
    while i < entries.len()
        invariant
            i <= entries@.len(),
            lookup(entries@, key@) == lookup(entries@.skip(i as int), key@),
        decreases entries@.len() - i,
    {
        assert(entries@.skip(i as int).drop_first() =~= entries@.skip(i + 1));
        let (k, v) = &entries[i];
        match k {
            YamlNode::Text(s) => {
                if same_text(s.as_str(), key) {
                    return Some(v);
                }
            },
            _ => {},
        }
        i = i + 1;
    }
    None
}

/// The string under `key`, copied.
pub fn get_optional_text(entries: &Vec<(YamlNode, YamlNode)>, key: &str) -> (r: Result<
    Option<String>,
    (),
>)
    ensures
        match r {
            Ok(Some(s)) => optional_text(entries@, key@) == Ok::<_, ()>(Some(s@)),
            Ok(None) => optional_text(entries@, key@) == Ok::<_, ()>(None::<Seq<char>>),
            Err(_) => optional_text(entries@, key@) is Err,
        },
{
    match get(entries, key) {
        None => Ok(None),
        Some(YamlNode::Text(s)) => Ok(Some(s.clone())),
        Some(_) => Err(()),
    }
}

} // verus!
