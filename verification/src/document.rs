//! The generic tree that a configuration text parses into, and the lookups
//! that the link sections are read with.

use vstd::prelude::*;
use yaml_rust2::{ScanError, Yaml, YamlLoader};

verus! {

/// One node of a parsed configuration document.
#[derive(Debug, PartialEq, Eq)]
pub enum Node {
    /// A floating-point scalar, kept as it was written.
    Real(String),
    /// An integer scalar.
    Integer(i64),
    /// A string scalar.
    Text(String),
    /// A boolean scalar.
    Boolean(bool),
    /// An ordered sequence of nodes.
    Sequence(Vec<Node>),
    /// A mapping, as its entries of key and value in the order of the text.
    Mapping(Vec<(Node, Node)>),
    /// A reference to an anchor that was left unexpanded.
    Alias(usize),
    /// The null scalar.
    Null,
    /// A value that the parser could not give a meaning to.
    Invalid,
}

/// The value of the first entry of `pairs` whose key is the string `key`.
pub open spec fn value_under(pairs: Seq<(Node, Node)>, key: Seq<char>) -> Option<Node>
    decreases pairs.len(),
{
    if pairs.len() == 0 {
        None
    } else if pairs[0].0.text() == Some(key) {
        Some(pairs[0].1)
    } else {
        value_under(pairs.drop_first(), key)
    }
}

impl Node {
    /// The characters of a string scalar; `None` for every other node.
    pub open spec fn text(&self) -> Option<Seq<char>> {
        match self {
            Node::Text(s) => Some(s@),
            _ => None,
        }
    }

    /// The elements of a sequence; `None` for every other node.
    pub open spec fn items(&self) -> Option<Seq<Node>> {
        match self {
            Node::Sequence(v) => Some(v@),
            _ => None,
        }
    }

    /// What a mapping holds under the string key `key`; `None` where the
    /// node is no mapping or has no such key.
    pub open spec fn entry(&self, key: Seq<char>) -> Option<Node> {
        match self {
            Node::Mapping(pairs) => value_under(pairs@, key),
            _ => None,
        }
    }

    /// What a mapping holds under `key`, unless that is an invalid value:
    /// an entry whose value the parser rejected counts as not there.
    pub open spec fn usable_entry(&self, key: Seq<char>) -> Option<Node> {
        match self.entry(key) {
            Some(Node::Invalid) => None,
            found => found,
        }
    }

    /// The string of a string scalar.
    pub fn as_text(&self) -> (found: Option<&String>)
        ensures
            match found {
                Some(s) => self.text() == Some(s@),
                None => self.text() is None,
            },
    {
        match self {
            Node::Text(s) => Some(s),
            _ => None,
        }
    }

    /// The elements of a sequence.
    pub fn as_items(&self) -> (found: Option<&Vec<Node>>)
        ensures
            match found {
                Some(v) => self.items() == Some(v@),
                None => self.items() is None,
            },
    {
        match self {
            Node::Sequence(v) => Some(v),
            _ => None,
        }
    }

    /// Looks `key` up in a mapping. An entry with an invalid value is
    /// handed out like any other; see [`Node::find`].
    pub fn lookup(&self, key: &str) -> (found: Option<&Node>)
        ensures
            match found {
                Some(node) => self.entry(key@) == Some(*node),
                None => self.entry(key@) is None,
            },
    {
        match self {
            Node::Mapping(pairs) => {
                let wanted = key.to_owned();
                let mut i: usize = 0;
                assert(pairs@.skip(0) =~= pairs@);
                while i < pairs.len()
                    invariant
                        i <= pairs.len(),
                        wanted@ == key@,
                        self.entry(key@) == value_under(pairs@, key@),
                        value_under(pairs@, key@) == value_under(pairs@.skip(i as int), key@),
                    decreases pairs.len() - i,
                {
                    let ghost rest = pairs@.skip(i as int);
                    assert(rest.drop_first() =~= pairs@.skip(i + 1));
                    let pair = &pairs[i];
                    match &pair.0 {
                        Node::Text(name) => {
                            if *name == wanted {
                                return Some(&pair.1);
                            }
                        },
                        _ => {},
                    }
                    i += 1;
                }
                None
            },
            _ => None,
        }
    }

    /// Looks `key` up in a mapping and passes over an invalid value.
    pub fn find(&self, key: &str) -> (found: Option<&Node>)
        ensures
            match found {
                Some(node) => self.usable_entry(key@) == Some(*node),
                None => self.usable_entry(key@) is None,
            },
    {
        match self.lookup(key) {
            Some(Node::Invalid) => None,
            found => found,
        }
    }
}

/// `yaml_rust2::Yaml`, a parsed value, as a type of which nothing is known.
#[verifier::external_type_specification]
#[verifier::external_body]
pub struct ExYaml(Yaml);

/// `yaml_rust2::ScanError`, the error of the parser, as a type of which
/// nothing is known.
#[verifier::external_type_specification]
#[verifier::external_body]
pub struct ExScanError(ScanError);

/// What `yaml_rust2::YamlLoader::load_from_str` makes of a text: the
/// documents of the stream in order, each as its tree, or the error of the
/// first place that is no YAML.
pub uninterp spec fn loaded_documents(text: Seq<char>) -> Result<Vec<Node>, ScanError>;

/// Copies a `yaml_rust2::Yaml` value into a [`Node`], variant for variant:
/// a hash becomes its entries in insertion order, `BadValue` becomes
/// [`Node::Invalid`]. Nothing is stated of the result.
#[verifier::external_body]
fn node_of(value: &Yaml) -> Node {
    match value {
        Yaml::Real(s) => Node::Real(s.clone()),
        Yaml::Integer(i) => Node::Integer(*i),
        Yaml::String(s) => Node::Text(s.clone()),
        Yaml::Boolean(b) => Node::Boolean(*b),
        Yaml::Array(v) => Node::Sequence(v.iter().map(node_of).collect()),
        Yaml::Hash(h) => Node::Mapping(h.iter().map(|(k, v)| (node_of(k), node_of(v))).collect()),
        Yaml::Alias(a) => Node::Alias(*a),
        Yaml::Null => Node::Null,
        Yaml::BadValue => Node::Invalid,
    }
}

/// Calls `yaml_rust2::YamlLoader::load_from_str` and copies each document
/// into a [`Node`]. The contract only names the result: parsing is a
/// function of the text alone. The loader descends once for each level of
/// nesting, and so does the copy; how deep a stack lets them go is no part
/// of the contract.
#[verifier::external_body]
fn load_documents(text: &str) -> (loaded: Result<Vec<Node>, ScanError>)
    ensures
        loaded == loaded_documents(text@),
{
    YamlLoader::load_from_str(text).map(|docs| docs.iter().map(node_of).collect())
}

/// Calls the `Display` impl of `yaml_rust2::ScanError`, which writes the
/// cause and the place of the error. Nothing is stated of the text.
#[verifier::external_body]
fn scan_message(error: &ScanError) -> String {
    error.to_string()
}

/// Why a configuration could not be had.
#[derive(Debug, PartialEq, Eq)]
pub enum ConfigError {
    /// The file could not be read, for the cause given.
    Read(String),
    /// The text is no document at all; the parser's account of what is
    /// wrong, and where.
    Parse(String),
}

/// Parses a configuration text into the trees of its documents.
///
/// The text parses or it does not: on a text that the parser rejects the
/// result is a parse error, and no document of it is handed out.
pub fn parse_config(text: &str) -> (parsed: Result<Vec<Node>, ConfigError>)
    ensures
        match loaded_documents(text@) {
            Ok(docs) => parsed == Ok::<Vec<Node>, ConfigError>(docs),
            Err(_) => parsed is Err && parsed->Err_0 is Parse,
        },
{
    match load_documents(text) {
        Ok(docs) => Ok(docs),
        Err(error) => Err(ConfigError::Parse(scan_message(&error))),
    }
}

} // verus!
