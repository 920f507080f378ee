//! The configuration document as the loader reads it.
//!
//! YAML parsing itself is an outside capability; this module keeps only the
//! shape that the loader ever inspects: the top-level mapping with string
//! keys, string scalars, and the two section forms (a list of scalar
//! mappings, a list of plain scalars).  Every node beyond that shape is
//! folded into an opaque marker, which is exactly how the loader treats it.

use vstd::prelude::*;
use yaml_rust::{Yaml, YamlLoader};

verus! {

/// One node inside a section list: a mapping of scalar pairs, or a single
/// scalar.  A scalar is `Some` when the node is a string and `None` for any
/// other node kind.
#[derive(Debug)]
pub enum Item {
    Mapping(Vec<(Option<String>, Option<String>)>),
    Single(Option<String>),
}

/// The value under one top-level key: a string scalar, a section list, or
/// any other node kind.
#[derive(Debug)]
pub enum Value {
    Str(String),
    List(Vec<Item>),
    Other,
}

/// A parsed configuration document: the top-level mapping in file order,
/// restricted to entries whose key is a string (no other key can ever be
/// looked up).
#[derive(Debug)]
pub struct Doc {
    pub entries: Vec<(String, Value)>,
}

/// The document that the YAML parser yields for `text`, as far as the loader
/// reads it; `None` when the text is malformed or holds no document.
pub uninterp spec fn parsed_doc(text: Seq<char>) -> Option<Doc>;

/// The parser's node type, opaque here: only the conversion steps below
/// touch it.
#[verifier::external_type_specification]
#[verifier::external_body]
pub struct ExYaml(Yaml);

/// Relies on yaml_rust::Yaml::as_str and as_hash: a mapping's pairs in
/// insertion order, any other node taken as a single scalar; a pair member
/// keeps its text when it is a string scalar.
#[verifier::external_body]
fn item_of(y: &Yaml) -> Item {
    let leaf = |n: &Yaml| n.as_str().map(|t| t.to_owned());
    match y.as_hash() {
        Some(h) => Item::Mapping(h.iter().map(|(k, v)| (leaf(k), leaf(v))).collect()),
        None => Item::Single(leaf(y)),
    }
}

/// Relies on yaml_rust::Yaml::as_str and as_vec: a string scalar, a list of
/// items, or any other node kind.
#[verifier::external_body]
fn value_of(y: &Yaml) -> Value {
    match (y.as_str(), y.as_vec()) {
        (Some(t), _) => Value::Str(t.to_owned()),
        (_, Some(a)) => Value::List(a.iter().map(item_of).collect()),
        _ => Value::Other,
    }
}

/// Relies on yaml_rust::YamlLoader::load_from_str: it parses YAML text into
/// documents, of which the first is kept here, read down (through the steps
/// above) to the shape the loader uses; the parse is a function of the text
/// alone.
#[verifier::external_body]
pub(crate) fn parse_document(text: &str) -> (r: Option<Doc>)
    ensures
        r == parsed_doc(text@),
{
    match YamlLoader::load_from_str(text).ok()?.into_iter().next()? {
        Yaml::Hash(h) => Some(Doc {
            entries: h.iter().filter_map(
                |(k, v)| k.as_str().map(|t| (t.to_owned(), value_of(v))),
            ).collect(),
        }),
        _ => Some(Doc { entries: Vec::new() }),
    }
}

/// The value stored under `key`: that of the first entry whose key matches.
pub open spec fn spec_lookup(entries: Seq<(String, Value)>, key: Seq<char>) -> Option<Value>
    decreases entries.len(),
{
    if entries.len() == 0 {
        Option::None
    } else if entries.first().0@ == key {
        Option::Some(entries.first().1)
    } else {
        spec_lookup(entries.drop_first(), key)
    }
}

/// The string stored under `key`, or `default` when the key is absent or its
/// value is not a string scalar.
pub open spec fn spec_field_or(d: Doc, key: Seq<char>, default: Seq<char>) -> Seq<char> {
    match spec_lookup(d.entries@, key) {
        Option::Some(Value::Str(s)) => s@,
        _ => default,
    }
}

/// Finds the value stored under `key` in the top-level mapping.
pub fn lookup<'a>(doc: &'a Doc, key: &str) -> (r: Option<&'a Value>)
    ensures
        match r {
            Option::Some(v) => spec_lookup(doc.entries@, key@) == Option::Some(*v),
            Option::None => spec_lookup(doc.entries@, key@) is None,
        },
{
    let key_owned = key.to_owned();
    let n = doc.entries.len();
    let mut i: usize = 0;
    proof {
        assert(doc.entries@.skip(0) =~= doc.entries@);
    }
    while i < n
        invariant
            0 <= i <= n,
            n == doc.entries@.len(),
            key_owned@ == key@,
            spec_lookup(doc.entries@, key@) == spec_lookup(
                doc.entries@.skip(i as int),
                key@,
            ),
        decreases n - i,
    {
        proof {
            assert(doc.entries@.skip(i as int).first() == doc.entries@[i as int]);
            assert(doc.entries@.skip(i as int).drop_first() =~= doc.entries@.skip(i as int + 1));
        }
        if doc.entries[i].0 == key_owned {
            return Option::Some(&doc.entries[i].1);
        }
        i = i + 1;
    }
    proof {
        assert(doc.entries@.skip(n as int) =~= Seq::<(String, Value)>::empty());
    }
    Option::None
}

/// Reads the string stored under `key`, falling back to `default` when the
/// key is absent or its value is not a string scalar.
pub fn field_or(doc: &Doc, key: &str, default: &str) -> (r: String)
    ensures
        r@ == spec_field_or(*doc, key@, default@),
{
    match lookup(doc, key) {
        Option::Some(v) => match v {
            Value::Str(s) => s.clone(),
            _ => default.to_owned(),
        },
        Option::None => default.to_owned(),
    }
}

} // verus!
