//! The parts of a TOML document that the configuration reads, held as plain
//! values, and lookup of a top-level key.

use vstd::prelude::*;

verus! {

/// One TOML value: a string, an integer, an array, or any other kind
/// (float, boolean, date, table), which the configuration never reads.
pub enum TomlValue {
    Str(String),
    Int(i64),
    Array(Vec<TomlValue>),
    Other,
}

#[verifier::external_type_specification]
#[verifier::external_body]
pub struct ExTomlValue(toml::Value);

/// The top-level table that the `toml` crate reads from a text, its keys in
/// the order the crate hands them out, or the crate's error message.
pub uninterp spec fn toml_document(s: Seq<char>) -> Result<Seq<(String, TomlValue)>, Seq<char>>;

/// Relies on the variants of `toml::Value`: each is moved into the matching
/// `TomlValue`, an array element by element.
#[verifier::external_body]
fn value_from_toml(v: &toml::Value) -> TomlValue {
    match v {
        toml::Value::String(s) => TomlValue::Str(s.clone()),
        toml::Value::Integer(i) => TomlValue::Int(*i),
        toml::Value::Array(a) => TomlValue::Array(a.iter().map(value_from_toml).collect()),
        _ => TomlValue::Other,
    }
}

/// Relies on `toml::from_str` into a `toml::value::Table`: the parsed
/// top-level table, or the parser's error message. The result depends on the
/// text alone.
#[verifier::external_body]
pub(crate) fn parse_document(s: &str) -> (r: Result<Vec<(String, TomlValue)>, String>)
    ensures
        match r {
            Ok(d) => toml_document(s@) == Ok::<Seq<(String, TomlValue)>, Seq<char>>(d@),
            Err(e) => toml_document(s@) == Err::<Seq<(String, TomlValue)>, Seq<char>>(e@),
        },
{
    match toml::from_str::<toml::value::Table>(s) {
        Ok(t) => Ok(t.iter().map(|(k, v)| (k.clone(), value_from_toml(v))).collect()),
        Err(e) => Err(e.to_string()),
    }
}

/// The value of the first entry of `doc` whose key is `key`.
pub open spec fn lookup(doc: Seq<(String, TomlValue)>, key: Seq<char>) -> Option<TomlValue>
    decreases doc.len(),
{
    if doc.len() == 0 {
        None
    } else if doc[0].0@ == key {
        Some(doc[0].1)
    } else {
        lookup(doc.drop_first(), key)
    }
}

/// The value stored under `key` at the top level of `doc`, if any.
pub fn get<'a>(doc: &'a Vec<(String, TomlValue)>, key: &str) -> (r: Option<&'a TomlValue>)
    ensures
        match r {
            Some(v) => lookup(doc@, key@) == Some(*v),
            None => lookup(doc@, key@) is None,
        },
{
    let k = key.to_string();
    let mut i: usize = 0;
    assert(doc@.subrange(0, doc@.len() as int) =~= doc@);
    while i < doc.len()
        invariant
            0 <= i <= doc@.len(),
            k@ == key@,
            lookup(doc@, key@) == lookup(doc@.subrange(i as int, doc@.len() as int), key@),
        decreases doc@.len() - i,
    {
        let ghost rest = doc@.subrange(i as int, doc@.len() as int);
        assert(rest.drop_first() =~= doc@.subrange(i + 1, doc@.len() as int));
        if doc[i].0 == k {
            return Some(&doc[i].1);
        }
        i = i + 1;
    }
    None
}

} // verus!
