//! The calls into the `toml` crate that the configuration document relies on.
use vstd::prelude::*;

verus! {

#[verifier::external_type_specification]
#[verifier::external_body]
pub struct ExTomlValue(toml::Value);

#[verifier::external_type_specification]
#[verifier::external_body]
#[verifier::reject_recursive_types(K)]
#[verifier::reject_recursive_types(V)]
pub struct ExTomlMap<K, V>(toml::map::Map<K, V>);

/// The text that toml writes for a TOML string value holding `s`
/// (quotes and escapes included).
pub uninterp spec fn toml_string_value(s: Seq<char>) -> Seq<char>;

/// The string-valued entries of a toml table: each key whose value is a
/// TOML string, mapped to that string.
pub uninterp spec fn table_strings(t: toml::Table) -> Map<Seq<char>, Seq<char>>;

/// The string-valued entries of the table that toml parses from a document,
/// or `None` where the document is not valid TOML.
pub uninterp spec fn parsed_strings(text: Seq<char>) -> Option<Map<Seq<char>, Seq<char>>>;

/// Relies on `toml::ser::ValueSerializer` serializing a `str`: the TOML
/// string value for `s`. Its `serialize_str` writes the value with
/// `toml_writer` into the `String` buffer, which always picks an encoding
/// and has no error path.
#[verifier::external_body]
pub(crate) fn encode_string_value(s: &str) -> (r: Result<String, String>)
    ensures
        r is Ok,
        r->Ok_0@ == toml_string_value(s@),
{
    let mut out = String::new();
    match serde::Serialize::serialize(s, toml::ser::ValueSerializer::new(&mut out)) {
        Ok(_) => {},
        Err(e) => return Err(e.to_string()),
    }
    Ok(out)
}

/// Relies on `FromStr for toml::Table` (`toml::from_str`): parses a TOML
/// document into a table, or gives toml's error message.
#[verifier::external_body]
pub(crate) fn parse_table(text: &str) -> (r: Result<toml::Table, String>)
    ensures
        r is Ok <==> parsed_strings(text@) is Some,
        r is Ok ==> table_strings(r->Ok_0) == parsed_strings(text@)->0,
{
    match text.parse::<toml::Table>() {
        Ok(t) => Ok(t),
        Err(e) => Err(e.to_string()),
    }
}

/// Relies on `toml::map::Map::get` and `toml::Value::as_str`: the string
/// stored under `key`, if the table has one there.
#[verifier::external_body]
pub(crate) fn table_get_str(t: &toml::Table, key: &str) -> (r: Option<String>)
    ensures
        r is Some <==> table_strings(*t).contains_key(key@),
        r is Some ==> r->0@ == table_strings(*t)[key@],
{
    match t.get(key) {
        Some(v) => v.as_str().map(String::from),
        None => None,
    }
}

} // verus!
