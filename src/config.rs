//! The input record and the TOML configuration document that carries it
//! to the circuit executor.
use vstd::prelude::*;
use vstd::string::*;
use crate::toml_calls::{
    encode_string_value, parse_table, table_get_str, table_strings, toml_string_value,
    parsed_strings,
};

verus! {

/// The five inputs of the circuit, each a decimal number written as text.
/// The text is carried as it is: no numeric conversion takes place.
pub struct Inputs {
    pub price_start: String,
    pub price_end: String,
    pub timestamp_start: String,
    pub timestamp_end: String,
    pub expected_apy: String,
}

/// The five fields of an `Inputs`, in declaration order.
pub type InputsView = (Seq<char>, Seq<char>, Seq<char>, Seq<char>, Seq<char>);

impl Inputs {
    pub open spec fn view(&self) -> InputsView {
        (
            self.price_start@,
            self.price_end@,
            self.timestamp_start@,
            self.timestamp_end@,
            self.expected_apy@,
        )
    }

    /// Every field is present and non-empty.
    pub open spec fn valid(&self) -> bool {
        inputs_valid(self@)
    }
}

pub open spec fn inputs_valid(i: InputsView) -> bool {
    i.0.len() > 0 && i.1.len() > 0 && i.2.len() > 0 && i.3.len() > 0 && i.4.len() > 0
}

/// One `key = value` line of the document, `value` already in TOML form.
pub open spec fn line_spec(key: Seq<char>, value: Seq<char>) -> Seq<char> {
    key + " = "@ + value + "\n"@
}

/// The configuration document for the inputs `i`: one line per field, in
/// declaration order, each value a TOML string.
pub open spec fn config_text(i: InputsView) -> Seq<char> {
    line_spec("price_start"@, toml_string_value(i.0))
        + line_spec("price_end"@, toml_string_value(i.1))
        + line_spec("timestamp_start"@, toml_string_value(i.2))
        + line_spec("timestamp_end"@, toml_string_value(i.3))
        + line_spec("expected_apy"@, toml_string_value(i.4))
}

/// The key/value entries that the document for `i` holds.
pub open spec fn fields_map(i: InputsView) -> Map<Seq<char>, Seq<char>> {
    map![
        "price_start"@ => i.0,
        "price_end"@ => i.1,
        "timestamp_start"@ => i.2,
        "timestamp_end"@ => i.3,
        "expected_apy"@ => i.4
    ]
}

/// Why a configuration document could not be read back into `Inputs`.
pub enum ConfigError {
    /// The text is not a TOML document; toml's message.
    Syntax(String),
    /// A field is absent, not a string, or empty; the field's key.
    MissingField(String),
}

/// A field of `m` that `decode_spec` accepts: present and non-empty.
pub open spec fn field_ok(m: Map<Seq<char>, Seq<char>>, key: Seq<char>) -> bool {
    m.contains_key(key) && m[key].len() > 0
}

/// The first key, in declaration order, whose field `m` lacks.
pub open spec fn first_missing(m: Map<Seq<char>, Seq<char>>) -> Option<Seq<char>> {
    if !field_ok(m, "price_start"@) {
        Some("price_start"@)
    } else if !field_ok(m, "price_end"@) {
        Some("price_end"@)
    } else if !field_ok(m, "timestamp_start"@) {
        Some("timestamp_start"@)
    } else if !field_ok(m, "timestamp_end"@) {
        Some("timestamp_end"@)
    } else if !field_ok(m, "expected_apy"@) {
        Some("expected_apy"@)
    } else {
        None
    }
}

/// The inputs read from string entries `m`: `Err` with the first missing
/// key, else the five fields.
pub open spec fn decode_spec(m: Map<Seq<char>, Seq<char>>) -> Result<InputsView, Seq<char>> {
    match first_missing(m) {
        Some(k) => Err(k),
        None => Ok(
            (
                m["price_start"@],
                m["price_end"@],
                m["timestamp_start"@],
                m["timestamp_end"@],
                m["expected_apy"@],
            ),
        ),
    }
}

fn append_line(doc: &mut String, key: &str, value: &str)
    ensures
        final(doc)@ == old(doc)@ + line_spec(key@, value@),
{
    doc.append(key);
    doc.append(" = ");
    doc.append(value);
    doc.append("\n");
    proof {
        reveal_strlit(" = ");
        reveal_strlit("\n");
        assert(doc@ =~= old(doc)@ + line_spec(key@, value@));
    }
}

/// Reads one field of a parsed table, rejecting an absent or empty one.
fn take_field(t: &toml::Table, key: &str) -> (r: Result<String, ConfigError>)
    ensures
        field_ok(table_strings(*t), key@) ==> r is Ok && r->Ok_0@ == table_strings(*t)[key@],
        !field_ok(table_strings(*t), key@) ==> (r matches Err(ConfigError::MissingField(k)) && k@ == key@),
{
    match table_get_str(t, key) {
        Some(v) => {
            if v.as_str().is_empty() {
                Err(ConfigError::MissingField(String::from_str(key)))
            } else {
                Ok(v)
            }
        },
        None => Err(ConfigError::MissingField(String::from_str(key))),
    }
}

impl Inputs {
    /// Writes the configuration document for these inputs. toml encodes
    /// every string, so this always succeeds.
    pub fn to_config(&self) -> (r: Result<String, String>)
        ensures
            r is Ok,
            r->Ok_0@ == config_text(self@),
    {
        let mut doc = String::new();
        let v = encode_string_value(self.price_start.as_str())?;
        append_line(&mut doc, "price_start", v.as_str());
        let v = encode_string_value(self.price_end.as_str())?;
        append_line(&mut doc, "price_end", v.as_str());
        let v = encode_string_value(self.timestamp_start.as_str())?;
        append_line(&mut doc, "timestamp_start", v.as_str());
        let v = encode_string_value(self.timestamp_end.as_str())?;
        append_line(&mut doc, "timestamp_end", v.as_str());
        let v = encode_string_value(self.expected_apy.as_str())?;
        append_line(&mut doc, "expected_apy", v.as_str());
        proof {
            assert(doc@ =~= config_text(self@));
        }
        Ok(doc)
    }

    /// Reads the inputs out of a parsed configuration table.
    pub fn from_table(t: &toml::Table) -> (r: Result<Inputs, ConfigError>)
        ensures
            match decode_spec(table_strings(*t)) {
                Ok(i) => r matches Ok(v) && v@ == i,
                Err(k) => r matches Err(ConfigError::MissingField(f)) && f@ == k,
            },
    {
        let price_start = take_field(t, "price_start")?;
        let price_end = take_field(t, "price_end")?;
        let timestamp_start = take_field(t, "timestamp_start")?;
        let timestamp_end = take_field(t, "timestamp_end")?;
        let expected_apy = take_field(t, "expected_apy")?;
        Ok(Inputs { price_start, price_end, timestamp_start, timestamp_end, expected_apy })
    }

    /// Parses a configuration document back into inputs.
    pub fn from_config(text: &str) -> (r: Result<Inputs, ConfigError>)
        ensures
            parsed_strings(text@) is None <==> r matches Err(ConfigError::Syntax(_)),
            parsed_strings(text@) is Some ==> match decode_spec(parsed_strings(text@)->0) {
                Ok(i) => r matches Ok(v) && v@ == i,
                Err(k) => r matches Err(ConfigError::MissingField(f)) && f@ == k,
            },
    {
        match parse_table(text) {
            Ok(t) => Inputs::from_table(&t),
            Err(e) => Err(ConfigError::Syntax(e)),
        }
    }
}

/// Reading back the entries that the document for valid inputs holds gives
/// those inputs again, every character of every field kept.
pub proof fn lemma_fields_round_trip(i: InputsView)
    requires
        inputs_valid(i),
    ensures
        decode_spec(fields_map(i)) == Ok::<InputsView, Seq<char>>(i),
{
    reveal_strlit("price_start");
    reveal_strlit("price_end");
    reveal_strlit("timestamp_start");
    reveal_strlit("timestamp_end");
    reveal_strlit("expected_apy");
    let m = fields_map(i);
    assert("price_start"@.len() == 11 && "price_end"@.len() == 9 && "timestamp_start"@.len() == 15);
    assert("timestamp_end"@.len() == 13 && "expected_apy"@.len() == 12);
    assert(m["price_start"@] == i.0 && m["price_end"@] == i.1 && m["timestamp_start"@] == i.2);
    assert(m["timestamp_end"@] == i.3 && m["expected_apy"@] == i.4);
}

} // verus!
