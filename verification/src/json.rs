//! Reading fields of JSON and TOML documents with serde_json and toml.
use vstd::prelude::*;

verus! {

/// The text of field `field` of the JSON document `text`, when the text
/// parses as JSON, is an object with that field, and the field is a string.
pub uninterp spec fn json_str_field(text: Seq<char>, field: Seq<char>) -> Option<Seq<char>>;

/// The flag in field `field` of the JSON document `text`, when the text
/// parses, has that field, and the field is a boolean.
pub uninterp spec fn json_bool_field(text: Seq<char>, field: Seq<char>) -> Option<bool>;

/// The keys of the object in field `field` of the JSON document `text`, when
/// the text parses and that field holds an object.
pub uninterp spec fn json_object_keys(text: Seq<char>, field: Seq<char>) -> Option<Seq<Seq<char>>>;

/// The keys of the table in field `field` of the TOML document `text`, when
/// the text parses and that field holds a table.
pub uninterp spec fn toml_table_keys(text: Seq<char>, field: Seq<char>) -> Option<Seq<Seq<char>>>;

/// `serde_json::from_str::<serde_json::Value>` on the text, then `Value::get`
/// of the field and `Value::as_str`. The result is a function of the two
/// texts; which texts parse is left to serde_json.
#[verifier::external_body]
pub(crate) fn json_text_field(text: &str, field: &str) -> (r: Option<String>)
    ensures
        match r {
            Some(s) => json_str_field(text@, field@) == Some(s@),
            None => json_str_field(text@, field@).is_none(),
        },
{
    let value: serde_json::Value = serde_json::from_str(text).ok()?;
    value.get(field)?.as_str().map(String::from)
}

/// `serde_json::from_str::<serde_json::Value>` on the text, then `Value::get`
/// of the field and `Value::as_bool`.
#[verifier::external_body]
pub(crate) fn json_flag_field(text: &str, field: &str) -> (r: Option<bool>)
    ensures
        r == json_bool_field(text@, field@),
{
    let value: serde_json::Value = serde_json::from_str(text).ok()?;
    value.get(field)?.as_bool()
}

/// `serde_json::from_str::<serde_json::Value>` on the text, then `Value::get`
/// of the field, `Value::as_object` and the object's keys.
#[verifier::external_body]
pub(crate) fn json_field_keys(text: &str, field: &str) -> (r: Option<Vec<String>>)
    ensures
        match r {
            Some(v) => json_object_keys(text@, field@) == Some(v@.map_values(|s: String| s@)),
            None => json_object_keys(text@, field@).is_none(),
        },
{
    let value: serde_json::Value = serde_json::from_str(text).ok()?;
    Some(value.get(field)?.as_object()?.keys().cloned().collect())
}

/// `str::parse::<toml::Value>` on the text, then `Value::get` of the field,
/// `Value::as_table` and the table's keys.
#[verifier::external_body]
pub(crate) fn toml_field_keys(text: &str, field: &str) -> (r: Option<Vec<String>>)
    ensures
        match r {
            Some(v) => toml_table_keys(text@, field@) == Some(v@.map_values(|s: String| s@)),
            None => toml_table_keys(text@, field@).is_none(),
        },
{
    let value: toml::Value = text.parse().ok()?;
    Some(value.get(field)?.as_table()?.keys().cloned().collect())
}

} // verus!
