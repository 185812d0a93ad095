//! A TOML document as plain data, and the calls into the `toml` crate that
//! produce it. The decoding rules of the schema are stated over this model.

use toml::de::{DeTable, DeValue};
use vstd::prelude::*;

verus! {

/// A TOML value. Floats and datetimes keep only their kind: no field of the
/// schema reads one.
#[derive(Debug, PartialEq, Eq)]
pub enum Value {
    /// A string.
    String(String),
    /// An integer; `None` where the literal lies outside the signed 128-bit range.
    Integer(Option<i128>),
    /// A float.
    Float,
    /// A boolean.
    Boolean(bool),
    /// A datetime.
    Datetime,
    /// An array, in document order.
    Array(Vec<Value>),
    /// A table: its keys with their values.
    Table(Vec<(String, Value)>),
}

/// The value that a table holds under a key: that of the first entry with
/// this key, if there is one.
pub open spec fn lookup(entries: Seq<(String, Value)>, key: Seq<char>) -> Option<Value>
    decreases entries.len(),
{
    if entries.len() == 0 {
        None
    } else if entries[0].0@ == key {
        Some(entries[0].1)
    } else {
        lookup(entries.drop_first(), key)
    }
}

/// Finds the value that a table holds under a key.
pub fn find<'a>(entries: &'a Vec<(String, Value)>, key: &str) -> (r: Option<&'a Value>)
    ensures
        match r {
            Some(v) => lookup(entries@, key@) == Some(*v),
            None => lookup(entries@, key@) is None,
        },
{
    let wanted = key.to_owned();
    let mut i: usize = 0;
    assert(entries@.subrange(0, entries@.len() as int) =~= entries@);
    while i < entries.len()
        invariant
            i <= entries@.len(),
            wanted@ == key@,
            lookup(entries@, key@) == lookup(
                entries@.subrange(i as int, entries@.len() as int),
                key@,
            ),
        decreases entries@.len() - i,
    {
        let ghost rest = entries@.subrange(i as int, entries@.len() as int);
        assert(rest[0] == entries@[i as int]);
        if entries[i].0 == wanted {
            return Some(&entries[i].1);
        }
        assert(rest.drop_first() =~= entries@.subrange(i + 1, entries@.len() as int));
        i = i + 1;
    }
    None
}

impl Value {
    /// The value of a record's field. A record is written as a table, which
    /// holds the field under its name, or as an array, which holds it at its
    /// position. `None` where the field is absent, or `self` is no record.
    pub open spec fn field(self, index: int, key: Seq<char>) -> Option<Value> {
        match self {
            Value::Table(entries) => lookup(entries@, key),
            Value::Array(items) => if 0 <= index < items@.len() {
                Some(items@[index])
            } else {
                None
            },
            _ => None,
        }
    }

    /// Finds the value of a record's field, by name in a table and by
    /// position in an array.
    pub fn get_field<'a>(&'a self, index: usize, key: &str) -> (r: Option<&'a Value>)
        ensures
            match r {
                Some(v) => self.field(index as int, key@) == Some(*v),
                None => self.field(index as int, key@) is None,
            },
    {
        match self {
            Value::Table(entries) => find(entries, key),
            Value::Array(items) => if index < items.len() {
                Some(&items[index])
            } else {
                None
            },
            _ => None,
        }
    }
}

#[verifier::external_type_specification]
#[verifier::external_body]
pub struct ExDeValue<'i>(toml::de::DeValue<'i>);

#[verifier::external_type_specification]
#[verifier::external_body]
pub struct ExTomlError(toml::de::Error);

/// What `toml::de::DeTable::parse` makes of a text: the document, as a table
/// of the model, or, where the text is not well-formed TOML, the words of
/// the parser's error.
pub uninterp spec fn toml_document(text: Seq<char>) -> Result<Value, Seq<char>>;

/// The words that `toml::de::Error::message` gives for an error.
pub uninterp spec fn toml_error_text(error: toml::de::Error) -> Seq<char>;

/// What a parsed value of the `toml` crate holds, as a value of the model.
pub uninterp spec fn toml_contents(value: DeValue<'_>) -> Value;

/// Calls `toml::de::DeTable::parse`, the parsing half of `toml::from_str`,
/// and hands the table on as a value. Trusted: the outcome depends on the
/// text alone; it is the document of the text, or the error of the text.
#[verifier::external_body]
pub(crate) fn parse_table<'a>(text: &'a str) -> (r: Result<DeValue<'a>, toml::de::Error>)
    ensures
        match r {
            Ok(table) => toml_document(text@) == Ok::<Value, Seq<char>>(toml_contents(table)),
            Err(error) => toml_document(text@) == Err::<Value, Seq<char>>(
                toml_error_text(error),
            ),
        },
{
    DeTable::parse(text).map(|table| DeValue::Table(table.into_inner()))
}

/// Copies a parsed value of the `toml` crate, a `toml::de::DeValue`, into
/// the model, variant by variant and entry by entry. An integer literal is
/// read with `i128::from_str_radix` from the digits and the radix that
/// `DeInteger` holds. Trusted: the result is what the value holds.
#[verifier::external_body]
pub(crate) fn lower(value: DeValue<'_>) -> (r: Value)
    ensures
        r == toml_contents(value),
{
    match value {
        DeValue::String(s) => Value::String(s.into_owned()),
        DeValue::Integer(i) => Value::Integer(i128::from_str_radix(i.as_str(), i.radix()).ok()),
        DeValue::Float(_) => Value::Float,
        DeValue::Boolean(b) => Value::Boolean(b),
        DeValue::Datetime(_) => Value::Datetime,
        DeValue::Array(a) => Value::Array(a.into_iter().map(|e| lower(e.into_inner())).collect()),
        DeValue::Table(t) => Value::Table(
            t.into_iter().map(|(k, e)| (k.into_inner().into_owned(), lower(e.into_inner()))).collect(),
        ),
    }
}

/// Calls `toml::de::Error::message`: the parser's own words on what went
/// wrong. Trusted: the result is that message.
#[verifier::external_body]
pub(crate) fn error_message(error: &toml::de::Error) -> (r: String)
    ensures
        r@ == toml_error_text(*error),
{
    error.message().to_string()
}

} // verus!
