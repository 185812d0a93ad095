//! Reading the scalar and list fields of a record out of a document.
//!
//! A field is mandatory or optional. A mandatory field that is absent, and a
//! field of either kind whose value has the wrong type, make the whole record
//! unreadable. An optional field may be absent from a table; in an array,
//! where position tells the fields apart, it has to stand in its place.

use crate::config::{list_view, text_view};
use crate::document::Value;
use vstd::prelude::*;

verus! {

/// The address-sized number that a value holds: an integer from 0 up to the
/// largest that 64 bits, and the machine's word, can hold.
pub open spec fn usize_of(value: Value) -> Option<usize> {
    match value {
        Value::Integer(Some(n)) => if 0 <= n && n <= u64::MAX && n <= usize::MAX {
            Some(n as usize)
        } else {
            None
        },
        _ => None,
    }
}

/// The 8-bit code that a value holds: an integer from 0 to 255.
pub open spec fn code_of(value: Value) -> Option<u8> {
    match value {
        Value::Integer(Some(n)) => if 0 <= n && n <= u8::MAX {
            Some(n as u8)
        } else {
            None
        },
        _ => None,
    }
}

/// The text that a value holds, if it is a string.
pub open spec fn text_of(value: Value) -> Option<Seq<char>> {
    match value {
        Value::String(s) => Some(s@),
        _ => None,
    }
}

/// The numbers that a value holds, if it is an array of numbers.
pub open spec fn usize_list_of(value: Value) -> Option<Seq<usize>> {
    match value {
        Value::Array(items) => if forall|i: int|
            0 <= i < items@.len() ==> (#[trigger] usize_of(items@[i])) is Some {
            Some(Seq::new(items@.len(), |i: int| usize_of(items@[i]).unwrap()))
        } else {
            None
        },
        _ => None,
    }
}

/// A mandatory number of a record.
pub open spec fn required_usize_of(record: Value, index: int, key: Seq<char>) -> Option<usize> {
    match record.field(index, key) {
        Some(v) => usize_of(v),
        None => None,
    }
}

/// A mandatory 8-bit code of a record.
pub open spec fn required_code_of(record: Value, index: int, key: Seq<char>) -> Option<u8> {
    match record.field(index, key) {
        Some(v) => code_of(v),
        None => None,
    }
}

/// A mandatory text of a record.
pub open spec fn required_text_of(record: Value, index: int, key: Seq<char>) -> Option<
    Seq<char>,
> {
    match record.field(index, key) {
        Some(v) => text_of(v),
        None => None,
    }
}

/// A mandatory list of numbers of a record.
pub open spec fn required_usize_list_of(record: Value, index: int, key: Seq<char>) -> Option<
    Seq<usize>,
> {
    match record.field(index, key) {
        Some(v) => usize_list_of(v),
        None => None,
    }
}

/// Whether a record may leave the field out: a table may, an array may not.
pub open spec fn may_omit(record: Value) -> bool {
    record is Table
}

/// An optional number of a record: `Some(None)` where it is rightly absent,
/// `None` where the record is unreadable.
pub open spec fn optional_usize_of(record: Value, index: int, key: Seq<char>) -> Option<
    Option<usize>,
> {
    match record.field(index, key) {
        Some(v) => match usize_of(v) {
            Some(n) => Some(Some(n)),
            None => None,
        },
        None => if may_omit(record) {
            Some(None)
        } else {
            None
        },
    }
}

/// An optional text of a record: `Some(None)` where it is rightly absent,
/// `None` where the record is unreadable.
pub open spec fn optional_text_of(record: Value, index: int, key: Seq<char>) -> Option<
    Option<Seq<char>>,
> {
    match record.field(index, key) {
        Some(v) => match text_of(v) {
            Some(s) => Some(Some(s)),
            None => None,
        },
        None => if may_omit(record) {
            Some(None)
        } else {
            None
        },
    }
}

/// An optional list of numbers of a record: `Some(None)` where it is rightly
/// absent, `None` where the record is unreadable.
pub open spec fn optional_usize_list_of(record: Value, index: int, key: Seq<char>) -> Option<
    Option<Seq<usize>>,
> {
    match record.field(index, key) {
        Some(v) => match usize_list_of(v) {
            Some(l) => Some(Some(l)),
            None => None,
        },
        None => if may_omit(record) {
            Some(None)
        } else {
            None
        },
    }
}

/// The view of a text that was looked for and may rightly be absent.
pub open spec fn found_text_view(found: Option<Option<String>>) -> Option<Option<Seq<char>>> {
    match found {
        Some(text) => Some(text_view(text)),
        None => None,
    }
}

/// The view of a list that was looked for and may rightly be absent.
pub open spec fn found_list_view(found: Option<Option<Vec<usize>>>) -> Option<
    Option<Seq<usize>>,
> {
    match found {
        Some(list) => Some(list_view(list)),
        None => None,
    }
}

/// Reads an address-sized number.
pub fn read_usize(value: &Value) -> (r: Option<usize>)
    ensures
        r == usize_of(*value),
{
    match value {
        Value::Integer(Some(n)) => {
            let n: i128 = *n;
            if 0 <= n && n <= u64::MAX as i128 && n <= usize::MAX as i128 {
                Some(n as usize)
            } else {
                None
            }
        },
        _ => None,
    }
}

/// Reads an 8-bit code.
pub fn read_code(value: &Value) -> (r: Option<u8>)
    ensures
        r == code_of(*value),
{
    match value {
        Value::Integer(Some(n)) => {
            let n: i128 = *n;
            if 0 <= n && n <= 255 {
                Some(n as u8)
            } else {
                None
            }
        },
        _ => None,
    }
}

/// Reads a text.
pub fn read_text(value: &Value) -> (r: Option<String>)
    ensures
        text_view(r) == text_of(*value),
{
    match value {
        Value::String(s) => Some(s.clone()),
        _ => None,
    }
}

/// Reads a list of numbers.
pub fn read_usize_list(value: &Value) -> (r: Option<Vec<usize>>)
    ensures
        list_view(r) == usize_list_of(*value),
{
    match value {
        Value::Array(items) => {
            let mut list: Vec<usize> = Vec::new();
            let mut i: usize = 0;
            while i < items.len()
                invariant
                    *value == Value::Array(*items),
                    i <= items@.len(),
                    list@.len() == i,
                    forall|k: int|
                        0 <= k < i ==> (#[trigger] usize_of(items@[k])) == Some(list@[k]),
                decreases items@.len() - i,
            {
                match read_usize(&items[i]) {
                    Some(n) => {
                        list.push(n);
                    },
                    None => {
                        assert(usize_of(items@[i as int]) is None);
                        return None;
                    },
                }
                i = i + 1;
            }
            assert(list@ =~= Seq::new(items@.len(), |i: int| usize_of(items@[i]).unwrap()));
            Some(list)
        },
        _ => None,
    }
}

/// Reads a mandatory number of a record.
pub fn required_usize(record: &Value, index: usize, key: &str) -> (r: Option<usize>)
    ensures
        r == required_usize_of(*record, index as int, key@),
{
    match record.get_field(index, key) {
        Some(v) => read_usize(v),
        None => None,
    }
}

/// Reads a mandatory 8-bit code of a record.
pub fn required_code(record: &Value, index: usize, key: &str) -> (r: Option<u8>)
    ensures
        r == required_code_of(*record, index as int, key@),
{
    match record.get_field(index, key) {
        Some(v) => read_code(v),
        None => None,
    }
}

/// Reads a mandatory text of a record.
pub fn required_text(record: &Value, index: usize, key: &str) -> (r: Option<String>)
    ensures
        text_view(r) == required_text_of(*record, index as int, key@),
{
    match record.get_field(index, key) {
        Some(v) => read_text(v),
        None => None,
    }
}

/// Reads a mandatory list of numbers of a record.
pub fn required_usize_list(record: &Value, index: usize, key: &str) -> (r: Option<Vec<usize>>)
    ensures
        list_view(r) == required_usize_list_of(*record, index as int, key@),
{
    match record.get_field(index, key) {
        Some(v) => read_usize_list(v),
        None => None,
    }
}

/// Tells whether a record may leave an optional field out.
pub fn can_omit(record: &Value) -> (r: bool)
    ensures
        r == may_omit(*record),
{
    match record {
        Value::Table(_) => true,
        _ => false,
    }
}

/// Reads an optional number of a record.
pub fn optional_usize(record: &Value, index: usize, key: &str) -> (r: Option<Option<usize>>)
    ensures
        r == optional_usize_of(*record, index as int, key@),
{
    match record.get_field(index, key) {
        Some(v) => match read_usize(v) {
            Some(n) => Some(Some(n)),
            None => None,
        },
        None => if can_omit(record) {
            Some(None)
        } else {
            None
        },
    }
}

/// Reads an optional text of a record.
pub fn optional_text(record: &Value, index: usize, key: &str) -> (r: Option<Option<String>>)
    ensures
        found_text_view(r) == optional_text_of(*record, index as int, key@),
{
    match record.get_field(index, key) {
        Some(v) => match read_text(v) {
            Some(s) => Some(Some(s)),
            None => None,
        },
        None => if can_omit(record) {
            Some(None)
        } else {
            None
        },
    }
}

/// Reads an optional list of numbers of a record.
pub fn optional_usize_list(record: &Value, index: usize, key: &str) -> (r: Option<
    Option<Vec<usize>>,
>)
    ensures
        found_list_view(r) == optional_usize_list_of(*record, index as int, key@),
{
    match record.get_field(index, key) {
        Some(v) => match read_usize_list(v) {
            Some(l) => Some(Some(l)),
            None => None,
        },
        None => if can_omit(record) {
            Some(None)
        } else {
            None
        },
    }
}

} // verus!
