//! The value reader: one typed value of a record, rendered as text.

use crate::text::{decimal_string, decimal_text, hex_string, hex_text, utf8_string, utf8_text};
use crate::wire::{le_i32, read_i32_le};
use vstd::prelude::*;
use vstd::slice::slice_subrange;
use vstd::string::*;

verus! {

/// Type tag of a text value.
pub const VALUE_TYPE_STRING: u32 = 0xFDE9F1EE;

/// Type tag of a signed 32-bit value.
pub const VALUE_TYPE_INT32: u32 = 0xE2A80856;

/// Type tag of a boolean value.
pub const VALUE_TYPE_BOOL: u32 = 0xAD4D7C9C;

/// How a value is laid out, as its type tag tells.
#[derive(Clone, Copy, Debug, PartialEq, Eq, Structural)]
pub enum ValueKind {
    /// A length byte, then that many bytes of UTF-8.
    Text,
    /// Four bytes, a signed number, least significant byte first.
    Int32,
    /// One byte, zero for false.
    Bool,
    /// Any other tag: four bytes kept as they are.
    Raw,
}

/// The layout that a type tag stands for.
pub open spec fn kind_of(value_type: u32) -> ValueKind {
    if value_type == VALUE_TYPE_STRING {
        ValueKind::Text
    } else if value_type == VALUE_TYPE_INT32 {
        ValueKind::Int32
    } else if value_type == VALUE_TYPE_BOOL {
        ValueKind::Bool
    } else {
        ValueKind::Raw
    }
}

/// The number of bytes that the value of type `value_type` at `at` takes up,
/// or `None` where `data` ends before the value does.
pub open spec fn value_len(data: Seq<u8>, at: int, value_type: u32) -> Option<int> {
    match kind_of(value_type) {
        ValueKind::Text => if 0 <= at < data.len() && at + 1 + data[at] <= data.len() {
            Some(1 + data[at])
        } else {
            None
        },
        ValueKind::Bool => if 0 <= at < data.len() {
            Some(1)
        } else {
            None
        },
        _ => if 0 <= at && at + 4 <= data.len() {
            Some(4)
        } else {
            None
        },
    }
}

/// The text of the value of type `value_type` at `at`, where the value lies
/// within `data`.
pub open spec fn value_text(data: Seq<u8>, at: int, value_type: u32) -> Seq<char>
    recommends
        value_len(data, at, value_type) is Some,
{
    match kind_of(value_type) {
        ValueKind::Text => utf8_text(data.subrange(at + 1, at + 1 + data[at])),
        ValueKind::Int32 => decimal_text(le_i32(data.subrange(at, at + 4))),
        ValueKind::Bool => if data[at] != 0 {
            "true"@
        } else {
            "false"@
        },
        ValueKind::Raw => hex_text(data.subrange(at, at + 4)),
    }
}

/// Tells the layout of a value from its type tag.
pub fn value_kind(value_type: u32) -> (kind: ValueKind)
    ensures
        kind == kind_of(value_type),
{
    if value_type == VALUE_TYPE_STRING {
        ValueKind::Text
    } else if value_type == VALUE_TYPE_INT32 {
        ValueKind::Int32
    } else if value_type == VALUE_TYPE_BOOL {
        ValueKind::Bool
    } else {
        ValueKind::Raw
    }
}

/// Reads the value of type `value_type` that starts at `*offset`, and moves
/// `*offset` past it. Where `data` ends before the value does, there is no
/// value and `*offset` stays where it was.
pub fn parse_value(data: &[u8], offset: &mut usize, value_type: u32) -> (value: Option<String>)
    ensures
        match value_len(data@, *old(offset) as int, value_type) {
            Some(n) => {
                &&& value matches Some(text)
                &&& text@ == value_text(data@, *old(offset) as int, value_type)
                &&& *final(offset) == *old(offset) + n
            },
            None => value is None && *final(offset) == *old(offset),
        },
{
    let at = *offset;
    match value_kind(value_type) {
        ValueKind::Text => {
            if at >= data.len() {
                return None;
            }
            let n = data[at] as usize;
            if data.len() - at - 1 < n {
                return None;
            }
            let text = utf8_string(slice_subrange(data, at + 1, at + 1 + n));
            *offset = at + 1 + n;
            Some(text)
        },
        ValueKind::Int32 => {
            if at > data.len() || data.len() - at < 4 {
                return None;
            }
            match read_i32_le(slice_subrange(data, at, at + 4)) {
                Some(number) => {
                    *offset = at + 4;
                    Some(decimal_string(number))
                },
                None => None,
            }
        },
        ValueKind::Bool => {
            if at >= data.len() {
                return None;
            }
            let text = if data[at] != 0 {
                "true"
            } else {
                "false"
            };
            *offset = at + 1;
            Some(String::from_str(text))
        },
        ValueKind::Raw => {
            if at > data.len() || data.len() - at < 4 {
                return None;
            }
            let text = hex_string(slice_subrange(data, at, at + 4));
            *offset = at + 4;
            Some(text)
        },
    }
}

} // verus!
