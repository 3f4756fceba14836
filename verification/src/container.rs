//! The container decoder: the header of a record body, and the dictionary of
//! key and value pairs that follows it.

use crate::value::{parse_value, value_len, value_text};
use crate::wire::{le_u32, read_u32_le};
use vstd::prelude::*;
use vstd::slice::slice_subrange;

verus! {

/// Container kind of a dictionary.
pub const CONTAINER_TYPE_DICTIONARY: u8 = 0x52;

/// The container kind that a body declares in its first byte. A producer
/// writes `0xFF` for the kind `0x00`.
pub open spec fn container_kind(body: Seq<u8>) -> u8
    recommends
        body.len() >= 1,
{
    if body[0] != 0xFF {
        body[0]
    } else {
        0x00
    }
}

/// Where the value type tag stands: behind the kind byte and the reserved
/// byte, and in a dictionary behind the key type tag too.
pub open spec fn value_type_at(body: Seq<u8>) -> int {
    if container_kind(body) == CONTAINER_TYPE_DICTIONARY {
        6
    } else {
        2
    }
}

/// The key type tag of a header: that of a dictionary, zero for any other
/// container.
pub open spec fn header_key_type(body: Seq<u8>) -> int {
    if container_kind(body) == CONTAINER_TYPE_DICTIONARY {
        le_u32(body.subrange(2, 6))
    } else {
        0
    }
}

/// The value type tag of a header.
pub open spec fn header_value_type(body: Seq<u8>) -> int {
    le_u32(body.subrange(value_type_at(body), value_type_at(body) + 4))
}

/// The length of a header: up to the value type tag, then the property size,
/// which takes one byte where the key type is zero and two where it is not.
pub open spec fn header_len(body: Seq<u8>) -> int {
    value_type_at(body) + 4 + if header_key_type(body) == 0 {
        1int
    } else {
        2int
    }
}

/// Whether a body is long enough to hold its header.
pub open spec fn header_fits(body: Seq<u8>) -> bool {
    &&& body.len() >= 2
    &&& value_type_at(body) + 4 <= body.len()
    &&& header_len(body) <= body.len()
}

/// Reads the header of a record body: the container kind, the key type, the
/// value type, and the offset at which the entries start. A body too short
/// for its header has none.
pub fn read_header(body: &[u8]) -> (header: Option<(u8, u32, u32, usize)>)
    ensures
        header_fits(body@) ==> header == Some(
            (
                container_kind(body@),
                header_key_type(body@) as u32,
                header_value_type(body@) as u32,
                header_len(body@) as usize,
            ),
        ),
        !header_fits(body@) ==> header is None,
{
    if body.len() < 2 {
        return None;
    }
    let container_type = if body[0] != 0xFF {
        body[0]
    } else {
        0x00
    };
    let mut offset: usize = 2;
    let mut key_type: u32 = 0;
    if container_type == CONTAINER_TYPE_DICTIONARY {
        if body.len() < 6 {
            return None;
        }
        key_type =
        match read_u32_le(slice_subrange(body, 2, 6)) {
            Some(tag) => tag,
            None => { return None; },
        };
        offset = 6;
    }
    if body.len() - offset < 4 {
        return None;
    }
    let value_type = match read_u32_le(slice_subrange(body, offset, offset + 4)) {
        Some(tag) => tag,
        None => { return None; },
    };
    offset += 4;
    let prop_size: usize = if key_type == 0 {
        1
    } else {
        2
    };
    if body.len() - offset < prop_size {
        return None;
    }
    offset += prop_size;
    Some((container_type, key_type, value_type, offset))
}

/// Where the cursor stands after an attempt to read a value at `at`: behind
/// the value, or still at `at` where the value does not fit.
pub open spec fn cursor_past(data: Seq<u8>, at: int, value_type: u32) -> int {
    match value_len(data, at, value_type) {
        Some(n) => at + n,
        None => at,
    }
}

/// The text that a field of a pair gets: that of the value at `at`, or the
/// empty text where the value does not fit.
pub open spec fn field_text(data: Seq<u8>, at: int, value_type: u32) -> Seq<char> {
    match value_len(data, at, value_type) {
        Some(_) => value_text(data, at, value_type),
        None => Seq::empty(),
    }
}

/// Where pair `i` of a dictionary starts. The first pair stands behind the
/// four bytes of the count, each further one behind the key and the value
/// of the pair before it.
pub open spec fn pair_start(data: Seq<u8>, key_type: u32, value_type: u32, i: nat) -> int
    decreases i,
{
    if i == 0 {
        4
    } else {
        let before = pair_start(data, key_type, value_type, (i - 1) as nat);
        cursor_past(data, cursor_past(data, before, key_type), value_type)
    }
}

/// Pair `i` of a dictionary: its key and its value as text.
pub open spec fn pair_at(data: Seq<u8>, key_type: u32, value_type: u32, i: nat) -> (
    Seq<char>,
    Seq<char>,
) {
    let start = pair_start(data, key_type, value_type, i);
    (
        field_text(data, start, key_type),
        field_text(data, cursor_past(data, start, key_type), value_type),
    )
}

/// The number of pairs that a dictionary declares in its first four bytes;
/// none where it is too short to declare any.
pub open spec fn pair_count(data: Seq<u8>) -> nat {
    if data.len() < 4 {
        0
    } else {
        le_u32(data) as nat
    }
}

/// The pairs of a dictionary, in the order in which it declares them.
pub open spec fn dictionary_pairs(data: Seq<u8>, key_type: u32, value_type: u32) -> Seq<
    (Seq<char>, Seq<char>),
> {
    Seq::new(pair_count(data), |i: int| pair_at(data, key_type, value_type, i as nat))
}

/// Pairs of strings as pairs of texts.
pub open spec fn pairs_view(pairs: Seq<(String, String)>) -> Seq<(Seq<char>, Seq<char>)> {
    Seq::new(pairs.len(), |i: int| (pairs[i].0@, pairs[i].1@))
}

/// Decodes the entries of a dictionary: as many pairs as its count declares,
/// in their order. A key or a value that does not fit in `data` is empty.
pub fn parse_dictionary_vec(data: &[u8], key_type: u32, value_type: u32) -> (pairs: Vec<
    (String, String),
>)
    ensures
        pairs_view(pairs@) == dictionary_pairs(data@, key_type, value_type),
{
    let mut pairs: Vec<(String, String)> = Vec::new();
    if data.len() < 4 {
        assert(pairs_view(pairs@) =~= dictionary_pairs(data@, key_type, value_type));
        return pairs;
    }
    let count: usize = match read_u32_le(data) {
        Some(n) => n as usize,
        None => 0,
    };
    let mut offset: usize = 4;
    let mut i: usize = 0;
    while i < count
        invariant
            i <= count,
            count == pair_count(data@),
            pairs@.len() == i,
            offset == pair_start(data@, key_type, value_type, i as nat),
            forall|j: int|
                0 <= j < i ==> (#[trigger] pairs@[j]).0@ == pair_at(
                    data@,
                    key_type,
                    value_type,
                    j as nat,
                ).0 && pairs@[j].1@ == pair_at(data@, key_type, value_type, j as nat).1,
        decreases count - i,
    {
        let key = match parse_value(data, &mut offset, key_type) {
            Some(text) => text,
            None => String::new(),
        };
        let val = match parse_value(data, &mut offset, value_type) {
            Some(text) => text,
            None => String::new(),
        };
        pairs.push((key, val));
        i += 1;
    }
    assert(pairs_view(pairs@) =~= dictionary_pairs(data@, key_type, value_type));
    pairs
}

/// The pairs that a record body holds: those of its dictionary, or `None`
/// where the header does not fit or declares another container.
pub open spec fn record_pairs(body: Seq<u8>) -> Option<Seq<(Seq<char>, Seq<char>)>> {
    if header_fits(body) && container_kind(body) == CONTAINER_TYPE_DICTIONARY {
        Some(
            dictionary_pairs(
                body.subrange(header_len(body), body.len() as int),
                header_key_type(body) as u32,
                header_value_type(body) as u32,
            ),
        )
    } else {
        None
    }
}

/// Decodes a record body. Only a dictionary holds data: a body with any
/// other container kind, or too short for its header, gives `None`.
pub fn decode_record(body: &[u8]) -> (pairs: Option<Vec<(String, String)>>)
    ensures
        match record_pairs(body@) {
            Some(expected) => pairs matches Some(found) && pairs_view(found@) == expected,
            None => pairs is None,
        },
{
    match read_header(body) {
        Some((container_type, key_type, value_type, offset)) => {
            if container_type == CONTAINER_TYPE_DICTIONARY {
                let entries = slice_subrange(body, offset, body.len());
                Some(parse_dictionary_vec(entries, key_type, value_type))
            } else {
                None
            }
        },
        None => None,
    }
}

} // verus!
