//! The record locator: the scan of a byte buffer for the tagged entry that
//! holds the identification record.

use crate::container::{decode_record, pairs_view, record_pairs};
use crate::text::bytes_eq;
use crate::wire::{le_u32, read_u32_le};
use vstd::prelude::*;
use vstd::slice::slice_subrange;
use vstd::string::*;
use vstd::utf8::*;

verus! {

/// The byte that starts a tagged entry.
pub const HX_START_ENTRY: u8 = 0x7E;

/// The tag name of the identification record.
pub const RECORD_TAG: &'static str = "VINGen4";

/// Whether the bytes of a tag spell the name of the identification record.
/// A tag that is no UTF-8 spells no name that could be the record's: read
/// with replacement characters for its ill-formed parts it would hold one,
/// and the record's name holds none.
pub open spec fn is_record_tag(tag: Seq<u8>) -> bool {
    valid_utf8(tag) && decode_utf8(tag) == RECORD_TAG@
}

/// The tag of the entry that starts at `i`: as many bytes as the byte behind
/// the marker says, from the one after it.
pub open spec fn entry_tag(buffer: Seq<u8>, i: int) -> Seq<u8> {
    buffer.subrange(i + 2, i + 2 + buffer[i + 1])
}

/// Where the body of the entry that starts at `i` begins: behind the marker,
/// the tag length, the tag and the four bytes of the body length.
pub open spec fn body_start(buffer: Seq<u8>, i: int) -> int {
    i + 2 + buffer[i + 1] + 4
}

/// Where the body of the entry that starts at `i` ends, by the body length
/// that the entry declares.
pub open spec fn body_end(buffer: Seq<u8>, i: int) -> int {
    body_start(buffer, i) + le_u32(buffer.subrange(body_start(buffer, i) - 4, body_start(buffer, i)))
}

/// Whether the entry that starts at `i` lies within the buffer: its tag
/// length, its tag, its body length and its body.
pub open spec fn entry_fits(buffer: Seq<u8>, i: int) -> bool {
    &&& i + 1 < buffer.len()
    &&& body_start(buffer, i) <= buffer.len()
    &&& body_end(buffer, i) <= buffer.len()
}

/// The body that a scan from `i` finds: that of the first entry tagged with
/// the record's name. The scan goes byte by byte up to a marker, takes what
/// follows it as an entry, and goes on behind the entry's body where the tag
/// is another. It ends without a body at the end of the buffer, and at an
/// entry that the buffer is too short for.
pub open spec fn scan_from(buffer: Seq<u8>, i: int) -> Option<Seq<u8>>
    decreases buffer.len() - i,
{
    if i < 0 || i >= buffer.len() {
        None
    } else if buffer[i] != HX_START_ENTRY {
        scan_from(buffer, i + 1)
    } else if !entry_fits(buffer, i) {
        None
    } else if is_record_tag(entry_tag(buffer, i)) {
        Some(buffer.subrange(body_start(buffer, i), body_end(buffer, i)))
    } else {
        scan_from(buffer, body_end(buffer, i))
    }
}

/// The body of the identification record in a buffer, if the scan finds one.
pub open spec fn located_body(buffer: Seq<u8>) -> Option<Seq<u8>> {
    scan_from(buffer, 0)
}

/// Whether a tag spells the name of the identification record.
pub fn tag_matches(tag: &[u8]) -> (matches: bool)
    ensures
        matches == is_record_tag(tag@),
{
    let matches = bytes_eq(tag, RECORD_TAG.as_bytes());
    proof {
        encode_utf8_valid_utf8(RECORD_TAG@);
        encode_utf8_decode_utf8(RECORD_TAG@);
        if is_record_tag(tag@) {
            decode_utf8_encode_utf8(tag@);
        }
    }
    matches
}

/// Finds the body of the first entry tagged with the record's name. There is
/// none where the buffer holds no such entry, or ends within an entry before
/// one is found.
pub fn locate_record<'a>(buffer: &'a [u8]) -> (body: Option<&'a [u8]>)
    ensures
        match located_body(buffer@) {
            Some(bytes) => body matches Some(found) && found@ == bytes,
            None => body is None,
        },
{
    let mut i: usize = 0;
    while i < buffer.len()
        invariant
            i <= buffer.len(),
            located_body(buffer@) == scan_from(buffer@, i as int),
        decreases buffer.len() - i,
    {
        if buffer[i] != HX_START_ENTRY {
            i += 1;
            continue ;
        }
        if buffer.len() - i < 2 {
            return None;
        }
        let tag_size = buffer[i + 1] as usize;
        if buffer.len() - i - 2 < tag_size + 4 {
            return None;
        }
        let body_start = i + 2 + tag_size + 4;
        let body_len = match read_u32_le(slice_subrange(buffer, body_start - 4, body_start)) {
            Some(n) => n as usize,
            None => { return None; },
        };
        if buffer.len() - body_start < body_len {
            return None;
        }
        let body_end = body_start + body_len;
        if tag_matches(slice_subrange(buffer, i + 2, i + 2 + tag_size)) {
            return Some(slice_subrange(buffer, body_start, body_end));
        }
        i = body_end;
    }
    None
}

/// The pairs of the identification record in a buffer: those that the body
/// of the located entry holds.
pub open spec fn located_pairs(buffer: Seq<u8>) -> Option<Seq<(Seq<char>, Seq<char>)>> {
    match located_body(buffer) {
        Some(body) => record_pairs(body),
        None => None,
    }
}

/// Finds the identification record in a buffer and decodes it into its pairs
/// of key and value, in the order of the record. There is no result where no
/// record is found, or where the one found holds no dictionary.
pub fn locate_and_decode_record(bytes: &[u8]) -> (pairs: Option<Vec<(String, String)>>)
    ensures
        match located_pairs(bytes@) {
            Some(expected) => pairs matches Some(found) && pairs_view(found@) == expected,
            None => pairs is None,
        },
{
    match locate_record(bytes) {
        Some(body) => decode_record(body),
        None => None,
    }
}

} // verus!
