//! Tagged entries as a producer writes them, and what the record locator
//! finds in a buffer made of such entries.

use crate::container::{
    container_kind, dictionary_pairs, header_fits, header_key_type, header_len,
    header_value_type, pair_at, pair_count, record_pairs, CONTAINER_TYPE_DICTIONARY,
};
use crate::locator::{
    body_end, body_start, entry_fits, entry_tag, is_record_tag, located_body, located_pairs,
    scan_from, HX_START_ENTRY,
};
use crate::wire::{le_u32, lemma_le_u32_of_bytes, u32_le_bytes};
use vstd::prelude::*;

verus! {

/// A tagged entry: a name and a body.
pub struct TaggedEntry {
    /// The bytes of the tag name.
    pub tag: Seq<u8>,
    /// The bytes of the body.
    pub body: Seq<u8>,
}

/// Whether an entry can be written down: its tag length fits in one byte and
/// its body length in four.
pub open spec fn writable(entry: TaggedEntry) -> bool {
    entry.tag.len() <= 0xFF && entry.body.len() <= 0xFFFF_FFFF
}

/// The bytes of an entry: the marker, the tag length, the tag, the body
/// length in four bytes, least significant first, and the body.
pub open spec fn entry_bytes(entry: TaggedEntry) -> Seq<u8> {
    seq![HX_START_ENTRY, entry.tag.len() as u8] + entry.tag + u32_le_bytes(
        entry.body.len() as int,
    ) + entry.body
}

/// The bytes of entries written one after another.
pub open spec fn entries_bytes(entries: Seq<TaggedEntry>) -> Seq<u8>
    decreases entries.len(),
{
    if entries.len() == 0 {
        Seq::empty()
    } else {
        entry_bytes(entries[0]) + entries_bytes(entries.drop_first())
    }
}

/// What a scan finds depends only on the bytes from where it starts: bytes
/// put before the start change nothing.
pub proof fn lemma_scan_ignores_prefix(before: Seq<u8>, rest: Seq<u8>, i: int)
    requires
        0 <= i,
    ensures
        scan_from(before + rest, before.len() + i) == scan_from(rest, i),
    decreases rest.len() - i,
{
    let buffer = before + rest;
    let p = before.len() as int;
    if i < rest.len() {
        assert(buffer[p + i] == rest[i]);
        if rest[i] != HX_START_ENTRY {
            lemma_scan_ignores_prefix(before, rest, i + 1);
        } else {
            if i + 1 < rest.len() {
                assert(buffer[p + i + 1] == rest[i + 1]);
                assert(body_start(buffer, p + i) == p + body_start(rest, i));
                if body_start(rest, i) <= rest.len() {
                    let s = body_start(rest, i);
                    assert(buffer.subrange(p + s - 4, p + s) =~= rest.subrange(s - 4, s));
                    assert(body_end(buffer, p + i) == p + body_end(rest, i));
                    assert(entry_tag(buffer, p + i) =~= entry_tag(rest, i));
                    if body_end(rest, i) <= rest.len() {
                        let e = body_end(rest, i);
                        assert(buffer.subrange(p + s, p + e) =~= rest.subrange(s, e));
                        if !is_record_tag(entry_tag(rest, i)) {
                            lemma_scan_ignores_prefix(before, rest, e);
                        }
                    }
                }
            }
        }
    }
}

/// An entry at the start of a buffer is read as it was written.
pub proof fn lemma_entry_is_read_back(entry: TaggedEntry, rest: Seq<u8>)
    requires
        writable(entry),
    ensures
        (entry_bytes(entry) + rest)[0] == HX_START_ENTRY,
        entry_fits(entry_bytes(entry) + rest, 0),
        entry_tag(entry_bytes(entry) + rest, 0) == entry.tag,
        body_start(entry_bytes(entry) + rest, 0) == 6 + entry.tag.len(),
        body_end(entry_bytes(entry) + rest, 0) == entry_bytes(entry).len(),
        (entry_bytes(entry) + rest).subrange(
            6 + entry.tag.len() as int,
            entry_bytes(entry).len() as int,
        ) == entry.body,
{
    let buffer = entry_bytes(entry) + rest;
    let t = entry.tag.len() as int;
    let n = entry.body.len() as int;
    lemma_le_u32_of_bytes(n);
    assert(buffer[0] == HX_START_ENTRY);
    assert(buffer[1] == t);
    assert(buffer.subrange(2 + t, 6 + t) =~= u32_le_bytes(n));
    assert(entry_tag(buffer, 0) =~= entry.tag);
    assert(buffer.subrange(6 + t, 6 + t + n) =~= entry.body);
}

/// In a buffer made of writable entries, the locator finds the body of the
/// first entry that is tagged with the record's name.
pub proof fn lemma_first_record_is_located(entries: Seq<TaggedEntry>, k: int)
    requires
        0 <= k < entries.len(),
        forall|j: int| 0 <= j < entries.len() ==> writable(#[trigger] entries[j]),
        is_record_tag(entries[k].tag),
        forall|j: int| 0 <= j < k ==> !is_record_tag((#[trigger] entries[j]).tag),
    ensures
        located_body(entries_bytes(entries)) == Some(entries[k].body),
    decreases entries.len(),
{
    let first = entries[0];
    let others = entries.drop_first();
    let rest = entries_bytes(others);
    let buffer = entry_bytes(first) + rest;
    assert(entries_bytes(entries) == buffer);
    lemma_entry_is_read_back(first, rest);
    if k > 0 {
        assert(!is_record_tag(entries[0].tag));
        assert(forall|j: int| 0 <= j < others.len() ==> others[j] == entries[j + 1]);
        lemma_first_record_is_located(others, k - 1);
        lemma_scan_ignores_prefix(entry_bytes(first), rest, 0);
    }
}

/// A buffer made of writable entries, exactly one of them tagged with the
/// record's name and holding a dictionary, decodes to the pairs of that
/// dictionary: as many as its count field declares, each in its place.
pub proof fn lemma_single_record_is_decoded(entries: Seq<TaggedEntry>, k: int)
    requires
        0 <= k < entries.len(),
        forall|j: int| 0 <= j < entries.len() ==> writable(#[trigger] entries[j]),
        forall|j: int|
            0 <= j < entries.len() ==> (is_record_tag((#[trigger] entries[j]).tag) <==> j == k),
        header_fits(entries[k].body),
        container_kind(entries[k].body) == CONTAINER_TYPE_DICTIONARY,
    ensures
        located_pairs(entries_bytes(entries)) == record_pairs(entries[k].body),
        ({
            let body = entries[k].body;
            let data = body.subrange(header_len(body), body.len() as int);
            let key_type = header_key_type(body) as u32;
            let value_type = header_value_type(body) as u32;
            &&& located_pairs(entries_bytes(entries)) matches Some(pairs)
            &&& pairs.len() == pair_count(data)
            &&& forall|i: int|
                0 <= i < pairs.len() ==> pairs[i] == pair_at(data, key_type, value_type, i as nat)
        }),
{
    lemma_first_record_is_located(entries, k);
}

/// A buffer made of writable entries and cut short before the end of the
/// first entry tagged with the record's name holds no record for the locator.
pub proof fn lemma_cut_short_is_not_found(entries: Seq<TaggedEntry>, k: int, cut: int)
    requires
        0 <= k < entries.len(),
        forall|j: int| 0 <= j < entries.len() ==> writable(#[trigger] entries[j]),
        forall|j: int| 0 <= j < k ==> !is_record_tag((#[trigger] entries[j]).tag),
        0 <= cut < entries_bytes(entries.take(k + 1)).len(),
    ensures
        cut <= entries_bytes(entries).len(),
        located_body(entries_bytes(entries).take(cut)) is None,
    decreases entries.len(),
{
    let first = entries[0];
    let others = entries.drop_first();
    let rest = entries_bytes(others);
    let whole = entry_bytes(first) + rest;
    let width = entry_bytes(first).len() as int;
    assert(entries_bytes(entries) == whole);
    let upto = entries.take(k + 1);
    assert(upto[0] == first);
    assert(upto.drop_first() =~= others.take(k));
    assert(entries_bytes(upto) == entry_bytes(first) + entries_bytes(others.take(k)));
    lemma_entry_is_read_back(first, rest);
    let cut_buffer = whole.take(cut);
    if cut < width {
        if cut >= 2 {
            assert(cut_buffer[1] == whole[1]);
            let s = body_start(whole, 0);
            if s <= cut {
                assert(cut_buffer.subrange(s - 4, s) =~= whole.subrange(s - 4, s));
            }
        }
    } else {
        assert(k > 0) by {
            if k == 0 {
                assert(others.take(0) =~= Seq::<TaggedEntry>::empty());
            }
        }
        assert(forall|j: int| 0 <= j < others.len() ==> others[j] == entries[j + 1]);
        lemma_cut_short_is_not_found(others, k - 1, cut - width);
        let kept = rest.take(cut - width);
        assert(cut_buffer =~= entry_bytes(first) + kept);
        lemma_entry_is_read_back(first, kept);
        lemma_scan_ignores_prefix(entry_bytes(first), kept, 0);
    }
}

} // verus!
