//! The code decoder: the split of a fixed-width identification code into the
//! values of its fields, and the way back from the values to the code.

use crate::schema::{
    field_start, fields_view, schema, total_width, vin_structure, vin_width, FieldDef, VinField,
};
use crate::values::{value_of, FieldValues};
use vstd::prelude::*;
use vstd::string::*;
use vstd::utf8::*;

verus! {

/// The smaller of two numbers.
pub open spec fn at_most(a: int, b: int) -> int {
    if a <= b {
        a
    } else {
        b
    }
}

/// Where a cut at `position` falls in a code of `n` bytes: at the position,
/// or at the code's end where the code ends before it.
pub open spec fn cut_at(position: int, n: int) -> int {
    at_most(position, n)
}

/// The part of a code that belongs to field `i`. Positions and widths count
/// the bytes of the code in UTF-8. The part runs from the field's start over
/// as many bytes as the field is wide; a code that ends within the field
/// gives the bytes that it has, and one that ends before the field gives
/// none. A part that would begin or end within a character is empty.
pub open spec fn field_piece(code: Seq<char>, fields: Seq<FieldDef>, i: int) -> Seq<char> {
    let bytes = encode_utf8(code);
    let start = cut_at(field_start(fields, i) as int, bytes.len() as int);
    let end = cut_at((field_start(fields, i) + fields[i].width) as int, bytes.len() as int);
    if is_char_boundary(bytes, start) && is_char_boundary(bytes, end) {
        decode_utf8(bytes.subrange(start, end))
    } else {
        Seq::empty()
    }
}

/// The values of the first `n` fields of a code, each under its field's key.
pub open spec fn split_code(code: Seq<char>, fields: Seq<FieldDef>, n: nat) -> Map<
    Seq<char>,
    Seq<char>,
>
    decreases n,
{
    if n == 0 {
        Map::empty()
    } else {
        split_code(code, fields, (n - 1) as nat).insert(
            fields[n - 1].key,
            field_piece(code, fields, n - 1),
        )
    }
}

/// The values of all fields of a code.
pub open spec fn code_values(code: Seq<char>, fields: Seq<FieldDef>) -> Map<Seq<char>, Seq<char>> {
    split_code(code, fields, fields.len())
}

/// The values of the first `n` fields, one after another in the order of the
/// fields; a field without a value adds nothing.
pub open spec fn joined_values(
    values: Map<Seq<char>, Seq<char>>,
    fields: Seq<FieldDef>,
    n: nat,
) -> Seq<char>
    decreases n,
{
    if n == 0 {
        Seq::empty()
    } else {
        joined_values(values, fields, (n - 1) as nat) + value_of(values, fields[n - 1].key)
    }
}

/// Whether no two fields share a key.
pub open spec fn distinct_keys(fields: Seq<FieldDef>) -> bool {
    forall|i: int, j: int|
        0 <= i < j < fields.len() ==> (#[trigger] fields[i]).key != (#[trigger] fields[j]).key
}

/// Each field starts where the one before it ends.
pub proof fn lemma_field_start_next(fields: Seq<FieldDef>, i: int)
    requires
        0 <= i < fields.len(),
    ensures
        field_start(fields, i + 1) == field_start(fields, i) + fields[i].width,
{
    assert(fields.take(i + 1).drop_last() =~= fields.take(i));
}

/// The first field starts at the start of the code.
pub proof fn lemma_field_start_first(fields: Seq<FieldDef>)
    ensures
        field_start(fields, 0) == 0,
{
    assert(fields.take(0) =~= Seq::<FieldDef>::empty());
}

/// A position at which a text can be cut is one at which its first part can
/// be cut too.
proof fn lemma_boundary_of_part(bytes: Seq<u8>, from: int, to: int, at: int)
    requires
        valid_utf8(bytes),
        0 <= from <= at <= to <= bytes.len(),
        is_char_boundary(bytes, from),
        is_char_boundary(bytes, to),
        is_char_boundary(bytes, at),
    ensures
        valid_utf8(bytes.subrange(from, to)),
        is_char_boundary(bytes.subrange(from, to), at - from),
{
    let head = bytes.subrange(0, to);
    valid_utf8_split(bytes, to);
    assert(valid_utf8(head));
    if from < to {
        is_char_boundary_iff_not_is_continuation_byte(bytes, from);
        assert(head[from] == bytes[from]);
        is_char_boundary_iff_not_is_continuation_byte(head, from);
    } else {
        is_char_boundary_start_end_of_seq(head);
    }
    assert(is_char_boundary(head, from));
    valid_utf8_split(head, from);
    let part = bytes.subrange(from, to);
    assert(part =~= head.subrange(from, head.len() as int));
    if at == to {
        is_char_boundary_start_end_of_seq(part);
    } else {
        is_char_boundary_iff_not_is_continuation_byte(bytes, at);
        assert(part[at - from] == bytes[at]);
        is_char_boundary_iff_not_is_continuation_byte(part, at - from);
    }
}

/// The text between two positions of a text at which it can be cut.
fn text_between<'a>(text: &'a str, start: usize, end: usize) -> (part: &'a str)
    requires
        start <= end <= text.spec_bytes().len(),
        is_char_boundary(text.spec_bytes(), start as int),
        is_char_boundary(text.spec_bytes(), end as int),
    ensures
        part@ == decode_utf8(text.spec_bytes().subrange(start as int, end as int)),
{
    let ghost bytes = text.spec_bytes();
    proof {
        encode_utf8_valid_utf8(text@);
        is_char_boundary_start_end_of_seq(bytes);
        lemma_boundary_of_part(bytes, start as int, bytes.len() as int, end as int);
    }
    let (_, tail) = text.split_at(start);
    let (part, _) = tail.split_at(end - start);
    proof {
        assert(part.spec_bytes() =~= bytes.subrange(start as int, end as int));
        encode_utf8_decode_utf8(part@);
    }
    part
}

/// Splits a code by a schema. The code is never refused: one that is too
/// short leaves the fields at its end short or empty, and what a longer one
/// holds behind the last field is passed over.
pub fn split_fields(code: &str, fields: &Vec<VinField>) -> (values: FieldValues)
    ensures
        values@ == code_values(code@, fields_view(fields@)),
{
    let ghost all = fields_view(fields@);
    let n = code.as_bytes().len();
    let mut values = FieldValues::new();
    let mut pos: usize = 0;
    let mut i: usize = 0;
    proof {
        lemma_field_start_first(all);
    }
    while i < fields.len()
        invariant
            i <= fields.len(),
            all == fields_view(fields@),
            n == encode_utf8(code@).len(),
            pos == cut_at(field_start(all, i as int) as int, n as int),
            values@ == split_code(code@, all, i as nat),
        decreases fields.len() - i,
    {
        let field = &fields[i];
        proof {
            lemma_field_start_next(all, i as int);
        }
        let end = if field.len >= n - pos {
            n
        } else {
            pos + field.len
        };
        let piece = if code.is_char_boundary(pos) && code.is_char_boundary(end) {
            text_between(code, pos, end)
        } else {
            proof {
                reveal_strlit("");
            }
            assert(""@ =~= Seq::<char>::empty());
            ""
        };
        values.insert(field.key, piece);
        pos = end;
        i += 1;
    }
    values
}

/// Splits an identification code into the values of the schema's fields.
pub fn parse_vin(vin: &str) -> (values: FieldValues)
    ensures
        values@ == code_values(vin@, vin_structure()),
{
    split_fields(vin, &schema())
}

/// Puts the values of a schema's fields one after another, in the order of
/// the fields.
pub fn complete_vin(values: &FieldValues, fields: &Vec<VinField>) -> (code: String)
    ensures
        code@ == joined_values(values@, fields_view(fields@), fields.len() as nat),
{
    let ghost all = fields_view(fields@);
    let mut code = String::new();
    let mut i: usize = 0;
    while i < fields.len()
        invariant
            i <= fields.len(),
            all == fields_view(fields@),
            code@ == joined_values(values@, all, i as nat),
        decreases fields.len() - i,
    {
        code.append(values.value(fields[i].key));
        i += 1;
    }
    code
}

/// Under distinct keys each of the first `n` fields keeps the value that the
/// split gave it.
pub proof fn lemma_split_keeps_each_field(
    code: Seq<char>,
    fields: Seq<FieldDef>,
    n: nat,
    i: int,
)
    requires
        distinct_keys(fields),
        0 <= i < n <= fields.len(),
    ensures
        split_code(code, fields, n).contains_key(fields[i].key),
        split_code(code, fields, n)[fields[i].key] == field_piece(code, fields, i),
    decreases n,
{
    if i < n - 1 {
        lemma_split_keeps_each_field(code, fields, (n - 1) as nat, i);
    }
}

/// Whether a code can be cut at the start of every field of a schema, and
/// at the end of the last one: no cut falls within a character.
pub open spec fn cuts_on_boundaries(code: Seq<char>, fields: Seq<FieldDef>) -> bool {
    forall|i: int|
        0 <= i <= fields.len() ==> is_char_boundary(
            encode_utf8(code),
            cut_at(#[trigger] field_start(fields, i) as int, encode_utf8(code).len() as int),
        )
}

/// A code of ASCII characters can be cut anywhere.
pub proof fn lemma_ascii_cuts_on_boundaries(code: Seq<char>, fields: Seq<FieldDef>)
    requires
        is_ascii_chars(code),
    ensures
        cuts_on_boundaries(code, fields),
        encode_utf8(code).len() == code.len(),
{
    let bytes = encode_utf8(code);
    encode_utf8_valid_utf8(code);
    is_ascii_chars_encode_utf8(code);
    is_char_boundary_start_end_of_seq(bytes);
    assert forall|i: int| 0 <= i <= fields.len() implies is_char_boundary(
        bytes,
        cut_at(#[trigger] field_start(fields, i) as int, bytes.len() as int),
    ) by {
        let k = cut_at(field_start(fields, i) as int, bytes.len() as int);
        if k < bytes.len() {
            assert(bytes[k] == code[k] as u8);
            is_char_boundary_iff_not_is_continuation_byte(bytes, k);
        }
    }
}

/// Under distinct keys, and with no cut within a character, the values of
/// the first `n` fields, joined, are the code up to the end of field `n - 1`,
/// or all of a code that ends before.
pub proof fn lemma_joined_is_prefix(code: Seq<char>, fields: Seq<FieldDef>, n: nat)
    requires
        distinct_keys(fields),
        cuts_on_boundaries(code, fields),
        n <= fields.len(),
    ensures
        joined_values(code_values(code, fields), fields, n) == decode_utf8(
            encode_utf8(code).subrange(
                0,
                cut_at(field_start(fields, n as int) as int, encode_utf8(code).len() as int),
            ),
        ),
    decreases n,
{
    let bytes = encode_utf8(code);
    let len = bytes.len() as int;
    encode_utf8_valid_utf8(code);
    if n == 0 {
        lemma_field_start_first(fields);
        assert(bytes.subrange(0, 0) =~= Seq::<u8>::empty());
        assert(valid_utf8(Seq::<u8>::empty()));
    } else {
        lemma_joined_is_prefix(code, fields, (n - 1) as nat);
        lemma_split_keeps_each_field(code, fields, fields.len(), n - 1);
        lemma_field_start_next(fields, n - 1);
        let a = cut_at(field_start(fields, n - 1) as int, len);
        let b = cut_at(field_start(fields, n as int) as int, len);
        assert(is_char_boundary(bytes, a));
        assert(is_char_boundary(bytes, b));
        assert(is_char_boundary(bytes, 0));
        lemma_boundary_of_part(bytes, 0, b, a);
        let head = bytes.subrange(0, b);
        decode_utf8_split(head, a);
        assert(head.subrange(0, a) =~= bytes.subrange(0, a));
        assert(head.subrange(a, head.len() as int) =~= bytes.subrange(a, b));
    }
}

/// A code that is no wider than the fields of a schema with distinct keys,
/// and that no cut divides within a character, is rebuilt from its values:
/// joined in the order of the fields they give the code.
pub proof fn lemma_split_then_join(code: Seq<char>, fields: Seq<FieldDef>)
    requires
        distinct_keys(fields),
        cuts_on_boundaries(code, fields),
        encode_utf8(code).len() <= total_width(fields),
    ensures
        joined_values(code_values(code, fields), fields, fields.len()) == code,
{
    let bytes = encode_utf8(code);
    lemma_joined_is_prefix(code, fields, fields.len());
    assert(fields.take(fields.len() as int) =~= fields);
    assert(bytes.subrange(0, bytes.len() as int) =~= bytes);
    encode_utf8_decode_utf8(code);
}

/// No two fields of the identification code share a key.
pub proof fn lemma_vin_keys_distinct()
    ensures
        distinct_keys(vin_structure()),
{
    reveal_strlit("Country");
    reveal_strlit("AssemblyPlant");
    reveal_strlit("Model");
    reveal_strlit("Body");
    reveal_strlit("Version");
    reveal_strlit("Year");
    reveal_strlit("Month");
    reveal_strlit("Serial");
    reveal_strlit("Drive");
    reveal_strlit("Engine");
    reveal_strlit("Gearbox");
    reveal_strlit("AxleRatio");
    reveal_strlit("AxleLock");
    reveal_strlit("ColorsBody");
    reveal_strlit("VinylRoof");
    reveal_strlit("InteriorTrim");
    reveal_strlit("Radio");
    reveal_strlit("InstrumentPanel");
    reveal_strlit("Windshield");
    reveal_strlit("Seats");
    reveal_strlit("Suspension");
    reveal_strlit("PowerBrakes");
    reveal_strlit("Wheels");
    reveal_strlit("WindowHeater");
    let fields = vin_structure();
    assert forall|i: int, j: int| 0 <= i < j < fields.len() implies (#[trigger] fields[i]).key != (
    #[trigger] fields[j]).key by {
        assert(fields[i].key.len() != fields[j].key.len() || fields[i].key[0] != fields[j].key[0]
            || fields[i].key[1] != fields[j].key[1] || fields[i].key[2] != fields[j].key[2]);
    }
}

/// An identification code of the full width is rebuilt from the values that
/// it was split into, joined in the order of the schema, where no field
/// begins or ends within a character of the code.
pub proof fn lemma_full_code_round_trip(code: Seq<char>)
    requires
        encode_utf8(code).len() == vin_width(),
        cuts_on_boundaries(code, vin_structure()),
    ensures
        joined_values(code_values(code, vin_structure()), vin_structure(), vin_structure().len())
            == code,
{
    lemma_vin_keys_distinct();
    lemma_split_then_join(code, vin_structure());
}

/// An identification code of ASCII characters and of the full width is
/// rebuilt from the values that it was split into.
pub proof fn lemma_ascii_code_round_trip(code: Seq<char>)
    requires
        is_ascii_chars(code),
        code.len() == vin_width(),
    ensures
        joined_values(code_values(code, vin_structure()), vin_structure(), vin_structure().len())
            == code,
{
    lemma_ascii_cuts_on_boundaries(code, vin_structure());
    lemma_full_code_round_trip(code);
}

/// A field that starts at or behind the end of a code gets the empty value:
/// what a code too short for the schema lacks is empty, field by field.
pub proof fn lemma_field_past_the_end_is_empty(code: Seq<char>, i: int)
    requires
        0 <= i < vin_structure().len(),
        field_start(vin_structure(), i) >= encode_utf8(code).len(),
    ensures
        code_values(code, vin_structure()).contains_key(vin_structure()[i].key),
        code_values(code, vin_structure())[vin_structure()[i].key] == Seq::<char>::empty(),
{
    let bytes = encode_utf8(code);
    lemma_vin_keys_distinct();
    lemma_split_keeps_each_field(code, vin_structure(), vin_structure().len(), i);
    assert(bytes.subrange(bytes.len() as int, bytes.len() as int) =~= Seq::<u8>::empty());
    assert(valid_utf8(Seq::<u8>::empty()));
    assert(field_piece(code, vin_structure(), i) =~= Seq::<char>::empty());
}

/// The value of a field takes no more bytes than the field is wide.
pub proof fn lemma_field_value_within_width(code: Seq<char>, fields: Seq<FieldDef>, i: int)
    requires
        0 <= i < fields.len(),
    ensures
        encode_utf8(field_piece(code, fields, i)).len() <= fields[i].width,
{
    let bytes = encode_utf8(code);
    let start = cut_at(field_start(fields, i) as int, bytes.len() as int);
    let end = cut_at((field_start(fields, i) + fields[i].width) as int, bytes.len() as int);
    encode_utf8_valid_utf8(code);
    if is_char_boundary(bytes, start) && is_char_boundary(bytes, end) {
        lemma_boundary_of_part(bytes, start, end, start);
        decode_utf8_encode_utf8(bytes.subrange(start, end));
    } else {
        assert(encode_utf8(Seq::<char>::empty()) =~= Seq::<u8>::empty());
    }
}

/// The keys that the first `n` fields give values to are the keys of those
/// fields, and under distinct keys there are `n` of them.
pub proof fn lemma_one_value_per_field(code: Seq<char>, fields: Seq<FieldDef>, n: nat)
    requires
        n <= fields.len(),
    ensures
        forall|key: Seq<char>|
            split_code(code, fields, n).contains_key(key) <==> exists|i: int|
                0 <= i < n && (#[trigger] fields[i]).key == key,
        split_code(code, fields, n).dom().finite(),
        distinct_keys(fields) ==> split_code(code, fields, n).dom().len() == n,
    decreases n,
{
    if n > 0 {
        let before = split_code(code, fields, (n - 1) as nat);
        let after = split_code(code, fields, n);
        lemma_one_value_per_field(code, fields, (n - 1) as nat);
        assert(after.dom() =~= before.dom().insert(fields[n - 1].key));
        assert forall|key: Seq<char>| after.contains_key(key) <==> exists|i: int|
            0 <= i < n && (#[trigger] fields[i]).key == key by {
            if after.contains_key(key) {
                if key == fields[n - 1].key {
                } else {
                    let i = choose|i: int| 0 <= i < n - 1 && (#[trigger] fields[i]).key == key;
                    assert(0 <= i < n && fields[i].key == key);
                }
            }
        }
        if distinct_keys(fields) {
            if before.contains_key(fields[n - 1].key) {
                let i = choose|i: int|
                    0 <= i < n - 1 && (#[trigger] fields[i]).key == fields[n - 1].key;
                assert(fields[i].key != fields[n - 1].key);
            }
        }
    }
}

/// An identification code always gives one value to each of the 24 fields
/// of the schema, and to nothing else.
pub proof fn lemma_vin_values_per_field(code: Seq<char>)
    ensures
        code_values(code, vin_structure()).dom().finite(),
        code_values(code, vin_structure()).dom().len() == 24,
        forall|key: Seq<char>|
            code_values(code, vin_structure()).contains_key(key) <==> exists|i: int|
                0 <= i < 24 && (#[trigger] vin_structure()[i]).key == key,
{
    lemma_vin_keys_distinct();
    lemma_one_value_per_field(code, vin_structure(), vin_structure().len());
}

} // verus!
