//! The listing of decoded fields: for each field of the schema its raw
//! value, what the value stands for, and the swatch to show with it.

use crate::colors::{swatch_color, swatch_of, Rgb};
use crate::schema::{fields_view, FieldDef, VinField};
use crate::tables::{description_of, DecodeMap};
use crate::text::str_eq;
use crate::values::{value_of, FieldValues};
use vstd::prelude::*;
use vstd::string::*;

verus! {

/// What a listing says of a field's raw value. A code that the tables know
/// has its description. Of the others `-` stands for the standard fitting,
/// or for none; an empty value says nothing, nor does any serial number,
/// which is no code; whatever else the tables do not know is marked as
/// unknown.
pub open spec fn status_of(
    tables: Map<Seq<char>, Map<Seq<char>, Seq<char>>>,
    field: Seq<char>,
    value: Seq<char>,
) -> Seq<char> {
    match description_of(tables, field, value) {
        Some(description) => description,
        None => if value == "-"@ {
            "Standard / None"@
        } else if field != "Serial"@ && value.len() > 0 {
            "!! [UNKNOWN] !!"@
        } else {
            ""@
        },
    }
}

/// What the listing says of a field's raw value.
pub fn status_text(decode_map: &DecodeMap, field_key: &str, val: &str) -> (status: &'static str)
    ensures
        status@ == status_of(decode_map@, field_key@, val@),
{
    match decode_map.lookup(field_key, val) {
        Some(description) => description,
        None => {
            if str_eq(val, "-") {
                "Standard / None"
            } else if !str_eq(field_key, "Serial") && !val.is_empty() {
                "!! [UNKNOWN] !!"
            } else {
                ""
            }
        },
    }
}

/// The note on the equipment that comes with a version: with the version `G`
/// and the instrument panel `M` that of the tachometer package, with the
/// version `P` that of the GT, and none with any other.
pub open spec fn package_note_of(version: Seq<char>, panel: Seq<char>) -> Option<Seq<char>> {
    if version == "G"@ && panel == "M"@ {
        Some("SLX + Tachometer Package: Center console & Sport steering wheel "@)
    } else if version == "P"@ {
        Some("GT Equipment: Sport steering wheel, Special gear stick & Quick steering ratio"@)
    } else {
        None
    }
}

/// The note on the equipment that comes with a version and an instrument
/// panel, if there is one.
pub fn package_note(version: &str, panel: &str) -> (note: Option<&'static str>)
    ensures
        match note {
            Some(text) => package_note_of(version@, panel@) == Some(text@),
            None => package_note_of(version@, panel@) is None,
        },
{
    if str_eq(version, "G") && str_eq(panel, "M") {
        Some("SLX + Tachometer Package: Center console & Sport steering wheel ")
    } else if str_eq(version, "P") {
        Some("GT Equipment: Sport steering wheel, Special gear stick & Quick steering ratio")
    } else {
        None
    }
}

/// One row of the listing.
#[derive(Clone, Copy, Debug)]
pub struct TableRow<'a> {
    /// The field's display name.
    pub display: &'static str,
    /// The field's raw value.
    pub value: &'a str,
    /// What the value stands for.
    pub status: &'static str,
    /// The colour of the swatch beside it, if it has one.
    pub swatch: Option<Rgb>,
}

/// A row as the contracts speak of it.
pub struct RowDef {
    /// The field's display name.
    pub display: Seq<char>,
    /// The field's raw value.
    pub value: Seq<char>,
    /// What the value stands for.
    pub status: Seq<char>,
    /// The colour of the swatch beside it, if it has one.
    pub swatch: Option<Rgb>,
}

impl<'a> View for TableRow<'a> {
    type V = RowDef;

    open spec fn view(&self) -> RowDef {
        RowDef {
            display: self.display@,
            value: self.value@,
            status: self.status@,
            swatch: self.swatch,
        }
    }
}

/// What the row of a field says of the field's value among field values.
/// A vinyl roof with the code `-` is paint in the colour of the body: its
/// row says what the tables say of the body colour's code, where they know
/// that code. Every other row, and that of a painted roof beside a body
/// colour that the tables do not know, says what the listing says of the
/// field's own value.
pub open spec fn row_status_of(
    tables: Map<Seq<char>, Map<Seq<char>, Seq<char>>>,
    values: Map<Seq<char>, Seq<char>>,
    field: Seq<char>,
) -> Seq<char> {
    let value = value_of(values, field);
    if field == "VinylRoof"@ && value == "-"@ {
        match description_of(tables, "ColorsBody"@, value_of(values, "ColorsBody"@)) {
            Some(description) => description,
            None => status_of(tables, field, value),
        }
    } else {
        status_of(tables, field, value)
    }
}

/// What the row of a field says of the field's value.
pub fn row_status(decode_map: &DecodeMap, values: &FieldValues, field_key: &str) -> (status:
    &'static str)
    ensures
        status@ == row_status_of(decode_map@, values@, field_key@),
{
    let value = values.value(field_key);
    if str_eq(field_key, "VinylRoof") && str_eq(value, "-") {
        match decode_map.lookup("ColorsBody", values.value("ColorsBody")) {
            Some(description) => description,
            None => status_text(decode_map, field_key, value),
        }
    } else {
        status_text(decode_map, field_key, value)
    }
}

/// A painted roof reads as the body does: where the vinyl roof has the code
/// `-` and the tables know the code of the body colour, the row of the vinyl
/// roof and the row of the body colour say the same, the description of the
/// body colour's code.
pub proof fn lemma_painted_roof_takes_body_description(
    tables: Map<Seq<char>, Map<Seq<char>, Seq<char>>>,
    values: Map<Seq<char>, Seq<char>>,
)
    requires
        value_of(values, "VinylRoof"@) == "-"@,
        description_of(tables, "ColorsBody"@, value_of(values, "ColorsBody"@)) is Some,
    ensures
        row_status_of(tables, values, "VinylRoof"@) == row_status_of(
            tables,
            values,
            "ColorsBody"@,
        ),
        Some(row_status_of(tables, values, "VinylRoof"@)) == description_of(
            tables,
            "ColorsBody"@,
            value_of(values, "ColorsBody"@),
        ),
{
    reveal_strlit("VinylRoof");
    reveal_strlit("ColorsBody");
    assert("ColorsBody"@.len() != "VinylRoof"@.len());
}

/// The row of a field: its value among the field values, what the row says
/// of it, and its swatch, for which the body colour is the value of the
/// body colour's field.
pub open spec fn row_of(
    tables: Map<Seq<char>, Map<Seq<char>, Seq<char>>>,
    values: Map<Seq<char>, Seq<char>>,
    field: FieldDef,
) -> RowDef {
    let value = value_of(values, field.key);
    RowDef {
        display: field.display,
        value,
        status: row_status_of(tables, values, field.key),
        swatch: swatch_of(field.key, value, Some(value_of(values, "ColorsBody"@))),
    }
}

/// The listing of field values: one row for each field of the schema, in
/// the schema's order.
pub fn vin_table<'a>(decode_map: &DecodeMap, values: &'a FieldValues, fields: &Vec<VinField>) -> (rows:
    Vec<TableRow<'a>>)
    ensures
        rows.len() == fields.len(),
        forall|i: int|
            0 <= i < rows.len() ==> (#[trigger] rows[i])@ == row_of(
                decode_map@,
                values@,
                fields[i]@,
            ),
{
    let mut rows: Vec<TableRow<'a>> = Vec::new();
    let mut i: usize = 0;
    while i < fields.len()
        invariant
            i <= fields.len(),
            rows.len() == i,
            forall|j: int|
                0 <= j < i ==> (#[trigger] rows[j])@ == row_of(decode_map@, values@, fields[j]@),
        decreases fields.len() - i,
    {
        let field = &fields[i];
        let value = values.value(field.key);
        let status = row_status(decode_map, values, field.key);
        let swatch = swatch_color(field.key, value, Some(values.value("ColorsBody")));
        rows.push(TableRow { display: field.display, value, status, swatch });
        i += 1;
    }
    rows
}

} // verus!
