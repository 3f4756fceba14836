//! The field schema: the ordered, fixed-width fields of an identification
//! code. Its order is that of the code's positions and of any listing.

use vstd::prelude::*;

verus! {

/// One field of the identification code.
#[derive(Clone, Copy, Debug)]
pub struct VinField {
    /// The key under which the field's value is kept and looked up.
    pub key: &'static str,
    /// The name that a listing shows for the field.
    pub display: &'static str,
    /// The number of bytes that the field takes in the code.
    pub len: usize,
}

/// A field as the contracts speak of it.
pub struct FieldDef {
    /// The field's key.
    pub key: Seq<char>,
    /// The field's display name.
    pub display: Seq<char>,
    /// The field's width in bytes of the code.
    pub width: nat,
}

impl View for VinField {
    type V = FieldDef;

    open spec fn view(&self) -> FieldDef {
        FieldDef { key: self.key@, display: self.display@, width: self.len as nat }
    }
}

/// A field definition from its parts.
pub open spec fn field_def(key: Seq<char>, display: Seq<char>, width: nat) -> FieldDef {
    FieldDef { key, display, width }
}

/// Fields as the contracts speak of them.
pub open spec fn fields_view(fields: Seq<VinField>) -> Seq<FieldDef> {
    Seq::new(fields.len(), |i: int| fields[i]@)
}

/// The fields of the identification code, in the order of their positions.
pub open spec fn vin_structure() -> Seq<FieldDef> {
    seq![
        field_def("Country"@, "Country"@, 1),
        field_def("AssemblyPlant"@, "Assembly Plant"@, 1),
        field_def("Model"@, "Model"@, 1),
        field_def("Body"@, "Body"@, 1),
        field_def("Version"@, "Version"@, 1),
        field_def("Year"@, "Year"@, 1),
        field_def("Month"@, "Month"@, 1),
        field_def("Serial"@, "Serial"@, 5),
        field_def("Drive"@, "Drive"@, 1),
        field_def("Engine"@, "Engine"@, 2),
        field_def("Gearbox"@, "Gearbox"@, 1),
        field_def("AxleRatio"@, "Axle Ratio"@, 1),
        field_def("AxleLock"@, "Axle Lock"@, 1),
        field_def("ColorsBody"@, "Body Colour"@, 1),
        field_def("VinylRoof"@, "Vinyl Roof"@, 1),
        field_def("InteriorTrim"@, "Interior Trim"@, 1),
        field_def("Radio"@, "Radio"@, 1),
        field_def("InstrumentPanel"@, "Instrument Panel"@, 1),
        field_def("Windshield"@, "Windshield"@, 1),
        field_def("Seats"@, "Seats"@, 1),
        field_def("Suspension"@, "Suspension"@, 1),
        field_def("PowerBrakes"@, "Brakes"@, 1),
        field_def("Wheels"@, "Wheels"@, 1),
        field_def("WindowHeater"@, "Rear Window"@, 1),
    ]
}

/// The sum of the widths of fields.
pub open spec fn total_width(fields: Seq<FieldDef>) -> nat
    decreases fields.len(),
{
    if fields.len() == 0 {
        0
    } else {
        total_width(fields.drop_last()) + fields.last().width
    }
}

/// The position in the code at which field `i` starts: the sum of the widths
/// of the fields before it.
pub open spec fn field_start(fields: Seq<FieldDef>, i: int) -> nat {
    total_width(fields.take(i))
}

/// The number of bytes of a full identification code.
pub open spec fn vin_width() -> nat {
    total_width(vin_structure())
}

/// The field schema of the identification code.
pub fn schema() -> (fields: Vec<VinField>)
    ensures
        fields_view(fields@) == vin_structure(),
{
    let mut fields: Vec<VinField> = Vec::new();
    fields.push(VinField { key: "Country", display: "Country", len: 1 });
    fields.push(VinField { key: "AssemblyPlant", display: "Assembly Plant", len: 1 });
    fields.push(VinField { key: "Model", display: "Model", len: 1 });
    fields.push(VinField { key: "Body", display: "Body", len: 1 });
    fields.push(VinField { key: "Version", display: "Version", len: 1 });
    fields.push(VinField { key: "Year", display: "Year", len: 1 });
    fields.push(VinField { key: "Month", display: "Month", len: 1 });
    fields.push(VinField { key: "Serial", display: "Serial", len: 5 });
    fields.push(VinField { key: "Drive", display: "Drive", len: 1 });
    fields.push(VinField { key: "Engine", display: "Engine", len: 2 });
    fields.push(VinField { key: "Gearbox", display: "Gearbox", len: 1 });
    fields.push(VinField { key: "AxleRatio", display: "Axle Ratio", len: 1 });
    fields.push(VinField { key: "AxleLock", display: "Axle Lock", len: 1 });
    fields.push(VinField { key: "ColorsBody", display: "Body Colour", len: 1 });
    fields.push(VinField { key: "VinylRoof", display: "Vinyl Roof", len: 1 });
    fields.push(VinField { key: "InteriorTrim", display: "Interior Trim", len: 1 });
    fields.push(VinField { key: "Radio", display: "Radio", len: 1 });
    fields.push(VinField { key: "InstrumentPanel", display: "Instrument Panel", len: 1 });
    fields.push(VinField { key: "Windshield", display: "Windshield", len: 1 });
    fields.push(VinField { key: "Seats", display: "Seats", len: 1 });
    fields.push(VinField { key: "Suspension", display: "Suspension", len: 1 });
    fields.push(VinField { key: "PowerBrakes", display: "Brakes", len: 1 });
    fields.push(VinField { key: "Wheels", display: "Wheels", len: 1 });
    fields.push(VinField { key: "WindowHeater", display: "Rear Window", len: 1 });
    assert(fields_view(fields@) =~= vin_structure());
    fields
}

/// Adds up the widths of fields.
pub fn total_len(fields: &Vec<VinField>) -> (total: usize)
    requires
        total_width(fields_view(fields@)) <= usize::MAX,
    ensures
        total == total_width(fields_view(fields@)),
{
    let ghost all = fields_view(fields@);
    let mut total: usize = 0;
    let mut i: usize = 0;
    while i < fields.len()
        invariant
            i <= fields.len(),
            all == fields_view(fields@),
            total == total_width(all.take(i as int)),
            total_width(all) <= usize::MAX,
        decreases fields.len() - i,
    {
        proof {
            assert(all.take(i + 1).drop_last() =~= all.take(i as int));
            lemma_total_width_grows(all, i + 1);
        }
        total = total + fields[i].len;
        i += 1;
    }
    assert(all.take(i as int) =~= all);
    total
}

/// The widths of the first fields add up to no more than those of all.
pub proof fn lemma_total_width_grows(fields: Seq<FieldDef>, i: int)
    requires
        0 <= i <= fields.len(),
    ensures
        total_width(fields.take(i)) <= total_width(fields),
    decreases fields.len(),
{
    if i < fields.len() {
        assert(fields.drop_last().take(i) =~= fields.take(i));
        lemma_total_width_grows(fields.drop_last(), i);
    } else {
        assert(fields.take(i) =~= fields);
    }
}

/// The length that a full identification code has: the sum of the widths of
/// the schema's fields.
pub fn expected_code_len() -> (total: usize)
    ensures
        total == vin_width(),
        total == 29,
{
    proof {
        lemma_vin_width();
    }
    total_len(&schema())
}

/// The schema's widths add up to 29.
pub proof fn lemma_vin_width()
    ensures
        vin_width() == 29,
{
    reveal_with_fuel(total_width, 25);
}

} // verus!
