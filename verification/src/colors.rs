//! The colours of the colour fields: which swatch a code of the body
//! colour, the vinyl roof or the interior trim is shown with.

use crate::text::str_eq;
use vstd::prelude::*;

verus! {

/// A colour by its red, green and blue parts.
#[derive(Clone, Copy, Debug, PartialEq, Eq, Structural)]
pub struct Rgb {
    /// The red part.
    pub r: u8,
    /// The green part.
    pub g: u8,
    /// The blue part.
    pub b: u8,
}

/// A colour from its parts.
pub open spec fn rgb(r: u8, g: u8, b: u8) -> Rgb {
    Rgb { r, g, b }
}

/// The colour of a body colour code.
pub open spec fn body_color_of(code: Seq<char>) -> Option<Rgb> {
    if code == "A"@ {
        Some(rgb(64, 64, 64))
    } else if code == "B"@ {
        Some(rgb(240, 240, 240))
    } else if code == "C"@ {
        Some(rgb(210, 180, 140))
    } else if code == "D"@ {
        Some(rgb(80, 80, 80))
    } else if code == "E"@ {
        Some(rgb(0, 80, 200))
    } else if code == "F"@ {
        Some(rgb(255, 220, 40))
    } else if code == "G"@ {
        Some(rgb(10, 10, 60))
    } else if code == "H"@ {
        Some(rgb(180, 0, 0))
    } else if code == "I"@ {
        Some(rgb(120, 80, 40))
    } else if code == "J"@ {
        Some(rgb(200, 0, 0))
    } else if code == "K"@ {
        Some(rgb(0, 200, 80))
    } else if code == "L"@ {
        Some(rgb(255, 255, 255))
    } else if code == "M"@ {
        Some(rgb(120, 255, 120))
    } else if code == "R"@ {
        Some(rgb(160, 0, 160))
    } else if code == "T"@ {
        Some(rgb(255, 255, 0))
    } else if code == "U"@ {
        Some(rgb(120, 180, 255))
    } else if code == "V"@ {
        Some(rgb(255, 120, 0))
    } else if code == "X"@ {
        Some(rgb(0, 0, 120))
    } else if code == "Y"@ {
        Some(rgb(212, 175, 55))
    } else {
        None
    }
}

/// The colour of a vinyl roof code.
pub open spec fn roof_color_of(code: Seq<char>) -> Option<Rgb> {
    if code == "-"@ {
        Some(rgb(200, 200, 200))
    } else if code == "A"@ {
        Some(rgb(20, 20, 20))
    } else if code == "B"@ {
        Some(rgb(255, 255, 255))
    } else if code == "C"@ {
        Some(rgb(210, 180, 140))
    } else if code == "K"@ {
        Some(rgb(0, 80, 200))
    } else if code == "M"@ {
        Some(rgb(80, 40, 20))
    } else {
        None
    }
}

/// The colour of an interior trim code.
pub open spec fn trim_color_of(code: Seq<char>) -> Option<Rgb> {
    if code == "N"@ {
        Some(rgb(200, 0, 0))
    } else if code == "A"@ {
        Some(rgb(20, 20, 20))
    } else if code == "K"@ {
        Some(rgb(210, 180, 140))
    } else if code == "F"@ {
        Some(rgb(0, 80, 200))
    } else if code == "Y"@ {
        Some(rgb(212, 175, 55))
    } else {
        None
    }
}

/// The colour that a code of a field stands for. Only the three colour
/// fields have colours, and of their codes only the known ones.
pub open spec fn color_of(field: Seq<char>, code: Seq<char>) -> Option<Rgb> {
    if field == "ColorsBody"@ {
        body_color_of(code)
    } else if field == "VinylRoof"@ {
        roof_color_of(code)
    } else if field == "InteriorTrim"@ {
        trim_color_of(code)
    } else {
        None
    }
}

/// The colour of the swatch beside a field's value. A vinyl roof with the
/// code `-` is paint, and paint has the colour of the body: where the body
/// colour's code is at hand, the swatch is the one of that code.
pub open spec fn swatch_of(field: Seq<char>, value: Seq<char>, body_color: Option<Seq<char>>) -> Option<
    Rgb,
> {
    if field == "VinylRoof"@ && value == "-"@ && body_color is Some {
        color_of("ColorsBody"@, body_color->0)
    } else {
        color_of(field, value)
    }
}

fn body_color(code: &str) -> (color: Option<Rgb>)
    ensures
        color == body_color_of(code@),
{
    if str_eq(code, "A") {
        Some(Rgb { r: 64, g: 64, b: 64 })
    } else if str_eq(code, "B") {
        Some(Rgb { r: 240, g: 240, b: 240 })
    } else if str_eq(code, "C") {
        Some(Rgb { r: 210, g: 180, b: 140 })
    } else if str_eq(code, "D") {
        Some(Rgb { r: 80, g: 80, b: 80 })
    } else if str_eq(code, "E") {
        Some(Rgb { r: 0, g: 80, b: 200 })
    } else if str_eq(code, "F") {
        Some(Rgb { r: 255, g: 220, b: 40 })
    } else if str_eq(code, "G") {
        Some(Rgb { r: 10, g: 10, b: 60 })
    } else if str_eq(code, "H") {
        Some(Rgb { r: 180, g: 0, b: 0 })
    } else if str_eq(code, "I") {
        Some(Rgb { r: 120, g: 80, b: 40 })
    } else if str_eq(code, "J") {
        Some(Rgb { r: 200, g: 0, b: 0 })
    } else if str_eq(code, "K") {
        Some(Rgb { r: 0, g: 200, b: 80 })
    } else if str_eq(code, "L") {
        Some(Rgb { r: 255, g: 255, b: 255 })
    } else if str_eq(code, "M") {
        Some(Rgb { r: 120, g: 255, b: 120 })
    } else if str_eq(code, "R") {
        Some(Rgb { r: 160, g: 0, b: 160 })
    } else if str_eq(code, "T") {
        Some(Rgb { r: 255, g: 255, b: 0 })
    } else if str_eq(code, "U") {
        Some(Rgb { r: 120, g: 180, b: 255 })
    } else if str_eq(code, "V") {
        Some(Rgb { r: 255, g: 120, b: 0 })
    } else if str_eq(code, "X") {
        Some(Rgb { r: 0, g: 0, b: 120 })
    } else if str_eq(code, "Y") {
        Some(Rgb { r: 212, g: 175, b: 55 })
    } else {
        None
    }
}

fn roof_color(code: &str) -> (color: Option<Rgb>)
    ensures
        color == roof_color_of(code@),
{
    if str_eq(code, "-") {
        Some(Rgb { r: 200, g: 200, b: 200 })
    } else if str_eq(code, "A") {
        Some(Rgb { r: 20, g: 20, b: 20 })
    } else if str_eq(code, "B") {
        Some(Rgb { r: 255, g: 255, b: 255 })
    } else if str_eq(code, "C") {
        Some(Rgb { r: 210, g: 180, b: 140 })
    } else if str_eq(code, "K") {
        Some(Rgb { r: 0, g: 80, b: 200 })
    } else if str_eq(code, "M") {
        Some(Rgb { r: 80, g: 40, b: 20 })
    } else {
        None
    }
}

fn trim_color(code: &str) -> (color: Option<Rgb>)
    ensures
        color == trim_color_of(code@),
{
    if str_eq(code, "N") {
        Some(Rgb { r: 200, g: 0, b: 0 })
    } else if str_eq(code, "A") {
        Some(Rgb { r: 20, g: 20, b: 20 })
    } else if str_eq(code, "K") {
        Some(Rgb { r: 210, g: 180, b: 140 })
    } else if str_eq(code, "F") {
        Some(Rgb { r: 0, g: 80, b: 200 })
    } else if str_eq(code, "Y") {
        Some(Rgb { r: 212, g: 175, b: 55 })
    } else {
        None
    }
}

/// The colour that a code of a field stands for, if it stands for one.
pub fn color_for_code_with_field(field: &str, code: &str) -> (color: Option<Rgb>)
    ensures
        color == color_of(field@, code@),
{
    if str_eq(field, "ColorsBody") {
        body_color(code)
    } else if str_eq(field, "VinylRoof") {
        roof_color(code)
    } else if str_eq(field, "InteriorTrim") {
        trim_color(code)
    } else {
        None
    }
}

/// The colour of the swatch to show beside a field's value, if any.
/// `body_color` is the code of the body colour, where it is known.
pub fn swatch_color(field_key: &str, val: &str, body_color: Option<&str>) -> (color: Option<Rgb>)
    ensures
        color == swatch_of(
            field_key@,
            val@,
            match body_color {
                Some(code) => Some(code@),
                None => None,
            },
        ),
{
    if str_eq(field_key, "ColorsBody") || str_eq(field_key, "VinylRoof") || str_eq(
        field_key,
        "InteriorTrim",
    ) {
        let mut color = color_for_code_with_field(field_key, val);
        if str_eq(field_key, "VinylRoof") && str_eq(val, "-") {
            if let Some(body_val) = body_color {
                color = color_for_code_with_field("ColorsBody", body_val);
            }
        }
        color
    } else {
        None
    }
}

/// A painted roof is shown in the colour of the body: with the code `-` the
/// vinyl roof gets the swatch that the body colour's own field gets for the
/// body colour's code, whatever that code is.
pub proof fn lemma_painted_roof_takes_body_color(body_code: Seq<char>, other: Option<Seq<char>>)
    ensures
        swatch_of("VinylRoof"@, "-"@, Some(body_code)) == swatch_of(
            "ColorsBody"@,
            body_code,
            other,
        ),
        swatch_of("VinylRoof"@, "-"@, Some(body_code)) == color_of("ColorsBody"@, body_code),
{
    reveal_strlit("VinylRoof");
    reveal_strlit("ColorsBody");
    assert("ColorsBody"@.len() != "VinylRoof"@.len());
}

} // verus!
