use vin_decoder::colors::{color_for_code_with_field, swatch_color, Rgb};
use vin_decoder::listing::{package_note, row_status, status_text, vin_table};
use vin_decoder::code::parse_vin;
use vin_decoder::schema::schema;
use vin_decoder::tables::{decode_map, CodeTable, DecodeMap};
use vin_decoder::values::FieldValues;

fn rgb(r: u8, g: u8, b: u8) -> Option<Rgb> {
    Some(Rgb { r, g, b })
}

#[test]
fn codes_have_their_descriptions() {
    let map = decode_map();
    assert_eq!(map.lookup("Country", "U"), Some("Corris Britain"));
    assert_eq!(map.lookup("AssemblyPlant", "K"), Some("Rheine"));
    assert_eq!(map.lookup("Model", "B"), Some("Rivett"));
    assert_eq!(map.lookup("Body", "B"), Some("2D Pillared Sedan"));
    assert_eq!(map.lookup("Version", "G"), Some("SLX"));
    assert_eq!(map.lookup("Year", "L"), Some("1971"));
    assert_eq!(map.lookup("Year", "P"), Some("1974 (Facelift)"));
    assert_eq!(map.lookup("Month", "C"), Some("01"));
    assert_eq!(map.lookup("Month", "P"), Some("12"));
    assert_eq!(map.lookup("Drive", "1"), Some("RWD"));
    assert_eq!(map.lookup("Engine", "NA"), Some("Standard 2.0"));
    assert_eq!(map.lookup("Engine", "NE"), Some("High Performance 2.0"));
    assert_eq!(map.lookup("Gearbox", "7"), Some("3-spd Automatic"));
    assert_eq!(map.lookup("AxleRatio", "E"), Some("4.44"));
    assert_eq!(map.lookup("AxleLock", "B"), Some("LSD"));
    assert_eq!(map.lookup("ColorsBody", "E"), Some("Blue"));
    assert_eq!(map.lookup("ColorsBody", "Y"), Some("Special"));
    assert_eq!(map.lookup("VinylRoof", "-"), Some("Paint"));
    assert_eq!(map.lookup("InteriorTrim", "N"), Some("Red"));
    assert_eq!(map.lookup("Radio", "-"), Some("Radio delete"));
    assert_eq!(map.lookup("InstrumentPanel", "M"), Some("Tachometer"));
    assert_eq!(map.lookup("Windshield", "F"), Some("Sunstrip"));
    assert_eq!(map.lookup("Seats", "8"), Some("Standard"));
    assert_eq!(map.lookup("Suspension", "M"), Some("Lowered + Stiffened"));
    assert_eq!(map.lookup("PowerBrakes", "B"), Some("Power Brakes"));
    assert_eq!(map.lookup("Wheels", "M"), Some("14\" Steel / 14\" Octo"));
    assert_eq!(map.lookup("WindowHeater", "M"), Some("Standard + Window Grille"));
}

#[test]
fn every_table_has_its_codes() {
    let map = decode_map();
    let sizes = [
        ("Country", 1),
        ("AssemblyPlant", 4),
        ("Model", 1),
        ("Body", 1),
        ("Version", 4),
        ("Year", 6),
        ("Month", 12),
        ("Drive", 1),
        ("Engine", 2),
        ("Gearbox", 2),
        ("AxleRatio", 5),
        ("AxleLock", 2),
        ("ColorsBody", 19),
        ("VinylRoof", 6),
        ("InteriorTrim", 5),
        ("Radio", 2),
        ("InstrumentPanel", 3),
        ("Windshield", 3),
        ("Seats", 2),
        ("Suspension", 4),
        ("PowerBrakes", 2),
        ("Wheels", 4),
        ("WindowHeater", 3),
    ];
    let codes = "-0123456789ABCDEFGHIJKLMNOPQRSTUVWXYZ";
    let mut all: Vec<String> = codes.chars().map(|c| c.to_string()).collect();
    all.push("NA".to_string());
    all.push("NE".to_string());
    for (field, size) in sizes {
        assert!(map.get(field).is_some(), "field {}", field);
        let known = all.iter().filter(|c| map.lookup(field, c).is_some()).count();
        assert_eq!(known, size, "field {}", field);
    }
}

#[test]
fn unknown_codes_have_no_description() {
    let map = decode_map();
    assert_eq!(map.lookup("Country", "X"), None);
    assert_eq!(map.lookup("Country", ""), None);
    assert_eq!(map.lookup("Country", "u"), None);
    assert_eq!(map.lookup("Country", "UU"), None);
    assert_eq!(map.lookup("Engine", "N"), None);
    assert_eq!(map.lookup("Seats", "-"), None);
    assert_eq!(map.lookup("Serial", "00042"), None);
    assert_eq!(map.lookup("NoSuchField", "U"), None);
    assert_eq!(map.lookup("", "U"), None);
    assert!(map.get("Serial").is_none());
}

#[test]
fn tables_can_be_built() {
    let mut table = CodeTable::new();
    assert_eq!(table.get("a"), None);
    table.insert("a", "first");
    table.insert("b", "second");
    table.insert("a", "again");
    assert_eq!(table.get("a"), Some("again"));
    assert_eq!(table.get("b"), Some("second"));
    let mut map = DecodeMap::new();
    assert_eq!(map.lookup("f", "a"), None);
    map.insert("f", table);
    assert_eq!(map.lookup("f", "a"), Some("again"));
    assert_eq!(map.lookup("g", "a"), None);
    map.insert("f", CodeTable::new());
    assert_eq!(map.lookup("f", "a"), None);
}

#[test]
fn what_the_listing_says_of_a_value() {
    let map = decode_map();
    assert_eq!(status_text(&map, "Year", "L"), "1971");
    assert_eq!(status_text(&map, "VinylRoof", "-"), "Paint");
    assert_eq!(status_text(&map, "Seats", "-"), "Standard / None");
    assert_eq!(status_text(&map, "Serial", "-"), "Standard / None");
    assert_eq!(status_text(&map, "Year", "Z"), "!! [UNKNOWN] !!");
    assert_eq!(status_text(&map, "Engine", "N"), "!! [UNKNOWN] !!");
    assert_eq!(status_text(&map, "NoSuchField", "A"), "!! [UNKNOWN] !!");
    assert_eq!(status_text(&map, "Serial", "00042"), "");
    assert_eq!(status_text(&map, "Year", ""), "");
    assert_eq!(status_text(&map, "Serial", ""), "");
}

#[test]
fn equipment_notes() {
    assert_eq!(
        package_note("G", "M"),
        Some("SLX + Tachometer Package: Center console & Sport steering wheel ")
    );
    assert_eq!(
        package_note("P", "M"),
        Some("GT Equipment: Sport steering wheel, Special gear stick & Quick steering ratio")
    );
    assert_eq!(
        package_note("P", ""),
        Some("GT Equipment: Sport steering wheel, Special gear stick & Quick steering ratio")
    );
    assert_eq!(package_note("G", "G"), None);
    assert_eq!(package_note("D", "M"), None);
    assert_eq!(package_note("", ""), None);
}

#[test]
fn colours_of_the_colour_fields() {
    assert_eq!(color_for_code_with_field("ColorsBody", "A"), rgb(64, 64, 64));
    assert_eq!(color_for_code_with_field("ColorsBody", "E"), rgb(0, 80, 200));
    assert_eq!(color_for_code_with_field("ColorsBody", "L"), rgb(255, 255, 255));
    assert_eq!(color_for_code_with_field("ColorsBody", "Y"), rgb(212, 175, 55));
    assert_eq!(color_for_code_with_field("ColorsBody", "-"), None);
    assert_eq!(color_for_code_with_field("ColorsBody", "N"), None);
    assert_eq!(color_for_code_with_field("VinylRoof", "-"), rgb(200, 200, 200));
    assert_eq!(color_for_code_with_field("VinylRoof", "A"), rgb(20, 20, 20));
    assert_eq!(color_for_code_with_field("VinylRoof", "M"), rgb(80, 40, 20));
    assert_eq!(color_for_code_with_field("VinylRoof", "E"), None);
    assert_eq!(color_for_code_with_field("InteriorTrim", "N"), rgb(200, 0, 0));
    assert_eq!(color_for_code_with_field("InteriorTrim", "F"), rgb(0, 80, 200));
    assert_eq!(color_for_code_with_field("InteriorTrim", "B"), None);
    assert_eq!(color_for_code_with_field("Radio", "A"), None);
    assert_eq!(color_for_code_with_field("", "A"), None);
}

#[test]
fn every_colour_code_has_its_colour() {
    let body = [
        ("A", 64, 64, 64),
        ("B", 240, 240, 240),
        ("C", 210, 180, 140),
        ("D", 80, 80, 80),
        ("E", 0, 80, 200),
        ("F", 255, 220, 40),
        ("G", 10, 10, 60),
        ("H", 180, 0, 0),
        ("I", 120, 80, 40),
        ("J", 200, 0, 0),
        ("K", 0, 200, 80),
        ("L", 255, 255, 255),
        ("M", 120, 255, 120),
        ("R", 160, 0, 160),
        ("T", 255, 255, 0),
        ("U", 120, 180, 255),
        ("V", 255, 120, 0),
        ("X", 0, 0, 120),
        ("Y", 212, 175, 55),
    ];
    for (code, r, g, b) in body {
        assert_eq!(color_for_code_with_field("ColorsBody", code), rgb(r, g, b), "code {}", code);
    }
    let roof = [
        ("-", 200, 200, 200),
        ("A", 20, 20, 20),
        ("B", 255, 255, 255),
        ("C", 210, 180, 140),
        ("K", 0, 80, 200),
        ("M", 80, 40, 20),
    ];
    for (code, r, g, b) in roof {
        assert_eq!(color_for_code_with_field("VinylRoof", code), rgb(r, g, b), "code {}", code);
    }
    let trim = [
        ("N", 200, 0, 0),
        ("A", 20, 20, 20),
        ("K", 210, 180, 140),
        ("F", 0, 80, 200),
        ("Y", 212, 175, 55),
    ];
    for (code, r, g, b) in trim {
        assert_eq!(color_for_code_with_field("InteriorTrim", code), rgb(r, g, b), "code {}", code);
    }
}

#[test]
fn painted_roof_has_the_colour_of_the_body() {
    assert_eq!(swatch_color("VinylRoof", "-", Some("E")), rgb(0, 80, 200));
    assert_eq!(
        swatch_color("VinylRoof", "-", Some("E")),
        color_for_code_with_field("ColorsBody", "E")
    );
    assert_eq!(
        swatch_color("VinylRoof", "-", Some("E")),
        swatch_color("ColorsBody", "E", Some("E"))
    );
    for code in ["A", "B", "H", "Y", "Z", "", "-"] {
        assert_eq!(
            swatch_color("VinylRoof", "-", Some(code)),
            color_for_code_with_field("ColorsBody", code),
            "body colour {}",
            code
        );
    }
}

#[test]
fn swatches_of_the_other_values() {
    assert_eq!(swatch_color("VinylRoof", "-", None), rgb(200, 200, 200));
    assert_eq!(swatch_color("VinylRoof", "-", Some("?")), None);
    assert_eq!(swatch_color("VinylRoof", "A", Some("E")), rgb(20, 20, 20));
    assert_eq!(swatch_color("ColorsBody", "H", Some("E")), rgb(180, 0, 0));
    assert_eq!(swatch_color("ColorsBody", "-", Some("E")), None);
    assert_eq!(swatch_color("InteriorTrim", "-", Some("E")), None);
    assert_eq!(swatch_color("InteriorTrim", "K", None), rgb(210, 180, 140));
    assert_eq!(swatch_color("Radio", "-", Some("E")), None);
    assert_eq!(swatch_color("Seats", "A", Some("E")), None);
}

#[test]
fn listing_of_a_code() {
    let map = decode_map();
    let values = parse_vin("UABBGLC000421NABSAE-A-M18A-AB");
    let rows = vin_table(&map, &values, &schema());
    assert_eq!(rows.len(), 24);
    let row = |i: usize| (rows[i].display, rows[i].value, rows[i].status, rows[i].swatch);
    assert_eq!(row(0), ("Country", "U", "Corris Britain", None));
    assert_eq!(row(1), ("Assembly Plant", "A", "Dagenham", None));
    assert_eq!(row(4), ("Version", "G", "SLX", None));
    assert_eq!(row(5), ("Year", "L", "1971", None));
    assert_eq!(row(6), ("Month", "C", "01", None));
    assert_eq!(row(7), ("Serial", "00042", "", None));
    assert_eq!(row(9), ("Engine", "NA", "Standard 2.0", None));
    assert_eq!(row(11), ("Axle Ratio", "S", "3.44", None));
    assert_eq!(row(13), ("Body Colour", "E", "Blue", rgb(0, 80, 200)));
    assert_eq!(row(14), ("Vinyl Roof", "-", "Blue", rgb(0, 80, 200)));
    assert_eq!(row(15), ("Interior Trim", "A", "Black", rgb(20, 20, 20)));
    assert_eq!(row(16), ("Radio", "-", "Radio delete", None));
    assert_eq!(row(17), ("Instrument Panel", "M", "Tachometer", None));
    assert_eq!(row(19), ("Seats", "8", "Standard", None));
    assert_eq!(row(21), ("Brakes", "-", "Standard", None));
    assert_eq!(row(23), ("Rear Window", "B", "Heated", None));
    assert_eq!(
        package_note(values.value("Version"), values.value("InstrumentPanel")),
        Some("SLX + Tachometer Package: Center console & Sport steering wheel ")
    );
}

#[test]
fn painted_roof_reads_as_the_body_does() {
    let map = decode_map();
    let mut values = FieldValues::new();
    values.insert("VinylRoof", "-");
    values.insert("ColorsBody", "E");
    assert_eq!(row_status(&map, &values, "VinylRoof"), "Blue");
    assert_eq!(row_status(&map, &values, "VinylRoof"), row_status(&map, &values, "ColorsBody"));
    assert_eq!(Some(row_status(&map, &values, "VinylRoof")), map.lookup("ColorsBody", "E"));
    for code in ["A", "H", "L", "Y"] {
        values.insert("ColorsBody", code);
        assert_eq!(
            Some(row_status(&map, &values, "VinylRoof")),
            map.lookup("ColorsBody", code),
            "body colour {}",
            code
        );
    }
    // A body colour that the tables do not know leaves the roof its own text.
    values.insert("ColorsBody", "Z");
    assert_eq!(row_status(&map, &values, "VinylRoof"), "Paint");
    assert_eq!(row_status(&map, &values, "ColorsBody"), "!! [UNKNOWN] !!");
    values.insert("ColorsBody", "");
    assert_eq!(row_status(&map, &values, "VinylRoof"), "Paint");
    // Any other roof, and any other field, reads by its own code.
    values.insert("ColorsBody", "E");
    values.insert("VinylRoof", "A");
    assert_eq!(row_status(&map, &values, "VinylRoof"), "Black");
    values.insert("Radio", "-");
    values.insert("Seats", "-");
    assert_eq!(row_status(&map, &values, "Radio"), "Radio delete");
    assert_eq!(row_status(&map, &values, "Seats"), "Standard / None");
    assert_eq!(row_status(&map, &values, "Year"), "");
}

#[test]
fn listing_marks_what_it_does_not_know() {
    let map = decode_map();
    let mut values = FieldValues::new();
    values.insert("Country", "Q");
    values.insert("Serial", "ABCDE");
    values.insert("Seats", "-");
    values.insert("VinylRoof", "-");
    let rows = vin_table(&map, &values, &schema());
    assert_eq!(rows[0].status, "!! [UNKNOWN] !!");
    assert_eq!((rows[1].value, rows[1].status), ("", ""));
    assert_eq!((rows[7].value, rows[7].status), ("ABCDE", ""));
    assert_eq!((rows[19].value, rows[19].status), ("-", "Standard / None"));
    // No body colour among the values: the painted roof has no swatch.
    assert_eq!((rows[14].status, rows[14].swatch), ("Paint", None));
    assert_eq!(vin_table(&map, &values, &Vec::new()).len(), 0);
}
