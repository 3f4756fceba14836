use vin_decoder::input::{normalize_code, remove_spaces};
use vin_decoder::session::{default_file_path, FileError, LastSource, LengthError, Session};

#[test]
fn spaces_are_taken_out() {
    assert_eq!(remove_spaces(""), "");
    assert_eq!(remove_spaces(" "), "");
    assert_eq!(remove_spaces("a b  c"), "abc");
    assert_eq!(remove_spaces("  ab "), "ab");
    assert_eq!(remove_spaces("a\tb\nc"), "a\tb\nc");
    assert_eq!(remove_spaces("grün ist es"), "grünistes");
}

#[test]
fn typed_text_becomes_a_code() {
    assert_eq!(normalize_code(""), "");
    assert_eq!(normalize_code("   "), "");
    assert_eq!(normalize_code("uabbd"), "UABBD");
    assert_eq!(normalize_code("  UABB dlc 000 42\n"), "UABBDLC00042");
    assert_eq!(normalize_code("\tu-a-\t"), "U-A-");
    assert_eq!(normalize_code("a\tb"), "A\tB");
    assert_eq!(normalize_code("straße"), "STRASSE");
}

#[test]
fn typed_text_is_decoded_as_its_code() {
    let mut session = Session::new();
    session.input_entered("  uabbglc 00042 1na bsae-a-m18a-ab  ");
    assert_eq!(session.last_source, LastSource::Vin);
    assert_eq!(session.vin_error, None);
    let shown = session.shown_values().unwrap();
    let values = shown.values();
    assert_eq!(values.value("Country"), "U");
    assert_eq!(values.value("Serial"), "00042");
    assert_eq!(values.value("Engine"), "NA");
    assert_eq!(values.value("WindowHeater"), "B");
    session.input_entered(" u a b ");
    assert_eq!(session.vin_error, Some(LengthError { found: 3, expected: 29 }));
    assert!(session.shown_values().is_none());
}

#[test]
fn file_errors_have_their_messages() {
    assert_eq!(
        FileError::NotFound.message("C:\\saves\\carparts.txt"),
        "File not found: C:\\saves\\carparts.txt"
    );
    assert_eq!(FileError::NotFound.message(""), "File not found: ");
    assert_eq!(FileError::NoData.message("anything"), "No VIN data found in file");
}

#[test]
fn default_path_lies_below_the_profile() {
    assert_eq!(
        default_file_path(Some("C:\\Users\\me")),
        "C:\\Users\\me\\AppData\\LocalLow\\Amistech\\My Winter Car\\carparts.txt"
    );
    assert_eq!(
        default_file_path(Some("")),
        "\\AppData\\LocalLow\\Amistech\\My Winter Car\\carparts.txt"
    );
    assert_eq!(default_file_path(None), "");
}
