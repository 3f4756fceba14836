use vin_decoder::container::{
    decode_record, parse_dictionary_vec, read_header, CONTAINER_TYPE_DICTIONARY,
};
use vin_decoder::locator::{
    locate_and_decode_record, locate_record, tag_matches, HX_START_ENTRY, RECORD_TAG,
};
use vin_decoder::value::{VALUE_TYPE_BOOL, VALUE_TYPE_INT32, VALUE_TYPE_STRING};

fn text(s: &str) -> Vec<u8> {
    let mut out = vec![s.len() as u8];
    out.extend_from_slice(s.as_bytes());
    out
}

fn dictionary_body(key_type: u32, value_type: u32, count: u32, entries: &[u8]) -> Vec<u8> {
    let mut body = vec![CONTAINER_TYPE_DICTIONARY, 0x00];
    body.extend_from_slice(&key_type.to_le_bytes());
    body.extend_from_slice(&value_type.to_le_bytes());
    if key_type == 0 {
        body.push(0xAA);
    } else {
        body.extend_from_slice(&[0xAA, 0xBB]);
    }
    body.extend_from_slice(&count.to_le_bytes());
    body.extend_from_slice(entries);
    body
}

fn entry(tag: &[u8], body: &[u8]) -> Vec<u8> {
    let mut out = vec![HX_START_ENTRY, tag.len() as u8];
    out.extend_from_slice(tag);
    out.extend_from_slice(&(body.len() as u32).to_le_bytes());
    out.extend_from_slice(body);
    out
}

fn pair(k: &str, v: &str) -> (String, String) {
    (k.to_string(), v.to_string())
}

fn foo_42_body() -> Vec<u8> {
    let mut entries = text("Foo");
    entries.extend_from_slice(&42i32.to_le_bytes());
    dictionary_body(VALUE_TYPE_STRING, VALUE_TYPE_INT32, 1, &entries)
}

#[test]
fn constants_match_the_format() {
    assert_eq!(HX_START_ENTRY, 0x7E);
    assert_eq!(CONTAINER_TYPE_DICTIONARY, 0x52);
    assert_eq!(VALUE_TYPE_STRING, 0xFDE9F1EE);
    assert_eq!(VALUE_TYPE_INT32, 0xE2A80856);
    assert_eq!(VALUE_TYPE_BOOL, 0xAD4D7C9C);
    assert_eq!(RECORD_TAG, "VINGen4");
}

#[test]
fn hand_built_record_gives_one_pair() {
    let buffer: Vec<u8> = vec![
        0x7E, 0x07, b'V', b'I', b'N', b'G', b'e', b'n', b'4', // marker, tag length, tag
        24, 0, 0, 0, // body length
        0x52, 0x00, // dictionary, reserved
        0xEE, 0xF1, 0xE9, 0xFD, // key type: text
        0x56, 0x08, 0xA8, 0xE2, // value type: signed 32
        0x00, 0x00, // property size
        1, 0, 0, 0, // count
        3, b'F', b'o', b'o', // key
        42, 0, 0, 0, // value
    ];
    assert_eq!(locate_and_decode_record(&buffer), Some(vec![pair("Foo", "42")]));
}

#[test]
fn built_record_equals_hand_built_one() {
    let buffer = entry(b"VINGen4", &foo_42_body());
    assert_eq!(buffer.len(), 9 + 4 + 24);
    assert_eq!(locate_and_decode_record(&buffer), Some(vec![pair("Foo", "42")]));
}

#[test]
fn pairs_come_in_declared_order_and_count() {
    let mut entries = Vec::new();
    for (k, v) in [("Country", "U"), ("Year", "L"), ("Serial", "00042"), ("Year", "M")] {
        entries.extend_from_slice(&text(k));
        entries.extend_from_slice(&text(v));
    }
    let body = dictionary_body(VALUE_TYPE_STRING, VALUE_TYPE_STRING, 4, &entries);
    let buffer = entry(b"VINGen4", &body);
    assert_eq!(
        locate_and_decode_record(&buffer),
        Some(vec![
            pair("Country", "U"),
            pair("Year", "L"),
            pair("Serial", "00042"),
            pair("Year", "M"),
        ])
    );
}

#[test]
fn other_entries_are_skipped_by_their_length() {
    // The body of the first entry holds markers and even a whole entry with
    // the record's tag: none of it may be read as an entry.
    let decoy = entry(b"VINGen4", &dictionary_body(VALUE_TYPE_STRING, VALUE_TYPE_STRING, 0, &[]));
    let mut first_body = vec![0x7E, 0x7E, 0x01];
    first_body.extend_from_slice(&decoy);
    let mut buffer = vec![0x00, 0x11, 0x22];
    buffer.extend_from_slice(&entry(b"Other", &first_body));
    buffer.extend_from_slice(&[0x33, 0x44]);
    buffer.extend_from_slice(&entry(b"VINGen4", &foo_42_body()));
    buffer.extend_from_slice(&entry(b"Tail", &[1, 2, 3]));
    assert_eq!(locate_record(&buffer), Some(&foo_42_body()[..]));
    assert_eq!(locate_and_decode_record(&buffer), Some(vec![pair("Foo", "42")]));
}

#[test]
fn only_the_first_record_counts() {
    let mut second = text("Bar");
    second.extend_from_slice(&7i32.to_le_bytes());
    let mut buffer = entry(b"VINGen4", &foo_42_body());
    buffer.extend_from_slice(&entry(
        b"VINGen4",
        &dictionary_body(VALUE_TYPE_STRING, VALUE_TYPE_INT32, 1, &second),
    ));
    assert_eq!(locate_and_decode_record(&buffer), Some(vec![pair("Foo", "42")]));
}

#[test]
fn record_without_dictionary_gives_no_data() {
    let plain = vec![0x10, 0x00, 1, 2, 3, 4, 0x00, 9, 9];
    let mut buffer = entry(b"VINGen4", &plain);
    assert_eq!(locate_record(&buffer), Some(&plain[..]));
    assert_eq!(locate_and_decode_record(&buffer), None);
    // The locator stops at the first entry with the record's tag.
    buffer.extend_from_slice(&entry(b"VINGen4", &foo_42_body()));
    assert_eq!(locate_record(&buffer), Some(&plain[..]));
    assert_eq!(locate_and_decode_record(&buffer), None);
}

#[test]
fn no_record_is_not_found() {
    assert_eq!(locate_and_decode_record(&[]), None);
    assert_eq!(locate_record(&[]), None);
    assert_eq!(locate_and_decode_record(&[1, 2, 3, 4, 5]), None);
    let buffer = entry(b"Other", &foo_42_body());
    assert_eq!(locate_and_decode_record(&buffer), None);
    let buffer = entry(b"vingen4", &foo_42_body());
    assert_eq!(locate_and_decode_record(&buffer), None);
    let buffer = entry(b"VINGen", &foo_42_body());
    assert_eq!(locate_and_decode_record(&buffer), None);
    let buffer = entry(b"VINGen44", &foo_42_body());
    assert_eq!(locate_and_decode_record(&buffer), None);
}

#[test]
fn every_cut_of_a_record_is_not_found() {
    let mut buffer = vec![0x01, 0x02];
    buffer.extend_from_slice(&entry(b"Other", &[0x7E, 5, 6]));
    buffer.extend_from_slice(&entry(b"VINGen4", &foo_42_body()));
    assert!(locate_and_decode_record(&buffer).is_some());
    for cut in 0..buffer.len() {
        assert_eq!(locate_record(&buffer[..cut]), None, "cut at {}", cut);
        assert_eq!(locate_and_decode_record(&buffer[..cut]), None, "cut at {}", cut);
    }
}

#[test]
fn truncated_entry_ends_the_scan() {
    // A marker whose entry does not fit ends the scan, though a whole
    // record follows inside what it claims.
    let mut buffer = vec![0x7E, 0x02, b'a', b'b', 0xFF, 0xFF, 0x00, 0x00];
    buffer.extend_from_slice(&entry(b"VINGen4", &foo_42_body()));
    assert_eq!(locate_and_decode_record(&buffer), None);
    assert_eq!(locate_record(&[0x7E]), None);
    assert_eq!(locate_record(&[0x7E, 0x00]), None);
    assert_eq!(locate_record(&[0x7E, 0x00, 0, 0, 0]), None);
    assert_eq!(locate_record(&[0x7E, 0x07, b'V', b'I', b'N']), None);
}

#[test]
fn empty_tag_and_empty_body_are_entries() {
    let mut buffer = entry(b"", &[]);
    assert_eq!(buffer, vec![0x7E, 0, 0, 0, 0, 0]);
    buffer.extend_from_slice(&entry(b"VINGen4", &[]));
    let empty: &[u8] = &[];
    assert_eq!(locate_record(&buffer), Some(empty));
    assert_eq!(locate_and_decode_record(&buffer), None);
}

#[test]
fn tag_is_compared_as_text() {
    assert!(tag_matches(b"VINGen4"));
    assert!(!tag_matches(b"VINGen5"));
    assert!(!tag_matches(b""));
    assert!(!tag_matches(&[b'V', b'I', b'N', b'G', b'e', b'n', 0xFF]));
    assert!(!tag_matches(&[0xFF, 0xFE]));
}

#[test]
fn header_of_a_dictionary() {
    let body = foo_42_body();
    assert_eq!(
        read_header(&body),
        Some((CONTAINER_TYPE_DICTIONARY, VALUE_TYPE_STRING, VALUE_TYPE_INT32, 12))
    );
    // A key type of zero leaves one byte of property size.
    let body = dictionary_body(0, VALUE_TYPE_BOOL, 0, &[]);
    assert_eq!(read_header(&body), Some((CONTAINER_TYPE_DICTIONARY, 0, VALUE_TYPE_BOOL, 11)));
}

#[test]
fn header_of_another_container() {
    // No key type: the value type stands at offset 2, one byte of property
    // size follows.
    let body = [0x10, 0xEE, 0x78, 0x56, 0x34, 0x12, 0xAA, 0xBB];
    assert_eq!(read_header(&body), Some((0x10, 0, 0x12345678, 7)));
    let exact = [0x10, 0xEE, 0x78, 0x56, 0x34, 0x12, 0xAA];
    assert_eq!(read_header(&exact), Some((0x10, 0, 0x12345678, 7)));
}

#[test]
fn default_kind_is_written_as_ff() {
    let body = [0xFF, 0x00, 0x01, 0x00, 0x00, 0x80, 0x00];
    assert_eq!(read_header(&body), Some((0x00, 0, 0x80000001, 7)));
    assert_eq!(decode_record(&body), None);
}

#[test]
fn short_header_is_no_header() {
    let body = foo_42_body();
    for cut in 0..12 {
        assert_eq!(read_header(&body[..cut]), None, "cut at {}", cut);
        assert_eq!(decode_record(&body[..cut]), None, "cut at {}", cut);
    }
    assert!(read_header(&body[..12]).is_some());
    let plain = [0x10, 0x00, 1, 2, 3, 4, 0x00];
    for cut in 0..7 {
        assert_eq!(read_header(&plain[..cut]), None, "cut at {}", cut);
    }
    // With a key type of zero the header is one byte shorter.
    let body = dictionary_body(0, VALUE_TYPE_BOOL, 0, &[]);
    assert_eq!(read_header(&body[..10]), None);
    assert!(read_header(&body[..11]).is_some());
}

#[test]
fn dictionary_without_room_for_its_count_is_empty() {
    let body = foo_42_body();
    assert_eq!(decode_record(&body[..12]), Some(vec![]));
    assert_eq!(decode_record(&body[..15]), Some(vec![]));
    assert_eq!(parse_dictionary_vec(&[], VALUE_TYPE_STRING, VALUE_TYPE_STRING), vec![]);
    assert_eq!(parse_dictionary_vec(&[2, 0, 0], VALUE_TYPE_STRING, VALUE_TYPE_STRING), vec![]);
}

#[test]
fn missing_fields_are_empty() {
    // Three pairs declared, data for one and a half.
    let mut data = 3u32.to_le_bytes().to_vec();
    data.extend_from_slice(&text("a"));
    data.extend_from_slice(&7i32.to_le_bytes());
    data.extend_from_slice(&text("b"));
    data.extend_from_slice(&[5, 2]);
    assert_eq!(
        parse_dictionary_vec(&data, VALUE_TYPE_STRING, VALUE_TYPE_INT32),
        vec![pair("a", "7"), pair("b", ""), pair("", "")]
    );
    // What is left is read again by the next field, where it fits that one.
    let mut data = 3u32.to_le_bytes().to_vec();
    data.extend_from_slice(&text("b"));
    data.extend_from_slice(&[1, 2]);
    assert_eq!(
        parse_dictionary_vec(&data, VALUE_TYPE_STRING, VALUE_TYPE_INT32),
        vec![pair("b", ""), pair("\u{2}", ""), pair("", "")]
    );
}

#[test]
fn failed_read_leaves_the_cursor() {
    // The key does not fit as a number, the value after it is read from the
    // same place as a boolean.
    let mut data = 2u32.to_le_bytes().to_vec();
    data.extend_from_slice(&[0, 1]);
    assert_eq!(
        parse_dictionary_vec(&data, VALUE_TYPE_INT32, VALUE_TYPE_BOOL),
        vec![pair("", "false"), pair("", "true")]
    );
}

#[test]
fn count_alone_decides_the_number_of_pairs() {
    let data = 1000u32.to_le_bytes().to_vec();
    let pairs = parse_dictionary_vec(&data, VALUE_TYPE_STRING, VALUE_TYPE_STRING);
    assert_eq!(pairs.len(), 1000);
    assert!(pairs.iter().all(|p| p.0.is_empty() && p.1.is_empty()));
    let mut data = 1u32.to_le_bytes().to_vec();
    data.extend_from_slice(&text("k"));
    data.extend_from_slice(&text("v"));
    data.extend_from_slice(&text("more"));
    assert_eq!(
        parse_dictionary_vec(&data, VALUE_TYPE_STRING, VALUE_TYPE_STRING),
        vec![pair("k", "v")]
    );
}

#[test]
fn mixed_types_in_one_dictionary() {
    let mut entries = Vec::new();
    entries.extend_from_slice(&(-5i32).to_le_bytes());
    entries.push(0);
    entries.extend_from_slice(&i32::MAX.to_le_bytes());
    entries.push(9);
    let body = dictionary_body(VALUE_TYPE_INT32, VALUE_TYPE_BOOL, 2, &entries);
    assert_eq!(
        decode_record(&body),
        Some(vec![pair("-5", "false"), pair("2147483647", "true")])
    );
}

#[test]
fn unknown_types_are_kept_as_hex() {
    let mut entries = vec![0xDE, 0xAD, 0xBE, 0xEF];
    entries.extend_from_slice(&[0x00, 0x01, 0x0A, 0xF0]);
    let body = dictionary_body(0x00000001, 0x00000000, 1, &entries);
    assert_eq!(decode_record(&body), Some(vec![pair("deadbeef", "00010af0")]));
}
