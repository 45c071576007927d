use trezor_ui::encode::build_store;
use trezor_ui::store::{CHUNK_LEN, DELIMITER_BYTE, HEADER_LEN, MAX_OFFSET, TERMINATE_BYTE};
use trezor_ui::translations::{
    are_there_translations, get_language_name, get_translation_by_index, read_window, tr,
    translate, DefaultTable, Entry,
};

fn entry(key: &str, ordinal: usize, text: &str) -> Entry {
    Entry {
        key: key.to_string(),
        ordinal,
        text: text.to_string(),
    }
}

fn demo_table() -> DefaultTable {
    DefaultTable::new(vec![
        entry("app__title", 0, "Trezor"),
        entry("app__version", 1, "Version"),
    ])
    .expect("well-formed table")
}

/// A store image made of a zeroed header followed by the given payload.
fn store_with_payload(payload: &[u8]) -> Vec<u8> {
    let mut blob = vec![0u8; HEADER_LEN];
    blob.extend_from_slice(payload);
    blob
}

#[test]
fn resolves_overrides_from_payload() {
    let table = demo_table();
    let blob = store_with_payload(b"Aplikace\x00Verze\x00\xFF");
    assert_eq!(tr(&table, &blob, "app__title"), "Aplikace");
    assert_eq!(tr(&table, &blob, "app__version"), "Verze");
}

#[test]
fn absent_store_falls_back_to_default_table() {
    let table = demo_table();
    let blob = [TERMINATE_BYTE];
    assert_eq!(tr(&table, &blob, "app__title"), "Trezor");
    assert_eq!(tr(&table, &blob, "app__version"), "Version");
}

#[test]
fn empty_store_counts_as_absent() {
    let table = demo_table();
    let blob: [u8; 0] = [];
    assert!(!are_there_translations(&blob));
    assert_eq!(tr(&table, &blob, "app__title"), "Trezor");
}

#[test]
fn provisioned_store_is_detected() {
    let blob = store_with_payload(b"\xFF");
    assert!(are_there_translations(&blob));
    assert!(!are_there_translations(&[TERMINATE_BYTE]));
}

#[test]
fn ordinal_beyond_records_yields_nothing() {
    let blob = store_with_payload(b"one\x00two\x00\xFF");
    assert_eq!(get_translation_by_index(&blob, 2), None);
    assert_eq!(get_translation_by_index(&blob, 1000), None);
}

#[test]
fn missing_record_falls_back_to_default_text() {
    let table = demo_table();
    // Only ordinal 0 is provisioned; ordinal 1 must fall back.
    let blob = store_with_payload(b"Aplikace\x00\xFF");
    assert_eq!(tr(&table, &blob, "app__title"), "Aplikace");
    assert_eq!(tr(&table, &blob, "app__version"), "Version");
}

#[test]
fn record_after_terminator_is_not_seen() {
    let blob = store_with_payload(b"one\x00\xFFtwo\x00");
    assert_eq!(get_translation_by_index(&blob, 0), Some("one".to_string()));
    assert_eq!(get_translation_by_index(&blob, 1), None);
}

#[test]
fn unterminated_trailing_bytes_are_no_record() {
    let blob = store_with_payload(b"one\x00tail-without-delimiter");
    assert_eq!(get_translation_by_index(&blob, 0), Some("one".to_string()));
    assert_eq!(get_translation_by_index(&blob, 1), None);
}

#[test]
fn record_straddling_a_window_boundary_is_retrieved() {
    // The second record begins 1021 bytes into the payload and its bytes
    // cross the first 1024-byte read window.
    let mut payload = vec![b'a'; CHUNK_LEN - 4];
    payload.push(DELIMITER_BYTE);
    payload.extend_from_slice(b"hello");
    payload.push(DELIMITER_BYTE);
    payload.push(TERMINATE_BYTE);
    let blob = store_with_payload(&payload);
    let long = String::from_utf8(vec![b'a'; CHUNK_LEN - 4]).unwrap();
    assert_eq!(get_translation_by_index(&blob, 0), Some(long));
    assert_eq!(get_translation_by_index(&blob, 1), Some("hello".to_string()));

    // The same record placed without a boundary in the way reads the same.
    let blob2 = store_with_payload(b"x\x00hello\x00\xFF");
    assert_eq!(
        get_translation_by_index(&blob2, 1),
        get_translation_by_index(&blob, 1)
    );
}

#[test]
fn record_longer_than_a_window_is_not_retrieved() {
    let mut payload = vec![b'b'; CHUNK_LEN];
    payload.push(DELIMITER_BYTE);
    payload.extend_from_slice(b"next");
    payload.push(DELIMITER_BYTE);
    payload.push(TERMINATE_BYTE);
    let blob = store_with_payload(&payload);
    assert_eq!(get_translation_by_index(&blob, 0), None);
    assert_eq!(get_translation_by_index(&blob, 1), None);
}

#[test]
fn longest_window_sized_record_is_still_retrieved() {
    let mut payload = vec![b'c'; CHUNK_LEN - 1];
    payload.push(DELIMITER_BYTE);
    payload.push(TERMINATE_BYTE);
    let blob = store_with_payload(&payload);
    let expected = String::from_utf8(vec![b'c'; CHUNK_LEN - 1]).unwrap();
    assert_eq!(get_translation_by_index(&blob, 0), Some(expected));
}

#[test]
fn built_store_round_trips_every_record() {
    let texts = vec![
        "ahoj".to_string(),
        "".to_string(),
        "svete".to_string(),
        "čau světe".to_string(),
    ];
    let blob = build_store("cs", &texts).expect("encodable");
    for (i, t) in texts.iter().enumerate() {
        assert_eq!(get_translation_by_index(&blob, i), Some(t.clone()));
    }
    assert_eq!(get_translation_by_index(&blob, texts.len()), None);
    assert_eq!(get_language_name(&blob), Some("cs".to_string()));
    assert!(are_there_translations(&blob));
}

#[test]
fn built_store_resolves_through_the_table() {
    let table = demo_table();
    let blob = build_store("cs", &vec!["Aplikace".to_string(), "Verze".to_string()])
        .expect("encodable");
    assert_eq!(tr(&table, &blob, "app__title"), "Aplikace");
    assert_eq!(tr(&table, &blob, "app__version"), "Verze");
}

#[test]
fn build_store_rejects_bad_data() {
    // A delimiter byte inside a record.
    assert_eq!(build_store("en", &vec!["a\x00b".to_string()]), None);
    // A delimiter byte inside the language name.
    assert_eq!(build_store("e\x00n", &vec![]), None);
    // A language name that does not fit its header field.
    assert_eq!(build_store("a-language-name-of-32-characters", &vec![]), None);
    // A record too long for one scan window.
    let long = String::from_utf8(vec![b'a'; CHUNK_LEN]).unwrap();
    assert_eq!(build_store("en", &vec![long]), None);
    // A record of the longest encodable length passes.
    let ok = String::from_utf8(vec![b'a'; CHUNK_LEN - 1]).unwrap();
    assert!(build_store("en", &vec![ok]).is_some());
}

#[test]
fn invalid_utf8_record_falls_back() {
    let table = demo_table();
    let mut payload = vec![0xC3u8, 0x28]; // malformed two-byte sequence
    payload.push(DELIMITER_BYTE);
    payload.extend_from_slice(b"Verze");
    payload.push(DELIMITER_BYTE);
    payload.push(TERMINATE_BYTE);
    let blob = store_with_payload(&payload);
    assert_eq!(get_translation_by_index(&blob, 0), None);
    assert_eq!(tr(&table, &blob, "app__title"), "Trezor");
    assert_eq!(tr(&table, &blob, "app__version"), "Verze");
}

#[test]
fn translate_is_none_only_for_unknown_keys() {
    let table = demo_table();
    let blob = [TERMINATE_BYTE];
    assert_eq!(translate(&table, &blob, "app__title"), Some("Trezor".to_string()));
    assert_eq!(translate(&table, &blob, "no_such_key"), None);
}

#[test]
fn table_validation_rejects_bad_tables() {
    // Ordinals must equal positions.
    assert!(DefaultTable::new(vec![entry("a", 1, "x")]).is_none());
    // Keys must be unique.
    assert!(DefaultTable::new(vec![entry("a", 0, "x"), entry("a", 1, "y")]).is_none());
    // Keys must be sorted.
    assert!(DefaultTable::new(vec![entry("b", 0, "x"), entry("a", 1, "y")]).is_none());
    assert!(DefaultTable::new(vec![entry("ab", 0, "x"), entry("a", 1, "y")]).is_none());
    // A sorted table passes; a shorter key sorts before its extensions.
    assert!(DefaultTable::new(vec![entry("a", 0, "x"), entry("ab", 1, "y")]).is_some());
    // The empty table is fine.
    assert!(DefaultTable::new(vec![]).is_some());
}

#[test]
fn table_lookup_finds_positions_and_texts() {
    let table = demo_table();
    assert_eq!(table.get_position("app__title"), Some(0));
    assert_eq!(table.get_position("app__version"), Some(1));
    assert_eq!(table.get_position("missing"), None);
    assert_eq!(table.get_text("app__version"), Some("Version".to_string()));
    assert_eq!(table.get_text("missing"), None);
    assert_eq!(table.len(), 2);
}

#[test]
fn language_name_reads_the_header_field() {
    let mut blob = vec![0u8; HEADER_LEN];
    blob[20..22].copy_from_slice(b"cs");
    // blob[22] is already the delimiter (zero).
    blob.push(TERMINATE_BYTE);
    assert_eq!(get_language_name(&blob), Some("cs".to_string()));
}

#[test]
fn language_name_missing_when_store_is_short_or_unterminated() {
    // Too short to hold the field at all.
    assert_eq!(get_language_name(&[0u8; 10]), None);
    assert_eq!(get_language_name(&[TERMINATE_BYTE]), None);
    // No delimiter anywhere inside the 32-byte field.
    let mut blob = vec![0u8; HEADER_LEN];
    for b in blob[20..52].iter_mut() {
        *b = b'x';
    }
    assert_eq!(get_language_name(&blob), None);
}

#[test]
fn scanning_stops_at_the_offset_bound() {
    // One proper record, then an overlong run of windows of plain bytes
    // (each window advances by one byte's worth of record start) reaching
    // past the scanner's offset bound; the delimiter beyond the bound must
    // never be found.
    let mut blob = vec![0u8; HEADER_LEN];
    blob.extend_from_slice(b"ok\x00");
    // Short records up to the bound keep the scan moving but never finish
    // record 1 before the bound is reached.
    while blob.len() <= MAX_OFFSET {
        blob.push(b'x');
    }
    blob.push(DELIMITER_BYTE);
    blob.push(TERMINATE_BYTE);
    assert_eq!(get_translation_by_index(&blob, 0), Some("ok".to_string()));
    assert_eq!(get_translation_by_index(&blob, 1), None);
}

#[test]
fn empty_record_list_builds_an_empty_store() {
    let blob = build_store("en", &vec![]).expect("encodable");
    assert!(are_there_translations(&blob));
    assert_eq!(get_translation_by_index(&blob, 0), None);
    assert_eq!(get_language_name(&blob), Some("en".to_string()));
    let table = demo_table();
    assert_eq!(tr(&table, &blob, "app__title"), "Trezor");
}

#[test]
fn longest_language_name_fits_the_field() {
    let name = "a".repeat(31);
    let blob = build_store(&name, &vec![]).expect("encodable");
    assert_eq!(get_language_name(&blob), Some(name));
}

#[test]
fn read_window_clamps_and_never_panics() {
    let blob = [1u8, 2, 3, 4, 5];
    assert_eq!(read_window(&blob, 0, 3), &[1, 2, 3]);
    assert_eq!(read_window(&blob, 3, 10), &[4, 5]);
    assert_eq!(read_window(&blob, 5, 1), &[] as &[u8]);
    assert_eq!(read_window(&blob, 6, 1), &[] as &[u8]);
}

#[test]
fn header_is_not_scanned_for_records() {
    // Bytes inside the header must never be read as records.
    let mut blob = vec![0u8; HEADER_LEN];
    blob[100] = b'h';
    blob[101] = b'i';
    // Payload holds a single record.
    blob.extend_from_slice(b"jo\x00\xFF");
    assert_eq!(get_translation_by_index(&blob, 0), Some("jo".to_string()));
    assert_eq!(get_translation_by_index(&blob, 1), None);
}
