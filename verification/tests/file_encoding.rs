use ast_grep_gui::file_encoding::{decode_bytes_as, decode_text_bytes, file_encoding_for_name, guess_utf16_without_bom, is_probably_binary_text, FileEncoding, FileEncodingPreference, Utf16Order};

#[test]
fn empty_input_is_empty_utf8() {
    let d = decode_text_bytes(b"", FileEncodingPreference::Auto).unwrap();
    assert_eq!(d.text, "");
    assert!(matches!(d.encoding, FileEncoding::Utf8));
}

#[test]
fn utf8_text_decodes_to_itself() {
    let d = decode_text_bytes("héllo\nwörld".as_bytes(), FileEncodingPreference::Auto).unwrap();
    assert_eq!(d.text, "héllo\nwörld");
    assert!(matches!(d.encoding, FileEncoding::Utf8));
}

#[test]
fn utf8_bom_is_removed() {
    let d = decode_text_bytes(b"\xEF\xBB\xBFabc", FileEncodingPreference::Auto).unwrap();
    assert_eq!(d.text, "abc");
    assert!(matches!(d.encoding, FileEncoding::Utf8));
}

#[test]
fn utf16le_bom_is_followed() {
    let d = decode_text_bytes(b"\xFF\xFEa\x00b\x00", FileEncodingPreference::Auto).unwrap();
    assert_eq!(d.text, "ab");
    assert!(matches!(d.encoding, FileEncoding::Utf16Le));
}

#[test]
fn utf32_is_refused() {
    let e = decode_text_bytes(b"\xFF\xFE\x00\x00a\x00\x00\x00", FileEncodingPreference::Auto).unwrap_err();
    assert_eq!(e, "UTF-32 is not supported");
}

#[test]
fn utf16_without_bom_is_guessed() {
    let bytes = "héllo wörld".encode_utf16().flat_map(|u| u.to_le_bytes()).collect::<Vec<u8>>();
    assert_eq!(guess_utf16_without_bom(&bytes), Some(Utf16Order::Le));
    let d = decode_text_bytes(&bytes, FileEncodingPreference::Auto).unwrap();
    assert_eq!(d.text, "héllo wörld");
    assert!(matches!(d.encoding, FileEncoding::Utf16Le));
    let be = "héllo wörld".encode_utf16().flat_map(|u| u.to_be_bytes()).collect::<Vec<u8>>();
    assert_eq!(guess_utf16_without_bom(&be), Some(Utf16Order::Be));
    assert_eq!(guess_utf16_without_bom(b"abc"), None);
}

#[test]
fn ascii_utf16_is_read_as_utf8_first() {
    // NUL bytes are valid UTF-8, so such input never reaches the UTF-16 guess
    // and is refused as binary.
    let bytes = "hello world".encode_utf16().flat_map(|u| u.to_le_bytes()).collect::<Vec<u8>>();
    assert_eq!(decode_text_bytes(&bytes, FileEncodingPreference::Auto).unwrap_err(), "binary file");
}

#[test]
fn shift_jis_by_choice() {
    let d = decode_text_bytes(b"\x82\xa0", FileEncodingPreference::ShiftJis).unwrap();
    assert_eq!(d.text, "あ");
    assert!(matches!(d.encoding, FileEncoding::ShiftJis));
}

#[test]
fn binary_content_is_refused() {
    let e = decode_text_bytes(b"\x00\x01\x02\x03\x04", FileEncodingPreference::Utf8).unwrap_err();
    assert_eq!(e, "binary file");
    assert!(is_probably_binary_text("\u{1}\u{2}abc"));
    assert!(!is_probably_binary_text("plain text\n"));
}

#[test]
fn malformed_text_for_chosen_encoding_is_an_error() {
    let e = decode_text_bytes(b"ab\xffcd", FileEncodingPreference::Utf8).unwrap_err();
    assert_eq!(e, "invalid text data for detected encoding");
}

#[test]
fn unknown_detected_label_is_an_error() {
    let e = decode_bytes_as(b"abc", &FileEncoding::Detected("no-such-encoding".to_string())).unwrap_err();
    assert_eq!(e, "unknown encoding label");
    assert_eq!(decode_bytes_as(b"abc", &FileEncoding::Detected("latin1".to_string())).unwrap(), "abc");
}

#[test]
fn encoding_names_map_to_variants() {
    assert!(matches!(file_encoding_for_name("Shift_JIS"), FileEncoding::ShiftJis));
    assert!(matches!(file_encoding_for_name("windows-1252"), FileEncoding::Windows1252));
    match file_encoding_for_name("KOI8-R") {
        FileEncoding::Detected(n) => assert_eq!(n, "KOI8-R"),
        other => panic!("unexpected {other:?}"),
    }
}

#[test]
fn encoding_labels() {
    assert_eq!(FileEncoding::ShiftJis.display_label(), "Shift_JIS (CP932)");
    assert_eq!(FileEncoding::Detected("KOI8-R".to_string()).display_label(), "KOI8-R");
}

#[test]
fn utf16le_bom_single_char() {
    let d = decode_text_bytes(&[0xFF, 0xFE, 0x61, 0x00], FileEncodingPreference::Auto).unwrap();
    assert_eq!(d.text, "a");
    assert_eq!(d.encoding, FileEncoding::Utf16Le);
    assert!(decode_text_bytes(&[0xFF, 0xFE, 0, 0], FileEncodingPreference::Auto).is_err());
    assert!(decode_text_bytes(&[0, 1, 2, 3], FileEncodingPreference::Auto).is_err());
}
