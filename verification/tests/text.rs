use lib_swiss::swiss_ephm::{
    append_decimal, decode_path, decode_text, decoded_text, text_buffer, text_len, MAXCH,
};

fn filled(text: &[u8]) -> Vec<u8> {
    let mut buffer = text_buffer();
    buffer[..text.len()].copy_from_slice(text);
    buffer
}

fn numeral(n: i32) -> String {
    let mut text = String::new();
    append_decimal(&mut text, n);
    text
}

#[test]
fn fresh_buffer_is_all_zero() {
    let buffer = text_buffer();
    assert_eq!(MAXCH, 256);
    assert_eq!(buffer.len(), 256);
    assert!(buffer.iter().all(|b| *b == 0));
    assert_eq!(text_len(&buffer), 0);
    assert_eq!(decode_text(&buffer), Some(String::new()));
}

#[test]
fn text_ends_at_the_first_zero_byte() {
    assert_eq!(text_len(b""), 0);
    assert_eq!(text_len(b"\0"), 0);
    assert_eq!(text_len(b"Sun"), 3);
    assert_eq!(text_len(b"Sun\0"), 3);
    assert_eq!(text_len(b"Sun\0Moon\0"), 3);
    assert_eq!(text_len(&filled(b"2.10.03")), 7);
}

#[test]
fn buffer_without_terminator_is_text_to_its_end() {
    let buffer = vec![b'x'; 256];
    assert_eq!(text_len(&buffer), 256);
    assert_eq!(decode_text(&buffer), Some("x".repeat(256)));
}

#[test]
fn trailing_padding_is_dropped() {
    assert_eq!(decode_text(&filled(b"Sun")), Some("Sun".to_string()));
    assert_eq!(decode_text(&filled(b"2.10.03")), Some("2.10.03".to_string()));
    assert_eq!(decode_text(b"Sun\0\0\0\0"), Some("Sun".to_string()));
}

#[test]
fn bytes_behind_the_terminator_are_never_decoded() {
    assert_eq!(decode_text(b"Sun\0Moon"), Some("Sun".to_string()));
    assert_eq!(decode_text(b"Sun\0\xff\xfe\xfd"), Some("Sun".to_string()));
    assert_eq!(decode_text(b"\0\xff"), Some(String::new()));
}

#[test]
fn multi_byte_text_is_decoded_as_utf8() {
    assert_eq!(decode_text("Mondknoten \u{260A}\0".as_bytes()), Some("Mondknoten \u{260A}".to_string()));
    assert_eq!(decode_text(&filled("\u{e9}ph\u{e9}m\u{e9}ride".as_bytes())), Some("\u{e9}ph\u{e9}m\u{e9}ride".to_string()));
    assert_eq!(decode_text("\u{1F311}".as_bytes()), Some("\u{1F311}".to_string()));
}

#[test]
fn well_formed_text_is_decoded_outright() {
    assert_eq!(decoded_text(&filled(b"Sun")), "Sun");
    assert_eq!(decoded_text(b"Sun\0\xff\xfe"), "Sun");
    assert_eq!(decoded_text("\u{e9}ph\u{e9}m\u{e9}ride\0".as_bytes()), "\u{e9}ph\u{e9}m\u{e9}ride");
    assert_eq!(decoded_text(&text_buffer()), "");
}

#[test]
fn malformed_text_is_refused() {
    assert_eq!(decode_text(b"\xff\0"), None);
    assert_eq!(decode_text(b"Su\xc3\0"), None);
    assert_eq!(decode_text(b"\xc3\0\xa9"), None);
    assert_eq!(decode_text(b"\xed\xa0\x80"), None);
    assert_eq!(decode_text(b"\xc0\x80"), None);
}

#[test]
fn path_is_copied_byte_by_byte() {
    assert_eq!(decode_path(b"/data/sepl_18.se1\0"), "/data/sepl_18.se1");
    assert_eq!(decode_path(b"/data/sepl_18.se1"), "/data/sepl_18.se1");
    assert_eq!(decode_path(b"/data\0/other"), "/data");
    assert_eq!(decode_path(b""), "");
    assert_eq!(decode_path(b"\0"), "");
}

#[test]
fn path_bytes_above_ascii_become_the_characters_of_that_code() {
    assert_eq!(decode_path(b"/\xe9ph\xe9\0"), "/\u{e9}ph\u{e9}");
    assert_eq!(decode_path(b"\xff\x80"), "\u{ff}\u{80}");
}

#[test]
fn decimal_numerals() {
    assert_eq!(numeral(0), "0");
    assert_eq!(numeral(7), "7");
    assert_eq!(numeral(10), "10");
    assert_eq!(numeral(256), "256");
    assert_eq!(numeral(-1), "-1");
    assert_eq!(numeral(-120), "-120");
    assert_eq!(numeral(i32::MAX), "2147483647");
    assert_eq!(numeral(i32::MIN), "-2147483648");
}

#[test]
fn decimal_numeral_is_appended() {
    let mut text = "code ".to_string();
    append_decimal(&mut text, -42);
    assert_eq!(text, "code -42");
}

#[test]
fn decimal_numerals_agree_with_display() {
    for n in [-1000001, -99, -10, -9, 0, 9, 10, 99, 100, 101, 65535, 1000000] {
        assert_eq!(numeral(n), format!("{}", n));
    }
}
