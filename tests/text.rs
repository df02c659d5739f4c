use sarc_tool::text::{byte_char, decimal_text, hex, size};

#[test]
fn hex_is_two_upper_case_digits() {
    assert_eq!(hex(&0x00), "00");
    assert_eq!(hex(&0x0a), "0A");
    assert_eq!(hex(&0xff), "FF");
    assert_eq!(hex(&0x3c), "3C");
}

#[test]
fn byte_char_keeps_printable_ascii() {
    assert_eq!(byte_char(&b'A'), 'A');
    assert_eq!(byte_char(&b' '), ' ');
    assert_eq!(byte_char(&b'~'), '~');
    assert_eq!(byte_char(&0x1f), '.');
    assert_eq!(byte_char(&0x7f), '.');
    assert_eq!(byte_char(&0xc3), '.');
}

#[test]
fn decimal_text_writes_numbers() {
    assert_eq!(decimal_text(0), "0");
    assert_eq!(decimal_text(7), "7");
    assert_eq!(decimal_text(120), "120");
    assert_eq!(decimal_text(usize::MAX), usize::MAX.to_string());
}

#[test]
fn size_in_bytes_or_human_readable() {
    assert_eq!(size(1234, true), "1234");
    assert_eq!(size(6, false), "6 B");
    assert_eq!(size(1024, false), "1 KB");
    assert_eq!(size(1536, false), "1.50 KB");
}
