use cursewin::bytes_to_text;
use cursewin::text::bytes_before_nul;

fn chars_of(bytes: &[u8]) -> Vec<i8> {
    bytes.iter().map(|b| *b as i8).collect()
}

#[test]
fn ascii_bytes_decode() {
    assert_eq!(bytes_to_text(&chars_of(b"hello")), Some(String::from("hello")));
}

#[test]
fn empty_bytes_give_empty_text() {
    assert_eq!(bytes_to_text(&Vec::new()), Some(String::new()));
}

#[test]
fn text_stops_at_first_nul() {
    assert_eq!(bytes_to_text(&chars_of(b"ab\0cd")), Some(String::from("ab")));
    assert_eq!(bytes_to_text(&chars_of(b"\0xyz")), Some(String::new()));
}

#[test]
fn multibyte_utf8_decodes() {
    let bytes = chars_of("h\u{e9}\u{2603}".as_bytes());
    assert_eq!(bytes.len(), 6);
    assert_eq!(bytes_to_text(&bytes), Some(String::from("h\u{e9}\u{2603}")));
}

#[test]
fn invalid_utf8_is_refused() {
    assert_eq!(bytes_to_text(&chars_of(&[0x61, 0xff, 0x62])), None);
    assert_eq!(bytes_to_text(&chars_of(&[0xc3])), None);
}

#[test]
fn invalid_bytes_after_nul_are_ignored() {
    assert_eq!(bytes_to_text(&chars_of(&[0x61, 0x00, 0xff])), Some(String::from("a")));
}

#[test]
fn bytes_before_nul_reads_unsigned() {
    assert_eq!(bytes_before_nul(&vec![-1i8, 65, 0, 66]), vec![255u8, 65]);
    assert_eq!(bytes_before_nul(&vec![1i8, 2, 3]), vec![1u8, 2, 3]);
    assert_eq!(bytes_before_nul(&vec![0i8]), Vec::<u8>::new());
}
