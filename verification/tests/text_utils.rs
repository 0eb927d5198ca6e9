use tuisen::text::parse_u16;
use tuisen::text::strip_crlf;
use tuisen::text::trim_owned;
use tuisen::text::word_deleted;

#[test]
fn strip_crlf_removes_the_terminator() {
    assert_eq!(strip_crlf("PING :x\r\n"), "PING :x".to_string());
    assert_eq!(strip_crlf("bare\n"), "bare\n".to_string());
    assert_eq!(strip_crlf("a\r\nb\r\n"), "ab".to_string());
    assert_eq!(strip_crlf(""), "".to_string());
}

#[test]
fn parse_u16_reads_decimal_codes() {
    assert_eq!(parse_u16("001"), Some(1));
    assert_eq!(parse_u16("421"), Some(421));
    assert_eq!(parse_u16("+5"), Some(5));
    assert_eq!(parse_u16("65535"), Some(65535));
    assert_eq!(parse_u16("65536"), None);
    assert_eq!(parse_u16(""), None);
    assert_eq!(parse_u16("+"), None);
    assert_eq!(parse_u16("12a"), None);
}

#[test]
fn trimming_strips_both_ends() {
    assert_eq!(trim_owned("  hi all \t"), "hi all".to_string());
    assert_eq!(trim_owned(" \t "), "".to_string());
    assert_eq!(trim_owned("solid"), "solid".to_string());
}

#[test]
fn word_deletion_keeps_the_leading_words() {
    assert_eq!(word_deleted("one two three  "), "one two ".to_string());
    assert_eq!(word_deleted("single"), "".to_string());
    assert_eq!(word_deleted(""), "".to_string());
}
