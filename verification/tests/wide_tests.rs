use direct2d::wide::{to_wide_null, wide_len_u32};

#[test]
fn wide_ascii() {
    assert_eq!(to_wide_null("Hi!"), vec![0x48, 0x69, 0x21, 0]);
}

#[test]
fn wide_empty() {
    assert_eq!(to_wide_null(""), vec![0]);
}

#[test]
fn wide_bmp_and_surrogates() {
    assert_eq!(to_wide_null("é€"), vec![0x00E9, 0x20AC, 0]);
    assert_eq!(to_wide_null("😀"), vec![0xD83D, 0xDE00, 0]);
    assert_eq!(to_wide_null("\u{10FFFF}"), vec![0xDBFF, 0xDFFF, 0]);
    assert_eq!(to_wide_null("\u{10000}"), vec![0xD800, 0xDC00, 0]);
}

#[test]
fn wide_matches_std_utf16() {
    let text = "a\u{FFFF}b😀c";
    let mut expected: Vec<u16> = text.encode_utf16().collect();
    expected.push(0);
    assert_eq!(to_wide_null(text), expected);
}

#[test]
fn wide_length_counts_terminator() {
    let wide = to_wide_null("abc");
    assert_eq!(wide_len_u32(&wide), 4);
    assert_eq!(wide_len_u32(&vec![]), 0);
}
