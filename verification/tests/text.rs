use trade_alert::text::{
    bytes_eq, contains, ends_with, find_byte, matches_at, quoted_payload, rfind_byte,
    split_fields, starts_with, str_eq,
};

#[test]
fn slices_compare_byte_by_byte() {
    assert!(bytes_eq(b"", b""));
    assert!(bytes_eq(b"abc", b"abc"));
    assert!(!bytes_eq(b"abc", b"abd"));
    assert!(!bytes_eq(b"abc", b"ab"));
    assert!(str_eq("平安", "平安"));
    assert!(!str_eq("平安", "平"));
}

#[test]
fn patterns_are_found_where_they_stand() {
    assert!(matches_at(b"hello", b"ell", 1));
    assert!(!matches_at(b"hello", b"ell", 0));
    assert!(matches_at(b"hello", b"", 5));
    assert!(!matches_at(b"hello", b"", 6));
    assert!(!matches_at(b"hello", b"lo!", 3));
    assert!(!matches_at(b"hi", b"hello", 0));
    assert!(!matches_at(b"hello", b"o", usize::MAX));
    assert!(starts_with(b"hello", b"he"));
    assert!(starts_with(b"hello", b""));
    assert!(!starts_with(b"hello", b"el"));
    assert!(!starts_with(b"h", b"he"));
    assert!(ends_with(b"hello", b"lo"));
    assert!(ends_with(b"hello", b""));
    assert!(!ends_with(b"hello", b"ll"));
    assert!(!ends_with(b"o", b"lo"));
    assert!(contains(b"hello", b"ll"));
    assert!(contains(b"hello", b""));
    assert!(contains(b"", b""));
    assert!(contains(b"hello", b"hello"));
    assert!(!contains(b"hello", b"lol"));
    assert!(!contains(b"", b"a"));
}

#[test]
fn bytes_are_found_from_either_end() {
    assert_eq!(find_byte(b"a,b,c", 0, b','), 1);
    assert_eq!(find_byte(b"a,b,c", 1, b','), 1);
    assert_eq!(find_byte(b"a,b,c", 2, b','), 3);
    assert_eq!(find_byte(b"a,b,c", 4, b','), 5);
    assert_eq!(find_byte(b"a,b,c", 5, b','), 5);
    assert_eq!(find_byte(b"", 0, b','), 0);
    assert_eq!(rfind_byte(b"a,b,c", b','), Some(3));
    assert_eq!(rfind_byte(b"abc", b','), None);
    assert_eq!(rfind_byte(b"", b','), None);
    assert_eq!(rfind_byte(b",", b','), Some(0));
}

#[test]
fn splitting_keeps_empty_pieces() {
    let pieces = |text: &'static str| -> Vec<&'static [u8]> { split_fields(text.as_bytes(), b',') };
    assert_eq!(pieces("a,b,c"), vec![&b"a"[..], &b"b"[..], &b"c"[..]]);
    assert_eq!(pieces(""), vec![&b""[..]]);
    assert_eq!(pieces(","), vec![&b""[..], &b""[..]]);
    assert_eq!(pieces("a,,b,"), vec![&b"a"[..], &b""[..], &b"b"[..], &b""[..]]);
    assert_eq!(pieces("abc"), vec![&b"abc"[..]]);
}

#[test]
fn splitting_agrees_with_the_standard_library() {
    for text in ["", ",", "a", "a,b", ",a,", "平安银行,27.55,,x", ",,,,"] {
        let ours: Vec<&[u8]> = split_fields(text.as_bytes(), b',');
        let theirs: Vec<&[u8]> = text.split(',').map(|p| p.as_bytes()).collect();
        assert_eq!(ours, theirs, "for {:?}", text);
    }
}

#[test]
fn the_payload_stands_between_the_outermost_quotes() {
    assert_eq!(quoted_payload(b"x=\"abc\";", b'"'), Some(&b"abc"[..]));
    assert_eq!(quoted_payload(b"\"\"", b'"'), Some(&b""[..]));
    assert_eq!(quoted_payload(b"a\"b\"c\"d", b'"'), Some(&b"b\"c"[..]));
    assert_eq!(quoted_payload(b"no quote", b'"'), None);
    assert_eq!(quoted_payload(b"one \" quote", b'"'), None);
    assert_eq!(quoted_payload(b"", b'"'), None);
}
