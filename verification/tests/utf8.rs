use stack_string::order::{bytes_eq, bytes_less, cow_as_str, str_eq, str_order};
use stack_string::utf8::{
    decode_lossy, encode_char, push_repaired, validate, validate_vec, InvalidUtf8,
};
use std::cmp::Ordering;
use std::borrow::Cow;

#[test]
fn validate_accepts_text_and_reports_where_it_ends() {
    assert_eq!(validate(b"hello"), Ok("hello"));
    assert_eq!(validate(b""), Ok(""));
    assert_eq!(validate("a\u{20AC}".as_bytes()), Ok("a\u{20AC}"));
    assert_eq!(
        validate(b"ab\xFFcd"),
        Err(InvalidUtf8 { valid_up_to: 2, error_len: Some(1) })
    );
    assert_eq!(
        validate(b"ab\xE2\x82"),
        Err(InvalidUtf8 { valid_up_to: 2, error_len: None })
    );
    assert_eq!(
        validate(b"\xE2\x82\x41"),
        Err(InvalidUtf8 { valid_up_to: 0, error_len: Some(2) })
    );
}

#[test]
fn validate_agrees_with_the_standard_library() {
    let inputs: [&[u8]; 6] = [
        b"plain",
        b"\xC0\x80",
        b"\xED\xA0\x80",
        b"\xF4\x90\x80\x80",
        b"ok\xF0\x9F\x98",
        b"\x80",
    ];
    for v in inputs {
        match (std::str::from_utf8(v), validate(v)) {
            (Ok(a), Ok(b)) => assert_eq!(a, b),
            (Err(a), Err(b)) => {
                assert_eq!(a.valid_up_to(), b.valid_up_to);
                assert_eq!(a.error_len(), b.error_len);
            }
            _ => panic!("the two validations disagree"),
        }
    }
}

#[test]
fn validate_vec_hands_the_bytes_back() {
    assert_eq!(validate_vec(b"hello".to_vec()).unwrap(), "hello");
    let e = validate_vec(vec![b'a', 0xFF]).unwrap_err();
    assert_eq!(e.bytes, vec![b'a', 0xFF]);
    assert_eq!(e.error, InvalidUtf8 { valid_up_to: 1, error_len: Some(1) });
}

#[test]
fn push_repaired_appends_prefix_and_replacement() {
    let mut out = b"x".to_vec();
    let next = push_repaired(
        &mut out,
        b"ab\xFFcd",
        InvalidUtf8 { valid_up_to: 2, error_len: Some(1) },
    );
    assert_eq!(out, b"xab\xEF\xBF\xBD".to_vec());
    assert_eq!(next, Some(3));
    let mut out = Vec::new();
    let next = push_repaired(
        &mut out,
        b"ab\xE2\x82",
        InvalidUtf8 { valid_up_to: 2, error_len: None },
    );
    assert_eq!(out, b"ab\xEF\xBF\xBD".to_vec());
    assert_eq!(next, None);
}

#[test]
fn decode_lossy_matches_the_standard_library() {
    let inputs: [&[u8]; 9] = [
        b"this is a test\xFFyes",
        b"",
        b"all valid",
        b"\xFF",
        b"\xFF\xFE\xFD",
        b"a\xE2\x82",
        b"\xF0\x9F\xC8\x84",
        b"\xE2\x82\x41\xC0\x80z",
        b"\xED\xA0\x80\xF4\x90\x80\x80",
    ];
    for v in inputs {
        let out = decode_lossy(v);
        assert_eq!(String::from_utf8(out).unwrap(), String::from_utf8_lossy(v));
    }
    assert_eq!(
        decode_lossy(b"this is a test\xFFyes"),
        "this is a test\u{FFFD}yes".as_bytes().to_vec()
    );
}

#[test]
fn encode_char_gives_the_utf8_bytes() {
    for c in ['\0', 'a', '\u{7F}', '\u{80}', '\u{7FF}', '\u{800}', '\u{D7FF}', '\u{E000}',
        '\u{FFFD}', '\u{FFFF}', '\u{10000}', '\u{10FFFF}']
    {
        let (bytes, n) = encode_char(c);
        let mut buf = [0u8; 4];
        assert_eq!(&bytes[..n], c.encode_utf8(&mut buf).as_bytes());
    }
    assert_eq!(encode_char('\u{FFFD}'), ([0xEF, 0xBF, 0xBD, 0], 3));
}

#[test]
fn bytes_compare_lexicographically() {
    assert!(bytes_eq(b"abc", b"abc"));
    assert!(!bytes_eq(b"abc", b"abd"));
    assert!(!bytes_eq(b"abc", b"ab"));
    assert!(bytes_eq(b"", b""));
    assert!(bytes_less(b"abc", b"abd"));
    assert!(!bytes_less(b"abd", b"abc"));
    assert!(bytes_less(b"ab", b"abc"));
    assert!(!bytes_less(b"abc", b"ab"));
    assert!(!bytes_less(b"abc", b"abc"));
    assert!(bytes_less(b"", b"a"));
    assert!(!bytes_less(b"", b""));
    assert!(bytes_less(b"a\x7F", b"a\x80"));
}

#[test]
fn strings_compare_as_the_standard_library_does() {
    let words = ["", "a", "ab", "abc", "abd", "b", "Z", "\u{E9}", "\u{20AC}", "e\u{301}"];
    for a in words {
        for b in words {
            assert_eq!(str_eq(a, b), a == b);
            assert_eq!(str_order(a, b), a.cmp(b));
        }
    }
    assert_eq!(str_order("alpha", "beta"), Ordering::Less);
    assert_eq!(str_order("beta", "alpha"), Ordering::Greater);
    assert_eq!(str_order("x", "x"), Ordering::Equal);
}

#[test]
fn cow_as_str_reads_both_variants() {
    assert_eq!(cow_as_str(&Cow::Borrowed("hey")), "hey");
    assert_eq!(cow_as_str(&Cow::Owned("hey".to_string())), "hey");
}
