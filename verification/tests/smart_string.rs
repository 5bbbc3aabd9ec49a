use rand::{thread_rng, Rng};
use stack_string::SmartString;
use std::borrow::{Borrow, Cow};
use std::fmt::Write;
use std::collections::HashMap;
use std::path::Path;

struct Shown {}

impl std::fmt::Display for Shown {
    fn fmt(&self, f: &mut std::fmt::Formatter<'_>) -> std::fmt::Result {
        f.write_str("THIS IS A TEST")
    }
}

#[test]
fn smart_string_test_default() {
    assert_eq!(SmartString::new(), SmartString::default());
}

#[test]
fn smart_string_test_split_off() {
    let mut s0 = "hello there".to_string();
    let s1 = s0.split_off(3);
    let mut s2: SmartString = "hello there".into();
    let s3 = s2.split_off(3);
    assert_eq!(s0.as_str(), s2.as_str());
    assert_eq!(s1.as_str(), s3.as_str());
}

#[test]
fn smart_string_test_from_utf8() {
    let mut rng = thread_rng();
    let v: Vec<_> = (0..20).map(|_| rng.gen::<u8>() & 0x7f).collect();
    let s0 = String::from_utf8(v.clone()).unwrap();
    let s1 = SmartString::from_utf8(&v).unwrap();
    assert_eq!(s0.as_str(), s1.as_str());

    let v: Vec<_> = (0..20).map(|_| rng.gen::<u8>()).collect();
    let s0 = String::from_utf8(v.clone());
    let s1 = SmartString::from_utf8(&v);

    match s0 {
        Ok(s) => assert_eq!(s.as_str(), s1.unwrap().as_str()),
        Err(e) => {
            let e1 = s1.unwrap_err();
            assert_eq!(e.utf8_error().valid_up_to(), e1.valid_up_to);
            assert_eq!(e.utf8_error().error_len(), e1.error_len);
        }
    }
}

#[test]
fn smart_string_test_from_utf8_vec() {
    let mut rng = thread_rng();
    let v: Vec<_> = (0..20).map(|_| rng.gen::<u8>() & 0x7f).collect();
    let s0 = String::from_utf8(v.clone()).unwrap();
    let s1 = SmartString::from_utf8_vec(v).unwrap();
    assert_eq!(s0.as_str(), s1.as_str());

    let v: Vec<_> = (0..20).map(|_| rng.gen::<u8>()).collect();
    let s0 = String::from_utf8(v.clone());
    let s1 = SmartString::from_utf8_vec(v);

    match s0 {
        Ok(s) => assert_eq!(s.as_str(), s1.unwrap().as_str()),
        Err(e) => {
            let e1 = s1.unwrap_err();
            assert_eq!(e.utf8_error().valid_up_to(), e1.error.valid_up_to);
            assert_eq!(e.utf8_error().error_len(), e1.error.error_len);
            assert_eq!(e.into_bytes(), e1.bytes);
        }
    }
}

#[test]
fn test_string_from_stackstring() {
    let s0 = SmartString::from("Hello there");
    let s1: String = s0.clone().into();
    assert_eq!(s0.as_str(), s1.as_str());
}

#[test]
fn test_stackstring_from_string() {
    let s0 = String::from("Hello there");
    let s1: SmartString = s0.clone().into();
    assert_eq!(s0.as_str(), s1.as_str());
    let s1: SmartString = (&s0).into();
    assert_eq!(s0.as_str(), s1.as_str());
}

#[test]
fn smart_string_test_borrow() {
    let s = SmartString::from("Hello");
    let st: &str = s.borrow();
    assert_eq!(st, "Hello");
}

#[test]
fn smart_string_test_as_ref() {
    let s = SmartString::from("Hello");
    let st: &str = s.as_ref();
    assert_eq!(st, s.as_str());
    let bt: &[u8] = s.as_ref();
    assert_eq!(bt, s.as_bytes());
    let pt: &Path = Path::new(s.as_str());
    assert_eq!(pt, Path::new("Hello"));
}

#[test]
fn smart_string_test_from_str() {
    let s = SmartString::from("Hello");
    let st: SmartString = "Hello".parse().unwrap();
    assert_eq!(s, st);
}

#[test]
fn smart_string_test_partialeq_cow() {
    let p = Path::new("Hello");
    let ps = p.to_string_lossy();
    let s = SmartString::from("Hello");
    assert_eq!(s, ps);
}

#[test]
fn smart_string_test_partial_eq_string() {
    assert_eq!(SmartString::from("Hello"), String::from("Hello"));
    assert_eq!(SmartString::from("Hello"), "Hello");
    assert_eq!(&SmartString::from("Hello"), "Hello");
    assert!(SmartString::from("alpha") < "beta");
    assert!("beta" > SmartString::from("alpha"));
}

#[test]
fn smart_string_test_from_iterator_char() {
    let mut rng = thread_rng();
    let v: Vec<char> = (0..20).map(|_| rng.gen::<char>()).collect();
    let s0: SmartString = v.iter().map(|x| *x).collect();
    let s1: String = v.iter().map(|x| *x).collect();
    assert_eq!(s0, s1);
}

#[test]
fn test_contains_stackstring() {
    let a: SmartString = "hey there".into();
    let b: SmartString = "hey".into();
    assert!(a.contains(b.as_str()));
}

#[test]
fn smart_string_test_contains_char() {
    let a: SmartString = "hey there".into();
    assert!(a.contains(' '));
}

#[test]
fn smart_string_test_equality() {
    let s: SmartString = "hey".into();
    assert_eq!(Some(&s).map(Into::into), Some("hey"));
}

#[test]
fn smart_string_test_from_display() {
    let t = Shown {};
    let s = SmartString::from_display(t);
    assert_eq!(s, SmartString::from("THIS IS A TEST"));
}

#[test]
fn smart_string_test_from_utf8_lossy() {
    let mut v = Vec::new();
    v.extend_from_slice("this is a test".as_bytes());
    v.push(0xff);
    v.extend_from_slice("yes".as_bytes());
    let s = SmartString::from_utf8_lossy(&v);
    assert_eq!(s.len(), 20);
    assert_eq!(s.is_inline(), true);
}

#[test]
fn smart_string_lossy_places_each_replacement() {
    let s = SmartString::from_utf8_lossy(b"this is a test\xFFyes");
    assert_eq!(s.as_str(), "this is a test\u{FFFD}yes");
    let s = SmartString::from_utf8_lossy(b"\xF0\x9F\xC8\x84");
    assert_eq!(s.as_str(), "\u{FFFD}\u{204}");
    let s = SmartString::from_utf8_lossy(b"ab\xE2\x82");
    assert_eq!(s.as_str(), "ab\u{FFFD}");
    let s = SmartString::from_utf8_lossy(b"\xFF\xFF");
    assert_eq!(s.as_str(), "\u{FFFD}\u{FFFD}");
}

#[test]
fn smart_string_inline_limit() {
    let s = SmartString::from("12345678901234567890123");
    assert_eq!(s.len(), 23);
    assert!(s.is_inline());
    let s = SmartString::from("123456789012345678901234");
    assert!(!s.is_inline());
}

#[test]
fn smart_string_push_str_appends() {
    let mut s = SmartString::from("hey");
    s.push_str(" there");
    assert_eq!(s.as_str(), "hey there");
    let t = s.clone();
    assert_eq!(t, s);
    let owned = s.into_string();
    assert_eq!(owned, "hey there");
}

#[test]
fn smart_string_test_format_sstr() {
    let s = SmartString::from_display(format!("This is a test {}", 22));
    assert_eq!(s, SmartString::from("This is a test 22"));
}

#[test]
fn smart_string_equal_text_hashes_alike() {
    let mut m = HashMap::new();
    m.insert(SmartString::from_utf8_vec(b"HELLO".to_vec()).unwrap(), "WORLD");
    assert_eq!(m.get(&SmartString::from("HELLO")), Some(&"WORLD"));
}

#[test]
fn smart_string_as_mut_str_changes_the_text_in_place() {
    let mut s = SmartString::from("hello");
    s.as_mut_str().make_ascii_uppercase();
    assert_eq!(s.as_str(), "HELLO");
    s.make_ascii_lowercase();
    assert_eq!(s.as_str(), "hello");
}

#[test]
fn smart_string_displays_as_its_text() {
    assert_eq!(SmartString::from("hey").to_string(), "hey");
    assert_eq!(format!("{}", SmartString::from("hey")), "hey");
}

#[test]
fn smart_string_is_in_place_below_the_size_of_a_string() {
    let limit = std::mem::size_of::<String>();
    let short = "x".repeat(limit - 1);
    let long = "x".repeat(limit);
    assert!(SmartString::new().is_inline());
    assert!(SmartString::default().is_inline());
    assert!(SmartString::from(short.as_str()).is_inline());
    assert!(!SmartString::from(long.as_str()).is_inline());
    assert!(SmartString::from(short.clone()).is_inline());
    assert!(!SmartString::from(long.clone()).is_inline());
    assert!(SmartString::from_utf8(short.as_bytes()).unwrap().is_inline());
    assert!(!SmartString::from_utf8(long.as_bytes()).unwrap().is_inline());
    assert!(SmartString::from_utf8_vec(short.clone().into_bytes()).unwrap().is_inline());
    assert!(!SmartString::from_utf8_vec(long.clone().into_bytes()).unwrap().is_inline());
    assert!(SmartString::from_utf8_lossy(short.as_bytes()).is_inline());
    assert!(!SmartString::from_utf8_lossy(long.as_bytes()).is_inline());
    assert!(SmartString::from_display(short.as_str()).is_inline());
    assert!(!SmartString::from_display(long.as_str()).is_inline());
}

#[test]
fn smart_string_moves_to_the_heap_and_stays_there() {
    let limit = std::mem::size_of::<String>();
    let mut s = SmartString::from("x".repeat(limit - 2).as_str());
    assert!(s.is_inline());
    s.push_str("y");
    assert_eq!(s.len(), limit - 1);
    assert!(s.is_inline());
    s.push_str("");
    assert!(s.is_inline());
    let copy = s.clone();
    assert!(copy.is_inline());
    s.push_str("z");
    assert_eq!(s.len(), limit);
    assert!(!s.is_inline());
    let copy = s.clone();
    assert!(!copy.is_inline());
    assert_eq!(copy, s);
    let tail = s.split_off(3);
    assert_eq!(s.as_str(), "xxx");
    assert!(!s.is_inline());
    assert_eq!(tail.len(), limit - 3);
    assert!(tail.is_inline());
    s.push_str("a");
    assert!(!s.is_inline());
    s.as_mut_str().make_ascii_uppercase();
    assert!(!s.is_inline());
    assert_eq!(s.as_str(), "XXXA");
    let mut long = SmartString::from("x".repeat(3 * limit).as_str());
    let tail = long.split_off(limit);
    assert_eq!(tail.len(), 2 * limit);
    assert!(!tail.is_inline());
    assert!(!long.is_inline());
}

#[test]
fn smart_string_try_split_off_refuses_the_inside_of_a_character() {
    let mut s = SmartString::from("a\u{20AC}b");
    assert!(s.try_split_off(2).is_none());
    assert!(s.try_split_off(6).is_none());
    assert_eq!(s.as_str(), "a\u{20AC}b");
    let tail = s.try_split_off(4).unwrap();
    assert_eq!(s.as_str(), "a\u{20AC}");
    assert_eq!(tail.as_str(), "b");
}

#[test]
fn smart_string_conversions_and_cmp() {
    let limit = std::mem::size_of::<String>();
    let short = "x".repeat(limit - 1);
    let long = "x".repeat(limit);
    let parsed: SmartString = long.parse().unwrap();
    assert!(!parsed.is_inline());
    let parsed: SmartString = short.parse().unwrap();
    assert!(parsed.is_inline());
    let c: SmartString = Cow::Borrowed(long.as_str()).into();
    assert!(!c.is_inline());
    let c: SmartString = Cow::<str>::Owned(short.clone()).into();
    assert!(c.is_inline());
    let copy = SmartString::from(&parsed);
    assert!(copy.is_inline());
    let mut s = SmartString::from(short.as_str());
    s.write_str("").unwrap();
    assert!(s.is_inline());
    s.write_str("y").unwrap();
    assert!(!s.is_inline());
    let a = SmartString::from("alpha");
    let b = SmartString::from("beta");
    assert_eq!(a.cmp(&b), std::cmp::Ordering::Less);
    assert_eq!(b.cmp(&a), std::cmp::Ordering::Greater);
    assert_eq!(a.partial_cmp(&b), Some(a.cmp(&b)));
}
