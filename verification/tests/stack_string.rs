use rand::{thread_rng, Rng};
use stack_string::{StackString, MAX_INLINE};
use std::borrow::{Borrow, Cow};
use std::collections::HashMap;
use std::path::Path;

struct Shown {}

impl std::fmt::Display for Shown {
    fn fmt(&self, f: &mut std::fmt::Formatter<'_>) -> std::fmt::Result {
        f.write_str("THIS IS A TEST")
    }
}

#[test]
fn stack_string_test_default() {
    assert_eq!(StackString::new(), StackString::default());
    assert_eq!(MAX_INLINE, 24);
}

#[test]
fn stack_string_test_split_off() {
    let mut s0 = "hello there".to_string();
    let s1 = s0.split_off(3);
    let mut s2: StackString = "hello there".into();
    let s3 = s2.split_off(3);
    assert_eq!(s0.as_str(), s2.as_str());
    assert_eq!(s1.as_str(), s3.as_str());
}

#[test]
fn stack_string_test_from_utf8() {
    let mut rng = thread_rng();
    let v: Vec<_> = (0..20).map(|_| rng.gen::<u8>() & 0x7f).collect();
    let s0 = String::from_utf8(v.clone()).unwrap();
    let s1 = StackString::from_utf8(&v).unwrap();
    assert_eq!(s0.as_str(), s1.as_str());

    let v: Vec<_> = (0..20).map(|_| rng.gen::<u8>()).collect();
    let s0 = String::from_utf8(v.clone());
    let s1 = StackString::from_utf8(&v);

    match s0 {
        Ok(s) => assert_eq!(s.as_str(), s1.unwrap().as_str()),
        Err(e) => {
            let e1 = s1.unwrap_err();
            assert_eq!(e.utf8_error().valid_up_to(), e1.valid_up_to);
            assert_eq!(e.utf8_error().error_len(), e1.error_len);
        }
    }
}

#[test]
fn stack_string_test_from_utf8_vec() {
    let mut rng = thread_rng();
    let v: Vec<_> = (0..20).map(|_| rng.gen::<u8>() & 0x7f).collect();
    let s0 = String::from_utf8(v.clone()).unwrap();
    let s1 = StackString::from_utf8_vec(v).unwrap();
    assert_eq!(s0.as_str(), s1.as_str());

    let v: Vec<_> = (0..20).map(|_| rng.gen::<u8>()).collect();
    let s0 = String::from_utf8(v.clone());
    let s1 = StackString::from_utf8_vec(v);

    match s0 {
        Ok(s) => assert_eq!(s.as_str(), s1.unwrap().as_str()),
        Err(e) => {
            let e1 = s1.unwrap_err();
            assert_eq!(e.utf8_error().valid_up_to(), e1.error.valid_up_to);
            assert_eq!(e.utf8_error().error_len(), e1.error.error_len);
            assert_eq!(e.into_bytes(), e1.bytes);
        }
    }
}

#[test]
fn test_string_from_compact_string() {
    let s0 = StackString::from("Hello there");
    let s1: String = s0.clone().into();
    assert_eq!(s0.as_str(), s1.as_str());
}

#[test]
fn test_compact_string_from_string() {
    let s0 = String::from("Hello there");
    let s1: StackString = s0.clone().into();
    assert_eq!(s0.as_str(), s1.as_str());
    let s1: StackString = (&s0).into();
    assert_eq!(s0.as_str(), s1.as_str());
}

#[test]
fn stack_string_test_borrow() {
    let s = StackString::from("Hello");
    let st: &str = s.borrow();
    assert_eq!(st, "Hello");
}

#[test]
fn stack_string_test_as_ref() {
    let s = StackString::from("Hello");
    let st: &str = s.as_ref();
    assert_eq!(st, s.as_str());
    let bt: &[u8] = s.as_ref();
    assert_eq!(bt, s.as_bytes());
    let pt: &Path = Path::new(s.as_str());
    assert_eq!(pt, Path::new("Hello"));
}

#[test]
fn stack_string_test_from_str() {
    let s = StackString::from("Hello");
    let st: StackString = "Hello".parse().unwrap();
    assert_eq!(s, st);
}

#[test]
fn stack_string_test_partialeq_cow() {
    let p = Path::new("Hello");
    let ps = p.to_string_lossy();
    let s = StackString::from("Hello");
    assert_eq!(s, ps);
}

#[test]
fn stack_string_test_partial_eq_string() {
    assert_eq!(StackString::from("Hello"), String::from("Hello"));
    assert_eq!(StackString::from("Hello"), "Hello");
    assert_eq!(&StackString::from("Hello"), "Hello");
    assert!(StackString::from("alpha") < "beta");
    assert!("beta" > StackString::from("alpha"));
}

#[test]
fn stack_string_test_from_iterator_char() {
    let mut rng = thread_rng();
    let v: Vec<char> = (0..20).map(|_| rng.gen::<char>()).collect();
    let s0: StackString = v.iter().map(|x| *x).collect();
    let s1: String = v.iter().map(|x| *x).collect();
    assert_eq!(s0, s1);
}

#[test]
fn test_contains_compact_string() {
    let a: StackString = "hey there".into();
    let b: StackString = "hey".into();
    assert!(a.contains(b.as_str()));
}

#[test]
fn stack_string_test_contains_char() {
    let a: StackString = "hey there".into();
    assert!(a.contains(' '));
}

#[test]
fn stack_string_test_equality() {
    let s: StackString = "hey".into();
    assert_eq!(Some(&s).map(Into::into), Some("hey"));
}

#[test]
fn stack_string_test_from_display() {
    let t = Shown {};
    let s = StackString::from_display(t);
    assert_eq!(s, StackString::from("THIS IS A TEST"));
}

#[test]
fn stack_string_test_from_utf8_lossy() {
    let mut v = Vec::new();
    v.extend_from_slice("this is a test".as_bytes());
    v.push(0xff);
    v.extend_from_slice("yes".as_bytes());
    let s = StackString::from_utf8_lossy(&v);
    assert_eq!(s.len(), 20);
    assert_eq!(s.is_heap_allocated(), false);
}

#[test]
fn stack_string_lossy_places_each_replacement() {
    let s = StackString::from_utf8_lossy(b"this is a test\xFFyes");
    assert_eq!(s.as_str(), "this is a test\u{FFFD}yes");
    let s = StackString::from_utf8_lossy(b"\xF0\x9F\xC8\x84");
    assert_eq!(s.as_str(), "\u{FFFD}\u{204}");
    let s = StackString::from_utf8_lossy(b"ab\xE2\x82");
    assert_eq!(s.as_str(), "ab\u{FFFD}");
    let s = StackString::from_utf8_lossy(b"\xFF\xFF");
    assert_eq!(s.as_str(), "\u{FFFD}\u{FFFD}");
}

#[test]
fn stack_string_inline_limit() {
    assert_eq!(std::mem::size_of::<StackString>(), 24);
    assert_eq!(MAX_INLINE, std::mem::size_of::<String>());
    let s = StackString::from("123456789012345678901234");
    assert_eq!(s.len(), MAX_INLINE);
    assert!(s.is_inline());
    let s = StackString::from("1234567890123456789012345");
    assert!(!s.is_inline());
    assert!(s.is_heap_allocated());
}

#[test]
fn stack_string_push_str_appends() {
    let mut s = StackString::from("hey");
    s.push_str(" there");
    assert_eq!(s.as_str(), "hey there");
    let t = s.clone();
    assert_eq!(t, s);
    let owned = s.into_string();
    assert_eq!(owned, "hey there");
}

#[test]
fn stack_string_test_format_sstr() {
    let s = StackString::from_display(format!("This is a test {}", 22));
    assert_eq!(s, StackString::from("This is a test 22"));
}

#[test]
fn stack_string_equal_text_hashes_alike() {
    let mut m = HashMap::new();
    m.insert(StackString::from_utf8_vec(b"HELLO".to_vec()).unwrap(), "WORLD");
    assert_eq!(m.get(&StackString::from("HELLO")), Some(&"WORLD"));
}

#[test]
fn stack_string_as_mut_str_changes_the_text_in_place() {
    let mut s = StackString::from("hello");
    s.as_mut_str().make_ascii_uppercase();
    assert_eq!(s.as_str(), "HELLO");
    s.make_ascii_lowercase();
    assert_eq!(s.as_str(), "hello");
}

#[test]
fn stack_string_displays_as_its_text() {
    assert_eq!(StackString::from("hey").to_string(), "hey");
    assert_eq!(format!("{}", StackString::from("hey")), "hey");
}

#[test]
fn stack_string_from_utf8_goes_by_the_same_limit() {
    let s = StackString::from_utf8(b"123456789012345678901234").unwrap();
    assert!(s.is_inline());
    let s = StackString::from_utf8(b"1234567890123456789012345").unwrap();
    assert!(s.is_heap_allocated());
    assert!(StackString::from_utf8(b"").unwrap().is_inline());
    assert!(StackString::new().is_inline());
    assert!(StackString::default().is_inline());
    let e = StackString::from_utf8(b"ab\xC3").unwrap_err();
    assert_eq!(e.valid_up_to, 2);
    assert_eq!(e.error_len, None);
    let e = StackString::from_utf8(b"ab\xC3(").unwrap_err();
    assert_eq!(e.valid_up_to, 2);
    assert_eq!(e.error_len, Some(1));
}

#[test]
fn stack_string_split_off_keeps_the_place_of_the_head() {
    let mut s = StackString::from("a text that is too long to lie in place");
    assert!(s.is_heap_allocated());
    let tail = s.split_off(6);
    assert_eq!(s.as_str(), "a text");
    assert!(s.is_heap_allocated());
    assert_eq!(tail.len(), 33);
    assert!(tail.is_heap_allocated());
    let mut t = tail;
    let end = t.split_off(9);
    assert_eq!(end.len(), 24);
    assert!(end.is_inline());
    assert!(t.is_heap_allocated());
    let mut short = StackString::from("hello there");
    let rest = short.split_off(5);
    assert!(short.is_inline());
    assert!(rest.is_inline());
    t.as_mut_str().make_ascii_uppercase();
    assert!(t.is_heap_allocated());
    assert_eq!(t.as_str(), " THAT IS ");
}

#[test]
fn stack_string_lossy_is_on_the_heap_by_input_or_decoded_length() {
    let s = StackString::from_utf8_lossy(b"this is a test\xFFyes");
    assert_eq!(s.len(), 20);
    assert!(s.is_inline());
    let s = StackString::from_utf8_lossy(b"123456789012345678901\xFF");
    assert_eq!(s.len(), 24);
    assert!(s.is_inline());
    let s = StackString::from_utf8_lossy(b"1234567890123456789012\xFF");
    assert_eq!(s.len(), 25);
    assert!(s.is_heap_allocated());
    let s = StackString::from_utf8_lossy(b"123456789012345678901234");
    assert!(s.is_inline());
    let s = StackString::from_utf8_lossy(b"1234567890123456789012345");
    assert!(s.is_heap_allocated());
    let s = StackString::from_utf8_lossy(b"\xFF234567890123456789012345");
    assert!(s.is_heap_allocated());
}

#[test]
fn stack_string_try_split_off_refuses_the_inside_of_a_character() {
    let mut s = StackString::from("a\u{20AC}b");
    assert!(s.try_split_off(2).is_none());
    assert!(s.try_split_off(6).is_none());
    assert_eq!(s.as_str(), "a\u{20AC}b");
    let tail = s.try_split_off(4).unwrap();
    assert_eq!(s.as_str(), "a\u{20AC}");
    assert_eq!(tail.as_str(), "b");
}

#[test]
fn stack_string_conversions_and_cmp() {
    let parsed: StackString = "1234567890123456789012345".parse().unwrap();
    assert!(parsed.is_heap_allocated());
    let parsed: StackString = "short".parse().unwrap();
    assert!(parsed.is_inline());
    let c: StackString = Cow::Borrowed("1234567890123456789012345").into();
    assert!(c.is_heap_allocated());
    let c: StackString = Cow::Borrowed("short").into();
    assert!(c.is_inline());
    let a = StackString::from("alpha");
    let b = StackString::from("beta");
    assert_eq!(a.cmp(&b), std::cmp::Ordering::Less);
    assert_eq!(b.cmp(&a), std::cmp::Ordering::Greater);
    assert_eq!(a.cmp(&a.clone()), std::cmp::Ordering::Equal);
    assert_eq!(a.partial_cmp(&b), Some(a.cmp(&b)));
    let mut v = vec![b.clone(), a.clone()];
    v.sort();
    assert_eq!(v, vec![a, b]);
}
