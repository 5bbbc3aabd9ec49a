use rand::{thread_rng, Rng};
use stack_string::{StackCow, StackString};
use std::borrow::Borrow;
use std::borrow::Cow;
use std::collections::HashMap;
use std::path::Path;

struct Shown {}

impl std::fmt::Display for Shown {
    fn fmt(&self, f: &mut std::fmt::Formatter<'_>) -> std::fmt::Result {
        f.write_str("THIS IS A TEST")
    }
}

#[test]
fn stack_cow_test_default() {
    assert_eq!(StackCow::new(), StackCow::default());
}

#[test]
fn stack_cow_test_from_utf8() {
    let mut rng = thread_rng();
    let v: Vec<_> = (0..20).map(|_| rng.gen::<u8>() & 0x7f).collect();
    let s0 = String::from_utf8(v.clone()).unwrap();
    let s1 = StackCow::from_utf8(v).unwrap();
    assert_eq!(s0.as_str(), s1.as_str());

    let v: Vec<_> = (0..20).map(|_| rng.gen::<u8>()).collect();
    let s0 = String::from_utf8(v.clone());
    let s1 = StackCow::from_utf8(v);

    match s0 {
        Ok(s) => assert_eq!(s.as_str(), s1.unwrap().as_str()),
        Err(e) => {
            let e1 = s1.unwrap_err();
            assert_eq!(e.utf8_error().valid_up_to(), e1.error.valid_up_to);
            assert_eq!(e.utf8_error().error_len(), e1.error.error_len);
            assert_eq!(e.into_bytes(), e1.bytes);
        }
    }
}

#[test]
fn test_string_from_stack_cow() {
    let s0 = StackCow::from("Hello there");
    let s1: String = s0.clone().into();
    assert_eq!(s0.as_str(), s1.as_str());
}

#[test]
fn test_stack_cow_from_string() {
    let s0 = String::from("Hello there");
    let s1: StackCow = s0.clone().into();
    assert_eq!(s0.as_str(), s1.as_str());
    let s1: StackCow = (&s0).into();
    assert_eq!(s0.as_str(), s1.as_str());
}

#[test]
fn stack_cow_test_borrow() {
    let s = StackCow::from("Hello");
    let st: &str = s.borrow();
    assert_eq!(st, "Hello");
}

#[test]
fn stack_cow_test_as_ref() {
    let s = StackCow::from("Hello");
    let st: &str = s.as_ref();
    assert_eq!(st, s.as_str());
    let bt: &[u8] = s.as_ref();
    assert_eq!(bt, s.as_bytes());
    let pt: &Path = Path::new(s.as_str());
    assert_eq!(pt, Path::new("Hello"));
}

#[test]
fn stack_cow_test_from_str() {
    let s = StackCow::from("Hello");
    assert_eq!(s, StackCow::Borrowed("Hello"));
}

#[test]
fn stack_cow_test_partialeq_cow() {
    let p = Path::new("Hello");
    let ps = p.to_string_lossy();
    let s = StackCow::from("Hello");
    assert_eq!(s, ps);
}

#[test]
fn stack_cow_test_partial_eq_string() {
    assert_eq!(StackCow::from("Hello"), String::from("Hello"));
    assert_eq!(StackCow::from("Hello"), "Hello");
    assert_eq!(&StackCow::from("Hello"), "Hello");
}

#[test]
fn stack_cow_test_from_iterator_char() {
    let mut rng = thread_rng();
    let v: Vec<char> = (0..20).map(|_| rng.gen::<char>()).collect();
    let s0 = StackCow::from_stack_string(v.iter().map(|x| *x).collect::<StackString>());
    let s1: String = v.iter().map(|x| *x).collect();
    assert_eq!(s0, s1);
}

#[test]
fn test_contains_stack_cow() {
    let a: StackCow = "hey there".into();
    let b: StackCow = "hey".into();
    assert!(a.contains(b.as_str()));
}

#[test]
fn stack_cow_test_contains_char() {
    let a: StackCow = "hey there".into();
    assert!(a.contains(' '));
}

#[test]
fn stack_cow_test_equality() {
    let s: StackCow = "hey".into();
    assert_eq!(Some(&s).map(Into::into), Some("hey"));
}

#[test]
fn stack_cow_test_from_display() {
    let t = Shown {};
    let s = StackCow::from_display(t);
    assert_eq!(s, StackCow::from(StackString::from("THIS IS A TEST")));
}

#[test]
fn stack_cow_test_from_utf8_lossy() {
    let mut v = Vec::new();
    v.extend_from_slice("this is a test".as_bytes());
    v.push(0xff);
    v.extend_from_slice("yes".as_bytes());
    let s = StackCow::from_utf8_lossy(&v);
    assert_eq!(s.len(), 20);
    assert_eq!(s.is_owned(), true);
    let s: StackString = s.into();
    assert_eq!(s.len(), 20);
    assert_eq!(s.is_inline(), true);
}

#[test]
fn stack_cow_lossy_borrows_long_valid_input_only() {
    let long = b"this input is longer than a string is large";
    let s = StackCow::from_utf8_lossy(long);
    assert!(s.is_borrowed());
    assert_eq!(s.as_str(), "this input is longer than a string is large");
    let short = b"123456789012345678901234";
    let s = StackCow::from_utf8_lossy(short);
    assert!(s.is_owned());
    assert_eq!(s.as_str(), "123456789012345678901234");
    let broken = b"this input is longer than a string is large\xFF";
    let s = StackCow::from_utf8_lossy(broken);
    assert!(s.is_owned());
    assert_eq!(s.as_str(), "this input is longer than a string is large\u{FFFD}");
}

#[test]
fn stack_cow_borrowed_equals_owned() {
    let b = StackCow::Borrowed("x");
    let o = StackCow::Owned(StackString::from("x"));
    assert_eq!(b, o);
    assert_eq!(o, b);
    assert!(StackCow::Borrowed("alpha") < StackCow::Owned(StackString::from("beta")));
    assert!(StackCow::Owned(StackString::from("beta")) > StackCow::Borrowed("alpha"));
}

#[test]
fn stack_cow_into_owned_twice_is_once() {
    let b = StackCow::Borrowed("hey there");
    let copy = b.to_owned();
    assert!(b.is_borrowed());
    assert_eq!(b.as_str(), "hey there");
    assert!(copy.is_owned());
    assert_eq!(copy, b);
    let once = b.into_owned();
    assert!(once.is_owned());
    let twice = once.clone().into_owned();
    assert!(twice.is_owned());
    assert_eq!(once, twice);
    assert_eq!(twice.as_str(), "hey there");
}

#[test]
fn stack_cow_mutation_takes_ownership_first() {
    let mut c = StackCow::Borrowed("hello");
    c.push_str(" there");
    assert!(c.is_owned());
    assert_eq!(c.as_str(), "hello there");
    let mut c = StackCow::Borrowed("hello there");
    let tail = c.split_off(3);
    assert!(c.is_owned());
    assert!(tail.is_owned());
    assert_eq!(c.as_str(), "hel");
    assert_eq!(tail.as_str(), "lo there");
    let mut c = StackCow::Borrowed("hey");
    c.make_owned();
    assert!(c.is_owned());
    assert_eq!(c.as_str(), "hey");
}

#[test]
fn stack_cow_from_cow_keeps_the_borrow() {
    let c: StackCow = Cow::Borrowed("hey").into();
    assert!(c.is_borrowed());
    let c: StackCow = Cow::<str>::Owned("hey".to_string()).into();
    assert!(c.is_owned());
    assert_eq!(c.as_str(), "hey");
    let parsed: StackCow = "hey".parse().unwrap();
    assert!(parsed.is_owned());
    let s: String = (&c).into();
    assert_eq!(s, "hey");
}

#[test]
fn stack_cow_equal_text_hashes_alike() {
    let mut m = HashMap::new();
    m.insert(StackCow::Owned(StackString::from("HELLO")), "WORLD");
    assert_eq!(m.get(&StackCow::Borrowed("HELLO")), Some(&"WORLD"));
}

#[test]
fn stack_cow_displays_as_its_text() {
    assert_eq!(StackCow::Borrowed("hey").to_string(), "hey");
    assert_eq!(format!("{}", StackCow::Owned(StackString::from("hey"))), "hey");
}

#[test]
fn stack_cow_try_split_off_leaves_a_borrow_alone() {
    let mut c = StackCow::Borrowed("a\u{20AC}b");
    assert!(c.try_split_off(2).is_none());
    assert!(c.try_split_off(9).is_none());
    assert!(c.is_borrowed());
    assert_eq!(c.as_str(), "a\u{20AC}b");
    let tail = c.try_split_off(4).unwrap();
    assert!(c.is_owned());
    assert!(tail.is_owned());
    assert_eq!(c.as_str(), "a\u{20AC}");
    assert_eq!(tail.as_str(), "b");
}

#[test]
fn stack_cow_cmp_goes_by_text() {
    let a = StackCow::Borrowed("alpha");
    let b = StackCow::Owned(StackString::from("beta"));
    assert_eq!(a.cmp(&b), std::cmp::Ordering::Less);
    assert_eq!(b.cmp(&a), std::cmp::Ordering::Greater);
    assert_eq!(a.partial_cmp(&b), Some(a.cmp(&b)));
    assert_eq!(a.cmp(&StackCow::Owned(StackString::from("alpha"))), std::cmp::Ordering::Equal);
}

#[test]
fn stack_cow_lossy_text_of_its_own_lies_where_stack_string_puts_it() {
    let s = StackCow::from_utf8_lossy(b"this is a test\xFFyes");
    let owned: StackString = s.into();
    assert!(owned.is_inline());
    let s = StackCow::from_utf8_lossy(b"1234567890123456789012\xFF");
    assert!(s.is_owned());
    assert_eq!(s.len(), 25);
    let owned = s.into_stack_string();
    assert!(owned.is_heap_allocated());
}
