//! Text backed by `compact_str`: in place up to the size of a `String`, on
//! the heap beyond it.

use crate::{display_str, hash_str};
use crate::order::{cow_as_str, str_eq, str_order, text_order};
use crate::utf8::{
    describes_rejection, lemma_split_text, lossy_bytes, lossy_text, validate_vec, InvalidUtf8,
    InvalidUtf8Vec,
};
use compact_str::CompactString;
use core::cmp::Ordering;
use std::borrow::Cow;
use vstd::prelude::*;
use vstd::string::*;
use vstd::utf8::*;

verus! {

/// Text that `compact_str` keeps in place while it is short.
///
/// The field is a `CompactString`, which the verifier cannot look into:
/// what it holds goes by `compact_text`, where it holds it by
/// `compact_on_heap`.
#[verifier::external_body]
#[derive(Debug)]
pub struct StackString(CompactString);

/// The text that the `CompactString` inside a value holds.
pub uninterp spec fn compact_text(s: StackString) -> Seq<char>;

/// Whether the `CompactString` inside a value keeps its text on the heap.
pub uninterp spec fn compact_on_heap(s: StackString) -> bool;

/// `CompactString::new` on a string slice.
///
/// Trusted: the result holds the text of `s`, in place exactly when that
/// text is no longer than a `String` is large.
#[verifier::external_body]
fn compact_new(s: &str) -> (r: StackString)
    ensures
        compact_text(r) == s@,
        compact_on_heap(r) <==> s.spec_bytes().len() > vstd::layout::size_of::<String>(),
{
    StackString(CompactString::new(s))
}

/// `CompactString::as_str`.
///
/// Trusted: the slice is the text held.
#[verifier::external_body]
fn compact_as_str(s: &StackString) -> (r: &str)
    ensures
        r@ == compact_text(*s),
{
    s.0.as_str()
}

/// `CompactString::from` on a `String`.
///
/// Trusted: the result holds the string's text.
#[verifier::external_body]
fn compact_from_string(s: String) -> (r: StackString)
    ensures
        compact_text(r) == s@,
{
    StackString(CompactString::from(s))
}

/// `CompactString::from_string_buffer`.
///
/// Trusted: the result holds the string's text.
#[verifier::external_body]
fn compact_from_string_buffer(s: String) -> (r: StackString)
    ensures
        compact_text(r) == s@,
{
    StackString(CompactString::from_string_buffer(s))
}

/// `CompactString::into_string`.
///
/// Trusted: the string holds the text that was held.
#[verifier::external_body]
fn compact_into_string(s: StackString) -> (r: String)
    ensures
        r@ == compact_text(s),
{
    s.0.into_string()
}

/// `CompactString::clone`.
///
/// Trusted: the copy holds the same text.
#[verifier::external_body]
fn compact_clone(s: &StackString) -> (r: StackString)
    ensures
        compact_text(r) == compact_text(*s),
{
    StackString(s.0.clone())
}

/// `CompactString::is_heap_allocated`.
#[verifier::external_body]
fn compact_is_heap_allocated(s: &StackString) -> (r: bool)
    ensures
        r == compact_on_heap(*s),
{
    s.0.is_heap_allocated()
}

/// `CompactString::push_str`.
///
/// Trusted: `s` is appended to the text held.
#[verifier::external_body]
fn compact_push_str(c: &mut StackString, s: &str)
    ensures
        compact_text(*final(c)) == compact_text(*old(c)) + s@,
{
    c.0.push_str(s)
}

/// `CompactString::split_off`.
///
/// Trusted: the value keeps the bytes before `at`, where it kept its text
/// before, and the result holds the bytes from `at` on, in place exactly
/// when they are no more than a `String` is large. The call panics where
/// `at` is no character boundary, which `requires` leaves out.
#[verifier::external_body]
fn compact_split_off(c: &mut StackString, at: usize) -> (r: StackString)
    requires
        is_char_boundary(encode_utf8(compact_text(*old(c))), at as int),
    ensures
        encode_utf8(compact_text(*final(c))) == encode_utf8(compact_text(*old(c))).subrange(
            0,
            at as int,
        ),
        encode_utf8(compact_text(r)) == encode_utf8(compact_text(*old(c))).subrange(
            at as int,
            encode_utf8(compact_text(*old(c))).len() as int,
        ),
        compact_on_heap(*final(c)) == compact_on_heap(*old(c)),
        compact_on_heap(r) <==> encode_utf8(compact_text(*old(c))).len() - at
            > vstd::layout::size_of::<String>(),
{
    StackString(c.0.split_off(at))
}

/// `CompactString::from_utf8` on a byte slice, with the error's two
/// accessors read out.
///
/// Trusted: the bytes are validated by `core::str::from_utf8`; valid bytes
/// become the text held, in place exactly when they are no more than a
/// `String` is large, and a rejection is the one described there.
#[verifier::external_body]
fn compact_from_utf8(v: &[u8]) -> (r: Result<StackString, InvalidUtf8>)
    ensures
        match r {
            Ok(c) => {
                &&& valid_utf8(v@)
                &&& compact_text(c) == decode_utf8(v@)
                &&& (compact_on_heap(c) <==> v@.len() > vstd::layout::size_of::<String>())
            },
            Err(e) => describes_rejection(e, v@),
        },
{
    match CompactString::from_utf8(v) {
        Ok(c) => Ok(StackString(c)),
        Err(e) => Err(InvalidUtf8 { valid_up_to: e.valid_up_to(), error_len: e.error_len() }),
    }
}

/// `CompactString::from_utf8_lossy`.
///
/// Trusted: the result holds the lossy decoding of `v`: each run of valid
/// bytes as it is and one replacement character for each invalid sequence
/// that `core::str::from_utf8` reports. Valid input is copied as `new`
/// copies it; other input is decoded into a buffer made for the length of
/// `v`, so the text lies on the heap exactly when the input or the decoded
/// text is more than a `String` is large.
#[verifier::external_body]
fn compact_from_utf8_lossy(v: &[u8]) -> (r: StackString)
    ensures
        compact_text(r) == lossy_text(v@),
        compact_on_heap(r) <==> v@.len() > vstd::layout::size_of::<String>() || lossy_bytes(
            v@,
        ).len() > vstd::layout::size_of::<String>(),
{
    StackString(CompactString::from_utf8_lossy(v))
}

/// `CompactString::as_mut_str`.
///
/// Trusted: the slice holds the text held, and what it holds when the borrow
/// ends is the text held from then on, in the same place.
#[verifier::external_body]
fn compact_as_mut_str(t: &mut StackString) -> (r: &mut str)
    ensures
        r@ == compact_text(*old(t)),
        compact_text(*final(t)) == final(r)@,
        compact_on_heap(*final(t)) == compact_on_heap(*old(t)),
{
    t.0.as_mut_str()
}

impl View for StackString {
    type V = Seq<char>;

    open spec fn view(&self) -> Seq<char> {
        compact_text(*self)
    }
}

impl StackString {
    /// The text's UTF-8 encoding.
    pub open spec fn spec_bytes(&self) -> Seq<u8> {
        encode_utf8(self@)
    }

    /// Whether the text lies on the heap.
    pub open spec fn on_heap(&self) -> bool {
        compact_on_heap(*self)
    }

    /// The size of a `String`: the most bytes that a new value holds in
    /// place.
    pub open spec fn inline_limit() -> nat {
        vstd::layout::size_of::<String>()
    }

    /// The empty text, in place.
    pub fn new() -> (r: Self)
        ensures
            r@ == Seq::<char>::empty(),
            !r.on_heap(),
    {
        let r = compact_new("");
        proof {
            reveal_strlit("");
            assert(r@ =~= Seq::<char>::empty());
        }
        r
    }

    /// The text.
    pub fn as_str(&self) -> (s: &str)
        ensures
            s@ == self@,
    {
        compact_as_str(self)
    }

    /// True while the text lies in the value itself.
    pub fn is_inline(&self) -> (r: bool)
        ensures
            r == !self.on_heap(),
    {
        !self.is_heap_allocated()
    }

    /// True while the text lies on the heap.
    pub fn is_heap_allocated(&self) -> (r: bool)
        ensures
            r == self.on_heap(),
    {
        compact_is_heap_allocated(self)
    }

    /// The text, open to change in place.
    pub fn as_mut_str(&mut self) -> (s: &mut str)
        ensures
            s@ == old(self)@,
            final(self)@ == final(s)@,
            final(self).on_heap() == old(self).on_heap(),
    {
        compact_as_mut_str(self)
    }

    /// Length of the text in bytes.
    pub fn len(&self) -> (n: usize)
        ensures
            n == self.spec_bytes().len(),
    {
        self.as_str().as_bytes().len()
    }

    /// Makes a value of `s`, in place if `s` is short enough.
    pub fn from_str_slice(s: &str) -> (r: Self)
        ensures
            r@ == s@,
            r.on_heap() <==> s.spec_bytes().len() > Self::inline_limit(),
    {
        compact_new(s)
    }

    /// Makes a value of `item`; text too long to lie in place keeps the
    /// string's buffer.
    pub fn from_string(item: String) -> (r: Self)
        ensures
            r@ == item@,
    {
        compact_from_string(item)
    }

    /// The text as an owned string.
    pub fn into_string(self) -> (r: String)
        ensures
            r@ == self@,
    {
        compact_into_string(self)
    }

    /// Appends `s`.
    pub fn push_str(&mut self, s: &str)
        ensures
            final(self)@ == old(self)@ + s@,
    {
        compact_push_str(self, s)
    }

    /// Splits the text at byte `index`: the value keeps what lies before it,
    /// where it kept its text before; what lies from it on is returned, in
    /// place if it is short enough.
    pub fn split_off(&mut self, index: usize) -> (tail: Self)
        requires
            is_char_boundary(old(self).spec_bytes(), index as int),
        ensures
            final(self).spec_bytes() == old(self).spec_bytes().subrange(0, index as int),
            tail.spec_bytes() == old(self).spec_bytes().subrange(
                index as int,
                old(self).spec_bytes().len() as int,
            ),
            old(self)@ == final(self)@ + tail@,
            final(self).on_heap() == old(self).on_heap(),
            tail.on_heap() <==> old(self).spec_bytes().len() - index > Self::inline_limit(),
    {
        proof {
            lemma_split_text(self@, index as int);
        }
        let tail = compact_split_off(self, index);
        proof {
            encode_utf8_decode_utf8(self@);
            encode_utf8_decode_utf8(tail@);
        }
        tail
    }

    /// Splits the text at byte `index` if that is a character boundary, as
    /// `split_off` does, and leaves the value as it is if not.
    pub fn try_split_off(&mut self, index: usize) -> (tail: Option<Self>)
        ensures
            tail is Some <==> is_char_boundary(old(self).spec_bytes(), index as int),
            tail is None ==> *final(self) == *old(self),
            tail matches Some(t) ==> {
                &&& final(self).spec_bytes() == old(self).spec_bytes().subrange(0, index as int)
                &&& t.spec_bytes() == old(self).spec_bytes().subrange(
                    index as int,
                    old(self).spec_bytes().len() as int,
                )
                &&& old(self)@ == final(self)@ + t@
                &&& final(self).on_heap() == old(self).on_heap()
                &&& (t.on_heap() <==> old(self).spec_bytes().len() - index > Self::inline_limit())
            },
    {
        if self.as_str().is_char_boundary(index) {
            Some(self.split_off(index))
        } else {
            None
        }
    }

    /// Makes a value of the text in `v`, or says why `v` is not UTF-8.
    pub fn from_utf8(v: &[u8]) -> (r: Result<Self, InvalidUtf8>)
        ensures
            match r {
                Ok(t) => {
                    &&& valid_utf8(v@)
                    &&& t@ == decode_utf8(v@)
                    &&& (t.on_heap() <==> v@.len() > Self::inline_limit())
                },
                Err(e) => describes_rejection(e, v@),
            },
    {
        compact_from_utf8(v)
    }

    /// Makes a value of the text in `v` that keeps the vector's buffer, or
    /// hands `v` back with the reason why it is not UTF-8.
    pub fn from_utf8_vec(v: Vec<u8>) -> (r: Result<Self, InvalidUtf8Vec>)
        ensures
            match r {
                Ok(t) => valid_utf8(v@) && t@ == decode_utf8(v@),
                Err(e) => e.bytes@ == v@ && describes_rejection(e.error, v@),
            },
    {
        match validate_vec(v) {
            Ok(s) => Ok(compact_from_string_buffer(s)),
            Err(e) => Err(e),
        }
    }

    /// Makes a value of what `buf` displays as.
    pub fn from_display<T: core::fmt::Display>(buf: T) -> (r: Self)
        ensures
            exists|s: String| #[trigger] to_string_from_display_ensures::<T>(&buf, s) && r@ == s@,
    {
        let text = buf.to_string();
        Self::from_string(text)
    }

    /// Makes a value of `v` as far as it is UTF-8, with one replacement
    /// character for each invalid sequence.
    pub fn from_utf8_lossy(v: &[u8]) -> (r: Self)
        ensures
            r@ == lossy_text(v@),
            r.on_heap() <==> v@.len() > Self::inline_limit() || lossy_bytes(v@).len()
                > Self::inline_limit(),
    {
        compact_from_utf8_lossy(v)
    }
}

impl Clone for StackString {
    fn clone(&self) -> (r: Self)
        ensures
            r@ == self@,
    {
        compact_clone(self)
    }
}

impl Default for StackString {
    fn default() -> (r: Self)
        ensures
            r@ == Seq::<char>::empty(),
            !r.on_heap(),
    {
        Self::new()
    }
}

impl From<&str> for StackString {
    fn from(item: &str) -> (r: Self)
        ensures
            r@ == item@,
            r.on_heap() <==> item.spec_bytes().len() > Self::inline_limit(),
    {
        Self::from_str_slice(item)
    }
}

impl vstd::std_specs::convert::FromSpecImpl<&str> for StackString {
    /// What `from` returns is stated on `from` itself, over the text.
    open spec fn obeys_from_spec() -> bool {
        false
    }

    open spec fn from_spec(item: &str) -> Self {
        arbitrary()
    }
}

impl From<String> for StackString {
    fn from(item: String) -> (r: Self)
        ensures
            r@ == item@,
    {
        Self::from_string(item)
    }
}

impl vstd::std_specs::convert::FromSpecImpl<String> for StackString {
    /// What `from` returns is stated on `from` itself, over the text.
    open spec fn obeys_from_spec() -> bool {
        false
    }

    open spec fn from_spec(item: String) -> Self {
        arbitrary()
    }
}

impl From<&String> for StackString {
    fn from(item: &String) -> (r: Self)
        ensures
            r@ == item@,
            r.on_heap() <==> encode_utf8(item@).len() > Self::inline_limit(),
    {
        Self::from_str_slice(item.as_str())
    }
}

impl vstd::std_specs::convert::FromSpecImpl<&String> for StackString {
    /// What `from` returns is stated on `from` itself, over the text.
    open spec fn obeys_from_spec() -> bool {
        false
    }

    open spec fn from_spec(item: &String) -> Self {
        arbitrary()
    }
}

impl<'a> From<Cow<'a, str>> for StackString {
    fn from(item: Cow<'a, str>) -> (r: Self)
        ensures
            r@ == item@,
            item is Borrowed ==> (r.on_heap() <==> encode_utf8(item@).len() > Self::inline_limit()),
    {
        match item {
            Cow::Borrowed(s) => Self::from_str_slice(s),
            Cow::Owned(s) => Self::from_string(s),
        }
    }
}

impl<'a> vstd::std_specs::convert::FromSpecImpl<Cow<'a, str>> for StackString {
    /// What `from` returns is stated on `from` itself, over the text.
    open spec fn obeys_from_spec() -> bool {
        false
    }

    open spec fn from_spec(item: Cow<'a, str>) -> Self {
        arbitrary()
    }
}

impl From<&StackString> for StackString {
    fn from(item: &StackString) -> (r: Self)
        ensures
            r@ == item@,
    {
        item.clone()
    }
}

impl vstd::std_specs::convert::FromSpecImpl<&StackString> for StackString {
    /// What `from` returns is stated on `from` itself, over the text.
    open spec fn obeys_from_spec() -> bool {
        false
    }

    open spec fn from_spec(item: &StackString) -> Self {
        arbitrary()
    }
}

impl From<StackString> for String {
    fn from(item: StackString) -> (r: String)
        ensures
            r@ == item@,
    {
        item.into_string()
    }
}

impl vstd::std_specs::convert::FromSpecImpl<StackString> for String {
    /// What `from` returns is stated on `from` itself, over the text.
    open spec fn obeys_from_spec() -> bool {
        false
    }

    open spec fn from_spec(item: StackString) -> String {
        arbitrary()
    }
}

impl From<&StackString> for String {
    fn from(item: &StackString) -> (r: String)
        ensures
            r@ == item@,
    {
        item.as_str().to_owned()
    }
}

impl vstd::std_specs::convert::FromSpecImpl<&StackString> for String {
    /// What `from` returns is stated on `from` itself, over the text.
    open spec fn obeys_from_spec() -> bool {
        false
    }

    open spec fn from_spec(item: &StackString) -> String {
        arbitrary()
    }
}

impl<'a> From<&'a StackString> for &'a str {
    fn from(item: &'a StackString) -> (r: &'a str)
        ensures
            r@ == item@,
    {
        item.as_str()
    }
}

impl<'a> vstd::std_specs::convert::FromSpecImpl<&'a StackString> for &'a str {
    /// What `from` returns is stated on `from` itself, over the text.
    open spec fn obeys_from_spec() -> bool {
        false
    }

    open spec fn from_spec(item: &'a StackString) -> &'a str {
        arbitrary()
    }
}

impl<'a> From<StackString> for Cow<'a, str> {
    fn from(item: StackString) -> (r: Cow<'a, str>)
        ensures
            r@ == item@,
    {
        Cow::Owned(item.into_string())
    }
}

impl<'a> vstd::std_specs::convert::FromSpecImpl<StackString> for Cow<'a, str> {
    /// What `from` returns is stated on `from` itself, over the text.
    open spec fn obeys_from_spec() -> bool {
        false
    }

    open spec fn from_spec(item: StackString) -> Cow<'a, str> {
        arbitrary()
    }
}

impl core::str::FromStr for StackString {
    type Err = core::convert::Infallible;

    fn from_str(s: &str) -> (r: Result<Self, core::convert::Infallible>)
        ensures
            r matches Ok(t) && t@ == s@ && (t.on_heap() <==> s.spec_bytes().len()
                > Self::inline_limit()),
    {
        Ok(Self::from_str_slice(s))
    }
}

impl core::ops::Deref for StackString {
    type Target = str;

    fn deref(&self) -> (s: &str)
        ensures
            s@ == self@,
    {
        self.as_str()
    }
}

impl core::ops::DerefMut for StackString {
    fn deref_mut(&mut self) -> (s: &mut str)
        ensures
            s@ == old(self)@,
            final(self)@ == final(s)@,
            final(self).on_heap() == old(self).on_heap(),
    {
        self.as_mut_str()
    }
}

impl core::borrow::BorrowMut<str> for StackString {
    fn borrow_mut(&mut self) -> (s: &mut str)
        ensures
            ({
                let text: &mut str = s;
                text@ == old(self)@ && final(self)@ == final(text)@
            }),
            final(self).on_heap() == old(self).on_heap(),
    {
        self.as_mut_str()
    }
}

impl core::borrow::Borrow<str> for StackString {
    fn borrow(&self) -> (s: &str)
        ensures
            ({
                let text: &str = s;
                text@ == self@
            }),
    {
        self.as_str()
    }
}

impl AsRef<str> for StackString {
    fn as_ref(&self) -> (s: &str)
        ensures
            ({
                let text: &str = s;
                text@ == self@
            }),
    {
        self.as_str()
    }
}

impl AsRef<[u8]> for StackString {
    fn as_ref(&self) -> (b: &[u8])
        ensures
            ({
                let bytes: &[u8] = b;
                bytes@ == self.spec_bytes()
            }),
    {
        self.as_str().as_bytes()
    }
}

impl core::fmt::Write for StackString {
    fn write_str(&mut self, s: &str) -> (r: Result<(), core::fmt::Error>)
        ensures
            r is Ok,
            final(self)@ == old(self)@ + s@,
    {
        self.push_str(s);
        Ok(())
    }
}

impl PartialEq for StackString {
    fn eq(&self, other: &Self) -> (r: bool) {
        str_eq(self.as_str(), other.as_str())
    }
}

impl Eq for StackString {

}

impl vstd::std_specs::cmp::PartialEqSpecImpl for StackString {
    open spec fn obeys_eq_spec() -> bool {
        true
    }

    open spec fn eq_spec(&self, other: &Self) -> bool {
        self@ == other@
    }
}

impl PartialEq<str> for StackString {
    fn eq(&self, other: &str) -> (r: bool) {
        str_eq(self.as_str(), other)
    }
}

impl vstd::std_specs::cmp::PartialEqSpecImpl<str> for StackString {
    open spec fn obeys_eq_spec() -> bool {
        true
    }

    open spec fn eq_spec(&self, other: &str) -> bool {
        self@ == other@
    }
}

impl<'a> PartialEq<&'a str> for StackString {
    fn eq(&self, other: &&'a str) -> (r: bool) {
        str_eq(self.as_str(), *other)
    }
}

impl<'a> vstd::std_specs::cmp::PartialEqSpecImpl<&'a str> for StackString {
    open spec fn obeys_eq_spec() -> bool {
        true
    }

    open spec fn eq_spec(&self, other: &&'a str) -> bool {
        self@ == other@
    }
}

impl PartialEq<String> for StackString {
    fn eq(&self, other: &String) -> (r: bool) {
        str_eq(self.as_str(), other.as_str())
    }
}

impl vstd::std_specs::cmp::PartialEqSpecImpl<String> for StackString {
    open spec fn obeys_eq_spec() -> bool {
        true
    }

    open spec fn eq_spec(&self, other: &String) -> bool {
        self@ == other@
    }
}

impl<'a> PartialEq<Cow<'a, str>> for StackString {
    fn eq(&self, other: &Cow<'a, str>) -> (r: bool) {
        str_eq(self.as_str(), cow_as_str(other))
    }
}

impl<'a> vstd::std_specs::cmp::PartialEqSpecImpl<Cow<'a, str>> for StackString {
    open spec fn obeys_eq_spec() -> bool {
        true
    }

    open spec fn eq_spec(&self, other: &Cow<'a, str>) -> bool {
        self@ == other@
    }
}

impl PartialEq<StackString> for str {
    fn eq(&self, other: &StackString) -> (r: bool) {
        str_eq(self, other.as_str())
    }
}

impl vstd::std_specs::cmp::PartialEqSpecImpl<StackString> for str {
    open spec fn obeys_eq_spec() -> bool {
        true
    }

    open spec fn eq_spec(&self, other: &StackString) -> bool {
        self@ == other@
    }
}

impl<'a> PartialEq<StackString> for &'a str {
    fn eq(&self, other: &StackString) -> (r: bool) {
        str_eq(*self, other.as_str())
    }
}

impl<'a> vstd::std_specs::cmp::PartialEqSpecImpl<StackString> for &'a str {
    open spec fn obeys_eq_spec() -> bool {
        true
    }

    open spec fn eq_spec(&self, other: &StackString) -> bool {
        self@ == other@
    }
}

impl PartialOrd for StackString {
    fn partial_cmp(&self, other: &Self) -> (r: Option<Ordering>) {
        Some(str_order(self.as_str(), other.as_str()))
    }
}

impl vstd::std_specs::cmp::PartialOrdSpecImpl for StackString {
    open spec fn obeys_partial_cmp_spec() -> bool {
        true
    }

    open spec fn partial_cmp_spec(&self, other: &Self) -> Option<Ordering> {
        Some(text_order(self@, other@))
    }
}

impl PartialOrd<str> for StackString {
    fn partial_cmp(&self, other: &str) -> (r: Option<Ordering>) {
        Some(str_order(self.as_str(), other))
    }
}

impl vstd::std_specs::cmp::PartialOrdSpecImpl<str> for StackString {
    open spec fn obeys_partial_cmp_spec() -> bool {
        true
    }

    open spec fn partial_cmp_spec(&self, other: &str) -> Option<Ordering> {
        Some(text_order(self@, other@))
    }
}

impl<'a> PartialOrd<&'a str> for StackString {
    fn partial_cmp(&self, other: &&'a str) -> (r: Option<Ordering>) {
        Some(str_order(self.as_str(), *other))
    }
}

impl<'a> vstd::std_specs::cmp::PartialOrdSpecImpl<&'a str> for StackString {
    open spec fn obeys_partial_cmp_spec() -> bool {
        true
    }

    open spec fn partial_cmp_spec(&self, other: &&'a str) -> Option<Ordering> {
        Some(text_order(self@, other@))
    }
}

impl PartialOrd<String> for StackString {
    fn partial_cmp(&self, other: &String) -> (r: Option<Ordering>) {
        Some(str_order(self.as_str(), other.as_str()))
    }
}

impl vstd::std_specs::cmp::PartialOrdSpecImpl<String> for StackString {
    open spec fn obeys_partial_cmp_spec() -> bool {
        true
    }

    open spec fn partial_cmp_spec(&self, other: &String) -> Option<Ordering> {
        Some(text_order(self@, other@))
    }
}

impl<'a> PartialOrd<Cow<'a, str>> for StackString {
    fn partial_cmp(&self, other: &Cow<'a, str>) -> (r: Option<Ordering>) {
        Some(str_order(self.as_str(), cow_as_str(other)))
    }
}

impl<'a> vstd::std_specs::cmp::PartialOrdSpecImpl<Cow<'a, str>> for StackString {
    open spec fn obeys_partial_cmp_spec() -> bool {
        true
    }

    open spec fn partial_cmp_spec(&self, other: &Cow<'a, str>) -> Option<Ordering> {
        Some(text_order(self@, other@))
    }
}

impl PartialOrd<StackString> for str {
    fn partial_cmp(&self, other: &StackString) -> (r: Option<Ordering>) {
        Some(str_order(self, other.as_str()))
    }
}

impl vstd::std_specs::cmp::PartialOrdSpecImpl<StackString> for str {
    open spec fn obeys_partial_cmp_spec() -> bool {
        true
    }

    open spec fn partial_cmp_spec(&self, other: &StackString) -> Option<Ordering> {
        Some(text_order(self@, other@))
    }
}

impl<'a> PartialOrd<StackString> for &'a str {
    fn partial_cmp(&self, other: &StackString) -> (r: Option<Ordering>) {
        Some(str_order(*self, other.as_str()))
    }
}

impl<'a> vstd::std_specs::cmp::PartialOrdSpecImpl<StackString> for &'a str {
    open spec fn obeys_partial_cmp_spec() -> bool {
        true
    }

    open spec fn partial_cmp_spec(&self, other: &StackString) -> Option<Ordering> {
        Some(text_order(self@, other@))
    }
}

impl FromIterator<char> for StackString {
    /// `FromIterator<char>` of the string inside. Nothing is claimed of the
    /// result: what an iterator yields is its own affair.
    #[verifier::external_body]
    fn from_iter<I: IntoIterator<Item = char>>(iter: I) -> Self {
        StackString(CompactString::from_iter(iter))
    }
}

impl Ord for StackString {
    /// `Ord` of `CompactString`.
    ///
    /// Trusted: the two texts are compared as string slices, which are
    /// ordered by their bytes, as `partial_cmp` here orders.
    #[verifier::external_body]
    fn cmp(&self, other: &Self) -> (r: Ordering)
        ensures
            r == text_order(self@, other@),
    {
        self.0.cmp(&other.0)
    }
}

impl core::fmt::Display for StackString {
    fn fmt(&self, f: &mut core::fmt::Formatter<'_>) -> core::fmt::Result {
        display_str(self.as_str(), f)
    }
}

impl core::hash::Hash for StackString {
    fn hash<H: core::hash::Hasher>(&self, state: &mut H) {
        hash_str(self.as_str(), state)
    }
}

} // verus!
