//! Text backed by `smartstring`.

use crate::{display_str, hash_str};
use crate::order::{cow_as_str, str_eq, str_order, text_order};
use crate::utf8::{
    decode_lossy, describes_rejection, lemma_split_text, lossy_bytes, lossy_text, validate, validate_vec,
    InvalidUtf8, InvalidUtf8Vec,
};
use core::cmp::Ordering;
use std::borrow::Cow;
use vstd::prelude::*;
use vstd::string::*;
use vstd::utf8::*;

verus! {

/// Text that `smartstring` keeps in place while it is short.
///
/// The field is a `smartstring` string in its `LazyCompact` layout, which
/// the verifier cannot look into: what it holds goes by `smart_text`.
#[verifier::external_body]
#[derive(Debug)]
pub struct SmartString(smartstring::alias::String);

/// The text that the `smartstring` string inside a value holds.
pub uninterp spec fn smart_text(s: SmartString) -> Seq<char>;

/// `SmartString::new` of `smartstring`.
///
/// Trusted: the result holds no text, in place.
#[verifier::external_body]
fn smart_new() -> (r: SmartString)
    ensures
        smart_text(r) == Seq::<char>::empty(),
        smart_in_place(r),
{
    SmartString(smartstring::alias::String::new())
}

/// Whether the `smartstring` string inside a value keeps its text in place.
pub uninterp spec fn smart_in_place(s: SmartString) -> bool;

/// `SmartString::is_inline` of `smartstring`.
#[verifier::external_body]
fn smart_is_inline(s: &SmartString) -> (r: bool)
    ensures
        r == smart_in_place(*s),
{
    s.0.is_inline()
}

/// `SmartString::as_str` of `smartstring`.
///
/// Trusted: the slice is the text held.
#[verifier::external_body]
fn smart_as_str(s: &SmartString) -> (r: &str)
    ensures
        r@ == smart_text(*s),
{
    s.0.as_str()
}

/// `From<&str>` of `smartstring`.
///
/// Trusted: the result holds the text of `s`, in place exactly when that
/// text is shorter than a `String` is large.
#[verifier::external_body]
fn smart_from_str(s: &str) -> (r: SmartString)
    ensures
        smart_text(r) == s@,
        smart_in_place(r) <==> s.spec_bytes().len() < vstd::layout::size_of::<String>(),
{
    SmartString(smartstring::alias::String::from(s))
}

/// `From<String>` of `smartstring`.
///
/// Trusted: the result holds the string's text, in place exactly when that
/// text is shorter than a `String` is large.
#[verifier::external_body]
fn smart_from_string(s: String) -> (r: SmartString)
    ensures
        smart_text(r) == s@,
        smart_in_place(r) <==> encode_utf8(s@).len() < vstd::layout::size_of::<String>(),
{
    SmartString(smartstring::alias::String::from(s))
}

/// `From<SmartString> for String` of `smartstring`.
///
/// Trusted: the string holds the text that was held.
#[verifier::external_body]
fn smart_into_string(s: SmartString) -> (r: String)
    ensures
        r@ == smart_text(s),
{
    String::from(s.0)
}

/// `SmartString::clone` of `smartstring`.
///
/// Trusted: the copy holds the same text in the same place.
#[verifier::external_body]
fn smart_clone(s: &SmartString) -> (r: SmartString)
    ensures
        smart_text(r) == smart_text(*s),
        smart_in_place(r) == smart_in_place(*s),
{
    SmartString(s.0.clone())
}

/// `SmartString::push_str` of `smartstring`.
///
/// Trusted: `s` is appended to the text held. Text on the heap stays there;
/// text in place stays in place exactly when the longer text is still
/// shorter than a `String` is large.
#[verifier::external_body]
fn smart_push_str(t: &mut SmartString, s: &str)
    ensures
        smart_text(*final(t)) == smart_text(*old(t)) + s@,
        smart_in_place(*final(t)) <==> smart_in_place(*old(t)) && encode_utf8(
            smart_text(*old(t)),
        ).len() + s.spec_bytes().len() < vstd::layout::size_of::<String>(),
{
    t.0.push_str(s)
}

/// `SmartString::split_off` of `smartstring`.
///
/// Trusted: the value keeps the bytes before `index`, where it kept its
/// text before, and the result holds the bytes from `index` on, in place
/// exactly when they are fewer than a `String` is large. The call panics
/// where `index` is no character boundary, which `requires` leaves out.
#[verifier::external_body]
fn smart_split_off(t: &mut SmartString, index: usize) -> (r: SmartString)
    requires
        is_char_boundary(encode_utf8(smart_text(*old(t))), index as int),
    ensures
        encode_utf8(smart_text(*final(t))) == encode_utf8(smart_text(*old(t))).subrange(
            0,
            index as int,
        ),
        encode_utf8(smart_text(r)) == encode_utf8(smart_text(*old(t))).subrange(
            index as int,
            encode_utf8(smart_text(*old(t))).len() as int,
        ),
        smart_in_place(*final(t)) == smart_in_place(*old(t)),
        smart_in_place(r) <==> encode_utf8(smart_text(*old(t))).len() - index
            < vstd::layout::size_of::<String>(),
{
    SmartString(t.0.split_off(index))
}

/// `SmartString::as_mut_str` of `smartstring`.
///
/// Trusted: the slice holds the text held, and what it holds when the borrow
/// ends is the text held from then on, in the same place.
#[verifier::external_body]
fn smart_as_mut_str(t: &mut SmartString) -> (r: &mut str)
    ensures
        r@ == smart_text(*old(t)),
        smart_text(*final(t)) == final(r)@,
        smart_in_place(*final(t)) == smart_in_place(*old(t)),
{
    t.0.as_mut_str()
}

impl View for SmartString {
    type V = Seq<char>;

    open spec fn view(&self) -> Seq<char> {
        smart_text(*self)
    }
}

impl SmartString {
    /// The text's UTF-8 encoding.
    pub open spec fn spec_bytes(&self) -> Seq<u8> {
        encode_utf8(self@)
    }

    /// Whether the text lies in the value itself.
    pub open spec fn in_place(&self) -> bool {
        smart_in_place(*self)
    }

    /// The size of a `String`: a new value holds text in place that is
    /// shorter than this.
    pub open spec fn inline_limit() -> nat {
        vstd::layout::size_of::<String>()
    }

    /// The empty text, in place.
    pub fn new() -> (r: Self)
        ensures
            r@ == Seq::<char>::empty(),
            r.in_place(),
    {
        smart_new()
    }

    /// The text.
    pub fn as_str(&self) -> (s: &str)
        ensures
            s@ == self@,
    {
        smart_as_str(self)
    }

    /// True while the text lies in the value itself.
    pub fn is_inline(&self) -> (r: bool)
        ensures
            r == self.in_place(),
    {
        smart_is_inline(self)
    }

    /// The text, open to change in place.
    pub fn as_mut_str(&mut self) -> (s: &mut str)
        ensures
            s@ == old(self)@,
            final(self)@ == final(s)@,
            final(self).in_place() == old(self).in_place(),
    {
        smart_as_mut_str(self)
    }

    /// Length of the text in bytes.
    pub fn len(&self) -> (n: usize)
        ensures
            n == self.spec_bytes().len(),
    {
        self.as_str().as_bytes().len()
    }

    /// Makes a value of `s`, in place if `s` is short enough.
    pub fn from_str_slice(s: &str) -> (r: Self)
        ensures
            r@ == s@,
            r.in_place() <==> s.spec_bytes().len() < Self::inline_limit(),
    {
        smart_from_str(s)
    }

    /// Makes a value of `item`, in place if its text is short enough.
    pub fn from_string(item: String) -> (r: Self)
        ensures
            r@ == item@,
            r.in_place() <==> encode_utf8(item@).len() < Self::inline_limit(),
    {
        smart_from_string(item)
    }

    /// The text as an owned string.
    pub fn into_string(self) -> (r: String)
        ensures
            r@ == self@,
    {
        smart_into_string(self)
    }

    /// Appends `s`. Text in place moves to the heap when it grows to the
    /// size of a `String`; text on the heap stays there.
    pub fn push_str(&mut self, s: &str)
        ensures
            final(self)@ == old(self)@ + s@,
            final(self).in_place() <==> old(self).in_place() && old(self).spec_bytes().len()
                + s.spec_bytes().len() < Self::inline_limit(),
    {
        smart_push_str(self, s)
    }

    /// Splits the text at byte `index`: the value keeps what lies before it,
    /// where it kept its text before; what lies from it on is returned, in
    /// place if it is short enough.
    pub fn split_off(&mut self, index: usize) -> (tail: Self)
        requires
            is_char_boundary(old(self).spec_bytes(), index as int),
        ensures
            final(self).spec_bytes() == old(self).spec_bytes().subrange(0, index as int),
            tail.spec_bytes() == old(self).spec_bytes().subrange(
                index as int,
                old(self).spec_bytes().len() as int,
            ),
            old(self)@ == final(self)@ + tail@,
            final(self).in_place() == old(self).in_place(),
            tail.in_place() <==> old(self).spec_bytes().len() - index < Self::inline_limit(),
    {
        proof {
            lemma_split_text(self@, index as int);
        }
        let tail = smart_split_off(self, index);
        proof {
            encode_utf8_decode_utf8(self@);
            encode_utf8_decode_utf8(tail@);
        }
        tail
    }

    /// Splits the text at byte `index` if that is a character boundary, as
    /// `split_off` does, and leaves the value as it is if not.
    pub fn try_split_off(&mut self, index: usize) -> (tail: Option<Self>)
        ensures
            tail is Some <==> is_char_boundary(old(self).spec_bytes(), index as int),
            tail is None ==> *final(self) == *old(self),
            tail matches Some(t) ==> {
                &&& final(self).spec_bytes() == old(self).spec_bytes().subrange(0, index as int)
                &&& t.spec_bytes() == old(self).spec_bytes().subrange(
                    index as int,
                    old(self).spec_bytes().len() as int,
                )
                &&& old(self)@ == final(self)@ + t@
                &&& final(self).in_place() == old(self).in_place()
                &&& (t.in_place() <==> old(self).spec_bytes().len() - index < Self::inline_limit())
            },
    {
        if self.as_str().is_char_boundary(index) {
            Some(self.split_off(index))
        } else {
            None
        }
    }

    /// Makes a value of the text in `v`, or says why `v` is not UTF-8.
    pub fn from_utf8(v: &[u8]) -> (r: Result<Self, InvalidUtf8>)
        ensures
            match r {
                Ok(t) => {
                    &&& valid_utf8(v@)
                    &&& t@ == decode_utf8(v@)
                    &&& (t.in_place() <==> v@.len() < Self::inline_limit())
                },
                Err(e) => describes_rejection(e, v@),
            },
    {
        match validate(v) {
            Ok(s) => {
                proof {
                    decode_utf8_encode_utf8(v@);
                }
                Ok(Self::from_str_slice(s))
            },
            Err(e) => Err(e),
        }
    }

    /// Makes a value of the text in `v`, or hands `v` back with the reason
    /// why it is not UTF-8.
    pub fn from_utf8_vec(v: Vec<u8>) -> (r: Result<Self, InvalidUtf8Vec>)
        ensures
            match r {
                Ok(t) => {
                    &&& valid_utf8(v@)
                    &&& t@ == decode_utf8(v@)
                    &&& (t.in_place() <==> v@.len() < Self::inline_limit())
                },
                Err(e) => e.bytes@ == v@ && describes_rejection(e.error, v@),
            },
    {
        match validate_vec(v) {
            Ok(s) => {
                proof {
                    decode_utf8_encode_utf8(v@);
                }
                Ok(Self::from_string(s))
            },
            Err(e) => Err(e),
        }
    }

    /// Makes a value of what `buf` displays as.
    pub fn from_display<T: core::fmt::Display>(buf: T) -> (r: Self)
        ensures
            exists|s: String| #[trigger] to_string_from_display_ensures::<T>(&buf, s) && r@ == s@,
            r.in_place() <==> r.spec_bytes().len() < Self::inline_limit(),
    {
        let text = buf.to_string();
        Self::from_string(text)
    }

    /// Makes a value of `v` as far as it is UTF-8, with one replacement
    /// character for each invalid sequence.
    pub fn from_utf8_lossy(v: &[u8]) -> (r: Self)
        ensures
            r@ == lossy_text(v@),
            r.in_place() <==> lossy_bytes(v@).len() < Self::inline_limit(),
    {
        match validate_vec(decode_lossy(v)) {
            Ok(s) => {
                proof {
                    decode_utf8_encode_utf8(lossy_bytes(v@));
                }
                Self::from_string(s)
            },
            Err(_) => unreached(),
        }
    }
}

impl Clone for SmartString {
    fn clone(&self) -> (r: Self)
        ensures
            r@ == self@,
            r.in_place() == self.in_place(),
    {
        smart_clone(self)
    }
}

impl Default for SmartString {
    fn default() -> (r: Self)
        ensures
            r@ == Seq::<char>::empty(),
            r.in_place(),
    {
        Self::new()
    }
}

impl From<&str> for SmartString {
    fn from(item: &str) -> (r: Self)
        ensures
            r@ == item@,
            r.in_place() <==> item.spec_bytes().len() < Self::inline_limit(),
    {
        Self::from_str_slice(item)
    }
}

impl vstd::std_specs::convert::FromSpecImpl<&str> for SmartString {
    /// What `from` returns is stated on `from` itself, over the text.
    open spec fn obeys_from_spec() -> bool {
        false
    }

    open spec fn from_spec(item: &str) -> Self {
        arbitrary()
    }
}

impl From<String> for SmartString {
    fn from(item: String) -> (r: Self)
        ensures
            r@ == item@,
            r.in_place() <==> encode_utf8(item@).len() < Self::inline_limit(),
    {
        Self::from_string(item)
    }
}

impl vstd::std_specs::convert::FromSpecImpl<String> for SmartString {
    /// What `from` returns is stated on `from` itself, over the text.
    open spec fn obeys_from_spec() -> bool {
        false
    }

    open spec fn from_spec(item: String) -> Self {
        arbitrary()
    }
}

impl From<&String> for SmartString {
    fn from(item: &String) -> (r: Self)
        ensures
            r@ == item@,
            r.in_place() <==> encode_utf8(item@).len() < Self::inline_limit(),
    {
        Self::from_str_slice(item.as_str())
    }
}

impl vstd::std_specs::convert::FromSpecImpl<&String> for SmartString {
    /// What `from` returns is stated on `from` itself, over the text.
    open spec fn obeys_from_spec() -> bool {
        false
    }

    open spec fn from_spec(item: &String) -> Self {
        arbitrary()
    }
}

impl<'a> From<Cow<'a, str>> for SmartString {
    fn from(item: Cow<'a, str>) -> (r: Self)
        ensures
            r@ == item@,
            r.in_place() <==> encode_utf8(item@).len() < Self::inline_limit(),
    {
        match item {
            Cow::Borrowed(s) => Self::from_str_slice(s),
            Cow::Owned(s) => Self::from_string(s),
        }
    }
}

impl<'a> vstd::std_specs::convert::FromSpecImpl<Cow<'a, str>> for SmartString {
    /// What `from` returns is stated on `from` itself, over the text.
    open spec fn obeys_from_spec() -> bool {
        false
    }

    open spec fn from_spec(item: Cow<'a, str>) -> Self {
        arbitrary()
    }
}

impl From<&SmartString> for SmartString {
    fn from(item: &SmartString) -> (r: Self)
        ensures
            r@ == item@,
            r.in_place() == item.in_place(),
    {
        item.clone()
    }
}

impl vstd::std_specs::convert::FromSpecImpl<&SmartString> for SmartString {
    /// What `from` returns is stated on `from` itself, over the text.
    open spec fn obeys_from_spec() -> bool {
        false
    }

    open spec fn from_spec(item: &SmartString) -> Self {
        arbitrary()
    }
}

impl From<SmartString> for String {
    fn from(item: SmartString) -> (r: String)
        ensures
            r@ == item@,
    {
        item.into_string()
    }
}

impl vstd::std_specs::convert::FromSpecImpl<SmartString> for String {
    /// What `from` returns is stated on `from` itself, over the text.
    open spec fn obeys_from_spec() -> bool {
        false
    }

    open spec fn from_spec(item: SmartString) -> String {
        arbitrary()
    }
}

impl From<&SmartString> for String {
    fn from(item: &SmartString) -> (r: String)
        ensures
            r@ == item@,
    {
        item.as_str().to_owned()
    }
}

impl vstd::std_specs::convert::FromSpecImpl<&SmartString> for String {
    /// What `from` returns is stated on `from` itself, over the text.
    open spec fn obeys_from_spec() -> bool {
        false
    }

    open spec fn from_spec(item: &SmartString) -> String {
        arbitrary()
    }
}

impl<'a> From<&'a SmartString> for &'a str {
    fn from(item: &'a SmartString) -> (r: &'a str)
        ensures
            r@ == item@,
    {
        item.as_str()
    }
}

impl<'a> vstd::std_specs::convert::FromSpecImpl<&'a SmartString> for &'a str {
    /// What `from` returns is stated on `from` itself, over the text.
    open spec fn obeys_from_spec() -> bool {
        false
    }

    open spec fn from_spec(item: &'a SmartString) -> &'a str {
        arbitrary()
    }
}

impl<'a> From<SmartString> for Cow<'a, str> {
    fn from(item: SmartString) -> (r: Cow<'a, str>)
        ensures
            r@ == item@,
    {
        Cow::Owned(item.into_string())
    }
}

impl<'a> vstd::std_specs::convert::FromSpecImpl<SmartString> for Cow<'a, str> {
    /// What `from` returns is stated on `from` itself, over the text.
    open spec fn obeys_from_spec() -> bool {
        false
    }

    open spec fn from_spec(item: SmartString) -> Cow<'a, str> {
        arbitrary()
    }
}

impl core::str::FromStr for SmartString {
    type Err = core::convert::Infallible;

    fn from_str(s: &str) -> (r: Result<Self, core::convert::Infallible>)
        ensures
            r matches Ok(t) && t@ == s@ && (t.in_place() <==> s.spec_bytes().len()
                < Self::inline_limit()),
    {
        Ok(Self::from_str_slice(s))
    }
}

impl core::ops::Deref for SmartString {
    type Target = str;

    fn deref(&self) -> (s: &str)
        ensures
            s@ == self@,
    {
        self.as_str()
    }
}

impl core::ops::DerefMut for SmartString {
    fn deref_mut(&mut self) -> (s: &mut str)
        ensures
            s@ == old(self)@,
            final(self)@ == final(s)@,
            final(self).in_place() == old(self).in_place(),
    {
        self.as_mut_str()
    }
}

impl core::borrow::BorrowMut<str> for SmartString {
    fn borrow_mut(&mut self) -> (s: &mut str)
        ensures
            ({
                let text: &mut str = s;
                text@ == old(self)@ && final(self)@ == final(text)@
            }),
            final(self).in_place() == old(self).in_place(),
    {
        self.as_mut_str()
    }
}

impl core::borrow::Borrow<str> for SmartString {
    fn borrow(&self) -> (s: &str)
        ensures
            ({
                let text: &str = s;
                text@ == self@
            }),
    {
        self.as_str()
    }
}

impl AsRef<str> for SmartString {
    fn as_ref(&self) -> (s: &str)
        ensures
            ({
                let text: &str = s;
                text@ == self@
            }),
    {
        self.as_str()
    }
}

impl AsRef<[u8]> for SmartString {
    fn as_ref(&self) -> (b: &[u8])
        ensures
            ({
                let bytes: &[u8] = b;
                bytes@ == self.spec_bytes()
            }),
    {
        self.as_str().as_bytes()
    }
}

impl core::fmt::Write for SmartString {
    fn write_str(&mut self, s: &str) -> (r: Result<(), core::fmt::Error>)
        ensures
            r is Ok,
            final(self)@ == old(self)@ + s@,
            final(self).in_place() <==> old(self).in_place() && old(self).spec_bytes().len()
                + s.spec_bytes().len() < Self::inline_limit(),
    {
        self.push_str(s);
        Ok(())
    }
}

impl PartialEq for SmartString {
    fn eq(&self, other: &Self) -> (r: bool) {
        str_eq(self.as_str(), other.as_str())
    }
}

impl Eq for SmartString {

}

impl vstd::std_specs::cmp::PartialEqSpecImpl for SmartString {
    open spec fn obeys_eq_spec() -> bool {
        true
    }

    open spec fn eq_spec(&self, other: &Self) -> bool {
        self@ == other@
    }
}

impl PartialEq<str> for SmartString {
    fn eq(&self, other: &str) -> (r: bool) {
        str_eq(self.as_str(), other)
    }
}

impl vstd::std_specs::cmp::PartialEqSpecImpl<str> for SmartString {
    open spec fn obeys_eq_spec() -> bool {
        true
    }

    open spec fn eq_spec(&self, other: &str) -> bool {
        self@ == other@
    }
}

impl<'a> PartialEq<&'a str> for SmartString {
    fn eq(&self, other: &&'a str) -> (r: bool) {
        str_eq(self.as_str(), *other)
    }
}

impl<'a> vstd::std_specs::cmp::PartialEqSpecImpl<&'a str> for SmartString {
    open spec fn obeys_eq_spec() -> bool {
        true
    }

    open spec fn eq_spec(&self, other: &&'a str) -> bool {
        self@ == other@
    }
}

impl PartialEq<String> for SmartString {
    fn eq(&self, other: &String) -> (r: bool) {
        str_eq(self.as_str(), other.as_str())
    }
}

impl vstd::std_specs::cmp::PartialEqSpecImpl<String> for SmartString {
    open spec fn obeys_eq_spec() -> bool {
        true
    }

    open spec fn eq_spec(&self, other: &String) -> bool {
        self@ == other@
    }
}

impl<'a> PartialEq<Cow<'a, str>> for SmartString {
    fn eq(&self, other: &Cow<'a, str>) -> (r: bool) {
        str_eq(self.as_str(), cow_as_str(other))
    }
}

impl<'a> vstd::std_specs::cmp::PartialEqSpecImpl<Cow<'a, str>> for SmartString {
    open spec fn obeys_eq_spec() -> bool {
        true
    }

    open spec fn eq_spec(&self, other: &Cow<'a, str>) -> bool {
        self@ == other@
    }
}

impl PartialEq<SmartString> for str {
    fn eq(&self, other: &SmartString) -> (r: bool) {
        str_eq(self, other.as_str())
    }
}

impl vstd::std_specs::cmp::PartialEqSpecImpl<SmartString> for str {
    open spec fn obeys_eq_spec() -> bool {
        true
    }

    open spec fn eq_spec(&self, other: &SmartString) -> bool {
        self@ == other@
    }
}

impl<'a> PartialEq<SmartString> for &'a str {
    fn eq(&self, other: &SmartString) -> (r: bool) {
        str_eq(*self, other.as_str())
    }
}

impl<'a> vstd::std_specs::cmp::PartialEqSpecImpl<SmartString> for &'a str {
    open spec fn obeys_eq_spec() -> bool {
        true
    }

    open spec fn eq_spec(&self, other: &SmartString) -> bool {
        self@ == other@
    }
}

impl PartialOrd for SmartString {
    fn partial_cmp(&self, other: &Self) -> (r: Option<Ordering>) {
        Some(str_order(self.as_str(), other.as_str()))
    }
}

impl vstd::std_specs::cmp::PartialOrdSpecImpl for SmartString {
    open spec fn obeys_partial_cmp_spec() -> bool {
        true
    }

    open spec fn partial_cmp_spec(&self, other: &Self) -> Option<Ordering> {
        Some(text_order(self@, other@))
    }
}

impl PartialOrd<str> for SmartString {
    fn partial_cmp(&self, other: &str) -> (r: Option<Ordering>) {
        Some(str_order(self.as_str(), other))
    }
}

impl vstd::std_specs::cmp::PartialOrdSpecImpl<str> for SmartString {
    open spec fn obeys_partial_cmp_spec() -> bool {
        true
    }

    open spec fn partial_cmp_spec(&self, other: &str) -> Option<Ordering> {
        Some(text_order(self@, other@))
    }
}

impl<'a> PartialOrd<&'a str> for SmartString {
    fn partial_cmp(&self, other: &&'a str) -> (r: Option<Ordering>) {
        Some(str_order(self.as_str(), *other))
    }
}

impl<'a> vstd::std_specs::cmp::PartialOrdSpecImpl<&'a str> for SmartString {
    open spec fn obeys_partial_cmp_spec() -> bool {
        true
    }

    open spec fn partial_cmp_spec(&self, other: &&'a str) -> Option<Ordering> {
        Some(text_order(self@, other@))
    }
}

impl PartialOrd<String> for SmartString {
    fn partial_cmp(&self, other: &String) -> (r: Option<Ordering>) {
        Some(str_order(self.as_str(), other.as_str()))
    }
}

impl vstd::std_specs::cmp::PartialOrdSpecImpl<String> for SmartString {
    open spec fn obeys_partial_cmp_spec() -> bool {
        true
    }

    open spec fn partial_cmp_spec(&self, other: &String) -> Option<Ordering> {
        Some(text_order(self@, other@))
    }
}

impl<'a> PartialOrd<Cow<'a, str>> for SmartString {
    fn partial_cmp(&self, other: &Cow<'a, str>) -> (r: Option<Ordering>) {
        Some(str_order(self.as_str(), cow_as_str(other)))
    }
}

impl<'a> vstd::std_specs::cmp::PartialOrdSpecImpl<Cow<'a, str>> for SmartString {
    open spec fn obeys_partial_cmp_spec() -> bool {
        true
    }

    open spec fn partial_cmp_spec(&self, other: &Cow<'a, str>) -> Option<Ordering> {
        Some(text_order(self@, other@))
    }
}

impl PartialOrd<SmartString> for str {
    fn partial_cmp(&self, other: &SmartString) -> (r: Option<Ordering>) {
        Some(str_order(self, other.as_str()))
    }
}

impl vstd::std_specs::cmp::PartialOrdSpecImpl<SmartString> for str {
    open spec fn obeys_partial_cmp_spec() -> bool {
        true
    }

    open spec fn partial_cmp_spec(&self, other: &SmartString) -> Option<Ordering> {
        Some(text_order(self@, other@))
    }
}

impl<'a> PartialOrd<SmartString> for &'a str {
    fn partial_cmp(&self, other: &SmartString) -> (r: Option<Ordering>) {
        Some(str_order(*self, other.as_str()))
    }
}

impl<'a> vstd::std_specs::cmp::PartialOrdSpecImpl<SmartString> for &'a str {
    open spec fn obeys_partial_cmp_spec() -> bool {
        true
    }

    open spec fn partial_cmp_spec(&self, other: &SmartString) -> Option<Ordering> {
        Some(text_order(self@, other@))
    }
}

impl FromIterator<char> for SmartString {
    /// `FromIterator<char>` of the string inside. Nothing is claimed of the
    /// result: what an iterator yields is its own affair.
    #[verifier::external_body]
    fn from_iter<I: IntoIterator<Item = char>>(iter: I) -> Self {
        SmartString(smartstring::alias::String::from_iter(iter))
    }
}

impl Ord for SmartString {
    /// `Ord` of the `smartstring` string.
    ///
    /// Trusted: the two texts are compared as string slices, which are
    /// ordered by their bytes, as `partial_cmp` here orders.
    #[verifier::external_body]
    fn cmp(&self, other: &Self) -> (r: Ordering)
        ensures
            r == text_order(self@, other@),
    {
        self.0.cmp(&other.0)
    }
}

impl core::fmt::Display for SmartString {
    fn fmt(&self, f: &mut core::fmt::Formatter<'_>) -> core::fmt::Result {
        display_str(self.as_str(), f)
    }
}

impl core::hash::Hash for SmartString {
    fn hash<H: core::hash::Hasher>(&self, state: &mut H) {
        hash_str(self.as_str(), state)
    }
}

} // verus!
