//! Text that is either borrowed from its source or owned.

use crate::{display_str, hash_str};
use crate::order::{cow_as_str, str_eq, str_order, text_order};
use crate::stack_string::StackString;
use crate::utf8::{
    describes_rejection, lossy_bytes, lossy_text, validate, validate_vec, InvalidUtf8Vec,
};
use crate::MAX_INLINE;
use core::cmp::Ordering;
use std::borrow::Cow;
use vstd::prelude::*;
use vstd::string::*;
use vstd::utf8::*;

verus! {

/// Text that borrows a string slice until it has to own its text.
#[derive(Debug)]
pub enum StackCow<'a> {
    /// The text of a slice that lives elsewhere.
    Borrowed(&'a str),
    /// Text of the value's own.
    Owned(StackString),
}

impl<'a> View for StackCow<'a> {
    type V = Seq<char>;

    open spec fn view(&self) -> Seq<char> {
        match self {
            StackCow::Borrowed(s) => s@,
            StackCow::Owned(o) => o@,
        }
    }
}

impl<'a> Clone for StackCow<'a> {
    fn clone(&self) -> (r: Self)
        ensures
            r@ == self@,
            r is Borrowed <==> self is Borrowed,
    {
        match self {
            StackCow::Borrowed(s) => StackCow::Borrowed(*s),
            StackCow::Owned(o) => StackCow::Owned(o.clone()),
        }
    }
}

impl<'a> StackCow<'a> {
    /// The text's UTF-8 encoding.
    pub open spec fn spec_bytes(&self) -> Seq<u8> {
        encode_utf8(self@)
    }

    /// The empty text, owned.
    pub fn new() -> (r: Self)
        ensures
            r is Owned,
            r@ == Seq::<char>::empty(),
    {
        StackCow::Owned(StackString::new())
    }

    /// An owned copy of the text. The value itself stays as it is.
    pub fn to_owned(&self) -> (r: StackCow<'static>)
        ensures
            r is Owned,
            r@ == self@,
    {
        self.clone().into_owned()
    }

    /// The same text, owned: borrowed text is copied, owned text is handed
    /// on as it is.
    pub fn into_owned(self) -> (r: StackCow<'static>)
        ensures
            r is Owned,
            r@ == self@,
            self matches StackCow::Owned(o) ==> r == StackCow::<'static>::Owned(o),
    {
        match self {
            StackCow::Borrowed(b) => StackCow::Owned(StackString::from_str_slice(b)),
            StackCow::Owned(o) => StackCow::Owned(o),
        }
    }

    /// True while the text is borrowed.
    pub fn is_borrowed(&self) -> (r: bool)
        ensures
            r == (self is Borrowed),
    {
        match self {
            StackCow::Borrowed(_) => true,
            StackCow::Owned(_) => false,
        }
    }

    /// True once the text is the value's own.
    pub fn is_owned(&self) -> (r: bool)
        ensures
            r == (self is Owned),
    {
        !self.is_borrowed()
    }

    /// The text.
    pub fn as_str(&self) -> (s: &str)
        ensures
            s@ == self@,
    {
        match self {
            StackCow::Borrowed(s) => *s,
            StackCow::Owned(o) => o.as_str(),
        }
    }

    /// Length of the text in bytes.
    pub fn len(&self) -> (n: usize)
        ensures
            n == self.spec_bytes().len(),
    {
        self.as_str().as_bytes().len()
    }

    /// Borrows `s`.
    pub fn from_str_slice(s: &'a str) -> (r: Self)
        ensures
            r == StackCow::Borrowed(s),
    {
        StackCow::Borrowed(s)
    }

    /// Owns the text of `item`.
    pub fn from_string(item: String) -> (r: Self)
        ensures
            r is Owned,
            r@ == item@,
    {
        StackCow::Owned(StackString::from_string(item))
    }

    /// Owns `item`.
    pub fn from_stack_string(item: StackString) -> (r: Self)
        ensures
            r == StackCow::<'a>::Owned(item),
    {
        StackCow::Owned(item)
    }

    /// The text as a `StackString`: borrowed text is copied, owned text is
    /// handed on as it is.
    pub fn into_stack_string(self) -> (r: StackString)
        ensures
            r@ == self@,
            self matches StackCow::Owned(o) ==> r == o,
    {
        match self {
            StackCow::Borrowed(s) => StackString::from_str_slice(s),
            StackCow::Owned(o) => o,
        }
    }

    /// The text as an owned string.
    pub fn into_string(self) -> (r: String)
        ensures
            r@ == self@,
    {
        match self {
            StackCow::Borrowed(s) => s.to_owned(),
            StackCow::Owned(o) => o.into_string(),
        }
    }

    /// Owns the text in `vec`, or hands `vec` back with the reason why it is
    /// not UTF-8.
    pub fn from_utf8(vec: Vec<u8>) -> (r: Result<Self, InvalidUtf8Vec>)
        ensures
            match r {
                Ok(t) => valid_utf8(vec@) && t is Owned && t@ == decode_utf8(vec@),
                Err(e) => e.bytes@ == vec@ && describes_rejection(e.error, vec@),
            },
    {
        match validate_vec(vec) {
            Ok(s) => Ok(Self::from_string(s)),
            Err(e) => Err(e),
        }
    }

    /// Decodes `v` lossily. Valid input of more than `MAX_INLINE` bytes is
    /// borrowed as it is; anything else is decoded into text of the value's
    /// own, with one replacement character for each invalid sequence.
    pub fn from_utf8_lossy(v: &'a [u8]) -> (r: Self)
        ensures
            r@ == lossy_text(v@),
            r is Borrowed <==> v@.len() > MAX_INLINE && valid_utf8(v@),
            r matches StackCow::Owned(o) ==> (o.on_heap() <==> v@.len()
                > StackString::inline_limit() || lossy_bytes(v@).len()
                > StackString::inline_limit()),
    {
        if v.len() > MAX_INLINE {
            match validate(v) {
                Ok(s) => StackCow::Borrowed(s),
                Err(_) => StackCow::Owned(StackString::from_utf8_lossy(v)),
            }
        } else {
            StackCow::Owned(StackString::from_utf8_lossy(v))
        }
    }

    /// Makes a value of what `buf` displays as.
    pub fn from_display<T: core::fmt::Display>(buf: T) -> (r: Self)
        ensures
            exists|s: String| #[trigger] to_string_from_display_ensures::<T>(&buf, s) && r@ == s@,
            r is Owned,
    {
        let text = buf.to_string();
        Self::from_string(text)
    }

    /// Makes the text the value's own, if it is not yet.
    pub fn make_owned(&mut self)
        ensures
            *final(self) is Owned,
            final(self)@ == old(self)@,
            *old(self) is Owned ==> *final(self) == *old(self),
    {
        match self {
            StackCow::Borrowed(b) => {
                *self = StackCow::Owned(StackString::from_str_slice(b));
            },
            StackCow::Owned(_) => {},
        }
    }

    /// Appends `s`. Borrowed text is copied first.
    pub fn push_str(&mut self, s: &str)
        ensures
            *final(self) is Owned,
            final(self)@ == old(self)@ + s@,
    {
        self.make_owned();
        match self {
            StackCow::Owned(o) => o.push_str(s),
            StackCow::Borrowed(_) => unreached(),
        }
    }

    /// Splits the text at byte `index`: the value keeps what lies before it,
    /// what lies from it on is returned. Borrowed text is copied first.
    pub fn split_off(&mut self, index: usize) -> (tail: StackCow<'static>)
        requires
            is_char_boundary(old(self).spec_bytes(), index as int),
        ensures
            *final(self) is Owned,
            tail is Owned,
            final(self).spec_bytes() == old(self).spec_bytes().subrange(0, index as int),
            tail.spec_bytes() == old(self).spec_bytes().subrange(
                index as int,
                old(self).spec_bytes().len() as int,
            ),
            old(self)@ == final(self)@ + tail@,
    {
        self.make_owned();
        match self {
            StackCow::Owned(o) => StackCow::Owned(o.split_off(index)),
            StackCow::Borrowed(_) => unreached(),
        }
    }

    /// Splits the text at byte `index` if that is a character boundary, as
    /// `split_off` does, and leaves the value as it is, borrowed or owned,
    /// if not.
    pub fn try_split_off(&mut self, index: usize) -> (tail: Option<StackCow<'static>>)
        ensures
            tail is Some <==> is_char_boundary(old(self).spec_bytes(), index as int),
            tail is None ==> *final(self) == *old(self),
            tail matches Some(t) ==> {
                &&& *final(self) is Owned
                &&& t is Owned
                &&& final(self).spec_bytes() == old(self).spec_bytes().subrange(0, index as int)
                &&& t.spec_bytes() == old(self).spec_bytes().subrange(
                    index as int,
                    old(self).spec_bytes().len() as int,
                )
                &&& old(self)@ == final(self)@ + t@
            },
    {
        if self.as_str().is_char_boundary(index) {
            Some(self.split_off(index))
        } else {
            None
        }
    }
}

impl<'a> Default for StackCow<'a> {
    fn default() -> (r: Self)
        ensures
            r is Owned,
            r@ == Seq::<char>::empty(),
    {
        Self::new()
    }
}

impl<'a> From<StackString> for StackCow<'a> {
    fn from(item: StackString) -> (r: Self)
        ensures
            r == StackCow::<'a>::Owned(item),
    {
        StackCow::Owned(item)
    }
}

impl<'a> vstd::std_specs::convert::FromSpecImpl<StackString> for StackCow<'a> {
    open spec fn obeys_from_spec() -> bool {
        true
    }

    open spec fn from_spec(item: StackString) -> StackCow<'a> {
        StackCow::Owned(item)
    }
}

impl<'a> From<StackCow<'a>> for StackString {
    fn from(item: StackCow<'a>) -> (r: StackString)
        ensures
            r@ == item@,
            item matches StackCow::Owned(o) ==> r == o,
    {
        item.into_stack_string()
    }
}

impl<'a> vstd::std_specs::convert::FromSpecImpl<StackCow<'a>> for StackString {
    /// What `from` returns is stated on `from` itself, over the text.
    open spec fn obeys_from_spec() -> bool {
        false
    }

    open spec fn from_spec(item: StackCow<'a>) -> StackString {
        arbitrary()
    }
}

impl<'a> From<Cow<'a, str>> for StackCow<'a> {
    fn from(item: Cow<'a, str>) -> (r: Self)
        ensures
            r@ == item@,
            r is Borrowed <==> item is Borrowed,
    {
        match item {
            Cow::Borrowed(s) => StackCow::Borrowed(s),
            Cow::Owned(s) => Self::from_string(s),
        }
    }
}

impl<'a> vstd::std_specs::convert::FromSpecImpl<Cow<'a, str>> for StackCow<'a> {
    /// What `from` returns is stated on `from` itself, over the text.
    open spec fn obeys_from_spec() -> bool {
        false
    }

    open spec fn from_spec(item: Cow<'a, str>) -> StackCow<'a> {
        arbitrary()
    }
}

impl<'a> From<StackCow<'a>> for String {
    fn from(item: StackCow<'a>) -> (r: String)
        ensures
            r@ == item@,
    {
        item.into_string()
    }
}

impl<'a> vstd::std_specs::convert::FromSpecImpl<StackCow<'a>> for String {
    /// What `from` returns is stated on `from` itself, over the text.
    open spec fn obeys_from_spec() -> bool {
        false
    }

    open spec fn from_spec(item: StackCow<'a>) -> String {
        arbitrary()
    }
}

impl<'a, 'b> From<&'b StackCow<'a>> for String {
    fn from(item: &'b StackCow<'a>) -> (r: String)
        ensures
            r@ == item@,
    {
        item.as_str().to_owned()
    }
}

impl<'a, 'b> vstd::std_specs::convert::FromSpecImpl<&'b StackCow<'a>> for String {
    /// What `from` returns is stated on `from` itself, over the text.
    open spec fn obeys_from_spec() -> bool {
        false
    }

    open spec fn from_spec(item: &'b StackCow<'a>) -> String {
        arbitrary()
    }
}

impl<'a> From<String> for StackCow<'a> {
    fn from(item: String) -> (r: Self)
        ensures
            r is Owned,
            r@ == item@,
    {
        Self::from_string(item)
    }
}

impl<'a> vstd::std_specs::convert::FromSpecImpl<String> for StackCow<'a> {
    /// What `from` returns is stated on `from` itself, over the text.
    open spec fn obeys_from_spec() -> bool {
        false
    }

    open spec fn from_spec(item: String) -> StackCow<'a> {
        arbitrary()
    }
}

impl<'a> From<&'a String> for StackCow<'a> {
    fn from(item: &'a String) -> (r: Self)
        ensures
            r is Borrowed,
            r@ == item@,
    {
        StackCow::Borrowed(item.as_str())
    }
}

impl<'a> vstd::std_specs::convert::FromSpecImpl<&'a String> for StackCow<'a> {
    /// What `from` returns is stated on `from` itself, over the text.
    open spec fn obeys_from_spec() -> bool {
        false
    }

    open spec fn from_spec(item: &'a String) -> StackCow<'a> {
        arbitrary()
    }
}

impl<'a> From<&'a str> for StackCow<'a> {
    fn from(item: &'a str) -> (r: Self)
        ensures
            r == StackCow::Borrowed(item),
    {
        StackCow::Borrowed(item)
    }
}

impl<'a> vstd::std_specs::convert::FromSpecImpl<&'a str> for StackCow<'a> {
    open spec fn obeys_from_spec() -> bool {
        true
    }

    open spec fn from_spec(item: &'a str) -> StackCow<'a> {
        StackCow::Borrowed(item)
    }
}

impl<'a> From<&'a StackCow<'a>> for &'a str {
    fn from(item: &'a StackCow<'a>) -> (r: &'a str)
        ensures
            r@ == item@,
    {
        item.as_str()
    }
}

impl<'a> vstd::std_specs::convert::FromSpecImpl<&'a StackCow<'a>> for &'a str {
    /// What `from` returns is stated on `from` itself, over the text.
    open spec fn obeys_from_spec() -> bool {
        false
    }

    open spec fn from_spec(item: &'a StackCow<'a>) -> &'a str {
        arbitrary()
    }
}

impl<'a> core::str::FromStr for StackCow<'a> {
    type Err = core::convert::Infallible;

    fn from_str(s: &str) -> (r: Result<Self, core::convert::Infallible>)
        ensures
            r matches Ok(t) && t is Owned && t@ == s@,
    {
        Ok(StackCow::Owned(StackString::from_str_slice(s)))
    }
}

impl<'a> core::ops::Deref for StackCow<'a> {
    type Target = str;

    fn deref(&self) -> (s: &str)
        ensures
            s@ == self@,
    {
        self.as_str()
    }
}

impl<'a> core::borrow::Borrow<str> for StackCow<'a> {
    fn borrow(&self) -> (s: &str)
        ensures
            ({
                let text: &str = s;
                text@ == self@
            }),
    {
        self.as_str()
    }
}

impl<'a> AsRef<str> for StackCow<'a> {
    fn as_ref(&self) -> (s: &str)
        ensures
            ({
                let text: &str = s;
                text@ == self@
            }),
    {
        self.as_str()
    }
}

impl<'a> AsRef<[u8]> for StackCow<'a> {
    fn as_ref(&self) -> (b: &[u8])
        ensures
            ({
                let bytes: &[u8] = b;
                bytes@ == self.spec_bytes()
            }),
    {
        self.as_str().as_bytes()
    }
}

impl<'a> PartialEq for StackCow<'a> {
    fn eq(&self, other: &Self) -> (r: bool) {
        str_eq(self.as_str(), other.as_str())
    }
}

impl<'a> Eq for StackCow<'a> {

}

impl<'a> vstd::std_specs::cmp::PartialEqSpecImpl for StackCow<'a> {
    open spec fn obeys_eq_spec() -> bool {
        true
    }

    open spec fn eq_spec(&self, other: &Self) -> bool {
        self@ == other@
    }
}

impl<'a> PartialEq<str> for StackCow<'a> {
    fn eq(&self, other: &str) -> (r: bool) {
        str_eq(self.as_str(), other)
    }
}

impl<'a> vstd::std_specs::cmp::PartialEqSpecImpl<str> for StackCow<'a> {
    open spec fn obeys_eq_spec() -> bool {
        true
    }

    open spec fn eq_spec(&self, other: &str) -> bool {
        self@ == other@
    }
}

impl<'a> PartialEq<&'a str> for StackCow<'a> {
    fn eq(&self, other: &&'a str) -> (r: bool) {
        str_eq(self.as_str(), *other)
    }
}

impl<'a> vstd::std_specs::cmp::PartialEqSpecImpl<&'a str> for StackCow<'a> {
    open spec fn obeys_eq_spec() -> bool {
        true
    }

    open spec fn eq_spec(&self, other: &&'a str) -> bool {
        self@ == other@
    }
}

impl<'a> PartialEq<String> for StackCow<'a> {
    fn eq(&self, other: &String) -> (r: bool) {
        str_eq(self.as_str(), other.as_str())
    }
}

impl<'a> vstd::std_specs::cmp::PartialEqSpecImpl<String> for StackCow<'a> {
    open spec fn obeys_eq_spec() -> bool {
        true
    }

    open spec fn eq_spec(&self, other: &String) -> bool {
        self@ == other@
    }
}

impl<'a> PartialEq<Cow<'a, str>> for StackCow<'a> {
    fn eq(&self, other: &Cow<'a, str>) -> (r: bool) {
        str_eq(self.as_str(), cow_as_str(other))
    }
}

impl<'a> vstd::std_specs::cmp::PartialEqSpecImpl<Cow<'a, str>> for StackCow<'a> {
    open spec fn obeys_eq_spec() -> bool {
        true
    }

    open spec fn eq_spec(&self, other: &Cow<'a, str>) -> bool {
        self@ == other@
    }
}

impl<'a> PartialOrd for StackCow<'a> {
    fn partial_cmp(&self, other: &Self) -> (r: Option<Ordering>) {
        Some(str_order(self.as_str(), other.as_str()))
    }
}

impl<'a> vstd::std_specs::cmp::PartialOrdSpecImpl for StackCow<'a> {
    open spec fn obeys_partial_cmp_spec() -> bool {
        true
    }

    open spec fn partial_cmp_spec(&self, other: &Self) -> Option<Ordering> {
        Some(text_order(self@, other@))
    }
}

impl<'a> Ord for StackCow<'a> {
    /// `Ord` of `str` on the two texts.
    ///
    /// Trusted: string slices are ordered by their bytes, as `partial_cmp`
    /// here orders.
    #[verifier::external_body]
    fn cmp(&self, other: &Self) -> (r: Ordering)
        ensures
            r == text_order(self@, other@),
    {
        self.as_str().cmp(other.as_str())
    }
}

impl<'a> core::fmt::Display for StackCow<'a> {
    fn fmt(&self, f: &mut core::fmt::Formatter<'_>) -> core::fmt::Result {
        display_str(self.as_str(), f)
    }
}

impl<'a> core::hash::Hash for StackCow<'a> {
    fn hash<H: core::hash::Hasher>(&self, state: &mut H) {
        hash_str(self.as_str(), state)
    }
}

} // verus!
