//! Text that lives in place while it fits a fixed capacity and on the heap
//! once it does not.

use crate::{display_str, hash_str};
use crate::inline_str::InlineStr;
use crate::order::{cow_as_str, str_eq, str_order, text_order};
use crate::stack_string::StackString;
use crate::utf8::{
    decode_lossy, describes_rejection, encode_char, lemma_encode_utf8_concat, lemma_split_text,
    lossy_bytes, lossy_text, validate, validate_vec, InvalidUtf8, InvalidUtf8Vec,
};
use crate::MAX_INLINE;
use core::cmp::Ordering;
use std::borrow::Cow;
use vstd::prelude::*;
use vstd::slice::*;
use vstd::string::*;
use vstd::utf8::*;

verus! {

/// Text with an inline capacity of `CAP` bytes.
///
/// A value is `Inline` only while its text fits `CAP` bytes. Text that
/// outgrows the capacity moves to the heap, and a value on the heap stays
/// there however short its text becomes.
#[derive(Debug)]
pub enum SmallString<const CAP: usize> {
    /// The text lies in the value itself.
    Inline(InlineStr<CAP>),
    /// The text lies on the heap.
    Boxed(String),
}

/// `String::split_off`.
///
/// Trusted: the string keeps the bytes before `at` and the result holds the
/// bytes from `at` on. The call panics where `at` is no character boundary,
/// which `requires` leaves out.
pub assume_specification[ String::split_off ](s: &mut String, at: usize) -> (r: String)
    requires
        is_char_boundary(encode_utf8(old(s)@), at as int),
    ensures
        encode_utf8(final(s)@) == encode_utf8(old(s)@).subrange(0, at as int),
        encode_utf8(r@) == encode_utf8(old(s)@).subrange(
            at as int,
            encode_utf8(old(s)@).len() as int,
        ),
;

/// `String::as_mut_str`.
///
/// Trusted: the slice holds the string's text, and what it holds when the
/// borrow ends is the string's text from then on.
pub assume_specification<'a>[ String::as_mut_str ](s: &'a mut String) -> (r: &'a mut str)
    ensures
        r@ == old(s)@,
        final(s)@ == final(r)@,
;

impl<const CAP: usize> View for SmallString<CAP> {
    type V = Seq<char>;

    open spec fn view(&self) -> Seq<char> {
        match self {
            SmallString::Inline(a) => a@,
            SmallString::Boxed(s) => s@,
        }
    }
}

impl<const CAP: usize> Clone for SmallString<CAP> {
    fn clone(&self) -> (r: Self)
        ensures
            r@ == self@,
            r is Inline <==> self is Inline,
    {
        match self {
            SmallString::Inline(a) => SmallString::Inline(*a),
            SmallString::Boxed(s) => SmallString::Boxed(s.clone()),
        }
    }
}

impl<const CAP: usize> SmallString<CAP> {
    /// The inline variant, if that is what the value is, is well formed.
    pub open spec fn wf(&self) -> bool {
        self matches SmallString::Inline(a) ==> a.wf()
    }

    /// The text's UTF-8 encoding.
    pub open spec fn spec_bytes(&self) -> Seq<u8> {
        encode_utf8(self@)
    }

    /// The empty text, inline.
    pub fn new() -> (r: Self)
        ensures
            r is Inline,
            r@ == Seq::<char>::empty(),
    {
        SmallString::Inline(InlineStr::new())
    }

    /// True while the text lies in the value itself.
    pub fn is_inline(&self) -> (r: bool)
        ensures
            r == (self is Inline),
    {
        match self {
            SmallString::Inline(_) => true,
            SmallString::Boxed(_) => false,
        }
    }

    /// True once the text lies on the heap.
    pub fn is_boxed(&self) -> (r: bool)
        ensures
            r == (self is Boxed),
    {
        !self.is_inline()
    }

    /// The text.
    pub fn as_str(&self) -> (s: &str)
        ensures
            s@ == self@,
    {
        match self {
            SmallString::Inline(a) => a.as_str(),
            SmallString::Boxed(s) => s.as_str(),
        }
    }

    /// The text, open to change in place. The representation stays as it
    /// is: a string slice keeps its length in bytes.
    pub fn as_mut_str(&mut self) -> (s: &mut str)
        ensures
            s@ == old(self)@,
            final(self)@ == final(s)@,
            *final(self) is Inline <==> *old(self) is Inline,
    {
        match self {
            SmallString::Inline(a) => a.as_mut_str(),
            SmallString::Boxed(b) => b.as_mut_str(),
        }
    }

    /// Makes a value of `s`: inline if `s` fits `CAP` bytes, else on the heap.
    pub fn from_str_slice(s: &str) -> (r: Self)
        ensures
            r@ == s@,
            r is Inline <==> s.spec_bytes().len() <= CAP,
    {
        let mut a = InlineStr::<CAP>::new();
        if a.try_push_str(s) {
            SmallString::Inline(a)
        } else {
            SmallString::Boxed(s.to_owned())
        }
    }

    /// Makes a value of `item`. Text that does not fit `CAP` bytes keeps the
    /// string's own buffer.
    pub fn from_string(item: String) -> (r: Self)
        ensures
            r@ == item@,
            r is Inline <==> encode_utf8(item@).len() <= CAP,
    {
        if item.as_str().len() > CAP {
            SmallString::Boxed(item)
        } else {
            Self::from_str_slice(item.as_str())
        }
    }

    /// The text as an owned string. A value on the heap gives up its buffer.
    pub fn into_string(self) -> (r: String)
        ensures
            r@ == self@,
    {
        match self {
            SmallString::Inline(a) => a.as_str().to_owned(),
            SmallString::Boxed(s) => s,
        }
    }

    /// Length of the text in bytes.
    pub fn len(&self) -> (n: usize)
        ensures
            n == self.spec_bytes().len(),
    {
        self.as_str().as_bytes().len()
    }

    /// Makes a value of the text in `v`, or says why `v` is not UTF-8.
    pub fn from_utf8(v: &[u8]) -> (r: Result<Self, InvalidUtf8>)
        ensures
            match r {
                Ok(t) => {
                    &&& valid_utf8(v@)
                    &&& t@ == decode_utf8(v@)
                    &&& (t is Inline <==> v@.len() <= CAP)
                },
                Err(e) => describes_rejection(e, v@),
            },
    {
        match validate(v) {
            Ok(s) => {
                proof {
                    decode_utf8_encode_utf8(v@);
                }
                Ok(Self::from_str_slice(s))
            },
            Err(e) => Err(e),
        }
    }

    /// Makes a value of the text in `v`, or hands `v` back with the reason
    /// why it is not UTF-8. Text that does not fit `CAP` bytes keeps the
    /// vector's buffer.
    pub fn from_utf8_vec(v: Vec<u8>) -> (r: Result<Self, InvalidUtf8Vec>)
        ensures
            match r {
                Ok(t) => {
                    &&& valid_utf8(v@)
                    &&& t@ == decode_utf8(v@)
                    &&& (t is Inline <==> v@.len() <= CAP)
                },
                Err(e) => e.bytes@ == v@ && describes_rejection(e.error, v@),
            },
    {
        match validate_vec(v) {
            Ok(s) => {
                proof {
                    decode_utf8_encode_utf8(v@);
                }
                Ok(Self::from_string(s))
            },
            Err(e) => Err(e),
        }
    }

    /// Makes an inline value that fills the whole capacity, or says why `b`
    /// is not UTF-8.
    pub fn from_byte_string(b: &[u8; CAP]) -> (r: Result<Self, InvalidUtf8>)
        ensures
            match r {
                Ok(t) => valid_utf8(b@) && t@ == decode_utf8(b@) && t is Inline,
                Err(e) => describes_rejection(e, b@),
            },
    {
        Self::from_utf8(b.as_slice())
    }

    /// Makes a value of `v` as far as it is UTF-8, with one replacement
    /// character for each invalid sequence. The representation goes by the
    /// length of the decoded text.
    pub fn from_utf8_lossy(v: &[u8]) -> (r: Self)
        ensures
            r@ == lossy_text(v@),
            r is Inline <==> lossy_bytes(v@).len() <= CAP,
    {
        let out = decode_lossy(v);
        match Self::from_utf8_vec(out) {
            Ok(t) => t,
            Err(_) => unreached(),
        }
    }

    /// Appends `s`. An inline value whose text no longer fits `CAP` bytes
    /// moves to the heap.
    pub fn push_str(&mut self, s: &str)
        ensures
            final(self)@ == old(self)@ + s@,
            *final(self) is Inline <==> *old(self) is Inline && old(self).spec_bytes().len()
                + s.spec_bytes().len() <= CAP,
            *old(self) is Boxed ==> *final(self) is Boxed,
    {
        match self {
            SmallString::Inline(a) => {
                if !a.try_push_str(s) {
                    let mut buf = a.as_str().to_owned();
                    buf.append(s);
                    *self = SmallString::Boxed(buf);
                }
            },
            SmallString::Boxed(b) => b.append(s),
        }
    }

    /// Appends `c`. An inline value whose text no longer fits `CAP` bytes
    /// moves to the heap.
    pub fn push(&mut self, c: char)
        ensures
            final(self)@ == old(self)@.push(c),
            *final(self) is Inline <==> *old(self) is Inline && old(self).spec_bytes().len()
                + encode_utf8(seq![c]).len() <= CAP,
            *old(self) is Boxed ==> *final(self) is Boxed,
    {
        let (buf, n) = encode_char(c);
        proof {
            encode_utf8_valid_utf8(seq![c]);
            encode_utf8_decode_utf8(seq![c]);
            assert(self@ + seq![c] =~= self@.push(c));
        }
        match validate(slice_subrange(buf.as_slice(), 0, n)) {
            Ok(s) => {
                proof {
                    encode_utf8_decode_utf8(s@);
                    decode_utf8_encode_utf8(encode_utf8(seq![c]));
                }
                self.push_str(s)
            },
            Err(_) => unreached(),
        }
    }

    /// The size that a hint stands for: its upper bound where it has one,
    /// else its lower bound.
    pub open spec fn size_guess(hint: (usize, Option<usize>)) -> usize {
        match hint.1 {
            Some(upper) => upper,
            None => hint.0,
        }
    }

    /// Makes a value of `chars`, one character after the other. A `hint`
    /// that stands for more than `CAP` bytes puts the value on the heap from
    /// the start; otherwise it moves there when the text outgrows `CAP`.
    pub fn from_chars(chars: &[char], hint: (usize, Option<usize>)) -> (r: Self)
        ensures
            r@ == chars@,
            r is Inline <==> Self::size_guess(hint) <= CAP && encode_utf8(chars@).len() <= CAP,
    {
        let size = match hint.1 {
            Some(upper) => upper,
            None => hint.0,
        };
        let mut s = if size > CAP {
            SmallString::Boxed(String::new())
        } else {
            SmallString::Inline(InlineStr::new())
        };
        let mut i: usize = 0;
        while i < chars.len()
            invariant
                i <= chars@.len(),
                size == Self::size_guess(hint),
                s@ == chars@.subrange(0, i as int),
                s is Inline <==> size <= CAP && encode_utf8(chars@.subrange(0, i as int)).len()
                    <= CAP,
            decreases chars@.len() - i,
        {
            proof {
                let before = chars@.subrange(0, i as int);
                assert(chars@.subrange(0, i + 1) =~= before + seq![chars@[i as int]]);
                assert(before.push(chars@[i as int]) =~= before + seq![chars@[i as int]]);
                lemma_encode_utf8_concat(before, seq![chars@[i as int]]);
            }
            s.push(chars[i]);
            i = i + 1;
        }
        proof {
            assert(chars@.subrange(0, i as int) =~= chars@);
        }
        s
    }

    /// Splits the text at byte `index`: the value keeps what lies before it
    /// and stays in its representation; what lies from it on is returned,
    /// inline if it fits `CAP` bytes.
    pub fn split_off(&mut self, index: usize) -> (tail: Self)
        requires
            is_char_boundary(old(self).spec_bytes(), index as int),
        ensures
            final(self).spec_bytes() == old(self).spec_bytes().subrange(0, index as int),
            tail.spec_bytes() == old(self).spec_bytes().subrange(
                index as int,
                old(self).spec_bytes().len() as int,
            ),
            old(self)@ == final(self)@ + tail@,
            *final(self) is Inline <==> *old(self) is Inline,
            *old(self) is Boxed ==> *final(self) is Boxed,
            tail is Inline <==> old(self).spec_bytes().len() - index <= CAP,
    {
        proof {
            lemma_split_text(self@, index as int);
        }
        let tail = match self {
            SmallString::Boxed(s) => Self::from_string(s.split_off(index)),
            SmallString::Inline(a) => {
                let st = a.as_str();
                let (_, right) = st.split_at(index);
                let tail = Self::from_str_slice(right);
                a.truncate(index);
                tail
            },
        };
        proof {
            encode_utf8_decode_utf8(self@);
            encode_utf8_decode_utf8(tail@);
        }
        tail
    }

    /// Makes a value of what `buf` displays as.
    pub fn from_display<T: core::fmt::Display>(buf: T) -> (r: Self)
        ensures
            exists|s: String| #[trigger] to_string_from_display_ensures::<T>(&buf, s) && r@ == s@,
            r is Inline <==> r.spec_bytes().len() <= CAP,
    {
        let text = buf.to_string();
        Self::from_string(text)
    }

    /// Splits the text at byte `index` if that is a character boundary, as
    /// `split_off` does, and leaves the value as it is if not.
    pub fn try_split_off(&mut self, index: usize) -> (tail: Option<Self>)
        ensures
            tail is Some <==> is_char_boundary(old(self).spec_bytes(), index as int),
            tail is None ==> *final(self) == *old(self),
            tail matches Some(t) ==> {
                &&& final(self).spec_bytes() == old(self).spec_bytes().subrange(0, index as int)
                &&& t.spec_bytes() == old(self).spec_bytes().subrange(
                    index as int,
                    old(self).spec_bytes().len() as int,
                )
                &&& old(self)@ == final(self)@ + t@
                &&& (*final(self) is Inline <==> *old(self) is Inline)
                &&& (t is Inline <==> old(self).spec_bytes().len() - index <= CAP)
            },
    {
        if self.as_str().is_char_boundary(index) {
            Some(self.split_off(index))
        } else {
            None
        }
    }

    /// Makes a value of `item`: inline if its text fits `CAP` bytes, else on
    /// the heap.
    pub fn from_stack_string(item: StackString) -> (r: Self)
        ensures
            r@ == item@,
            r is Inline <==> item.spec_bytes().len() <= CAP,
    {
        if item.len() > CAP {
            SmallString::Boxed(item.into_string())
        } else {
            Self::from_str_slice(item.as_str())
        }
    }

    /// The same text as a `StackString`.
    pub fn into_stack_string(self) -> (r: StackString)
        ensures
            r@ == self@,
    {
        if self.len() > MAX_INLINE {
            StackString::from_string(self.into_string())
        } else {
            StackString::from_str_slice(self.as_str())
        }
    }

    /// The same text under another capacity.
    pub fn into_smallstring<const CAP1: usize>(self) -> (r: SmallString<CAP1>)
        ensures
            r@ == self@,
            r is Inline <==> self.spec_bytes().len() <= CAP1,
    {
        if self.len() > CAP1 {
            match self {
                SmallString::Boxed(s) => SmallString::Boxed(s),
                SmallString::Inline(a) => SmallString::from_str_slice(a.as_str()),
            }
        } else {
            SmallString::from_str_slice(self.as_str())
        }
    }
}

impl<const CAP: usize> Default for SmallString<CAP> {
    fn default() -> (r: Self)
        ensures
            r is Inline,
            r@ == Seq::<char>::empty(),
    {
        Self::new()
    }
}

impl<const CAP: usize> From<&str> for SmallString<CAP> {
    fn from(item: &str) -> (r: Self)
        ensures
            r@ == item@,
            r is Inline <==> item.spec_bytes().len() <= CAP,
    {
        Self::from_str_slice(item)
    }
}

impl<const CAP: usize> vstd::std_specs::convert::FromSpecImpl<&str> for SmallString<CAP> {
    /// What `from` returns is stated on `from` itself, over the text.
    open spec fn obeys_from_spec() -> bool {
        false
    }

    open spec fn from_spec(item: &str) -> Self {
        arbitrary()
    }
}

impl<const CAP: usize> From<String> for SmallString<CAP> {
    fn from(item: String) -> (r: Self)
        ensures
            r@ == item@,
            r is Inline <==> encode_utf8(item@).len() <= CAP,
    {
        Self::from_string(item)
    }
}

impl<const CAP: usize> vstd::std_specs::convert::FromSpecImpl<String> for SmallString<CAP> {
    /// What `from` returns is stated on `from` itself, over the text.
    open spec fn obeys_from_spec() -> bool {
        false
    }

    open spec fn from_spec(item: String) -> Self {
        arbitrary()
    }
}

impl<const CAP: usize> From<&String> for SmallString<CAP> {
    fn from(item: &String) -> (r: Self)
        ensures
            r@ == item@,
            r is Inline <==> encode_utf8(item@).len() <= CAP,
    {
        Self::from_str_slice(item.as_str())
    }
}

impl<const CAP: usize> vstd::std_specs::convert::FromSpecImpl<&String> for SmallString<CAP> {
    /// What `from` returns is stated on `from` itself, over the text.
    open spec fn obeys_from_spec() -> bool {
        false
    }

    open spec fn from_spec(item: &String) -> Self {
        arbitrary()
    }
}

impl<'a, const CAP: usize> From<Cow<'a, str>> for SmallString<CAP> {
    fn from(item: Cow<'a, str>) -> (r: Self)
        ensures
            r@ == item@,
            r is Inline <==> encode_utf8(item@).len() <= CAP,
    {
        match item {
            Cow::Borrowed(s) => Self::from_str_slice(s),
            Cow::Owned(s) => Self::from_string(s),
        }
    }
}

impl<'a, const CAP: usize> vstd::std_specs::convert::FromSpecImpl<Cow<'a, str>> for SmallString<CAP> {
    /// What `from` returns is stated on `from` itself, over the text.
    open spec fn obeys_from_spec() -> bool {
        false
    }

    open spec fn from_spec(item: Cow<'a, str>) -> Self {
        arbitrary()
    }
}

impl<const CAP: usize> From<&SmallString<CAP>> for SmallString<CAP> {
    fn from(item: &SmallString<CAP>) -> (r: Self)
        ensures
            r@ == item@,
            r is Inline <==> item is Inline,
    {
        item.clone()
    }
}

impl<const CAP: usize> vstd::std_specs::convert::FromSpecImpl<&SmallString<CAP>> for SmallString<CAP> {
    /// What `from` returns is stated on `from` itself, over the text.
    open spec fn obeys_from_spec() -> bool {
        false
    }

    open spec fn from_spec(item: &SmallString<CAP>) -> Self {
        arbitrary()
    }
}

impl<const CAP: usize> From<SmallString<CAP>> for String {
    fn from(item: SmallString<CAP>) -> (r: String)
        ensures
            r@ == item@,
    {
        item.into_string()
    }
}

impl<const CAP: usize> vstd::std_specs::convert::FromSpecImpl<SmallString<CAP>> for String {
    /// What `from` returns is stated on `from` itself, over the text.
    open spec fn obeys_from_spec() -> bool {
        false
    }

    open spec fn from_spec(item: SmallString<CAP>) -> String {
        arbitrary()
    }
}

impl<const CAP: usize> From<&SmallString<CAP>> for String {
    fn from(item: &SmallString<CAP>) -> (r: String)
        ensures
            r@ == item@,
    {
        item.as_str().to_owned()
    }
}

impl<const CAP: usize> vstd::std_specs::convert::FromSpecImpl<&SmallString<CAP>> for String {
    /// What `from` returns is stated on `from` itself, over the text.
    open spec fn obeys_from_spec() -> bool {
        false
    }

    open spec fn from_spec(item: &SmallString<CAP>) -> String {
        arbitrary()
    }
}

impl<'a, const CAP: usize> From<&'a SmallString<CAP>> for &'a str {
    fn from(item: &'a SmallString<CAP>) -> (r: &'a str)
        ensures
            r@ == item@,
    {
        item.as_str()
    }
}

impl<'a, const CAP: usize> vstd::std_specs::convert::FromSpecImpl<&'a SmallString<CAP>> for &'a str {
    /// What `from` returns is stated on `from` itself, over the text.
    open spec fn obeys_from_spec() -> bool {
        false
    }

    open spec fn from_spec(item: &'a SmallString<CAP>) -> &'a str {
        arbitrary()
    }
}

impl<'a, const CAP: usize> From<SmallString<CAP>> for Cow<'a, str> {
    fn from(item: SmallString<CAP>) -> (r: Cow<'a, str>)
        ensures
            r@ == item@,
    {
        Cow::Owned(item.into_string())
    }
}

impl<'a, const CAP: usize> vstd::std_specs::convert::FromSpecImpl<SmallString<CAP>> for Cow<'a, str> {
    /// What `from` returns is stated on `from` itself, over the text.
    open spec fn obeys_from_spec() -> bool {
        false
    }

    open spec fn from_spec(item: SmallString<CAP>) -> Cow<'a, str> {
        arbitrary()
    }
}

impl<const CAP: usize> From<InlineStr<CAP>> for SmallString<CAP> {
    fn from(item: InlineStr<CAP>) -> (r: Self)
        ensures
            r == SmallString::Inline(item),
    {
        SmallString::Inline(item)
    }
}

impl<const CAP: usize> vstd::std_specs::convert::FromSpecImpl<InlineStr<CAP>> for SmallString<CAP> {
    open spec fn obeys_from_spec() -> bool {
        true
    }

    open spec fn from_spec(item: InlineStr<CAP>) -> SmallString<CAP> {
        SmallString::Inline(item)
    }
}

impl<const CAP: usize> From<StackString> for SmallString<CAP> {
    fn from(item: StackString) -> (r: Self)
        ensures
            r@ == item@,
            r is Inline <==> item.spec_bytes().len() <= CAP,
    {
        Self::from_stack_string(item)
    }
}

impl<const CAP: usize> vstd::std_specs::convert::FromSpecImpl<StackString> for SmallString<CAP> {
    /// What `from` returns is stated on `from` itself, over the text.
    open spec fn obeys_from_spec() -> bool {
        false
    }

    open spec fn from_spec(item: StackString) -> SmallString<CAP> {
        arbitrary()
    }
}

impl<const CAP: usize> From<&StackString> for SmallString<CAP> {
    fn from(item: &StackString) -> (r: Self)
        ensures
            r@ == item@,
            r is Inline <==> item.spec_bytes().len() <= CAP,
    {
        Self::from_str_slice(item.as_str())
    }
}

impl<const CAP: usize> vstd::std_specs::convert::FromSpecImpl<&StackString> for SmallString<CAP> {
    /// What `from` returns is stated on `from` itself, over the text.
    open spec fn obeys_from_spec() -> bool {
        false
    }

    open spec fn from_spec(item: &StackString) -> SmallString<CAP> {
        arbitrary()
    }
}

impl<const CAP: usize> From<SmallString<CAP>> for StackString {
    fn from(item: SmallString<CAP>) -> (r: StackString)
        ensures
            r@ == item@,
    {
        item.into_stack_string()
    }
}

impl<const CAP: usize> vstd::std_specs::convert::FromSpecImpl<SmallString<CAP>> for StackString {
    /// What `from` returns is stated on `from` itself, over the text.
    open spec fn obeys_from_spec() -> bool {
        false
    }

    open spec fn from_spec(item: SmallString<CAP>) -> StackString {
        arbitrary()
    }
}

impl<const CAP: usize> core::str::FromStr for SmallString<CAP> {
    type Err = core::convert::Infallible;

    fn from_str(s: &str) -> (r: Result<Self, core::convert::Infallible>)
        ensures
            r matches Ok(t) && t@ == s@ && (t is Inline <==> s.spec_bytes().len() <= CAP),
    {
        Ok(Self::from_str_slice(s))
    }
}

impl<const CAP: usize> core::ops::Deref for SmallString<CAP> {
    type Target = str;

    fn deref(&self) -> (s: &str)
        ensures
            s@ == self@,
    {
        self.as_str()
    }
}

impl<const CAP: usize> core::ops::DerefMut for SmallString<CAP> {
    fn deref_mut(&mut self) -> (s: &mut str)
        ensures
            s@ == old(self)@,
            final(self)@ == final(s)@,
            *final(self) is Inline <==> *old(self) is Inline,
    {
        self.as_mut_str()
    }
}

impl<const CAP: usize> core::borrow::BorrowMut<str> for SmallString<CAP> {
    fn borrow_mut(&mut self) -> (s: &mut str)
        ensures
            ({
                let text: &mut str = s;
                text@ == old(self)@ && final(self)@ == final(text)@
            }),
            *final(self) is Inline <==> *old(self) is Inline,
    {
        self.as_mut_str()
    }
}

impl<const CAP: usize> core::borrow::Borrow<str> for SmallString<CAP> {
    fn borrow(&self) -> (s: &str)
        ensures
            ({
                let text: &str = s;
                text@ == self@
            }),
    {
        self.as_str()
    }
}

impl<const CAP: usize> AsRef<str> for SmallString<CAP> {
    fn as_ref(&self) -> (s: &str)
        ensures
            ({
                let text: &str = s;
                text@ == self@
            }),
    {
        self.as_str()
    }
}

impl<const CAP: usize> AsRef<[u8]> for SmallString<CAP> {
    fn as_ref(&self) -> (b: &[u8])
        ensures
            ({
                let bytes: &[u8] = b;
                bytes@ == self.spec_bytes()
            }),
    {
        self.as_str().as_bytes()
    }
}

impl<const CAP: usize> Ord for SmallString<CAP> {
    /// `Ord` of `str` on the two texts.
    ///
    /// Trusted: string slices are ordered by their bytes, as `partial_cmp`
    /// here orders.
    #[verifier::external_body]
    fn cmp(&self, other: &Self) -> (r: Ordering)
        ensures
            r == text_order(self@, other@),
    {
        self.as_str().cmp(other.as_str())
    }
}

impl<const CAP: usize> core::fmt::Display for SmallString<CAP> {
    fn fmt(&self, f: &mut core::fmt::Formatter<'_>) -> core::fmt::Result {
        display_str(self.as_str(), f)
    }
}

impl<const CAP: usize> core::fmt::Write for SmallString<CAP> {
    fn write_str(&mut self, s: &str) -> (r: Result<(), core::fmt::Error>)
        ensures
            r is Ok,
            final(self)@ == old(self)@ + s@,
            *final(self) is Inline <==> *old(self) is Inline && old(self).spec_bytes().len()
                + s.spec_bytes().len() <= CAP,
            *old(self) is Boxed ==> *final(self) is Boxed,
    {
        self.push_str(s);
        Ok(())
    }
}

impl<const CAP: usize> PartialEq for SmallString<CAP> {
    fn eq(&self, other: &Self) -> (r: bool) {
        str_eq(self.as_str(), other.as_str())
    }
}

impl<const CAP: usize> Eq for SmallString<CAP> {

}

impl<const CAP: usize> vstd::std_specs::cmp::PartialEqSpecImpl for SmallString<CAP> {
    open spec fn obeys_eq_spec() -> bool {
        true
    }

    open spec fn eq_spec(&self, other: &Self) -> bool {
        self@ == other@
    }
}

impl<const CAP: usize> PartialEq<str> for SmallString<CAP> {
    fn eq(&self, other: &str) -> (r: bool) {
        str_eq(self.as_str(), other)
    }
}

impl<const CAP: usize> vstd::std_specs::cmp::PartialEqSpecImpl<str> for SmallString<CAP> {
    open spec fn obeys_eq_spec() -> bool {
        true
    }

    open spec fn eq_spec(&self, other: &str) -> bool {
        self@ == other@
    }
}

impl<'a, const CAP: usize> PartialEq<&'a str> for SmallString<CAP> {
    fn eq(&self, other: &&'a str) -> (r: bool) {
        str_eq(self.as_str(), *other)
    }
}

impl<'a, const CAP: usize> vstd::std_specs::cmp::PartialEqSpecImpl<&'a str> for SmallString<CAP> {
    open spec fn obeys_eq_spec() -> bool {
        true
    }

    open spec fn eq_spec(&self, other: &&'a str) -> bool {
        self@ == other@
    }
}

impl<const CAP: usize> PartialEq<String> for SmallString<CAP> {
    fn eq(&self, other: &String) -> (r: bool) {
        str_eq(self.as_str(), other.as_str())
    }
}

impl<const CAP: usize> vstd::std_specs::cmp::PartialEqSpecImpl<String> for SmallString<CAP> {
    open spec fn obeys_eq_spec() -> bool {
        true
    }

    open spec fn eq_spec(&self, other: &String) -> bool {
        self@ == other@
    }
}

impl<'a, const CAP: usize> PartialEq<Cow<'a, str>> for SmallString<CAP> {
    fn eq(&self, other: &Cow<'a, str>) -> (r: bool) {
        str_eq(self.as_str(), cow_as_str(other))
    }
}

impl<'a, const CAP: usize> vstd::std_specs::cmp::PartialEqSpecImpl<Cow<'a, str>> for SmallString<CAP> {
    open spec fn obeys_eq_spec() -> bool {
        true
    }

    open spec fn eq_spec(&self, other: &Cow<'a, str>) -> bool {
        self@ == other@
    }
}

impl<const CAP: usize> PartialOrd for SmallString<CAP> {
    fn partial_cmp(&self, other: &Self) -> (r: Option<Ordering>) {
        Some(str_order(self.as_str(), other.as_str()))
    }
}

impl<const CAP: usize> vstd::std_specs::cmp::PartialOrdSpecImpl for SmallString<CAP> {
    open spec fn obeys_partial_cmp_spec() -> bool {
        true
    }

    open spec fn partial_cmp_spec(&self, other: &Self) -> Option<Ordering> {
        Some(text_order(self@, other@))
    }
}

impl<const CAP: usize> core::hash::Hash for SmallString<CAP> {
    fn hash<H: core::hash::Hasher>(&self, state: &mut H) {
        hash_str(self.as_str(), state)
    }
}

} // verus!
