//! Text held in a fixed array of bytes.

use crate::debug_str;
use crate::utf8::{lemma_char_boundary_in_bounds, lemma_decode_utf8_concat, str_from_utf8};
use vstd::prelude::*;
use vstd::slice::*;
use vstd::string::*;
use vstd::utf8::*;

verus! {

/// Text of at most `CAP` bytes, stored in place.
///
/// The first `len` bytes of the array are the text's UTF-8 encoding; what
/// lies behind them is not part of the value.
#[derive(Clone, Copy)]
pub struct InlineStr<const CAP: usize> {
    bytes: [u8; CAP],
    len: usize,
}

impl<const CAP: usize> core::fmt::Debug for InlineStr<CAP> {
    fn fmt(&self, f: &mut core::fmt::Formatter<'_>) -> core::fmt::Result {
        debug_str(self.as_str(), f)
    }
}

impl<const CAP: usize> View for InlineStr<CAP> {
    type V = Seq<char>;

    closed spec fn view(&self) -> Seq<char> {
        decode_utf8(self.bytes@.subrange(0, self.len as int))
    }
}

impl<const CAP: usize> InlineStr<CAP> {
    /// The bytes in use fit the array and are valid UTF-8.
    #[verifier::type_invariant]
    pub closed spec fn wf(self) -> bool {
        &&& self.len <= CAP
        &&& valid_utf8(self.bytes@.subrange(0, self.len as int))
    }

    /// The text's UTF-8 encoding.
    pub open spec fn spec_bytes(self) -> Seq<u8> {
        encode_utf8(self@)
    }

    /// A well-formed value's encoding fits the array.
    pub proof fn lemma_fits(self)
        requires
            self.wf(),
        ensures
            self.spec_bytes().len() <= CAP,
            valid_utf8(self.spec_bytes()),
    {
        self.lemma_stored();
    }

    /// The bytes in use are the text's encoding.
    proof fn lemma_stored(self)
        requires
            self.wf(),
        ensures
            self.spec_bytes() == self.bytes@.subrange(0, self.len as int),
            self.spec_bytes().len() == self.len,
    {
        decode_utf8_encode_utf8(self.bytes@.subrange(0, self.len as int));
    }

    /// The empty text.
    pub fn new() -> (r: Self)
        ensures
            r.wf(),
            r@ == Seq::<char>::empty(),
    {
        let r = InlineStr { bytes: [0u8; CAP], len: 0 };
        r
    }

    /// Length of the text in bytes.
    pub fn len(&self) -> (n: usize)
        ensures
            n == self.spec_bytes().len(),
            n <= CAP,
    {
        proof {
            use_type_invariant(self);
            self.lemma_stored();
        }
        self.len
    }

    /// The text's bytes.
    pub fn as_bytes(&self) -> (b: &[u8])
        ensures
            b@ == self.spec_bytes(),
            valid_utf8(b@),
    {
        proof {
            use_type_invariant(self);
            self.lemma_stored();
        }
        slice_subrange(self.bytes.as_slice(), 0, self.len)
    }

    /// The text as a string slice. The bytes are validated on the way.
    pub fn as_str(&self) -> (s: &str)
        ensures
            s@ == self@,
    {
        let b = self.as_bytes();
        match str_from_utf8(b) {
            Ok(s) => {
                proof {
                    encode_utf8_decode_utf8(s@);
                    encode_utf8_decode_utf8(self@);
                }
                s
            },
            Err(_) => unreached(),
        }
    }

    /// `core::str::from_utf8_mut` on the bytes in use.
    ///
    /// Trusted: the slice holds the text, and what it holds when the borrow
    /// ends is the value's text from then on. A string slice can only be
    /// changed into valid UTF-8 of the same length, so the bytes in use stay
    /// well formed.
    #[verifier::external_body]
    pub(crate) fn as_mut_str(&mut self) -> (s: &mut str)
        ensures
            s@ == old(self)@,
            final(self)@ == final(s)@,
    {
        core::str::from_utf8_mut(&mut self.bytes[..self.len]).unwrap_or_default()
    }

    /// Appends `v` if the array has room for it, and says whether it had.
    fn try_push_bytes(&mut self, v: &[u8]) -> (fits: bool)
        requires
            valid_utf8(v@),
        ensures
            fits == (old(self).spec_bytes().len() + v@.len() <= CAP),
            fits ==> final(self)@ == old(self)@ + decode_utf8(v@),
            !fits ==> *final(self) == *old(self),
    {
        proof {
            use_type_invariant(&*self);
            self.lemma_stored();
        }
        let n = v.len();
        let len = self.len;
        if n > CAP - len {
            return false;
        }
        let mut buf = self.bytes;
        let mut i: usize = 0;
        while i < n
            invariant
                i <= n,
                n == v@.len(),
                len + n <= CAP,
                buf@.subrange(0, len as int) == self.bytes@.subrange(0, len as int),
                buf@.subrange(len as int, len + i) == v@.subrange(0, i as int),
            decreases n - i,
        {
            let ghost before = buf@;
            buf[len + i] = v[i];
            proof {
                assert(buf@.subrange(0, len as int) =~= before.subrange(0, len as int));
                assert(buf@.subrange(len as int, len + i + 1) =~= before.subrange(
                    len as int,
                    len + i,
                ).push(v@[i as int]));
                assert(v@.subrange(0, i + 1) =~= v@.subrange(0, i as int).push(v@[i as int]));
            }
            i = i + 1;
        }
        proof {
            let stored = self.bytes@.subrange(0, len as int);
            assert(v@.subrange(0, n as int) =~= v@);
            assert(buf@.subrange(0, len + n) =~= stored + v@);
            lemma_decode_utf8_concat(stored, v@);
        }
        *self = InlineStr { bytes: buf, len: len + n };
        true
    }

    /// Appends `s` if the array has room for it, and says whether it had.
    pub fn try_push_str(&mut self, s: &str) -> (fits: bool)
        ensures
            fits == (old(self).spec_bytes().len() + s.spec_bytes().len() <= CAP),
            fits ==> final(self)@ == old(self)@ + s@,
            !fits ==> *final(self) == *old(self),
    {
        proof {
            encode_utf8_valid_utf8(s@);
            encode_utf8_decode_utf8(s@);
        }
        self.try_push_bytes(s.as_bytes())
    }

    /// Cuts the text down to its first `new_len` bytes.
    pub(crate) fn truncate(&mut self, new_len: usize)
        requires
            is_char_boundary(old(self).spec_bytes(), new_len as int),
        ensures
            final(self).spec_bytes() == old(self).spec_bytes().subrange(0, new_len as int),
    {
        proof {
            use_type_invariant(&*self);
            self.lemma_stored();
            let stored = self.bytes@.subrange(0, self.len as int);
            valid_utf8_split(stored, new_len as int);
            lemma_char_boundary_in_bounds(stored, new_len as int);
            assert(stored.subrange(0, new_len as int) =~= self.bytes@.subrange(0, new_len as int));
        }
        *self = InlineStr { bytes: self.bytes, len: new_len };
        proof {
            self.lemma_stored();
        }
    }
}

} // verus!
