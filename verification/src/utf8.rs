//! UTF-8 validation outcomes and what the text types build on them.

use vstd::prelude::*;
use vstd::slice::*;
use vstd::string::*;
use vstd::utf8::*;

verus! {

/// Why a byte vector is not UTF-8; the vector comes back with the reason.
#[derive(Debug, Clone, PartialEq, Eq)]
pub struct InvalidUtf8Vec {
    /// The bytes that were to become text.
    pub bytes: Vec<u8>,
    /// Where and how they fail.
    pub error: InvalidUtf8,
}

/// Why a byte sequence is not UTF-8.
#[derive(Debug, Clone, Copy, PartialEq, Eq)]
pub struct InvalidUtf8 {
    /// Length of the longest prefix that is valid UTF-8.
    pub valid_up_to: usize,
    /// Length of the invalid sequence that follows the valid prefix, or
    /// `None` when the input ends inside a character.
    pub error_len: Option<usize>,
}

/// Length of the longest prefix of `bytes` that is valid UTF-8.
pub open spec fn valid_up_to(bytes: Seq<u8>) -> nat
    decreases bytes.len(),
{
    if bytes.len() > 0 && valid_first_scalar(bytes) {
        (length_of_first_scalar(bytes) + valid_up_to(pop_first_scalar(bytes))) as nat
    } else {
        0
    }
}

/// The length that `Utf8Error::error_len` reports when `core::str::from_utf8`
/// rejects `bytes`.
pub uninterp spec fn utf8_error_len(bytes: Seq<u8>) -> Option<usize>;

/// What a rejection `e` of `bytes` holds: where the valid prefix ends, and
/// the length that the validator reports for the invalid sequence.
pub open spec fn describes_rejection(e: InvalidUtf8, bytes: Seq<u8>) -> bool {
    &&& !valid_utf8(bytes)
    &&& e.valid_up_to == valid_up_to(bytes)
    &&& e.error_len == utf8_error_len(bytes)
    &&& match e.error_len {
        Some(n) => 1 <= n && e.valid_up_to + n <= bytes.len(),
        None => e.valid_up_to < bytes.len() <= e.valid_up_to + 3,
    }
}

/// True when `k` is the greatest length of a prefix of `bytes` that is valid
/// UTF-8.
pub open spec fn is_longest_valid_prefix(bytes: Seq<u8>, k: int) -> bool {
    &&& 0 <= k <= bytes.len()
    &&& valid_utf8(bytes.subrange(0, k))
    &&& forall|j: int| k < j <= bytes.len() ==> !valid_utf8(#[trigger] bytes.subrange(0, j))
}

/// `core::str::from_utf8`, with the error's two accessors read out.
///
/// Trusted: the call succeeds exactly on valid UTF-8 and then hands back the
/// same bytes as a string slice; otherwise `valid_up_to` is the greatest
/// length of a prefix that is valid, and `error_len` is a fixed function of
/// the input.
///
/// Of `error_len` the contract repeats what its documentation says: `None`
/// means that the input ends one to three bytes after the valid prefix,
/// `Some(n)` that the `n` bytes after the valid prefix are the invalid
/// sequence.
#[verifier::external_body]
pub(crate) fn str_from_utf8(v: &[u8]) -> (r: Result<&str, InvalidUtf8>)
    ensures
        match r {
            Ok(s) => valid_utf8(v@) && s.spec_bytes() == v@,
            Err(e) => {
                &&& !valid_utf8(v@)
                &&& is_longest_valid_prefix(v@, e.valid_up_to as int)
                &&& e.error_len == utf8_error_len(v@)
                &&& match e.error_len {
                    Some(n) => 1 <= n && e.valid_up_to + n <= v@.len(),
                    None => 1 <= v@.len() - e.valid_up_to <= 3,
                }
            },
        },
{
    match core::str::from_utf8(v) {
        Ok(s) => Ok(s),
        Err(e) => Err(InvalidUtf8 { valid_up_to: e.valid_up_to(), error_len: e.error_len() }),
    }
}

/// The encoding of one scalar is valid UTF-8 by itself.
proof fn lemma_first_scalar_alone_is_valid(bytes: Seq<u8>)
    requires
        bytes.len() > 0,
        valid_first_scalar(bytes),
    ensures
        valid_utf8(take_first_scalar(bytes)),
{
    let head = take_first_scalar(bytes);
    assert(valid_first_scalar(head));
    assert(pop_first_scalar(head).len() == 0);
    reveal_with_fuel(valid_utf8, 2);
}

/// `valid_up_to` is what its name says: the prefix of that length is valid
/// UTF-8 and no longer prefix is.
pub proof fn lemma_valid_up_to_is_longest(bytes: Seq<u8>)
    ensures
        is_longest_valid_prefix(bytes, valid_up_to(bytes) as int),
    decreases bytes.len(),
{
    if bytes.len() > 0 && valid_first_scalar(bytes) {
        let l = length_of_first_scalar(bytes);
        let rest = pop_first_scalar(bytes);
        let k = valid_up_to(rest) as int;
        lemma_valid_up_to_is_longest(rest);
        lemma_first_scalar_alone_is_valid(bytes);
        valid_utf8_concat(take_first_scalar(bytes), rest.subrange(0, k));
        assert(bytes.subrange(0, l + k) =~= take_first_scalar(bytes) + rest.subrange(0, k));
        assert forall|j: int| l + k < j <= bytes.len() implies !valid_utf8(
            #[trigger] bytes.subrange(0, j),
        ) by {
            let p = bytes.subrange(0, j);
            if valid_utf8(p) {
                assert(valid_first_scalar(p));
                assert(length_of_first_scalar(p) == l);
                assert(pop_first_scalar(p) =~= rest.subrange(0, j - l));
                assert(!valid_utf8(rest.subrange(0, j - l)));
            }
        }
    } else {
        assert forall|j: int| 0 < j <= bytes.len() implies !valid_utf8(
            #[trigger] bytes.subrange(0, j),
        ) by {
            let p = bytes.subrange(0, j);
            if valid_utf8(p) {
                assert(valid_first_scalar(p));
                assert(valid_first_scalar(bytes));
            }
        }
    }
}

/// There is one longest valid prefix, and `valid_up_to` gives its length.
pub proof fn lemma_longest_valid_prefix_unique(bytes: Seq<u8>, k: int)
    requires
        is_longest_valid_prefix(bytes, k),
    ensures
        k == valid_up_to(bytes),
{
    lemma_valid_up_to_is_longest(bytes);
}

/// `String::from_utf8`, with the rejected bytes taken back out of the error.
///
/// Trusted: the call succeeds exactly on valid UTF-8, the string then holds
/// the given bytes, and a failure hands the same bytes back.
#[verifier::external_body]
pub(crate) fn string_from_utf8(v: Vec<u8>) -> (r: Result<String, Vec<u8>>)
    ensures
        match r {
            Ok(s) => valid_utf8(v@) && s@ == decode_utf8(v@),
            Err(b) => !valid_utf8(v@) && b@ == v@,
        },
{
    match String::from_utf8(v) {
        Ok(s) => Ok(s),
        Err(e) => Err(e.into_bytes()),
    }
}

/// Validates `v` and hands back the text in it.
pub fn validate(v: &[u8]) -> (r: Result<&str, InvalidUtf8>)
    ensures
        match r {
            Ok(s) => valid_utf8(v@) && s@ == decode_utf8(v@),
            Err(e) => describes_rejection(e, v@),
        },
{
    match str_from_utf8(v) {
        Ok(s) => {
            proof {
                encode_utf8_decode_utf8(s@);
            }
            Ok(s)
        },
        Err(e) => {
            proof {
                lemma_longest_valid_prefix_unique(v@, e.valid_up_to as int);
            }
            Err(e)
        },
    }
}

/// Turns `v` into a string without copying, or says why it is not text.
pub fn validate_vec(v: Vec<u8>) -> (r: Result<String, InvalidUtf8Vec>)
    ensures
        match r {
            Ok(s) => valid_utf8(v@) && s@ == decode_utf8(v@),
            Err(e) => e.bytes@ == v@ && describes_rejection(e.error, v@),
        },
{
    match string_from_utf8(v) {
        Ok(s) => Ok(s),
        Err(bytes) => {
            let rejected = match validate(bytes.as_slice()) {
                Ok(_) => None,
                Err(e) => Some(e),
            };
            match rejected {
                Some(error) => Err(InvalidUtf8Vec { bytes, error }),
                None => unreached(),
            }
        },
    }
}

/// Valid UTF-8 decodes piece by piece.
pub proof fn lemma_decode_utf8_concat(a: Seq<u8>, b: Seq<u8>)
    requires
        valid_utf8(a),
        valid_utf8(b),
    ensures
        valid_utf8(a + b),
        decode_utf8(a + b) == decode_utf8(a) + decode_utf8(b),
    decreases a.len(),
{
    valid_utf8_concat(a, b);
    if a.len() == 0 {
        assert(a + b =~= b);
        assert(decode_utf8(a) + decode_utf8(b) =~= decode_utf8(b));
    } else {
        let rest = pop_first_scalar(a);
        assert(pop_first_scalar(a + b) =~= rest + b);
        lemma_decode_utf8_concat(rest, b);
        assert(decode_utf8(a + b) =~= decode_utf8(a) + decode_utf8(b));
    }
}

/// Text encodes piece by piece.
pub proof fn lemma_encode_utf8_concat(x: Seq<char>, y: Seq<char>)
    ensures
        encode_utf8(x + y) == encode_utf8(x) + encode_utf8(y),
    decreases x.len(),
{
    if x.len() == 0 {
        assert(x + y =~= y);
        assert(encode_utf8(x) + encode_utf8(y) =~= encode_utf8(y));
    } else {
        assert((x + y).drop_first() =~= x.drop_first() + y);
        lemma_encode_utf8_concat(x.drop_first(), y);
        assert(encode_utf8(x + y) =~= encode_utf8(x) + encode_utf8(y));
    }
}

/// A character boundary lies within the bytes.
pub proof fn lemma_char_boundary_in_bounds(bytes: Seq<u8>, index: int)
    requires
        valid_utf8(bytes),
        is_char_boundary(bytes, index),
    ensures
        0 <= index <= bytes.len(),
    decreases bytes.len(),
{
    if index != 0 {
        lemma_char_boundary_in_bounds(
            pop_first_scalar(bytes),
            index - length_of_first_scalar(bytes),
        );
    }
}

/// Splitting text at a character boundary of its encoding splits the text.
pub proof fn lemma_split_text(text: Seq<char>, index: int)
    requires
        is_char_boundary(encode_utf8(text), index),
    ensures
        0 <= index <= encode_utf8(text).len(),
        valid_utf8(encode_utf8(text).subrange(0, index)),
        valid_utf8(encode_utf8(text).subrange(index, encode_utf8(text).len() as int)),
        text == decode_utf8(encode_utf8(text).subrange(0, index)) + decode_utf8(
            encode_utf8(text).subrange(index, encode_utf8(text).len() as int),
        ),
{
    let bytes = encode_utf8(text);
    encode_utf8_valid_utf8(text);
    encode_utf8_decode_utf8(text);
    lemma_char_boundary_in_bounds(bytes, index);
    valid_utf8_split(bytes, index);
    decode_utf8_split(bytes, index);
}

/// Encodes `c` in UTF-8: the bytes, and how many of the four are in use.
pub fn encode_char(c: char) -> (r: ([u8; 4], usize))
    ensures
        1 <= r.1 <= 4,
        r.0@.subrange(0, r.1 as int) == encode_utf8(seq![c]),
{
    let v = c as u32;
    proof {
        let one = seq![c];
        assert(one.drop_first() =~= Seq::<char>::empty());
        reveal_with_fuel(encode_utf8, 2);
        assert(encode_utf8(one) =~= encode_scalar(v));
        char_is_scalar(c);
    }
    if v < 0x80 {
        assert((v & 0x7F) < 0x100) by (bit_vector);
        let r = [(v & 0x7F) as u8, 0, 0, 0];
        assert(r@.subrange(0, 1) =~= encode_scalar(v));
        (r, 1)
    } else if v < 0x800 {
        assert(((v >> 6) & 0x1F) < 0x100 && (v & 0x3F) < 0x100) by (bit_vector);
        let r = [0xC0 | ((v >> 6) & 0x1F) as u8, 0x80 | (v & 0x3F) as u8, 0, 0];
        assert(r@.subrange(0, 2) =~= encode_scalar(v));
        (r, 2)
    } else if v < 0x10000 {
        assert(((v >> 12) & 0x0F) < 0x100 && ((v >> 6) & 0x3F) < 0x100 && (v & 0x3F) < 0x100)
            by (bit_vector);
        let r = [
            0xE0 | ((v >> 12) & 0x0F) as u8,
            0x80 | ((v >> 6) & 0x3F) as u8,
            0x80 | (v & 0x3F) as u8,
            0,
        ];
        assert(r@.subrange(0, 3) =~= encode_scalar(v));
        (r, 3)
    } else {
        assert(((v >> 18) & 0x7) < 0x100 && ((v >> 12) & 0x3F) < 0x100 && ((v >> 6) & 0x3F)
            < 0x100 && (v & 0x3F) < 0x100) by (bit_vector);
        let r = [
            0xF0 | ((v >> 18) & 0x7) as u8,
            0x80 | ((v >> 12) & 0x3F) as u8,
            0x80 | ((v >> 6) & 0x3F) as u8,
            0x80 | (v & 0x3F) as u8,
        ];
        assert(r@.subrange(0, 4) =~= encode_scalar(v));
        (r, 4)
    }
}

/// The UTF-8 encoding of U+FFFD, the replacement character.
pub open spec fn replacement_bytes() -> Seq<u8> {
    seq![0xEFu8, 0xBFu8, 0xBDu8]
}

/// The bytes that lossy decoding makes of `bytes`: valid input stays as it
/// is; otherwise the longest valid prefix is kept, one replacement character
/// stands for the invalid sequence after it, and decoding goes on behind
/// that sequence. Input that ends inside a character ends with the
/// replacement character.
pub open spec fn lossy_bytes(bytes: Seq<u8>) -> Seq<u8>
    decreases bytes.len(),
{
    if valid_utf8(bytes) {
        bytes
    } else {
        let k = valid_up_to(bytes) as int;
        let repaired = bytes.subrange(0, k) + replacement_bytes();
        match utf8_error_len(bytes) {
            Some(n) => if 1 <= n && k + n <= bytes.len() {
                repaired + lossy_bytes(bytes.subrange(k + n, bytes.len() as int))
            } else {
                repaired
            },
            None => repaired,
        }
    }
}

/// The text that lossy decoding makes of `bytes`.
pub open spec fn lossy_text(bytes: Seq<u8>) -> Seq<char> {
    decode_utf8(lossy_bytes(bytes))
}

/// The replacement character's three bytes are its UTF-8 encoding.
pub proof fn lemma_replacement_bytes()
    ensures
        replacement_bytes() == encode_utf8(seq!['\u{FFFD}']),
        valid_utf8(replacement_bytes()),
        decode_utf8(replacement_bytes()) == seq!['\u{FFFD}'],
{
    let c: u32 = 0xFFFD;
    assert('\u{FFFD}' as u32 == c);
    assert(0xE0u8 | ((c >> 12) & 0x0F) as u8 == 0xEFu8) by (bit_vector)
        requires
            c == 0xFFFDu32,
    ;
    assert(0x80u8 | ((c >> 6) & 0x3F) as u8 == 0xBFu8) by (bit_vector)
        requires
            c == 0xFFFDu32,
    ;
    assert(0x80u8 | (c & 0x3F) as u8 == 0xBDu8) by (bit_vector)
        requires
            c == 0xFFFDu32,
    ;
    let one = seq!['\u{FFFD}'];
    assert(one.drop_first() =~= Seq::<char>::empty());
    reveal_with_fuel(encode_utf8, 2);
    assert(encode_utf8(one) =~= replacement_bytes());
    encode_utf8_valid_utf8(one);
    encode_utf8_decode_utf8(one);
}

/// Lossy decoding always yields valid UTF-8.
pub proof fn lemma_lossy_bytes_valid(bytes: Seq<u8>)
    ensures
        valid_utf8(lossy_bytes(bytes)),
    decreases bytes.len(),
{
    if !valid_utf8(bytes) {
        let k = valid_up_to(bytes) as int;
        lemma_valid_up_to_is_longest(bytes);
        lemma_replacement_bytes();
        valid_utf8_concat(bytes.subrange(0, k), replacement_bytes());
        match utf8_error_len(bytes) {
            Some(n) => {
                if 1 <= n && k + n <= bytes.len() {
                    let rest = bytes.subrange(k + n, bytes.len() as int);
                    lemma_lossy_bytes_valid(rest);
                    valid_utf8_concat(
                        bytes.subrange(0, k) + replacement_bytes(),
                        lossy_bytes(rest),
                    );
                }
            },
            None => {},
        }
    }
}

/// Appends to `out` what a rejected `input` contributes up to the end of its
/// first invalid sequence: the valid prefix, then one replacement character.
/// Returns how many bytes of `input` that accounts for, or `None` where the
/// input ended inside a character and nothing is left to decode.
pub fn push_repaired(out: &mut Vec<u8>, input: &[u8], e: InvalidUtf8) -> (consumed: Option<usize>)
    requires
        e.valid_up_to <= input@.len(),
        e.error_len matches Some(n) ==> e.valid_up_to + n <= input@.len(),
    ensures
        final(out)@ == old(out)@ + input@.subrange(0, e.valid_up_to as int) + replacement_bytes(),
        consumed == match e.error_len {
            Some(n) => Some((e.valid_up_to + n) as usize),
            None => None::<usize>,
        },
{
    let valid = slice_subrange(input, 0, e.valid_up_to);
    out.extend_from_slice(valid);
    out.push(0xEF);
    out.push(0xBF);
    out.push(0xBD);
    match e.error_len {
        Some(n) => {
            assert(e.valid_up_to + n <= input.len());
            Some(e.valid_up_to + n)
        },
        None => None,
    }
}

/// Decodes `v` lossily into a buffer of valid UTF-8.
pub fn decode_lossy(v: &[u8]) -> (out: Vec<u8>)
    ensures
        out@ == lossy_bytes(v@),
        valid_utf8(out@),
{
    let mut out: Vec<u8> = Vec::new();
    let mut pos: usize = 0;
    proof {
        assert(v@.subrange(0, v@.len() as int) =~= v@);
    }
    loop
        invariant_except_break
            pos <= v@.len(),
            out@ + lossy_bytes(v@.subrange(pos as int, v@.len() as int)) == lossy_bytes(v@),
        ensures
            out@ == lossy_bytes(v@),
        decreases v@.len() - pos,
    {
        let rest = slice_subrange(v, pos, v.len());
        match validate(rest) {
            Ok(_) => {
                out.extend_from_slice(rest);
                break ;
            },
            Err(e) => {
                match push_repaired(&mut out, rest, e) {
                    Some(consumed) => {
                        proof {
                            assert(rest@.subrange(consumed as int, rest@.len() as int)
                                =~= v@.subrange(pos + consumed, v@.len() as int));
                        }
                        pos = pos + consumed;
                    },
                    None => {
                        break ;
                    },
                }
            },
        }
    }
    proof {
        lemma_lossy_bytes_valid(v@);
    }
    out
}

} // verus!
