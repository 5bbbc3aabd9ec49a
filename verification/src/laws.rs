//! What holds of the text types whatever the input.

use crate::order::{lemma_text_order_swap, text_order, turned};
use crate::small_string::SmallString;
use crate::stack_cow::StackCow;
use crate::stack_string::StackString;
use crate::utf8::{
    lemma_lossy_bytes_valid, lemma_split_text, lemma_valid_up_to_is_longest, lossy_bytes,
    lossy_text, utf8_error_len, valid_up_to, InvalidUtf8,
};
use core::cmp::Ordering;
use vstd::prelude::*;
use vstd::std_specs::cmp::{PartialEqSpec, PartialOrdSpec};
use vstd::string::*;
use vstd::utf8::*;

verus! {

/// Valid UTF-8 survives the trip through a `SmallString`: whatever
/// `from_utf8` makes of valid bytes `b`, `as_str` reads the text of `b` back
/// from it.
pub proof fn law_round_trip<const CAP: usize>(
    b: &[u8],
    made: Result<SmallString<CAP>, InvalidUtf8>,
    read: &str,
)
    requires
        valid_utf8(b@),
        call_ensures(SmallString::<CAP>::from_utf8, (b,), made),
        made matches Ok(t) ==> call_ensures(SmallString::<CAP>::as_str, (&t,), read),
    ensures
        made is Ok,
        read@ == decode_utf8(b@),
{
}

/// The same trip through a `StackString`.
pub proof fn law_round_trip_stack(b: &[u8], made: Result<StackString, InvalidUtf8>, read: &str)
    requires
        valid_utf8(b@),
        call_ensures(StackString::from_utf8, (b,), made),
        made matches Ok(t) ==> call_ensures(StackString::as_str, (&t,), read),
    ensures
        made is Ok,
        read@ == decode_utf8(b@),
{
}

/// Lossy decoding leaves valid input as it is.
pub proof fn law_lossy_keeps_valid_text(b: Seq<u8>)
    requires
        valid_utf8(b),
    ensures
        lossy_text(b) == decode_utf8(b),
{
}

/// Lossy decoding repairs once and for all: its result is valid UTF-8, and
/// decoding it again changes nothing.
pub proof fn law_lossy_is_idempotent(b: Seq<u8>)
    ensures
        valid_utf8(lossy_bytes(b)),
        lossy_bytes(lossy_bytes(b)) == lossy_bytes(b),
        encode_utf8(lossy_text(b)) == lossy_bytes(b),
{
    lemma_lossy_bytes_valid(b);
    decode_utf8_encode_utf8(lossy_bytes(b));
}

/// Lossy decoding makes at most three bytes of one: each invalid sequence
/// has at least one byte and becomes the three bytes of one replacement
/// character.
pub proof fn law_lossy_length_at_most_threefold(b: Seq<u8>)
    ensures
        lossy_bytes(b).len() <= 3 * b.len(),
    decreases b.len(),
{
    if !valid_utf8(b) {
        let k = valid_up_to(b) as int;
        lemma_valid_up_to_is_longest(b);
        assert(k < b.len()) by {
            if k == b.len() {
                assert(b.subrange(0, k) =~= b);
            }
        }
        match utf8_error_len(b) {
            Some(n) => {
                if 1 <= n && k + n <= b.len() {
                    law_lossy_length_at_most_threefold(b.subrange(k + n, b.len() as int));
                }
            },
            None => {},
        }
    }
}

/// A value made of a string slice equals that slice, and equals the owned
/// string that it turns into, whether it came out inline or on the heap.
pub proof fn law_representation_transparency<const CAP: usize>(
    s: &str,
    made: SmallString<CAP>,
    owned: String,
)
    requires
        call_ensures(SmallString::<CAP>::from_str_slice, (s,), made),
        call_ensures(SmallString::<CAP>::into_string, (made,), owned),
    ensures
        made.eq_spec(s),
        made.eq_spec(&owned),
{
}

/// Text of exactly `CAP` bytes is made inline, text of one byte more on the
/// heap.
pub proof fn law_capacity_boundary<const CAP: usize>(s: &str, made: SmallString<CAP>)
    requires
        call_ensures(SmallString::<CAP>::from_str_slice, (s,), made),
    ensures
        s.spec_bytes().len() == CAP ==> made is Inline,
        s.spec_bytes().len() == CAP + 1 ==> made is Boxed,
{
}

/// Splitting is exact to the byte: whatever `split_off` makes of a value at
/// a character boundary, the value keeps the bytes before the index, the
/// result holds the bytes from the index on, together they are the text
/// that was there, and a value on the heap stays on the heap.
pub proof fn law_split_off_is_exact<const CAP: usize>(
    s: &mut SmallString<CAP>,
    index: usize,
    tail: SmallString<CAP>,
)
    requires
        is_char_boundary(s.spec_bytes(), index as int),
        call_ensures(SmallString::<CAP>::split_off, (s, index), tail),
    ensures
        index <= old(s).spec_bytes().len(),
        final(s).spec_bytes() == old(s).spec_bytes().subrange(0, index as int),
        tail.spec_bytes() == old(s).spec_bytes().subrange(
            index as int,
            old(s).spec_bytes().len() as int,
        ),
        final(s)@ + tail@ == old(s)@,
        *old(s) is Boxed ==> *final(s) is Boxed,
        tail is Inline <==> tail.spec_bytes().len() <= CAP,
{
    lemma_split_text(s@, index as int);
}

/// An inline value's text fits the capacity.
pub proof fn law_inline_fits<const CAP: usize>(t: SmallString<CAP>)
    requires
        t.wf(),
    ensures
        t is Inline ==> t.spec_bytes().len() <= CAP,
        valid_utf8(t.spec_bytes()),
{
    encode_utf8_valid_utf8(t@);
    match t {
        SmallString::Inline(a) => a.lemma_fits(),
        SmallString::Boxed(_) => {},
    }
}

/// Equality and order go by the text alone, and swapping the two sides
/// keeps equality and turns the order around.
pub proof fn law_comparison_by_text<const CAP: usize>(a: SmallString<CAP>, b: SmallString<CAP>)
    ensures
        a.eq_spec(&b) <==> a@ == b@,
        a.eq_spec(&b) == b.eq_spec(&a),
        a.partial_cmp_spec(&b) == Some(text_order(a@, b@)),
        b.partial_cmp_spec(&a) == Some(turned(text_order(a@, b@))),
{
    lemma_text_order_swap(a@, b@);
}

/// The same of borrowed and owned text: a borrowed value equals an owned one
/// with the same text, from either side.
pub proof fn law_cow_comparison_by_text(a: StackCow<'_>, b: StackCow<'_>)
    ensures
        a.eq_spec(&b) <==> a@ == b@,
        a.eq_spec(&b) == b.eq_spec(&a),
        a.partial_cmp_spec(&b) == Some(text_order(a@, b@)),
        b.partial_cmp_spec(&a) == Some(turned(text_order(a@, b@))),
{
    lemma_text_order_swap(a@, b@);
}

/// The total order is the order of the texts: `cmp` agrees with
/// `partial_cmp`, and swapping the two sides turns it around.
pub proof fn law_cmp_agrees<const CAP: usize>(
    a: SmallString<CAP>,
    b: SmallString<CAP>,
    total: Ordering,
    partial: Option<Ordering>,
    back: Ordering,
)
    requires
        call_ensures(Ord::cmp, (&a, &b), total),
        call_ensures(PartialOrd::partial_cmp, (&a, &b), partial),
        call_ensures(Ord::cmp, (&b, &a), back),
    ensures
        total == text_order(a@, b@),
        partial == Some(total),
        back == turned(total),
{
    lemma_text_order_swap(a@, b@);
}

/// The same of borrowed and owned text.
pub proof fn law_cow_cmp_agrees(
    a: StackCow<'_>,
    b: StackCow<'_>,
    total: Ordering,
    partial: Option<Ordering>,
    back: Ordering,
)
    requires
        call_ensures(Ord::cmp, (&a, &b), total),
        call_ensures(PartialOrd::partial_cmp, (&a, &b), partial),
        call_ensures(Ord::cmp, (&b, &a), back),
    ensures
        total == text_order(a@, b@),
        partial == Some(total),
        back == turned(total),
{
    lemma_text_order_swap(a@, b@);
}

/// Owning twice is owning once.
pub proof fn law_into_owned_idempotent(
    c: StackCow<'_>,
    once: StackCow<'static>,
    twice: StackCow<'static>,
)
    requires
        call_ensures(StackCow::into_owned, (c,), once),
        call_ensures(StackCow::into_owned, (once,), twice),
    ensures
        once is Owned,
        once@ == c@,
        twice == once,
{
}

/// An owned copy holds the text of its source, and a copy of the copy is
/// again owned text of the same content.
pub proof fn law_to_owned_keeps_text(c: StackCow<'_>, copy: StackCow<'static>)
    requires
        call_ensures(StackCow::to_owned, (&c,), copy),
    ensures
        copy is Owned,
        copy@ == c@,
{
}

} // verus!
