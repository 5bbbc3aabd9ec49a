//! Small-string-optimised text.
//!
//! - [`SmallString`] keeps text of up to `CAP` bytes in the value itself and
//!   moves it to the heap once it outgrows that capacity.
//! - [`StackString`] and [`SmartString`] do the same on top of the crates
//!   `compact_str` and `smartstring`.
//! - [`StackCow`] borrows a string slice until it has to own its text.
//!
//! All of them compare, order and hash by their text alone, and all of them
//! decode bytes strictly (`from_utf8`) or lossily (`from_utf8_lossy`). The
//! modules [`utf8`] and [`order`] hold what they share; [`laws`] states what
//! holds of them whatever the input.

pub mod inline_str;
pub mod laws;
pub mod order;
pub mod small_string;
pub mod smart_string;
pub mod stack_cow;
pub mod stack_string;
pub mod utf8;

pub use crate::small_string::SmallString;
pub use crate::smart_string::SmartString;
pub use crate::stack_cow::StackCow;
pub use crate::stack_string::StackString;
use vstd::prelude::*;

verus! {

/// The most bytes that a `StackString` holds in place on a 64-bit target:
/// the size of a `String`.
pub const MAX_INLINE: usize = 24;

#[verifier::external_type_specification]
#[verifier::external_body]
pub struct ExFmtError(core::fmt::Error);

#[verifier::external_type_specification]
#[verifier::external_body]
pub struct ExFormatter<'a>(core::fmt::Formatter<'a>);

/// `Display` of a string slice.
#[verifier::external_body]
pub(crate) fn display_str(s: &str, f: &mut core::fmt::Formatter<'_>) -> core::fmt::Result {
    core::fmt::Display::fmt(s, f)
}

/// `Debug` of a string slice.
#[verifier::external_body]
pub(crate) fn debug_str(s: &str, f: &mut core::fmt::Formatter<'_>) -> core::fmt::Result {
    core::fmt::Debug::fmt(s, f)
}

/// `Hash` of a string slice.
#[verifier::external_body]
pub(crate) fn hash_str<H: core::hash::Hasher>(s: &str, state: &mut H) {
    core::hash::Hash::hash(s, state)
}

} // verus!
