//! Inline storage: text kept in a fixed buffer of sixteen bytes.
use vstd::prelude::*;
use vstd::utf8::encode_utf8;
use arrayvec::{ArrayString, CapacityError};
use crate::traits::RawStorage;

verus! {

#[verifier::external_type_specification]
#[verifier::external_body]
pub struct ExArrayString<const CAP: usize>(ArrayString<CAP>);

#[verifier::external_type_specification]
#[verifier::external_body]
#[verifier::reject_recursive_types(T)]
pub struct ExCapacityError<T>(CapacityError<T>);

/// The number of bytes an inline buffer holds.
pub const INLINE_CAPACITY: usize = 16;

/// The characters that an inline buffer holds.
pub uninterp spec fn inline_chars(s: ArrayString<16>) -> Seq<char>;

/// Relies on `ArrayString::from`: it copies `text` into a new buffer when its
/// UTF-8 bytes fit in the capacity, and fails otherwise.
#[verifier::external_body]
fn inline_from(text: &str) -> (r: Result<ArrayString<16>, CapacityError<&str>>)
    ensures
        r is Ok <==> encode_utf8(text@).len() <= INLINE_CAPACITY,
        r matches Ok(s) ==> inline_chars(s) == text@,
{
    ArrayString::from(text)
}

/// Relies on `ArrayString::as_str`: the text in the buffer.
#[verifier::external_body]
fn inline_as_str(s: &ArrayString<16>) -> (r: &str)
    ensures
        r@ == inline_chars(*s),
{
    s.as_str()
}

impl RawStorage for ArrayString<16> {
    open spec fn chars(&self) -> Seq<char> {
        inline_chars(*self)
    }

    open spec fn holds(text: Seq<char>) -> bool {
        encode_utf8(text).len() <= INLINE_CAPACITY
    }

    fn store(text: &str) -> (r: Option<ArrayString<16>>) {
        match inline_from(text) {
            Ok(s) => Some(s),
            Err(_) => None,
        }
    }

    fn raw_str(&self) -> (r: &str) {
        inline_as_str(self)
    }
}

} // verus!
