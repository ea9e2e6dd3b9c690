//! Encoding of owned values and views on the wire: as the bare string, in
//! bincode's format. Decoding validates again.
use vstd::prelude::*;
use vstd::utf8::encode_utf8;
use crate::pair::{Borrowed, Owned};
use crate::traits::NewTypeRef;

verus! {

#[verifier::external_type_specification]
#[verifier::external_body]
pub struct ExBincodeErrorKind(bincode::ErrorKind);

/// The eight bytes of `n`, least significant first.
pub open spec fn le_bytes(n: u64) -> Seq<u8> {
    seq![
        (n & 0xff) as u8,
        ((n >> 8) & 0xff) as u8,
        ((n >> 16) & 0xff) as u8,
        ((n >> 24) & 0xff) as u8,
        ((n >> 32) & 0xff) as u8,
        ((n >> 40) & 0xff) as u8,
        ((n >> 48) & 0xff) as u8,
        ((n >> 56) & 0xff) as u8,
    ]
}

/// A text on the wire: the number of its UTF-8 bytes in eight little-endian
/// bytes, then those bytes.
pub open spec fn string_frame(text: Seq<char>) -> Seq<u8> {
    le_bytes(encode_utf8(text).len() as u64) + encode_utf8(text)
}

/// Relies on `bincode::serialize` on a `str`: its default format writes the
/// byte length as a little-endian `u64`, then the bytes; with no size limit
/// and a `Vec` to write to, it does not fail.
#[verifier::external_body]
fn encode_str(text: &str) -> (r: Result<Vec<u8>, Box<bincode::ErrorKind>>)
    ensures
        r is Ok,
        r matches Ok(bytes) ==> bytes@ == string_frame(text@),
{
    bincode::serialize(text)
}

/// Relies on `bincode::deserialize` into a `&str`: it reads a little-endian
/// `u64` length, then borrows that many bytes of the input if they are UTF-8;
/// bytes after them are left unread.
#[verifier::external_body]
fn decode_str<'a>(bytes: &'a [u8]) -> (r: Result<&'a str, Box<bincode::ErrorKind>>)
    ensures
        r is Ok <==> framed(bytes@),
        r matches Ok(v) ==> forall|text: Seq<char>, rest: Seq<u8>|
            bytes@ == #[trigger] (string_frame(text) + rest) ==> v@ == text,
{
    bincode::deserialize(bytes)
}

/// Why decoding failed.
#[derive(Debug, PartialEq, Eq)]
pub enum WireError<E> {
    /// The bytes do not start with a framed string.
    Malformed,
    /// The string was decoded, and the rule rejected it.
    Invalid(E),
}

/// Whether `bytes` start with the frame of some text.
pub open spec fn framed(bytes: Seq<u8>) -> bool {
    exists|text: Seq<char>, rest: Seq<u8>| bytes == #[trigger] (string_frame(text) + rest)
}

/// Encodes plain text on the wire.
pub fn serialize_text(text: &str) -> (r: Vec<u8>)
    ensures
        r@ == string_frame(text@),
{
    match encode_str(text) {
        Ok(bytes) => bytes,
        Err(_) => vstd::pervasive::unreached(),
    }
}

/// Decodes the text at the start of `bytes` and views it with the rule `T`,
/// without copying it.
fn decode_view<'a, T: NewTypeRef>(bytes: &'a [u8]) -> (r: Result<
    Borrowed<'a, T>,
    WireError<T::ValidationError>,
>)
    ensures
        r is Err && r->Err_0 is Malformed <==> !framed(bytes@),
        forall|text: Seq<char>, rest: Seq<u8>|
            bytes@ == #[trigger] (string_frame(text) + rest) ==> (if T::accepts(text) {
                r matches Ok(v) && v@ == text
            } else {
                r == Err::<Borrowed<'a, T>, _>(WireError::Invalid(T::rejection(text)))
            }),
{
    match decode_str(bytes) {
        Ok(text) => match Borrowed::<'a, T>::try_as_ref(text) {
            Ok(view) => Ok(view),
            Err(e) => Err(WireError::Invalid(e)),
        },
        Err(_) => Err(WireError::Malformed),
    }
}

impl<T: NewTypeRef> Owned<T> {
    /// Encodes this value on the wire, as its bare text.
    pub fn serialize(&self) -> (r: Vec<u8>)
        ensures
            r@ == string_frame(self@),
    {
        serialize_text(self.as_str())
    }

    /// Decodes an owned value from the text at the start of `bytes`,
    /// validating it.
    pub fn deserialize(bytes: &[u8]) -> (r: Result<Self, WireError<T::ValidationError>>)
        ensures
            r is Err && r->Err_0 is Malformed <==> !framed(bytes@),
            forall|text: Seq<char>, rest: Seq<u8>|
                bytes@ == #[trigger] (string_frame(text) + rest) ==> (if T::accepts(text) {
                    r matches Ok(v) && v@ == text
                } else {
                    r == Err::<Self, _>(WireError::Invalid(T::rejection(text)))
                }),
    {
        match decode_view::<T>(bytes) {
            Ok(view) => Ok(view.to_owned()),
            Err(e) => Err(e),
        }
    }
}

impl<'a, T: NewTypeRef> Borrowed<'a, T> {
    /// Encodes this view on the wire, as its bare text.
    pub fn serialize(&self) -> (r: Vec<u8>)
        ensures
            r@ == string_frame(self@),
    {
        serialize_text(self.as_str())
    }

    /// Decodes the text at the start of `bytes` and views it in place,
    /// validating it. The view borrows from `bytes`.
    pub fn deserialize(bytes: &'a [u8]) -> (r: Result<Self, WireError<T::ValidationError>>)
        ensures
            r is Err && r->Err_0 is Malformed <==> !framed(bytes@),
            forall|text: Seq<char>, rest: Seq<u8>|
                bytes@ == #[trigger] (string_frame(text) + rest) ==> (if T::accepts(text) {
                    r matches Ok(v) && v@ == text
                } else {
                    r == Err::<Self, _>(WireError::Invalid(T::rejection(text)))
                }),
    {
        decode_view::<T>(bytes)
    }
}

} // verus!
