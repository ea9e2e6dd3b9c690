//! Ready-made rules, and the new type pairs built on them.
use vstd::prelude::*;
use vstd::utf8::encode_utf8;
use crate::pair::{Borrowed, Owned};
use crate::traits::NewTypeRef;
use crate::inline::INLINE_CAPACITY;
use arrayvec::ArrayString;

verus! {

/// The error of a rule that only refuses empty text.
#[derive(Clone, Copy, Debug, PartialEq, Eq, Structural)]
pub struct EmptyStringError;

impl EmptyStringError {
    /// A description of the error.
    pub fn message(&self) -> (r: &'static str)
        ensures
            r@ == "string must not be empty"@,
    {
        "string must not be empty"
    }
}

/// The error of a rule that bounds the length of non-empty text.
#[derive(Clone, Copy, Debug, PartialEq, Eq, Structural)]
pub enum LengthError {
    /// The text is empty.
    Empty,
    /// The text has more bytes than the bound.
    TooLong,
}

impl LengthError {
    /// A description of the error.
    pub fn message(&self) -> (r: &'static str)
        ensures
            r@ == (match self {
                LengthError::Empty => "Empty string"@,
                LengthError::TooLong => "Too long"@,
            }),
    {
        match self {
            LengthError::Empty => "Empty string",
            LengthError::TooLong => "Too long",
        }
    }
}

/// The rule that accepts every text; its error never occurs.
#[derive(Clone, Copy, Debug, PartialEq, Eq, PartialOrd, Ord, Hash)]
pub struct AnyText;

impl NewTypeRef for AnyText {
    type Inner = String;

    type ValidationError = ();

    open spec fn accepts(text: Seq<char>) -> bool {
        true
    }

    open spec fn rejection(text: Seq<char>) -> () {
        ()
    }

    proof fn lemma_accepted_fits(text: Seq<char>) {
    }

    fn validate(value: &str) -> (r: Result<(), ()>) {
        Ok(())
    }
}

/// The rule that accepts any text but the empty one.
#[derive(Clone, Copy, Debug, PartialEq, Eq, PartialOrd, Ord, Hash)]
pub struct NonEmpty;

impl NewTypeRef for NonEmpty {
    type Inner = String;

    type ValidationError = EmptyStringError;

    open spec fn accepts(text: Seq<char>) -> bool {
        text.len() > 0
    }

    open spec fn rejection(text: Seq<char>) -> EmptyStringError {
        EmptyStringError
    }

    proof fn lemma_accepted_fits(text: Seq<char>) {
    }

    fn validate(value: &str) -> (r: Result<(), EmptyStringError>) {
        if value.is_empty() {
            return Err(EmptyStringError);
        }
        Ok(())
    }
}

/// The largest number of bytes in a short identifier.
pub const SHORT_ID_MAX: usize = 8;

/// Whether text is non-empty and has at most `max` bytes in UTF-8.
pub open spec fn bounded_nonempty(text: Seq<char>, max: nat) -> bool {
    text.len() > 0 && encode_utf8(text).len() <= max
}

/// The error for text that is empty or has more than `max` bytes.
pub open spec fn length_rejection(text: Seq<char>) -> LengthError {
    if text.len() == 0 {
        LengthError::Empty
    } else {
        LengthError::TooLong
    }
}

/// Checks that `value` is non-empty and has at most `max` bytes.
pub fn check_length(value: &str, max: usize) -> (r: Result<(), LengthError>)
    ensures
        r == (if bounded_nonempty(value@, max as nat) {
            Ok(())
        } else {
            Err(length_rejection(value@))
        }),
{
    if value.is_empty() {
        return Err(LengthError::Empty);
    }
    if value.as_bytes().len() > max {
        return Err(LengthError::TooLong);
    }
    Ok(())
}

/// The rule of short identifiers: non-empty, at most eight bytes.
#[derive(Clone, Copy, Debug, PartialEq, Eq, PartialOrd, Ord, Hash)]
pub struct ShortIdRule;

impl NewTypeRef for ShortIdRule {
    type Inner = String;

    type ValidationError = LengthError;

    open spec fn accepts(text: Seq<char>) -> bool {
        bounded_nonempty(text, SHORT_ID_MAX as nat)
    }

    open spec fn rejection(text: Seq<char>) -> LengthError {
        length_rejection(text)
    }

    proof fn lemma_accepted_fits(text: Seq<char>) {
    }

    fn validate(value: &str) -> (r: Result<(), LengthError>) {
        check_length(value, SHORT_ID_MAX)
    }
}

/// The rule of non-empty text that fits in an inline buffer of sixteen bytes.
#[derive(Clone, Copy, Debug, PartialEq, Eq, PartialOrd, Ord, Hash)]
pub struct InlineNonEmpty;

impl NewTypeRef for InlineNonEmpty {
    type Inner = ArrayString<16>;

    type ValidationError = LengthError;

    open spec fn accepts(text: Seq<char>) -> bool {
        bounded_nonempty(text, INLINE_CAPACITY as nat)
    }

    open spec fn rejection(text: Seq<char>) -> LengthError {
        length_rejection(text)
    }

    proof fn lemma_accepted_fits(text: Seq<char>) {
    }

    fn validate(value: &str) -> (r: Result<(), LengthError>) {
        check_length(value, INLINE_CAPACITY)
    }
}

/// An owned non-empty string.
pub type StrWrap = Owned<NonEmpty>;

/// A view of a non-empty string.
pub type StrWrapRef<'a> = Borrowed<'a, NonEmpty>;

/// An owned non-empty string of at most sixteen bytes, kept inline.
pub type ArrStrWrap = Owned<InlineNonEmpty>;

/// A view of a non-empty string of at most sixteen bytes.
pub type ArrStrWrapRef<'a> = Borrowed<'a, InlineNonEmpty>;

/// An owned short identifier.
pub type ShortId = Owned<ShortIdRule>;

/// A view of a short identifier.
pub type ShortIdRef<'a> = Borrowed<'a, ShortIdRule>;

} // verus!
