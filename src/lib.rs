//! Validated string new types that come in pairs: an owned value and a
//! borrowed view over existing text, both checked by one validation rule.
//!
//! A rule ([`NewTypeRef`]) decides which texts are valid. [`Owned`] keeps a
//! valid text in storage of its own; [`Borrowed`] refers to a valid text held
//! elsewhere and copies nothing. The two convert into each other, compare
//! with each other and with plain text in every direction, and encode on the
//! wire as the bare text.
pub mod traits;
pub mod inline;
pub mod order;
pub mod pair;
pub mod compare;
pub mod rules;
pub mod laws;
pub mod wire;

pub use traits::{NewTypeRef, RawStorage};
pub use pair::{Owned, Borrowed};
pub use rules::{
    AnyText, ArrStrWrap, ArrStrWrapRef, EmptyStringError, InlineNonEmpty, LengthError, NonEmpty, ShortId,
    ShortIdRef, ShortIdRule, StrWrap, StrWrapRef,
};
pub use wire::{serialize_text, WireError};
