//! What holds between the constructors, conversions and comparisons.
use vstd::prelude::*;
use core::cmp::Ordering;
use vstd::std_specs::cmp::{PartialEqSpec, PartialOrdSpec};
use crate::order::{lemma_text_equal, lemma_text_total_order, text_cmp};
use crate::pair::{Borrowed, Owned};
use crate::traits::{NewTypeRef, RawStorage};
use crate::wire::{serialize_text, string_frame, WireError};

verus! {

/// The owned constructor succeeds on some text exactly when the view
/// constructor succeeds on the same text; where both fail they report the
/// same error, and where both succeed the two values are equal.
pub proof fn lemma_constructors_agree<'a, T: NewTypeRef>(
    raw: T::Inner,
    text: &'a str,
    owned: Result<Owned<T>, T::ValidationError>,
    view: Result<Borrowed<'a, T>, T::ValidationError>,
)
    requires
        text@ == raw.chars(),
        call_ensures(Owned::<T>::try_from, (raw,), owned),
        call_ensures(Borrowed::<'a, T>::try_as_ref, (text,), view),
    ensures
        owned is Ok <==> view is Ok,
        owned is Err ==> owned->Err_0 == view->Err_0,
        owned is Ok ==> owned->Ok_0.eq_spec(&view->Ok_0),
{
}

/// Copying a view into an owned value and viewing that value again gives a
/// view equal to the first.
pub proof fn lemma_view_round_trip<'a, 'b, T: NewTypeRef>(
    view: Borrowed<'a, T>,
    owned: Owned<T>,
    again: Borrowed<'b, T>,
)
    requires
        call_ensures(Borrowed::<'a, T>::to_owned, (&view,), owned),
        call_ensures(Owned::<T>::as_ref, (&owned,), again),
    ensures
        again@ == view@,
        owned.eq_spec(&view),
{
}

/// Wrapping accepted text and unwrapping it again gives the same text back.
pub proof fn lemma_owned_round_trip<T: NewTypeRef>(
    raw: T::Inner,
    owned: Result<Owned<T>, T::ValidationError>,
    back: T::Inner,
)
    requires
        T::accepts(raw.chars()),
        call_ensures(Owned::<T>::try_from, (raw,), owned),
        call_ensures(Owned::<T>::into_inner, (owned->Ok_0,), back),
    ensures
        owned is Ok,
        back.chars() == raw.chars(),
{
}

/// Comparisons between owned values, views and plain text behave as those
/// of the texts: equality is transitive across the forms, and order is a
/// total order that is the order of the texts themselves.
pub proof fn lemma_mixed_forms_ordered<'a, 'b, T: NewTypeRef>(
    a: Owned<T>,
    b: Borrowed<'a, T>,
    c: &'b str,
)
    ensures
        a.eq_spec(&b) && b.eq_spec(&c) ==> a.eq_spec(&c),
        a.partial_cmp_spec(&c) == Some(text_cmp(a@, c@)),
        b.partial_cmp_spec(&a) == Some(text_cmp(b@, a@)),
        a.eq_spec(&b) <==> a.partial_cmp_spec(&b) == Some(Ordering::Equal),
        a.partial_cmp_spec(&b) == Some(Ordering::Less) <==> b.partial_cmp_spec(&a) == Some(
            Ordering::Greater,
        ),
        a.partial_cmp_spec(&b) != Some(Ordering::Greater) && b.partial_cmp_spec(&c) != Some(
            Ordering::Greater,
        ) ==> a.partial_cmp_spec(&c) != Some(Ordering::Greater),
        a.partial_cmp_spec(&b) == Some(Ordering::Less) && b.partial_cmp_spec(&c) != Some(
            Ordering::Greater,
        ) ==> a.partial_cmp_spec(&c) == Some(Ordering::Less),
{
    lemma_text_equal(a@, b@);
    lemma_text_total_order(a@, b@, c@);
}

/// Encoding an owned value and decoding the bytes gives an equal value back;
/// and an owned value is encoded as its bare text is.
pub proof fn lemma_wire_round_trip<'a, T: NewTypeRef>(
    raw: T::Inner,
    text: &'a str,
    owned: Result<Owned<T>, T::ValidationError>,
    bytes: Vec<u8>,
    text_bytes: Vec<u8>,
    input: &'a [u8],
    back: Result<Owned<T>, WireError<T::ValidationError>>,
)
    requires
        T::accepts(raw.chars()),
        text@ == raw.chars(),
        call_ensures(Owned::<T>::try_from, (raw,), owned),
        call_ensures(Owned::<T>::serialize, (&owned->Ok_0,), bytes),
        call_ensures(serialize_text, (text,), text_bytes),
        input@ == bytes@,
        call_ensures(Owned::<T>::deserialize, (input,), back),
    ensures
        bytes@ == text_bytes@,
        back is Ok,
        back->Ok_0.eq_spec(&owned->Ok_0),
{
    assert(input@ == string_frame(raw.chars()) + Seq::<u8>::empty());
}

} // verus!
