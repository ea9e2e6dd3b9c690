use vstd::prelude::*;
use core::marker::PhantomData;
use vstd::utf8::encode_utf8;
use crate::traits::{NewTypeRef, RawStorage};

verus! {

/// An owned value whose text satisfies the rule `T`.
///
/// It can only be made by validation, or by copying a view, which is valid
/// already; it is never changed afterwards.
#[derive(Debug, Hash, Ord)]
pub struct Owned<T: NewTypeRef> {
    inner: T::Inner,
}

/// A view over text owned elsewhere that satisfies the rule `T`.
///
/// It holds a reference to that text and nothing more: making one copies
/// nothing, and it cannot outlive the text.
#[derive(Debug, Hash, Ord)]
pub struct Borrowed<'a, T: NewTypeRef> {
    inner: &'a str,
    rule: PhantomData<T>,
}

impl<'a, T: NewTypeRef> Clone for Borrowed<'a, T> {
    fn clone(&self) -> (r: Self)
        ensures
            r == *self,
    {
        proof {
            use_type_invariant(self);
        }
        Borrowed { inner: self.inner, rule: PhantomData }
    }
}

impl<'a, T: NewTypeRef> Copy for Borrowed<'a, T> {

}

impl<T: NewTypeRef> Clone for Owned<T> {
    fn clone(&self) -> (r: Self)
        ensures
            r@ == self@,
    {
        self.as_ref().to_owned()
    }
}

impl<'a, T: NewTypeRef> From<Borrowed<'a, T>> for Owned<T> {
    fn from(view: Borrowed<'a, T>) -> (r: Owned<T>)
        ensures
            r@ == view@,
    {
        view.to_owned()
    }
}

// The copy lives in new storage, which no spec function names: what `from`
// gives is stated in its own `ensures`, which `into` passes on.
impl<'a, T: NewTypeRef> vstd::std_specs::convert::FromSpecImpl<Borrowed<'a, T>> for Owned<T> {
    open spec fn obeys_from_spec() -> bool {
        false
    }

    open spec fn from_spec(view: Borrowed<'a, T>) -> Owned<T> {
        vstd::pervasive::arbitrary()
    }
}

impl<T: NewTypeRef> View for Owned<T> {
    type V = Seq<char>;

    closed spec fn view(&self) -> Seq<char> {
        self.inner.chars()
    }
}

impl<'a, T: NewTypeRef> View for Borrowed<'a, T> {
    type V = Seq<char>;

    closed spec fn view(&self) -> Seq<char> {
        self.inner@
    }
}

impl<T: NewTypeRef> Owned<T> {
    #[verifier::type_invariant]
    closed spec fn inv(self) -> bool {
        T::accepts(self.inner.chars())
    }

    /// Wraps `value` if the rule accepts it; otherwise reports the rule's
    /// error and drops `value`.
    pub fn try_from(value: T::Inner) -> (r: Result<Self, T::ValidationError>)
        ensures
            r is Ok <==> T::accepts(value.chars()),
            r matches Ok(o) ==> o@ == value.chars(),
            r matches Err(e) ==> e == T::rejection(value.chars()),
    {
        T::validate(value.raw_str())?;
        Ok(Owned { inner: value })
    }

    /// A view of this value's text, without validating it again.
    pub fn as_ref(&self) -> (r: Borrowed<'_, T>)
        ensures
            r@ == self@,
            T::accepts(r@),
    {
        proof {
            use_type_invariant(self);
        }
        Borrowed { inner: self.inner.raw_str(), rule: PhantomData }
    }

    /// This value's text.
    pub fn as_str(&self) -> (r: &str)
        ensures
            r@ == self@,
            T::accepts(r@),
    {
        proof {
            use_type_invariant(self);
        }
        self.inner.raw_str()
    }

    /// Gives up the wrapper and returns the stored text.
    pub fn into_inner(self) -> (r: T::Inner)
        ensures
            r.chars() == self@,
            T::accepts(r.chars()),
    {
        proof {
            use_type_invariant(&self);
        }
        self.inner
    }
}

impl<'a, T: NewTypeRef> Borrowed<'a, T> {
    #[verifier::type_invariant]
    closed spec fn inv(self) -> bool {
        T::accepts(self.inner@)
    }

    /// A view of `value` if the rule accepts it; the text is not copied.
    pub fn try_as_ref(value: &'a str) -> (r: Result<Self, T::ValidationError>)
        ensures
            r is Ok <==> T::accepts(value@),
            r matches Ok(b) ==> b@ == value@,
            r matches Err(e) ==> e == T::rejection(value@),
    {
        T::validate(value)?;
        Ok(Borrowed { inner: value, rule: PhantomData })
    }

    /// The text this view refers to.
    pub fn as_str(&self) -> (r: &'a str)
        ensures
            r@ == self@,
            T::accepts(r@),
    {
        proof {
            use_type_invariant(self);
        }
        self.inner
    }

    /// The number of bytes of the text in UTF-8.
    pub fn len(&self) -> (r: usize)
        ensures
            r == encode_utf8(self@).len(),
    {
        self.inner.as_bytes().len()
    }

    /// Copies the text into a new owned value. The text is valid already, so
    /// this cannot fail.
    pub fn to_owned(&self) -> (r: Owned<T>)
        ensures
            r@ == self@,
    {
        proof {
            use_type_invariant(self);
            T::lemma_accepted_fits(self.inner@);
        }
        let inner = T::Inner::store(self.inner).unwrap();
        Owned { inner }
    }
}

} // verus!
