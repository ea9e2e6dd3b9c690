use vstd::prelude::*;

verus! {

/// Storage that an owned value keeps its text in: heap-backed or inline.
pub trait RawStorage: Sized {
    /// The characters held.
    spec fn chars(&self) -> Seq<char>;

    /// Whether text with these characters fits in this storage.
    spec fn holds(text: Seq<char>) -> bool;

    /// Copies `text` into new storage, if it fits.
    fn store(text: &str) -> (r: Option<Self>)
        ensures
            r is Some <==> Self::holds(text@),
            r matches Some(v) ==> v.chars() == text@,
    ;

    /// Borrows the text held.
    fn raw_str(&self) -> (r: &str)
        ensures
            r@ == self.chars(),
    ;
}

impl RawStorage for String {
    open spec fn chars(&self) -> Seq<char> {
        self@
    }

    open spec fn holds(text: Seq<char>) -> bool {
        true
    }

    fn store(text: &str) -> (r: Option<String>) {
        Some(text.to_owned())
    }

    fn raw_str(&self) -> (r: &str) {
        self.as_str()
    }
}

/// The validation rule of a new type pair.
///
/// A rule names the storage of its owned form, its error type and the
/// predicate that all of its values satisfy. Validation is a function of the
/// text alone: the same text is always accepted, or always rejected with the
/// same error.
pub trait NewTypeRef {
    /// Where an owned value keeps its text.
    type Inner: RawStorage;

    /// What a rejected text is reported with.
    type ValidationError;

    /// The texts that the rule accepts.
    spec fn accepts(text: Seq<char>) -> bool;

    /// The error that a rejected text is reported with.
    spec fn rejection(text: Seq<char>) -> Self::ValidationError;

    /// Every accepted text fits in the storage of the owned form, so that a
    /// view can always be copied into an owned value.
    proof fn lemma_accepted_fits(text: Seq<char>)
        requires
            Self::accepts(text),
        ensures
            <Self::Inner as RawStorage>::holds(text),
    ;

    /// Decides whether `value` may be wrapped.
    fn validate(value: &str) -> (r: Result<(), Self::ValidationError>)
        ensures
            r == (if Self::accepts(value@) {
                Ok(())
            } else {
                Err(Self::rejection(value@))
            }),
    ;
}

} // verus!
