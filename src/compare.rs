//! Equality and order between owned values, views and plain text, in every
//! direction. Each one compares the texts, so all of them agree.
use vstd::prelude::*;
use core::cmp::Ordering;
use vstd::std_specs::cmp::{PartialEqSpecImpl, PartialOrdSpecImpl};
use crate::order::{compare_text, text_cmp, text_eq};
use crate::pair::{Borrowed, Owned};
use crate::traits::NewTypeRef;

verus! {

impl<T: NewTypeRef> Eq for Owned<T> {

}

impl<'a, T: NewTypeRef> Eq for Borrowed<'a, T> {

}

impl<T: NewTypeRef> PartialEq for Owned<T> {
    fn eq(&self, other: &Owned<T>) -> (r: bool) {
        text_eq(self.as_str(), other.as_str())
    }
}

impl<T: NewTypeRef> PartialEqSpecImpl for Owned<T> {
    open spec fn obeys_eq_spec() -> bool {
        true
    }

    open spec fn eq_spec(&self, other: &Owned<T>) -> bool {
        self@ == other@
    }
}

impl<T: NewTypeRef> PartialOrd for Owned<T> {
    fn partial_cmp(&self, other: &Owned<T>) -> (r: Option<Ordering>) {
        Some(compare_text(self.as_str(), other.as_str()))
    }
}

impl<T: NewTypeRef> PartialOrdSpecImpl for Owned<T> {
    open spec fn obeys_partial_cmp_spec() -> bool {
        true
    }

    open spec fn partial_cmp_spec(&self, other: &Owned<T>) -> Option<Ordering> {
        Some(text_cmp(self@, other@))
    }
}

impl<'a, T: NewTypeRef> PartialEq<Borrowed<'a, T>> for Owned<T> {
    fn eq(&self, other: &Borrowed<'a, T>) -> (r: bool) {
        text_eq(self.as_str(), other.as_str())
    }
}

impl<'a, T: NewTypeRef> PartialEqSpecImpl<Borrowed<'a, T>> for Owned<T> {
    open spec fn obeys_eq_spec() -> bool {
        true
    }

    open spec fn eq_spec(&self, other: &Borrowed<'a, T>) -> bool {
        self@ == other@
    }
}

impl<'a, T: NewTypeRef> PartialOrd<Borrowed<'a, T>> for Owned<T> {
    fn partial_cmp(&self, other: &Borrowed<'a, T>) -> (r: Option<Ordering>) {
        Some(compare_text(self.as_str(), other.as_str()))
    }
}

impl<'a, T: NewTypeRef> PartialOrdSpecImpl<Borrowed<'a, T>> for Owned<T> {
    open spec fn obeys_partial_cmp_spec() -> bool {
        true
    }

    open spec fn partial_cmp_spec(&self, other: &Borrowed<'a, T>) -> Option<Ordering> {
        Some(text_cmp(self@, other@))
    }
}

impl<'a, T: NewTypeRef> PartialEq<Owned<T>> for Borrowed<'a, T> {
    fn eq(&self, other: &Owned<T>) -> (r: bool) {
        text_eq(self.as_str(), other.as_str())
    }
}

impl<'a, T: NewTypeRef> PartialEqSpecImpl<Owned<T>> for Borrowed<'a, T> {
    open spec fn obeys_eq_spec() -> bool {
        true
    }

    open spec fn eq_spec(&self, other: &Owned<T>) -> bool {
        self@ == other@
    }
}

impl<'a, T: NewTypeRef> PartialOrd<Owned<T>> for Borrowed<'a, T> {
    fn partial_cmp(&self, other: &Owned<T>) -> (r: Option<Ordering>) {
        Some(compare_text(self.as_str(), other.as_str()))
    }
}

impl<'a, T: NewTypeRef> PartialOrdSpecImpl<Owned<T>> for Borrowed<'a, T> {
    open spec fn obeys_partial_cmp_spec() -> bool {
        true
    }

    open spec fn partial_cmp_spec(&self, other: &Owned<T>) -> Option<Ordering> {
        Some(text_cmp(self@, other@))
    }
}

impl<'a, T: NewTypeRef> PartialEq for Borrowed<'a, T> {
    fn eq(&self, other: &Borrowed<'a, T>) -> (r: bool) {
        text_eq(self.as_str(), other.as_str())
    }
}

impl<'a, T: NewTypeRef> PartialEqSpecImpl for Borrowed<'a, T> {
    open spec fn obeys_eq_spec() -> bool {
        true
    }

    open spec fn eq_spec(&self, other: &Borrowed<'a, T>) -> bool {
        self@ == other@
    }
}

impl<'a, T: NewTypeRef> PartialOrd for Borrowed<'a, T> {
    fn partial_cmp(&self, other: &Borrowed<'a, T>) -> (r: Option<Ordering>) {
        Some(compare_text(self.as_str(), other.as_str()))
    }
}

impl<'a, T: NewTypeRef> PartialOrdSpecImpl for Borrowed<'a, T> {
    open spec fn obeys_partial_cmp_spec() -> bool {
        true
    }

    open spec fn partial_cmp_spec(&self, other: &Borrowed<'a, T>) -> Option<Ordering> {
        Some(text_cmp(self@, other@))
    }
}

impl<T: NewTypeRef> PartialEq<str> for Owned<T> {
    fn eq(&self, other: &str) -> (r: bool) {
        text_eq(self.as_str(), other)
    }
}

impl<T: NewTypeRef> PartialEqSpecImpl<str> for Owned<T> {
    open spec fn obeys_eq_spec() -> bool {
        true
    }

    open spec fn eq_spec(&self, other: &str) -> bool {
        self@ == other@
    }
}

impl<T: NewTypeRef> PartialOrd<str> for Owned<T> {
    fn partial_cmp(&self, other: &str) -> (r: Option<Ordering>) {
        Some(compare_text(self.as_str(), other))
    }
}

impl<T: NewTypeRef> PartialOrdSpecImpl<str> for Owned<T> {
    open spec fn obeys_partial_cmp_spec() -> bool {
        true
    }

    open spec fn partial_cmp_spec(&self, other: &str) -> Option<Ordering> {
        Some(text_cmp(self@, other@))
    }
}

impl<'b, T: NewTypeRef> PartialEq<&'b str> for Owned<T> {
    fn eq(&self, other: &&'b str) -> (r: bool) {
        text_eq(self.as_str(), *other)
    }
}

impl<'b, T: NewTypeRef> PartialEqSpecImpl<&'b str> for Owned<T> {
    open spec fn obeys_eq_spec() -> bool {
        true
    }

    open spec fn eq_spec(&self, other: &&'b str) -> bool {
        self@ == (*other)@
    }
}

impl<'b, T: NewTypeRef> PartialOrd<&'b str> for Owned<T> {
    fn partial_cmp(&self, other: &&'b str) -> (r: Option<Ordering>) {
        Some(compare_text(self.as_str(), *other))
    }
}

impl<'b, T: NewTypeRef> PartialOrdSpecImpl<&'b str> for Owned<T> {
    open spec fn obeys_partial_cmp_spec() -> bool {
        true
    }

    open spec fn partial_cmp_spec(&self, other: &&'b str) -> Option<Ordering> {
        Some(text_cmp(self@, (*other)@))
    }
}

impl<T: NewTypeRef> PartialEq<Owned<T>> for str {
    fn eq(&self, other: &Owned<T>) -> (r: bool) {
        text_eq(self, other.as_str())
    }
}

impl<T: NewTypeRef> PartialEqSpecImpl<Owned<T>> for str {
    open spec fn obeys_eq_spec() -> bool {
        true
    }

    open spec fn eq_spec(&self, other: &Owned<T>) -> bool {
        self@ == other@
    }
}

impl<T: NewTypeRef> PartialOrd<Owned<T>> for str {
    fn partial_cmp(&self, other: &Owned<T>) -> (r: Option<Ordering>) {
        Some(compare_text(self, other.as_str()))
    }
}

impl<T: NewTypeRef> PartialOrdSpecImpl<Owned<T>> for str {
    open spec fn obeys_partial_cmp_spec() -> bool {
        true
    }

    open spec fn partial_cmp_spec(&self, other: &Owned<T>) -> Option<Ordering> {
        Some(text_cmp(self@, other@))
    }
}

impl<'b, T: NewTypeRef> PartialEq<Owned<T>> for &'b str {
    fn eq(&self, other: &Owned<T>) -> (r: bool) {
        text_eq(*self, other.as_str())
    }
}

impl<'b, T: NewTypeRef> PartialEqSpecImpl<Owned<T>> for &'b str {
    open spec fn obeys_eq_spec() -> bool {
        true
    }

    open spec fn eq_spec(&self, other: &Owned<T>) -> bool {
        (*self)@ == other@
    }
}

impl<'b, T: NewTypeRef> PartialOrd<Owned<T>> for &'b str {
    fn partial_cmp(&self, other: &Owned<T>) -> (r: Option<Ordering>) {
        Some(compare_text(*self, other.as_str()))
    }
}

impl<'b, T: NewTypeRef> PartialOrdSpecImpl<Owned<T>> for &'b str {
    open spec fn obeys_partial_cmp_spec() -> bool {
        true
    }

    open spec fn partial_cmp_spec(&self, other: &Owned<T>) -> Option<Ordering> {
        Some(text_cmp((*self)@, other@))
    }
}

impl<'a, T: NewTypeRef> PartialEq<str> for Borrowed<'a, T> {
    fn eq(&self, other: &str) -> (r: bool) {
        text_eq(self.as_str(), other)
    }
}

impl<'a, T: NewTypeRef> PartialEqSpecImpl<str> for Borrowed<'a, T> {
    open spec fn obeys_eq_spec() -> bool {
        true
    }

    open spec fn eq_spec(&self, other: &str) -> bool {
        self@ == other@
    }
}

impl<'a, T: NewTypeRef> PartialOrd<str> for Borrowed<'a, T> {
    fn partial_cmp(&self, other: &str) -> (r: Option<Ordering>) {
        Some(compare_text(self.as_str(), other))
    }
}

impl<'a, T: NewTypeRef> PartialOrdSpecImpl<str> for Borrowed<'a, T> {
    open spec fn obeys_partial_cmp_spec() -> bool {
        true
    }

    open spec fn partial_cmp_spec(&self, other: &str) -> Option<Ordering> {
        Some(text_cmp(self@, other@))
    }
}

impl<'a, 'b, T: NewTypeRef> PartialEq<&'b str> for Borrowed<'a, T> {
    fn eq(&self, other: &&'b str) -> (r: bool) {
        text_eq(self.as_str(), *other)
    }
}

impl<'a, 'b, T: NewTypeRef> PartialEqSpecImpl<&'b str> for Borrowed<'a, T> {
    open spec fn obeys_eq_spec() -> bool {
        true
    }

    open spec fn eq_spec(&self, other: &&'b str) -> bool {
        self@ == (*other)@
    }
}

impl<'a, 'b, T: NewTypeRef> PartialOrd<&'b str> for Borrowed<'a, T> {
    fn partial_cmp(&self, other: &&'b str) -> (r: Option<Ordering>) {
        Some(compare_text(self.as_str(), *other))
    }
}

impl<'a, 'b, T: NewTypeRef> PartialOrdSpecImpl<&'b str> for Borrowed<'a, T> {
    open spec fn obeys_partial_cmp_spec() -> bool {
        true
    }

    open spec fn partial_cmp_spec(&self, other: &&'b str) -> Option<Ordering> {
        Some(text_cmp(self@, (*other)@))
    }
}

impl<'a, T: NewTypeRef> PartialEq<Borrowed<'a, T>> for str {
    fn eq(&self, other: &Borrowed<'a, T>) -> (r: bool) {
        text_eq(self, other.as_str())
    }
}

impl<'a, T: NewTypeRef> PartialEqSpecImpl<Borrowed<'a, T>> for str {
    open spec fn obeys_eq_spec() -> bool {
        true
    }

    open spec fn eq_spec(&self, other: &Borrowed<'a, T>) -> bool {
        self@ == other@
    }
}

impl<'a, T: NewTypeRef> PartialOrd<Borrowed<'a, T>> for str {
    fn partial_cmp(&self, other: &Borrowed<'a, T>) -> (r: Option<Ordering>) {
        Some(compare_text(self, other.as_str()))
    }
}

impl<'a, T: NewTypeRef> PartialOrdSpecImpl<Borrowed<'a, T>> for str {
    open spec fn obeys_partial_cmp_spec() -> bool {
        true
    }

    open spec fn partial_cmp_spec(&self, other: &Borrowed<'a, T>) -> Option<Ordering> {
        Some(text_cmp(self@, other@))
    }
}

impl<'b, 'a, T: NewTypeRef> PartialEq<Borrowed<'a, T>> for &'b str {
    fn eq(&self, other: &Borrowed<'a, T>) -> (r: bool) {
        text_eq(*self, other.as_str())
    }
}

impl<'b, 'a, T: NewTypeRef> PartialEqSpecImpl<Borrowed<'a, T>> for &'b str {
    open spec fn obeys_eq_spec() -> bool {
        true
    }

    open spec fn eq_spec(&self, other: &Borrowed<'a, T>) -> bool {
        (*self)@ == other@
    }
}

impl<'b, 'a, T: NewTypeRef> PartialOrd<Borrowed<'a, T>> for &'b str {
    fn partial_cmp(&self, other: &Borrowed<'a, T>) -> (r: Option<Ordering>) {
        Some(compare_text(*self, other.as_str()))
    }
}

impl<'b, 'a, T: NewTypeRef> PartialOrdSpecImpl<Borrowed<'a, T>> for &'b str {
    open spec fn obeys_partial_cmp_spec() -> bool {
        true
    }

    open spec fn partial_cmp_spec(&self, other: &Borrowed<'a, T>) -> Option<Ordering> {
        Some(text_cmp((*self)@, other@))
    }
}

} // verus!
