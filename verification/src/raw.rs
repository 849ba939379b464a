//! The mixin that puts `to` and `coerce` on every value.

use vstd::prelude::*;
use crate::coercible::{coercion_outcome, Coercible};
use crate::convertible::Convertible;

verus! {

/// Mixin for all types: checked conversion of a value into any target type
/// that declares itself convertible or coercible from the value's type.
///
/// Both operations only dispatch on the target type; the outcome is the
/// one that the target's declaration assigns to the value.
pub trait Raw: Sized {
    /// Checked conversion of `self` to a type that is convertible from
    /// `Self`.
    fn to<C: Convertible<Self>>(&self) -> (outcome: Option<C>)
        ensures
            outcome == C::convert_spec(self),
    ;

    /// Checked coercion, which consumes `self`. The value comes back
    /// inside `Err` where the coercion fails.
    fn coerce<C: Coercible<Self>>(self) -> (outcome: Result<C, Self>)
        ensures
            outcome == coercion_outcome(C::coerce_spec(self), self),
    ;
}

impl<T> Raw for T {
    fn to<C: Convertible<T>>(&self) -> (outcome: Option<C>)
        ensures
            outcome == C::convert_spec(self),
    {
        C::convert(self)
    }

    fn coerce<C: Coercible<T>>(self) -> (outcome: Result<C, T>)
        ensures
            outcome == coercion_outcome(C::coerce_spec(self), self),
    {
        C::coerce(self)
    }
}

} // verus!
