//! What holds of every declared conversion, whatever the types.
//!
//! Each law is stated over the outcome that a declaration assigns to a
//! value, `convert_spec` or `coerce_spec`, which is what `to` and `coerce`
//! return.

use vstd::prelude::*;
use crate::coercible::{coercion_outcome, Coercible};
use crate::convertible::Convertible;

verus! {

/// `to` is deterministic: two conversions of an unchanged value to the same
/// target type have the same outcome, both `None` or both `Some` of equal
/// instances.
pub proof fn lemma_to_deterministic<A, C: Convertible<A>>(
    a: A,
    again: A,
    first: Option<C>,
    second: Option<C>,
)
    requires
        again == a,
        first == C::convert_spec(&a),
        second == C::convert_spec(&again),
    ensures
        first == second,
{
}

/// A declaration admits one outcome for each value: whatever `convert`
/// may return for `a`, it is the outcome that the declaration assigns.
pub proof fn lemma_convert_deterministic<A, C: Convertible<A>>(
    a: A,
    first: Option<C>,
    second: Option<C>,
)
    requires
        call_ensures(C::convert, (&a,), first),
        call_ensures(C::convert, (&a,), second),
    ensures
        first == second,
        first == C::convert_spec(&a),
{
}

/// `coerce` returns the built instance or the input: the outcome is `Ok`
/// exactly where the declaration builds an instance, and it then holds
/// that instance; everywhere else it is `Err` of the value passed in,
/// unchanged.
pub proof fn lemma_coerce_returns_instance_or_input<A, C: Coercible<A>>(a: A, outcome: Result<C, A>)
    requires
        outcome == coercion_outcome(C::coerce_spec(a), a),
    ensures
        outcome is Ok <==> C::coerce_spec(a) is Some,
        outcome matches Ok(built) ==> C::coerce_spec(a) == Some(built),
        outcome matches Err(back) ==> back == a,
        outcome is Ok || outcome == Err::<C, A>(a),
{
}

/// A declared coercion never loses its input: whatever `coerce` may
/// return for `a`, an `Err` holds `a` itself.
pub proof fn lemma_coercion_keeps_input<A, C: Coercible<A>>(a: A, outcome: Result<C, A>)
    requires
        call_ensures(C::coerce, (a,), outcome),
    ensures
        outcome matches Err(back) ==> back == a,
        outcome == coercion_outcome(C::coerce_spec(a), a),
{
}

/// A failed coercion leaves nothing behind: the value that comes back can
/// be coerced again, and fails again in the same way.
pub proof fn lemma_failed_coercion_repeats<A, C: Coercible<A>>(a: A, back: A)
    requires
        coercion_outcome(C::coerce_spec(a), a) == Err::<C, A>(back),
    ensures
        back == a,
        coercion_outcome(C::coerce_spec(back), back) == Err::<C, A>(back),
{
}

/// Declarations are total: `convert` and `coerce` may be called on every
/// value of the source type, and the outcome assigned to it is one of the
/// two, a built instance or no match.
pub proof fn lemma_conversion_total<A, C: Convertible<A>>(a: A)
    ensures
        call_requires(C::convert, (&a,)),
        C::convert_spec(&a) is Some || C::convert_spec(&a) is None,
{
}

/// The by-value counterpart of `lemma_conversion_total`.
pub proof fn lemma_coercion_total<A, C: Coercible<A>>(a: A)
    ensures
        call_requires(C::coerce, (a,)),
        coercion_outcome(C::coerce_spec(a), a) is Ok
            || coercion_outcome(C::coerce_spec(a), a) is Err,
{
}

} // verus!
