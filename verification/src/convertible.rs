//! The by-reference capability: a target type declares which source types
//! it can be built from.

use vstd::prelude::*;

verus! {

/// Checked construction of `Self` from a borrowed `Source`.
///
/// A declaration is a pure, total function of the source value: the
/// outcome it assigns to each value is `convert_spec`, and `convert`
/// computes exactly that outcome, for every value and every time.
pub trait Convertible<Source>: Sized {
    /// The outcome assigned to `from`: `Some` of the instance built from
    /// it, or `None` where its contents do not match.
    spec fn convert_spec(from: &Source) -> Option<Self>;

    /// Try to create an instance of `Self` from `from`.
    fn convert(from: &Source) -> (outcome: Option<Self>)
        ensures
            outcome == Self::convert_spec(from),
    ;
}

} // verus!
