//! The by-value capability: a target type declares which source types it
//! can take ownership of and be built from.

use vstd::prelude::*;

verus! {

/// What a coercion hands back: the constructed instance where the
/// declaration builds one, the untouched source value where it does not.
pub open spec fn coercion_outcome<Source, Target>(built: Option<Target>, from: Source) -> Result<
    Target,
    Source,
> {
    match built {
        Some(target) => Ok(target),
        None => Err(from),
    }
}

/// Checked conversion of an owned `Source` into `Self`.
///
/// Like `Convertible`, except that the source value is consumed. A
/// declaration never loses it: where no instance is built, the caller
/// gets the very value it passed in.
pub trait Coercible<Source>: Sized {
    /// The instance built from `from`, or `None` where its contents do
    /// not match.
    spec fn coerce_spec(from: Source) -> Option<Self>;

    /// Try to convert `from` into an instance of `Self`, giving `from`
    /// back inside `Err` where that fails.
    fn coerce(from: Source) -> (outcome: Result<Self, Source>)
        ensures
            outcome == coercion_outcome(Self::coerce_spec(from), from),
    ;
}

} // verus!
