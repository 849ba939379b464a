//! Checked conversions between types, declared by the target type and
//! reached from any value through the `Raw` mixin.

pub mod coercible;
pub mod convertible;
pub mod laws;
pub mod ordinal;
pub mod raw;

pub use crate::coercible::Coercible;
pub use crate::convertible::Convertible;
pub use crate::raw::Raw;
