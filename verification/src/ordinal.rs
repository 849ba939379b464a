//! A small declared conversion: names to ordinals.

use vstd::prelude::*;
use vstd::string::StringSliceAdditionalSpecFns;
use vstd::utf8::encode_utf8_decode_utf8;
use crate::coercible::Coercible;
use crate::convertible::Convertible;

verus! {

/// A value known only by its name.
#[derive(Clone, Copy, Debug, PartialEq, Eq)]
pub struct Label {
    pub name: &'static str,
}

/// A place among the first three.
#[derive(Clone, Copy, Debug, PartialEq, Eq)]
pub enum Ordinal {
    First,
    Second,
    Third,
}

/// The ordinal that a name spells out, if it spells one.
pub open spec fn ordinal_named(name: Seq<char>) -> Option<Ordinal> {
    if name == "first"@ {
        Some(Ordinal::First)
    } else if name == "second"@ {
        Some(Ordinal::Second)
    } else if name == "third"@ {
        Some(Ordinal::Third)
    } else {
        None
    }
}

/// Whether two string slices hold the same text.
pub fn same_text(left: &str, right: &str) -> (same: bool)
    ensures
        same == (left@ == right@),
{
    let left_bytes = left.as_bytes();
    let right_bytes = right.as_bytes();
    if left_bytes.len() != right_bytes.len() {
        return false;
    }
    let mut at: usize = 0;
    while at < left_bytes.len()
        invariant
            at <= left_bytes.len(),
            left_bytes.len() == right_bytes.len(),
            left_bytes@ == left.spec_bytes(),
            right_bytes@ == right.spec_bytes(),
            forall|i: int| 0 <= i < at ==> left_bytes@[i] == right_bytes@[i],
        decreases left_bytes.len() - at,
    {
        if left_bytes[at] != right_bytes[at] {
            return false;
        }
        at += 1;
    }
    proof {
        assert(left_bytes@ =~= right_bytes@);
        encode_utf8_decode_utf8(left@);
        encode_utf8_decode_utf8(right@);
    }
    true
}

impl Convertible<Label> for Ordinal {
    open spec fn convert_spec(from: &Label) -> Option<Ordinal> {
        ordinal_named(from.name@)
    }

    fn convert(from: &Label) -> (outcome: Option<Ordinal>) {
        if same_text(from.name, "first") {
            Some(Ordinal::First)
        } else if same_text(from.name, "second") {
            Some(Ordinal::Second)
        } else if same_text(from.name, "third") {
            Some(Ordinal::Third)
        } else {
            None
        }
    }
}

impl Coercible<Label> for Ordinal {
    open spec fn coerce_spec(from: Label) -> Option<Ordinal> {
        ordinal_named(from.name@)
    }

    fn coerce(from: Label) -> (outcome: Result<Ordinal, Label>) {
        match Ordinal::convert(&from) {
            Some(ordinal) => Ok(ordinal),
            None => Err(from),
        }
    }
}

} // verus!
