//! The order of errors, which is the order of their numbers.

use core::cmp::Ordering;
use vstd::std_specs::cmp::PartialOrdSpec;
use vstd::prelude::*;
use crate::error::Error;

verus! {

impl PartialOrd for Error {
    fn partial_cmp(&self, other: &Error) -> (r: Option<Ordering>) {
        let a: i32 = self.get();
        let b: i32 = other.get();
        if a < b {
            Some(Ordering::Less)
        } else if a > b {
            Some(Ordering::Greater)
        } else {
            Some(Ordering::Equal)
        }
    }
}

impl vstd::std_specs::cmp::PartialOrdSpecImpl for Error {
    open spec fn obeys_partial_cmp_spec() -> bool {
        true
    }

    open spec fn partial_cmp_spec(&self, other: &Error) -> Option<Ordering> {
        if self@ < other@ {
            Some(Ordering::Less)
        } else if self@ > other@ {
            Some(Ordering::Greater)
        } else {
            Some(Ordering::Equal)
        }
    }
}

/// Errors are ordered as their numbers are: one is less than, equal to or
/// greater than another exactly when its number is.
pub proof fn lemma_order_follows_numbers(a: Error, b: Error)
    ensures
        a.partial_cmp_spec(&b) == Some(Ordering::Less) <==> a@ < b@,
        a.partial_cmp_spec(&b) == Some(Ordering::Equal) <==> a@ == b@,
        a.partial_cmp_spec(&b) == Some(Ordering::Greater) <==> a@ > b@,
        a.partial_cmp_spec(&b) == Some(Ordering::Equal) <==> a == b,
{
    if a@ == b@ {
        crate::error::lemma_view_injective(a, b);
    }
}

} // verus!
