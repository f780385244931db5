//! The predefined validity checkers.
//!
//! Standard implementations of [`FloatChecker`]: one that rejects only NaN,
//! and one that also rejects the infinities. External code may supply its
//! own checker and obtains a fully functional wrapper type for free; the
//! proof obligation [`FloatChecker::nan_rejected`] keeps every such checker
//! honest about NaN.

use vstd::prelude::*;

use crate::bits;
use crate::bits::{spec_is_finite, spec_is_infinite, spec_is_nan};
use crate::FloatChecker;

verus! {

/// A checker that considers every bit pattern valid except NaN: values may
/// be infinite, but never NaN.
#[derive(Clone, Copy, PartialEq, Eq)]
pub struct NanChecker;

impl FloatChecker for NanChecker {
    open spec fn valid(bits: u64) -> bool {
        !spec_is_nan(bits)
    }

    proof fn nan_rejected(bits: u64) {
    }

    fn check(bits: u64) -> (r: bool) {
        !bits::is_nan(bits)
    }
}

/// A checker that considers exactly the finite bit patterns valid: both NaN
/// and the infinities are rejected.
#[derive(Clone, Copy, PartialEq, Eq)]
pub struct FiniteChecker;

impl FloatChecker for FiniteChecker {
    open spec fn valid(bits: u64) -> bool {
        spec_is_finite(bits)
    }

    proof fn nan_rejected(bits: u64) {
    }

    fn check(bits: u64) -> (r: bool) {
        bits::is_finite(bits)
    }
}

/// Law: how the two checkers close over an arithmetic result. A native
/// operation hands back some pattern `b`; re-validation under the
/// finite-only checker stops every infinite and every NaN pattern (division
/// by zero can never produce a live finite-checked value), while the
/// NaN-only checker admits every pattern that is not NaN — in particular an
/// infinity, such as the quotient of a nonzero value and zero.
pub proof fn lemma_checker_closure(b: u64)
    ensures
        spec_is_infinite(b) ==> !FiniteChecker::valid(b),
        spec_is_nan(b) ==> !FiniteChecker::valid(b),
        spec_is_infinite(b) ==> NanChecker::valid(b),
        NanChecker::valid(b) <==> !spec_is_nan(b),
        FiniteChecker::valid(b) <==> spec_is_finite(b),
{
}

} // verus!
