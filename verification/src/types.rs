//! Named aliases over the core wrapper, for ergonomic use.

use vstd::prelude::*;

use crate::bits::{spec_is_finite, spec_is_nan};
use crate::checkers::{FiniteChecker, NanChecker};
use crate::NoisyFloat;

verus! {

/// A binary64 value that is never NaN, but may be infinite.
pub type N64 = NoisyFloat<NanChecker>;

/// A binary64 value that is always finite: never NaN and never infinite.
pub type R64 = NoisyFloat<FiniteChecker>;

/// Shorthand checked constructor for [`N64`].
pub fn n64(bits: u64) -> (r: N64)
    requires
        !spec_is_nan(bits),
    ensures
        r@ == bits,
        r.wf(),
{
    N64::new(bits)
}

/// Shorthand checked constructor for [`R64`].
pub fn r64(bits: u64) -> (r: R64)
    requires
        spec_is_finite(bits),
    ensures
        r@ == bits,
        r.wf(),
{
    R64::new(bits)
}

} // verus!
