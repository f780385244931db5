//! Validated floating-point values.
//!
//! A [`NoisyFloat`] wraps the bit pattern of one IEEE 754 binary64 value and
//! guarantees, as a verified invariant, that the pattern satisfies a
//! pluggable validity criterion — a [`FloatChecker`]. The checker must
//! reject NaN, and may reject more (the finite-only checker also rejects the
//! infinities), so equality and ordering over live wrappers are total: this
//! is the principal benefit over a bare floating-point value, whose NaN
//! breaks reflexivity and total ordering.
//!
//! The wrapper works on bit patterns ([`bits`] holds the model): a raw
//! pattern enters only through the checked constructor [`NoisyFloat::new`]
//! or the fallible constructor [`NoisyFloat::try_new`], and leaves only
//! through [`NoisyFloat::raw`]. Native arithmetic on the encoded values is
//! outside the verifier's reach; a caller performs an operation natively and
//! hands the resulting pattern back through the same two constructors, so no
//! invalid value can re-enter as a live wrapper.

use vstd::prelude::*;

pub mod bits;
pub mod checkers;
pub mod types;

use crate::bits::{spec_eq, spec_is_nan, spec_is_zero, spec_lt, MAG_MASK, SIGN_MASK};
use vstd::std_specs::cmp::PartialOrdSpec;

verus! {

/// Trait for checking whether a floating-point bit pattern is *valid*.
///
/// The implementation defines its own criterion for what constitutes a valid
/// value. The one hard requirement is that NaN must be considered invalid by
/// every implementation; [`FloatChecker::nan_rejected`] turns that rule into
/// a proof obligation, so no checker can be written that lets NaN through.
pub trait FloatChecker: Sized {
    /// The validity criterion: which bit patterns a wrapper governed by this
    /// checker may hold.
    spec fn valid(bits: u64) -> bool;

    /// Every checker rejects every NaN pattern.
    proof fn nan_rejected(bits: u64)
        ensures
            spec_is_nan(bits) ==> !Self::valid(bits),
    ;

    /// Returns `true` if (and only if) the given bit pattern is valid
    /// according to this checker's criterion.
    fn check(bits: u64) -> (r: bool)
        ensures
            r == Self::valid(bits),
    ;
}

/// A validated floating-point value: the bit pattern of one binary64 value,
/// known to satisfy the checker `C`.
///
/// The checker is carried only at the type level; a wrapper occupies exactly
/// the space of its bit pattern.
#[verifier::reject_recursive_types(C)]
pub struct NoisyFloat<C: FloatChecker> {
    bits: u64,
    checker: core::marker::PhantomData<C>,
}

impl<C: FloatChecker> Clone for NoisyFloat<C> {
    /// A plain copy of the pattern: cloning neither re-validates nor changes
    /// the value.
    fn clone(&self) -> (r: Self)
        ensures
            r == *self,
    {
        *self
    }
}

impl<C: FloatChecker> Copy for NoisyFloat<C> {}

impl<C: FloatChecker> Eq for NoisyFloat<C> {}

impl<C: FloatChecker> View for NoisyFloat<C> {
    type V = u64;

    closed spec fn view(&self) -> u64 {
        self.bits
    }
}

impl<C: FloatChecker> NoisyFloat<C> {
    /// A live wrapper always satisfies its checker.
    pub open spec fn wf(self) -> bool {
        C::valid(self@)
    }

    /// Internal constructor that performs no runtime check: reserved for
    /// call sites that have already established validity, which the verifier
    /// enforces through the precondition.
    fn unchecked_new(bits: u64) -> (r: Self)
        requires
            C::valid(bits),
        ensures
            r@ == bits,
            r.wf(),
    {
        NoisyFloat { bits, checker: core::marker::PhantomData }
    }

    /// Checked constructor: the mandatory on-ramp for call sites that
    /// consider an invalid pattern a programming bug. Verified callers must
    /// establish validity up front; an unverified caller that breaks the
    /// precondition is stopped by the runtime check rather than receiving a
    /// live wrapper around an invalid value.
    pub fn new(bits: u64) -> (r: Self)
        requires
            C::valid(bits),
        ensures
            r@ == bits,
            r.wf(),
    {
        match Self::try_new(bits) {
            Some(v) => v,
            None => vstd::pervasive::unreached(),
        }
    }

    /// Fallible constructor: yields a wrapper exactly when the pattern is
    /// valid, and `None` otherwise — the on-ramp for untrusted input.
    pub fn try_new(bits: u64) -> (r: Option<Self>)
        ensures
            (r is Some) == C::valid(bits),
            r matches Some(q) ==> q@ == bits && q.wf(),
    {
        if C::check(bits) {
            Some(Self::unchecked_new(bits))
        } else {
            None
        }
    }

    /// Unwrap: returns the underlying bit pattern, unchanged and with no
    /// validation — the sanctioned escape hatch back to unconstrained
    /// floating-point space.
    pub fn raw(self) -> (r: u64)
        ensures
            r == self@,
    {
        self.bits
    }

    /// Whether the held value is NaN — provably never, whatever the checker:
    /// the answer is `false` for every live wrapper.
    pub fn is_nan(self) -> (r: bool)
        requires
            self.wf(),
        ensures
            !r,
    {
        proof {
            C::nan_rejected(self@);
        }
        bits::is_nan(self.bits)
    }

    /// Whether the held value is an infinity (possible only under a checker
    /// that admits infinities).
    pub fn is_infinite(self) -> (r: bool)
        ensures
            r == bits::spec_is_infinite(self@),
    {
        bits::is_infinite(self.bits)
    }

    /// Whether the held value is finite.
    pub fn is_finite(self) -> (r: bool)
        ensures
            r == bits::spec_is_finite(self@),
    {
        bits::is_finite(self.bits)
    }

    /// Whether the held value is a zero of either sign.
    pub fn is_zero(self) -> (r: bool)
        ensures
            r == spec_is_zero(self@),
    {
        bits::is_zero(self.bits)
    }

    /// The smaller of two live values; either operand's pattern is returned
    /// unchanged, so no re-validation is needed.
    pub fn min(self, other: Self) -> (r: Self)
        requires
            self.wf(),
            other.wf(),
        ensures
            r.wf(),
            r@ == (if spec_lt(other@, self@) {
                other@
            } else {
                self@
            }),
    {
        if bits::lt_bits(other.bits, self.bits) {
            other
        } else {
            self
        }
    }

    /// The larger of two live values; either operand's pattern is returned
    /// unchanged, so no re-validation is needed.
    pub fn max(self, other: Self) -> (r: Self)
        requires
            self.wf(),
            other.wf(),
        ensures
            r.wf(),
            r@ == (if spec_lt(self@, other@) {
                other@
            } else {
                self@
            }),
    {
        if bits::lt_bits(self.bits, other.bits) {
            other
        } else {
            self
        }
    }

    /// The least of a sequence of live values: `None` exactly when the
    /// sequence is empty, otherwise one of its elements, with no element
    /// strictly below it. Live wrappers admit this because their order is
    /// total; a bare NaN among the values would leave no least element.
    pub fn min_of(values: &Vec<Self>) -> (r: Option<Self>)
        requires
            forall|i: int| 0 <= i < values@.len() ==> values@[i].wf(),
        ensures
            (r is Some) == (values@.len() > 0),
            r matches Some(m) ==> m.wf() && (exists|i: int|
                0 <= i < values@.len() && values@[i] == m) && (forall|i: int|
                0 <= i < values@.len() ==> !spec_lt(values@[i]@, m@)),
    {
        if values.len() == 0 {
            None
        } else {
            let mut best: Self = values[0];
            let mut j: usize = 1;
            while j < values.len()
                invariant
                    1 <= j <= values@.len(),
                    forall|i: int| 0 <= i < values@.len() ==> values@[i].wf(),
                    exists|i: int| 0 <= i < j && values@[i] == best,
                    forall|i: int| 0 <= i < j ==> !spec_lt(values@[i]@, best@),
                decreases values@.len() - j,
            {
                let v = values[j];
                if bits::lt_bits(v.bits, best.bits) {
                    best = v;
                }
                j += 1;
            }
            Some(best)
        }
    }

    /// The greatest of a sequence of live values: the counterpart of
    /// [`NoisyFloat::min_of`].
    pub fn max_of(values: &Vec<Self>) -> (r: Option<Self>)
        requires
            forall|i: int| 0 <= i < values@.len() ==> values@[i].wf(),
        ensures
            (r is Some) == (values@.len() > 0),
            r matches Some(m) ==> m.wf() && (exists|i: int|
                0 <= i < values@.len() && values@[i] == m) && (forall|i: int|
                0 <= i < values@.len() ==> !spec_lt(m@, values@[i]@)),
    {
        if values.len() == 0 {
            None
        } else {
            let mut best: Self = values[0];
            let mut j: usize = 1;
            while j < values.len()
                invariant
                    1 <= j <= values@.len(),
                    forall|i: int| 0 <= i < values@.len() ==> values@[i].wf(),
                    exists|i: int| 0 <= i < j && values@[i] == best,
                    forall|i: int| 0 <= i < j ==> !spec_lt(best@, values@[i]@),
                decreases values@.len() - j,
            {
                let v = values[j];
                if bits::lt_bits(best.bits, v.bits) {
                    best = v;
                }
                j += 1;
            }
            Some(best)
        }
    }

    /// Negation: flipping the sign bit is exactly the native negation of the
    /// encoded value, so the operation is computed here and, like every
    /// arithmetic result, re-validated against the checker.
    pub fn neg(self) -> (r: Self)
        requires
            self.wf(),
            C::valid(self@ ^ SIGN_MASK),
        ensures
            r.wf(),
            r@ == self@ ^ SIGN_MASK,
    {
        Self::new(self.bits ^ SIGN_MASK)
    }

    /// Fallible negation: the counterpart of [`NoisyFloat::neg`] for
    /// checkers that may reject the sign-flipped pattern.
    pub fn try_neg(self) -> (r: Option<Self>)
        requires
            self.wf(),
        ensures
            (r is Some) == C::valid(self@ ^ SIGN_MASK),
            r matches Some(q) ==> q@ == self@ ^ SIGN_MASK && q.wf(),
    {
        Self::try_new(self.bits ^ SIGN_MASK)
    }

    /// Absolute value: clearing the sign bit is exactly the native absolute
    /// value of the encoded value; the result is re-validated against the
    /// checker.
    pub fn abs(self) -> (r: Self)
        requires
            self.wf(),
            C::valid(self@ & MAG_MASK),
        ensures
            r.wf(),
            r@ == self@ & MAG_MASK,
    {
        Self::new(self.bits & MAG_MASK)
    }

    /// Fallible absolute value: the counterpart of [`NoisyFloat::abs`].
    pub fn try_abs(self) -> (r: Option<Self>)
        requires
            self.wf(),
        ensures
            (r is Some) == C::valid(self@ & MAG_MASK),
            r matches Some(q) ==> q@ == self@ & MAG_MASK && q.wf(),
    {
        Self::try_new(self.bits & MAG_MASK)
    }
}

impl<C: FloatChecker> PartialEq for NoisyFloat<C> {
    /// Equality of the encoded values: identical patterns are equal, and so
    /// are the two zeros. Because no live wrapper holds NaN, this equality
    /// is reflexive.
    fn eq(&self, other: &Self) -> (r: bool) {
        bits::eq_bits(self.bits, other.bits)
    }
}

impl<C: FloatChecker> vstd::std_specs::cmp::PartialEqSpecImpl for NoisyFloat<C> {
    open spec fn obeys_eq_spec() -> bool {
        true
    }

    open spec fn eq_spec(&self, other: &Self) -> bool {
        spec_eq(self@, other@)
    }
}

impl<C: FloatChecker> PartialOrd for NoisyFloat<C> {
    /// Ordering of the encoded values. Because no live wrapper holds NaN,
    /// the result is always `Some`: the order over live wrappers is total.
    fn partial_cmp(&self, other: &Self) -> (r: Option<core::cmp::Ordering>) {
        if bits::lt_bits(self.bits, other.bits) {
            Some(core::cmp::Ordering::Less)
        } else if bits::eq_bits(self.bits, other.bits) {
            Some(core::cmp::Ordering::Equal)
        } else {
            Some(core::cmp::Ordering::Greater)
        }
    }
}

impl<C: FloatChecker> vstd::std_specs::cmp::PartialOrdSpecImpl for NoisyFloat<C> {
    open spec fn obeys_partial_cmp_spec() -> bool {
        true
    }

    open spec fn partial_cmp_spec(&self, other: &Self) -> Option<core::cmp::Ordering> {
        if spec_lt(self@, other@) {
            Some(core::cmp::Ordering::Less)
        } else if spec_eq(self@, other@) {
            Some(core::cmp::Ordering::Equal)
        } else {
            Some(core::cmp::Ordering::Greater)
        }
    }
}

/// Law: over live values of one checker, equality is reflexive, symmetric
/// and transitive — in particular no live value is unequal to itself, which
/// a bare NaN would be.
pub proof fn lemma_eq_equivalence<C: FloatChecker>(
    a: NoisyFloat<C>,
    b: NoisyFloat<C>,
    c: NoisyFloat<C>,
)
    requires
        a.wf(),
        b.wf(),
        c.wf(),
    ensures
        spec_eq(a@, a@),
        spec_eq(a@, b@) ==> spec_eq(b@, a@),
        spec_eq(a@, b@) && spec_eq(b@, c@) ==> spec_eq(a@, c@),
{
}

/// Law: over live values, equality agrees with the native equality of the
/// encoded values — two live values are equal exactly when their patterns
/// coincide or both encode a zero.
pub proof fn lemma_eq_matches_native<C: FloatChecker>(a: NoisyFloat<C>, b: NoisyFloat<C>)
    requires
        a.wf(),
        b.wf(),
    ensures
        spec_eq(a@, b@) <==> (a@ == b@ || (spec_is_zero(a@) && spec_is_zero(b@))),
{
    bits::lemma_key_eq(a@, b@);
}

/// Law: over live values of one checker the order is total — exactly one of
/// `a < b`, `a == b`, `b < a` holds, and a comparison never returns `None`.
pub proof fn lemma_cmp_trichotomy<C: FloatChecker>(a: NoisyFloat<C>, b: NoisyFloat<C>)
    requires
        a.wf(),
        b.wf(),
    ensures
        spec_lt(a@, b@) || spec_eq(a@, b@) || spec_lt(b@, a@),
        spec_lt(a@, b@) ==> !(spec_eq(a@, b@) || spec_lt(b@, a@)),
        spec_eq(a@, b@) ==> !(spec_lt(a@, b@) || spec_lt(b@, a@)),
        spec_lt(b@, a@) ==> !(spec_lt(a@, b@) || spec_eq(a@, b@)),
        a.partial_cmp_spec(&b) is Some,
{
}

} // verus!
