//! The resource measure that every estimate is expressed in.
//!
//! A [`Weight`] has two independent dimensions, computation time and proof
//! size. All arithmetic on it clamps at the largest value of a dimension, so
//! that an enormous estimate can never turn into a small one.

use vstd::prelude::*;

verus! {

/// The product `a * m`, clamped to the largest `u64`.
pub open spec fn sat_mul(a: u64, m: u64) -> u64 {
    if a * m > u64::MAX {
        u64::MAX
    } else {
        (a * m) as u64
    }
}

/// The smaller of two numbers.
pub open spec fn min_u64(a: u64, b: u64) -> u64 {
    if a <= b {
        a
    } else {
        b
    }
}

/// Multiplies two numbers, clamping the product to the largest `u64`.
pub fn saturating_mul_u64(a: u64, m: u64) -> (r: u64)
    ensures
        r == sat_mul(a, m),
{
    match a.checked_mul(m) {
        Some(p) => p,
        None => u64::MAX,
    }
}

/// A resource cost in two dimensions.
#[derive(Clone, Copy, Debug, PartialEq, Eq, Structural)]
pub struct Weight {
    /// Computation time, in picoseconds of reference hardware.
    pub ref_time: u64,
    /// Bytes of storage proof.
    pub proof_size: u64,
}

impl Weight {
    /// The largest weight: both dimensions at their maximum.
    pub open spec fn spec_max() -> Weight {
        Weight { ref_time: u64::MAX, proof_size: u64::MAX }
    }

    /// The weight with both dimensions zero.
    pub open spec fn spec_zero() -> Weight {
        Weight { ref_time: 0, proof_size: 0 }
    }

    /// `self` scaled by `m` in each dimension, clamped per dimension.
    pub open spec fn scaled(self, m: u64) -> Weight {
        Weight {
            ref_time: sat_mul(self.ref_time, m),
            proof_size: sat_mul(self.proof_size, m),
        }
    }

    /// The smaller of `self` and `other`, taken dimension by dimension.
    pub open spec fn meet(self, other: Weight) -> Weight {
        Weight {
            ref_time: min_u64(self.ref_time, other.ref_time),
            proof_size: min_u64(self.proof_size, other.proof_size),
        }
    }

    /// `self` is no larger than `other` in either dimension.
    pub open spec fn le(self, other: Weight) -> bool {
        self.ref_time <= other.ref_time && self.proof_size <= other.proof_size
    }

    /// A weight from its two dimensions.
    pub fn from_parts(ref_time: u64, proof_size: u64) -> (w: Weight)
        ensures
            w == (Weight { ref_time, proof_size }),
    {
        Weight { ref_time, proof_size }
    }

    /// The weight with both dimensions zero.
    pub fn zero() -> (w: Weight)
        ensures
            w == Weight::spec_zero(),
    {
        Weight { ref_time: 0, proof_size: 0 }
    }

    /// The largest weight. An estimate of this size exceeds every real limit
    /// and so amounts to a refusal.
    pub fn max_value() -> (w: Weight)
        ensures
            w == Weight::spec_max(),
    {
        Weight { ref_time: u64::MAX, proof_size: u64::MAX }
    }

    /// The computation-time dimension.
    pub fn ref_time(&self) -> (t: u64)
        ensures
            t == self.ref_time,
    {
        self.ref_time
    }

    /// The proof-size dimension.
    pub fn proof_size(&self) -> (s: u64)
        ensures
            s == self.proof_size,
    {
        self.proof_size
    }

    /// Scales both dimensions by `scalar`, each clamped at its maximum.
    pub fn saturating_mul(self, scalar: u64) -> (w: Weight)
        ensures
            w == self.scaled(scalar),
    {
        Weight {
            ref_time: saturating_mul_u64(self.ref_time, scalar),
            proof_size: saturating_mul_u64(self.proof_size, scalar),
        }
    }

    /// The smaller of the two weights, dimension by dimension.
    pub fn min(&self, other: Weight) -> (w: Weight)
        ensures
            w == self.meet(other),
    {
        Weight {
            ref_time: if self.ref_time <= other.ref_time {
                self.ref_time
            } else {
                other.ref_time
            },
            proof_size: if self.proof_size <= other.proof_size {
                self.proof_size
            } else {
                other.proof_size
            },
        }
    }

    /// Whether `self` is no larger than `other` in either dimension.
    pub fn all_lte(&self, other: Weight) -> (b: bool)
        ensures
            b == self.le(other),
    {
        self.ref_time <= other.ref_time && self.proof_size <= other.proof_size
    }
}

/// A clamped product is the true product where that fits and the largest
/// `u64` where it does not; by zero it is zero, and by one it is unchanged.
pub proof fn lemma_sat_mul_exact(a: u64, m: u64)
    ensures
        a * m <= u64::MAX ==> sat_mul(a, m) == a * m,
        a * m > u64::MAX ==> sat_mul(a, m) == u64::MAX,
        m == 0 ==> sat_mul(a, m) == 0,
        m == 1 ==> sat_mul(a, m) == a,
{
    assert(m == 0 ==> a * m == 0) by (nonlinear_arith);
    assert(m == 1 ==> a * m == a) by (nonlinear_arith);
}

/// Clamped multiplication grows with its multiplier.
pub proof fn lemma_sat_mul_monotone(a: u64, m1: u64, m2: u64)
    requires
        m1 <= m2,
    ensures
        sat_mul(a, m1) <= sat_mul(a, m2),
{
    assert(a * m1 <= a * m2) by (nonlinear_arith)
        requires
            m1 <= m2,
    ;
}

/// Scaling by a larger multiplier never gives a smaller weight.
pub proof fn lemma_scaled_monotone(base: Weight, m1: u64, m2: u64)
    requires
        m1 <= m2,
    ensures
        base.scaled(m1).le(base.scaled(m2)),
{
    lemma_sat_mul_monotone(base.ref_time, m1, m2);
    lemma_sat_mul_monotone(base.proof_size, m1, m2);
}

/// A dimension whose true product is beyond the largest `u64` comes out as
/// exactly the largest `u64`, never wrapped around; where both are beyond it
/// the result is the largest weight. A dimension whose product fits is exact.
pub proof fn lemma_scaled_saturates(base: Weight, m: u64)
    ensures
        base.ref_time * m > u64::MAX ==> base.scaled(m).ref_time == u64::MAX,
        base.proof_size * m > u64::MAX ==> base.scaled(m).proof_size == u64::MAX,
        base.ref_time * m > u64::MAX && base.proof_size * m > u64::MAX ==> base.scaled(m)
            == Weight::spec_max(),
        base.ref_time * m <= u64::MAX ==> base.scaled(m).ref_time == base.ref_time * m,
        base.proof_size * m <= u64::MAX ==> base.scaled(m).proof_size == base.proof_size * m,
{
}

/// Scaling the largest weight by anything but zero leaves it the largest.
pub proof fn lemma_max_absorbs(m: u64)
    requires
        m >= 1,
    ensures
        Weight::spec_max().scaled(m) == Weight::spec_max(),
{
    assert(u64::MAX * m >= u64::MAX) by (nonlinear_arith)
        requires
            m >= 1,
    ;
}

} // verus!
