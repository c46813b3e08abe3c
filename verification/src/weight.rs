//! Two-dimensional weights: computation time and proof size, both saturating.

use vstd::prelude::*;

verus! {

/// The value of `x` brought into the range of `u64`.
pub open spec fn saturate(x: int) -> u64 {
    if x > u64::MAX {
        u64::MAX
    } else if x < 0 {
        0
    } else {
        x as u64
    }
}

/// What an operation costs: time on reference hardware, in picoseconds, and
/// the size of the storage proof, in bytes.
#[derive(Clone, Copy, Debug, PartialEq, Eq, Structural)]
pub struct Weight {
    /// Computation time, in picoseconds on reference hardware.
    pub ref_time: u64,
    /// Size of the storage proof, in bytes.
    pub proof_size: u64,
}

impl Weight {
    /// The weight with the given parts.
    pub fn from_parts(ref_time: u64, proof_size: u64) -> (w: Weight)
        ensures
            w == (Weight { ref_time, proof_size }),
    {
        Weight { ref_time, proof_size }
    }

    /// The weight that costs nothing.
    pub fn zero() -> (w: Weight)
        ensures
            w == (Weight { ref_time: 0, proof_size: 0 }),
    {
        Weight { ref_time: 0, proof_size: 0 }
    }

    /// The time part.
    pub fn ref_time(&self) -> (t: u64)
        ensures
            t == self.ref_time,
    {
        self.ref_time
    }

    /// The proof size part.
    pub fn proof_size(&self) -> (p: u64)
        ensures
            p == self.proof_size,
    {
        self.proof_size
    }

    /// The sum of two weights, part by part.
    pub open spec fn spec_saturating_add(self, rhs: Weight) -> Weight {
        Weight {
            ref_time: saturate(self.ref_time + rhs.ref_time),
            proof_size: saturate(self.proof_size + rhs.proof_size),
        }
    }

    /// A weight taken `scalar` times, part by part.
    pub open spec fn spec_saturating_mul(self, scalar: u64) -> Weight {
        Weight {
            ref_time: saturate(self.ref_time * scalar),
            proof_size: saturate(self.proof_size * scalar),
        }
    }

    /// Adds `rhs` part by part; a part that would pass `u64::MAX` stays there.
    pub fn saturating_add(self, rhs: Weight) -> (w: Weight)
        ensures
            w == self.spec_saturating_add(rhs),
    {
        Weight {
            ref_time: self.ref_time.saturating_add(rhs.ref_time),
            proof_size: self.proof_size.saturating_add(rhs.proof_size),
        }
    }

    /// Multiplies each part by `scalar`; a part that would pass `u64::MAX` stays there.
    pub fn saturating_mul(self, scalar: u64) -> (w: Weight)
        ensures
            w == self.spec_saturating_mul(scalar),
    {
        Weight {
            ref_time: saturating_mul_u64(self.ref_time, scalar),
            proof_size: saturating_mul_u64(self.proof_size, scalar),
        }
    }
}

/// The product of `x` and `y`, or `u64::MAX` where it does not fit.
pub fn saturating_mul_u64(x: u64, y: u64) -> (p: u64)
    ensures
        p == saturate(x * y),
{
    assert(0 <= x * y) by (nonlinear_arith)
        requires
            0 <= x,
            0 <= y,
    ;
    match x.checked_mul(y) {
        Some(p) => p,
        None => u64::MAX,
    }
}

/// What one read and one write of the database cost, as time.
#[derive(Clone, Copy, Debug, PartialEq, Eq, Structural)]
pub struct RuntimeDbWeight {
    /// Time of one read.
    pub read: u64,
    /// Time of one write.
    pub write: u64,
}

impl RuntimeDbWeight {
    /// The weight of `r` reads.
    pub open spec fn spec_reads(self, r: u64) -> Weight {
        Weight { ref_time: saturate(self.read * r), proof_size: 0 }
    }

    /// The weight of `w` writes.
    pub open spec fn spec_writes(self, w: u64) -> Weight {
        Weight { ref_time: saturate(self.write * w), proof_size: 0 }
    }

    /// The weight of `r` reads: time only.
    pub fn reads(self, r: u64) -> (w: Weight)
        ensures
            w == self.spec_reads(r),
    {
        Weight::from_parts(saturating_mul_u64(self.read, r), 0)
    }

    /// The weight of `w` writes: time only.
    pub fn writes(self, w: u64) -> (weight: Weight)
        ensures
            weight == self.spec_writes(w),
    {
        Weight::from_parts(saturating_mul_u64(self.write, w), 0)
    }
}

} // verus!
