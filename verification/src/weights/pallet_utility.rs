//! Weights of the calls of the utility pallet, as benchmarked for the people
//! chain of Polkadot. None of them reads or writes the database.

use crate::weight::Weight;
use vstd::prelude::*;

verus! {

/// Weight functions of the utility pallet.
#[derive(Clone, Copy, Debug)]
pub struct WeightInfo;

impl WeightInfo {
    /// A batch of `c` calls that stops at the first failure. `c` is at most 1000
    /// in practice.
    pub fn batch(c: u32) -> (w: Weight)
        ensures
            w.ref_time == 12_728_325 + 3_433_886 * c,
            w.proof_size == 0,
    {
        Weight::from_parts(12_728_325, 0)
            .saturating_add(Weight::from_parts(0, 0))
            .saturating_add(Weight::from_parts(3_433_886, 0).saturating_mul(c as u64))
    }

    /// A call dispatched from an account derived from the caller.
    pub fn as_derivative() -> (w: Weight)
        ensures
            w == (Weight { ref_time: 5_730_000, proof_size: 0 }),
    {
        Weight::from_parts(5_730_000, 0)
            .saturating_add(Weight::from_parts(0, 0))
    }

    /// A batch of `c` calls of which all succeed or none takes effect. `c` is at
    /// most 1000 in practice.
    pub fn batch_all(c: u32) -> (w: Weight)
        ensures
            w.ref_time == 10_116_801 + 3_678_676 * c,
            w.proof_size == 0,
    {
        Weight::from_parts(10_116_801, 0)
            .saturating_add(Weight::from_parts(0, 0))
            .saturating_add(Weight::from_parts(3_678_676, 0).saturating_mul(c as u64))
    }

    /// A call dispatched with another origin.
    pub fn dispatch_as() -> (w: Weight)
        ensures
            w == (Weight { ref_time: 8_570_000, proof_size: 0 }),
    {
        Weight::from_parts(8_570_000, 0)
            .saturating_add(Weight::from_parts(0, 0))
    }

    /// A batch of `c` calls that goes on after a failure. `c` is at most 1000 in
    /// practice.
    pub fn force_batch(c: u32) -> (w: Weight)
        ensures
            w.ref_time == 10_154_269 + 3_404_459 * c,
            w.proof_size == 0,
    {
        Weight::from_parts(10_154_269, 0)
            .saturating_add(Weight::from_parts(0, 0))
            .saturating_add(Weight::from_parts(3_404_459, 0).saturating_mul(c as u64))
    }

    /// A call dispatched with another origin, whose failure is reported.
    pub fn dispatch_as_fallible() -> (w: Weight)
        ensures
            w == (Weight { ref_time: 8_580_000, proof_size: 0 }),
    {
        Weight::from_parts(8_580_000, 0)
            .saturating_add(Weight::from_parts(0, 0))
    }

    /// A call with a fallback that is dispatched where the call fails.
    pub fn if_else() -> (w: Weight)
        ensures
            w == (Weight { ref_time: 10_270_000, proof_size: 0 }),
    {
        Weight::from_parts(10_270_000, 0)
            .saturating_add(Weight::from_parts(0, 0))
    }
}

} // verus!
