//! Weights of the calls of the multisig pallet, as benchmarked for the relay
//! chain of Kusama.
//!
//! Each weight is a base time, a time for each signatory and for each byte of
//! the call, and the time of the reads and writes of the database. The sum
//! stops at `u64::MAX`.

use crate::weight::{saturate, RuntimeDbWeight, Weight};
use vstd::prelude::*;

verus! {

/// Weight functions of the multisig pallet, for a database with the given costs.
#[derive(Clone, Copy, Debug)]
pub struct WeightInfo {
    /// What one read and one write of the database cost.
    pub db_weight: RuntimeDbWeight,
}

impl WeightInfo {
    /// The weight functions for a database with the given costs.
    pub fn new(db_weight: RuntimeDbWeight) -> (info: WeightInfo)
        ensures
            info.db_weight == db_weight,
    {
        WeightInfo { db_weight }
    }

    /// A call of `z` bytes from a multisig of threshold one; no signatory is
    /// stored. `z` is at most 10000 in practice.
    pub fn as_multi_threshold_1(z: u32) -> (w: Weight)
        ensures
            w.ref_time == 21_025_124 + 534 * z,
            w.proof_size == 0,
    {
        Weight::from_parts(21_025_124, 0)
            .saturating_add(Weight::from_parts(0, 0))
            .saturating_add(Weight::from_parts(534, 0).saturating_mul(z as u64))
    }

    /// The first approval of a call of `z` bytes among `s` signatories, which
    /// opens the multisig operation. One read and one write of the operation.
    pub fn as_multi_create(&self, s: u32, z: u32) -> (w: Weight)
        ensures
            w.ref_time == saturate(
                46_680_198 + 161_467 * s + 2_589 * z + self.db_weight.read
                    + self.db_weight.write,
            ),
            w.proof_size == 6811,
    {
        Weight::from_parts(46_680_198, 0)
            .saturating_add(Weight::from_parts(0, 6811))
            .saturating_add(Weight::from_parts(161_467, 0).saturating_mul(s as u64))
            .saturating_add(Weight::from_parts(2_589, 0).saturating_mul(z as u64))
            .saturating_add(self.db_weight.reads(1))
            .saturating_add(self.db_weight.writes(1))
    }

    /// A further approval of a call of `z` bytes among `s` signatories that does
    /// not yet reach the threshold. One read and one write of the operation.
    pub fn as_multi_approve(&self, s: u32, z: u32) -> (w: Weight)
        ensures
            w.ref_time == saturate(
                22_803_745 + 158_345 * s + 2_935 * z + self.db_weight.read
                    + self.db_weight.write,
            ),
            w.proof_size == 6811,
    {
        Weight::from_parts(22_803_745, 0)
            .saturating_add(Weight::from_parts(0, 6811))
            .saturating_add(Weight::from_parts(158_345, 0).saturating_mul(s as u64))
            .saturating_add(Weight::from_parts(2_935, 0).saturating_mul(z as u64))
            .saturating_add(self.db_weight.reads(1))
            .saturating_add(self.db_weight.writes(1))
    }

    /// The approval of a call of `z` bytes among `s` signatories that reaches the
    /// threshold and dispatches the call. Two reads and two writes: the
    /// operation and the account.
    pub fn as_multi_complete(&self, s: u32, z: u32) -> (w: Weight)
        ensures
            w.ref_time == saturate(
                47_286_700 + 180_249 * s + 2_993 * z + 2 * self.db_weight.read
                    + 2 * self.db_weight.write,
            ),
            w.proof_size == 6811,
    {
        Weight::from_parts(47_286_700, 0)
            .saturating_add(Weight::from_parts(0, 6811))
            .saturating_add(Weight::from_parts(180_249, 0).saturating_mul(s as u64))
            .saturating_add(Weight::from_parts(2_993, 0).saturating_mul(z as u64))
            .saturating_add(self.db_weight.reads(2))
            .saturating_add(self.db_weight.writes(2))
    }

    /// The first approval, by hash only, among `s` signatories. One read and one
    /// write of the operation.
    pub fn approve_as_multi_create(&self, s: u32) -> (w: Weight)
        ensures
            w.ref_time == saturate(
                41_770_858 + 185_445 * s + self.db_weight.read + self.db_weight.write,
            ),
            w.proof_size == 6811,
    {
        Weight::from_parts(41_770_858, 0)
            .saturating_add(Weight::from_parts(0, 6811))
            .saturating_add(Weight::from_parts(185_445, 0).saturating_mul(s as u64))
            .saturating_add(self.db_weight.reads(1))
            .saturating_add(self.db_weight.writes(1))
    }

    /// A further approval, by hash only, among `s` signatories. One read and one
    /// write of the operation.
    pub fn approve_as_multi_approve(&self, s: u32) -> (w: Weight)
        ensures
            w.ref_time == saturate(
                24_835_602 + 137_147 * s + self.db_weight.read + self.db_weight.write,
            ),
            w.proof_size == 6811,
    {
        Weight::from_parts(24_835_602, 0)
            .saturating_add(Weight::from_parts(0, 6811))
            .saturating_add(Weight::from_parts(137_147, 0).saturating_mul(s as u64))
            .saturating_add(self.db_weight.reads(1))
            .saturating_add(self.db_weight.writes(1))
    }

    /// The withdrawal of an operation among `s` signatories. One read and one
    /// write of the operation.
    pub fn cancel_as_multi(&self, s: u32) -> (w: Weight)
        ensures
            w.ref_time == saturate(
                47_074_965 + 104_925 * s + self.db_weight.read + self.db_weight.write,
            ),
            w.proof_size == 6811,
    {
        Weight::from_parts(47_074_965, 0)
            .saturating_add(Weight::from_parts(0, 6811))
            .saturating_add(Weight::from_parts(104_925, 0).saturating_mul(s as u64))
            .saturating_add(self.db_weight.reads(1))
            .saturating_add(self.db_weight.writes(1))
    }

    /// The adjustment of the deposit of an operation among `s` signatories. One
    /// read and one write of the operation.
    pub fn poke_deposit(&self, s: u32) -> (w: Weight)
        ensures
            w.ref_time == saturate(
                39_960_394 + 149_968 * s + self.db_weight.read + self.db_weight.write,
            ),
            w.proof_size == 6811,
    {
        Weight::from_parts(39_960_394, 0)
            .saturating_add(Weight::from_parts(0, 6811))
            .saturating_add(Weight::from_parts(149_968, 0).saturating_mul(s as u64))
            .saturating_add(self.db_weight.reads(1))
            .saturating_add(self.db_weight.writes(1))
    }
}

} // verus!
