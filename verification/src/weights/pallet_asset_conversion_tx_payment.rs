//! Weights of paying transaction fees in an asset, as benchmarked for the
//! asset hub of Kusama.

use crate::weight::{saturate, RuntimeDbWeight, Weight};
use vstd::prelude::*;

verus! {

/// Weight functions of fee payment in an asset, for a database with the given costs.
#[derive(Clone, Copy, Debug)]
pub struct WeightInfo {
    /// What one read and one write of the database cost.
    pub db_weight: RuntimeDbWeight,
}

impl WeightInfo {
    /// The weight functions for a database with the given costs.
    pub fn new(db_weight: RuntimeDbWeight) -> (info: WeightInfo)
        ensures
            info.db_weight == db_weight,
    {
        WeightInfo { db_weight }
    }

    /// A transaction that pays no fee.
    pub fn charge_asset_tx_payment_zero() -> (w: Weight)
        ensures
            w == (Weight { ref_time: 10_000_000, proof_size: 0 }),
    {
        Weight::from_parts(10_000_000, 0)
            .saturating_add(Weight::from_parts(0, 0))
    }

    /// A transaction that pays its fee in the native asset. Two reads: the fee
    /// multiplier and the account.
    pub fn charge_asset_tx_payment_native(&self) -> (w: Weight)
        ensures
            w.ref_time == saturate(212_000_000 + 2 * self.db_weight.read),
            w.proof_size == 3593,
    {
        Weight::from_parts(212_000_000, 0)
            .saturating_add(Weight::from_parts(0, 3593))
            .saturating_add(self.db_weight.reads(2))
    }

    /// A transaction that pays its fee in another asset. Six reads and four
    /// writes: the fee multiplier, the asset, and the accounts on both sides.
    pub fn charge_asset_tx_payment_asset(&self) -> (w: Weight)
        ensures
            w.ref_time == saturate(
                1_268_000_000 + 6 * self.db_weight.read + 4 * self.db_weight.write,
            ),
            w.proof_size == 7404,
    {
        Weight::from_parts(1_268_000_000, 0)
            .saturating_add(Weight::from_parts(0, 7404))
            .saturating_add(self.db_weight.reads(6))
            .saturating_add(self.db_weight.writes(4))
    }
}

} // verus!
