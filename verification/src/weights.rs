//! Benchmarked weights of dispatchable calls, one module for each pallet.

pub mod pallet_asset_conversion_tx_payment;
pub mod pallet_multisig;
pub mod pallet_utility;
