//! Logic of the system runtimes of Polkadot and Kusama.
//!
//! - [`location`]: hierarchical addresses, compared and matched by structure.
//! - [`reserves`]: from the location of a foreign asset to its reserves, by
//!   an ordered table of rules in which the first match wins.
//! - [`asset_hub_kusama`], [`asset_hub_polkadot`]: the rules of the two asset
//!   hubs.
//! - [`mapping`]: the persisted reserves of the assets, as a value.
//! - [`migration`]: bringing persisted reserves into agreement with the
//!   rules, and checking that agreement.
//! - [`weight`], [`weights`]: the weights of dispatchable calls.
//! - [`genesis_config_presets`]: the values of the genesis presets of the
//!   bridge hub of Kusama.

pub mod asset_hub_kusama;
pub mod asset_hub_polkadot;
pub mod genesis_config_presets;
pub mod location;
pub mod mapping;
pub mod migration;
pub mod reserves;
pub mod weight;
pub mod weights;
