//! Reserves of the foreign assets of the asset hub of Kusama.
//!
//! An asset of a sibling parachain has that parachain as its reserve and may
//! be teleported. An asset of the Polkadot ecosystem, or of Ethereum, which is
//! reached over Polkadot, has the asset hub of Polkadot as its reserve and may
//! not be teleported. No other foreign asset is known.

use crate::location::{Junction, Location, LocationView, NetworkId};
use crate::reserves::{
    is_sibling_parachain, lemma_first_match_wins, lemma_no_match_no_reserves,
    lemma_trailing_junctions_keep_prefix, reserve_views, resolve, same_reserves,
    ForeignAssetReserveData, ReserveDataView, Rule, RuleTable, RuleView,
};
use vstd::prelude::*;

verus! {

/// The number of the asset hub among the parachains of Polkadot.
pub const POLKADOT_ASSET_HUB_ID: u32 = 1000;

/// The location of Polkadot, as the asset hub of Kusama sees it.
pub open spec fn spec_dot_location() -> LocationView {
    LocationView { parents: 2, interior: seq![Junction::GlobalConsensus(NetworkId::Polkadot)] }
}

/// The location of the Ethereum main network, as the asset hub of Kusama sees it.
pub open spec fn spec_ethereum_ecosystem() -> LocationView {
    LocationView {
        parents: 2,
        interior: seq![Junction::GlobalConsensus(NetworkId::Ethereum { chain_id: 1 })],
    }
}

/// The location of the asset hub of Polkadot, as the asset hub of Kusama sees it.
pub open spec fn spec_asset_hub_polkadot() -> LocationView {
    LocationView {
        parents: 2,
        interior: seq![
            Junction::GlobalConsensus(NetworkId::Polkadot),
            Junction::Parachain(POLKADOT_ASSET_HUB_ID),
        ],
    }
}

/// The location of Polkadot, as the asset hub of Kusama sees it.
pub fn dot_location() -> (location: Location)
    ensures
        location@ == spec_dot_location(),
{
    let location = Location::new(2, vec![Junction::GlobalConsensus(NetworkId::Polkadot)]);
    assert(location@.interior =~= spec_dot_location().interior);
    location
}

/// The location of the Ethereum main network, as the asset hub of Kusama sees it.
pub fn ethereum_ecosystem() -> (location: Location)
    ensures
        location@ == spec_ethereum_ecosystem(),
{
    let location = Location::new(
        2,
        vec![Junction::GlobalConsensus(NetworkId::Ethereum { chain_id: 1 })],
    );
    assert(location@.interior =~= spec_ethereum_ecosystem().interior);
    location
}

/// The location of the asset hub of Polkadot, as the asset hub of Kusama sees it.
pub fn asset_hub_polkadot() -> (location: Location)
    ensures
        location@ == spec_asset_hub_polkadot(),
{
    let location = Location::new(
        2,
        vec![
            Junction::GlobalConsensus(NetworkId::Polkadot),
            Junction::Parachain(POLKADOT_ASSET_HUB_ID),
        ],
    );
    assert(location@.interior =~= spec_asset_hub_polkadot().interior);
    location
}

/// Gives the reserves of the foreign assets of the asset hub of Kusama.
#[derive(Clone, Copy, Debug)]
pub struct AssetHubKusamaForeignAssetsReservesProvider;

impl AssetHubKusamaForeignAssetsReservesProvider {
    /// The rules of this deployment: sibling parachains first, then the
    /// Polkadot ecosystem, then Ethereum.
    pub open spec fn spec_rules() -> Seq<RuleView> {
        seq![
            RuleView::SiblingParachain,
            RuleView::Ecosystem { prefix: spec_dot_location(), reserve: spec_asset_hub_polkadot() },
            RuleView::Ecosystem {
                prefix: spec_ethereum_ecosystem(),
                reserve: spec_asset_hub_polkadot(),
            },
        ]
    }

    /// The reserves of an asset of this deployment, case by case.
    pub open spec fn spec_reserves_for(asset: LocationView) -> Seq<ReserveDataView> {
        if is_sibling_parachain(asset) {
            seq![ReserveDataView { reserve: asset, teleportable: true }]
        } else if asset.starts_with(spec_dot_location()) || asset.starts_with(
            spec_ethereum_ecosystem(),
        ) {
            seq![ReserveDataView { reserve: spec_asset_hub_polkadot(), teleportable: false }]
        } else {
            Seq::empty()
        }
    }

    /// The rules of this deployment give each asset the reserves that
    /// [`Self::spec_reserves_for`] states case by case.
    pub proof fn lemma_rules_resolve(asset: LocationView)
        ensures
            resolve(Self::spec_rules(), asset) == Self::spec_reserves_for(asset),
    {
        let rules = Self::spec_rules();
        if rules[0].matches(asset) {
            lemma_first_match_wins(rules, asset, 0);
        } else if rules[1].matches(asset) {
            lemma_first_match_wins(rules, asset, 1);
        } else if rules[2].matches(asset) {
            lemma_first_match_wins(rules, asset, 2);
        } else {
            lemma_no_match_no_reserves(rules, asset);
        }
    }

    /// An asset of the Polkadot ecosystem or of Ethereum has the asset hub of
    /// Polkadot as its one reserve, whatever junctions come after the prefix,
    /// and may not be teleported.
    pub proof fn lemma_ecosystem_reserves_are_fixed(asset: LocationView, trailing: Seq<Junction>)
        ensures
            asset.starts_with(spec_dot_location()) || asset.starts_with(spec_ethereum_ecosystem())
                ==> Self::spec_reserves_for(asset.append(trailing)) == seq![
                ReserveDataView { reserve: spec_asset_hub_polkadot(), teleportable: false },
            ],
    {
        if asset.starts_with(spec_dot_location()) {
            lemma_trailing_junctions_keep_prefix(asset, spec_dot_location(), trailing);
        }
        if asset.starts_with(spec_ethereum_ecosystem()) {
            lemma_trailing_junctions_keep_prefix(asset, spec_ethereum_ecosystem(), trailing);
        }
    }

    /// The rules of this deployment, as a table.
    pub fn rules() -> (table: RuleTable)
        ensures
            table@ == Self::spec_rules(),
    {
        let table = RuleTable::new(
            vec![
                Rule::SiblingParachain,
                Rule::Ecosystem { prefix: dot_location(), reserve: asset_hub_polkadot() },
                Rule::Ecosystem { prefix: ethereum_ecosystem(), reserve: asset_hub_polkadot() },
            ],
        );
        assert(table@ =~= Self::spec_rules());
        table
    }

    /// The reserves of the foreign asset `asset_id`; none where the asset is
    /// not known as foreign.
    pub fn reserves_for(asset_id: &Location) -> (reserves: Vec<ForeignAssetReserveData>)
        ensures
            reserve_views(reserves@) == Self::spec_reserves_for(asset_id@),
            reserve_views(reserves@) == resolve(Self::spec_rules(), asset_id@),
            is_sibling_parachain(asset_id@) ==> reserve_views(reserves@) == seq![
                ReserveDataView { reserve: asset_id@, teleportable: true },
            ],
            asset_id@.starts_with(spec_dot_location()) || asset_id@.starts_with(
                spec_ethereum_ecosystem(),
            ) ==> reserve_views(reserves@) == seq![
                ReserveDataView { reserve: spec_asset_hub_polkadot(), teleportable: false },
            ],
            asset_id@.interior.len() == 0 ==> reserves@.len() == 0,
    {
        proof {
            Self::lemma_rules_resolve(asset_id@);
        }
        let reserves = Self::rules().reserves_for(asset_id);
        assert(reserve_views(reserves@).len() == reserves@.len());
        reserves
    }

    /// Whether `reserves` are the reserves that [`Self::reserves_for`] gives
    /// to `asset_id`, in the same order.
    pub fn check_reserves_for(asset_id: &Location, reserves: Vec<ForeignAssetReserveData>) -> (ok:
        bool)
        ensures
            ok == (reserve_views(reserves@) == Self::spec_reserves_for(asset_id@)),
    {
        let expected = Self::reserves_for(asset_id);
        same_reserves(&expected, &reserves)
    }
}

} // verus!
