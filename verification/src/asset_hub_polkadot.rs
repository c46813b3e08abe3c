//! Reserves of the foreign assets of the asset hub of Polkadot.
//!
//! An asset of a sibling parachain has that parachain as its reserve and may
//! be teleported. An asset of the Kusama ecosystem has the asset hub of Kusama
//! as its reserve; an asset of Ethereum has Ethereum itself. Neither may be
//! teleported. No other foreign asset is known.

use crate::location::{Junction, Location, LocationView, NetworkId};
use crate::reserves::{
    is_sibling_parachain, lemma_first_match_wins, lemma_no_match_no_reserves,
    lemma_trailing_junctions_keep_prefix, reserve_views, resolve, same_reserves,
    ForeignAssetReserveData, ReserveDataView, Rule, RuleTable, RuleView,
};
use vstd::prelude::*;

verus! {

/// The number of the asset hub among the parachains of Kusama.
pub const KUSAMA_ASSET_HUB_ID: u32 = 1000;

/// The chain id of the Ethereum network that is bridged to Polkadot.
pub const ETHEREUM_CHAIN_ID: u64 = 1;

/// The location of Kusama, as the asset hub of Polkadot sees it.
pub open spec fn spec_ksm_location() -> LocationView {
    LocationView { parents: 2, interior: seq![Junction::GlobalConsensus(NetworkId::Kusama)] }
}

/// The location of the asset hub of Kusama, as the asset hub of Polkadot sees it.
pub open spec fn spec_asset_hub_kusama() -> LocationView {
    LocationView {
        parents: 2,
        interior: seq![
            Junction::GlobalConsensus(NetworkId::Kusama),
            Junction::Parachain(KUSAMA_ASSET_HUB_ID),
        ],
    }
}

/// The location of the bridged Ethereum network, as the asset hub of Polkadot sees it.
pub open spec fn spec_ethereum_location() -> LocationView {
    LocationView {
        parents: 2,
        interior: seq![
            Junction::GlobalConsensus(NetworkId::Ethereum { chain_id: ETHEREUM_CHAIN_ID }),
        ],
    }
}

/// The bridged Ethereum network.
pub fn ethereum_network() -> (network: NetworkId)
    ensures
        network == (NetworkId::Ethereum { chain_id: ETHEREUM_CHAIN_ID }),
{
    NetworkId::Ethereum { chain_id: ETHEREUM_CHAIN_ID }
}

/// The location of Kusama, as the asset hub of Polkadot sees it.
pub fn ksm_location() -> (location: Location)
    ensures
        location@ == spec_ksm_location(),
{
    let location = Location::new(2, vec![Junction::GlobalConsensus(NetworkId::Kusama)]);
    assert(location@.interior =~= spec_ksm_location().interior);
    location
}

/// The location of the asset hub of Kusama, as the asset hub of Polkadot sees it.
pub fn asset_hub_kusama() -> (location: Location)
    ensures
        location@ == spec_asset_hub_kusama(),
{
    let location = Location::new(
        2,
        vec![
            Junction::GlobalConsensus(NetworkId::Kusama),
            Junction::Parachain(KUSAMA_ASSET_HUB_ID),
        ],
    );
    assert(location@.interior =~= spec_asset_hub_kusama().interior);
    location
}

/// The location of the bridged Ethereum network, as the asset hub of Polkadot sees it.
pub fn ethereum_location() -> (location: Location)
    ensures
        location@ == spec_ethereum_location(),
{
    let location = Location::new(2, vec![Junction::GlobalConsensus(ethereum_network())]);
    assert(location@.interior =~= spec_ethereum_location().interior);
    location
}

/// Gives the reserves of the foreign assets of the asset hub of Polkadot.
#[derive(Clone, Copy, Debug)]
pub struct AssetHubPolkadotForeignAssetsReservesProvider;

impl AssetHubPolkadotForeignAssetsReservesProvider {
    /// The rules of this deployment: sibling parachains first, then the
    /// Kusama ecosystem, then Ethereum.
    pub open spec fn spec_rules() -> Seq<RuleView> {
        seq![
            RuleView::SiblingParachain,
            RuleView::Ecosystem { prefix: spec_ksm_location(), reserve: spec_asset_hub_kusama() },
            RuleView::Ecosystem {
                prefix: spec_ethereum_location(),
                reserve: spec_ethereum_location(),
            },
        ]
    }

    /// The reserves of an asset of this deployment, case by case.
    pub open spec fn spec_reserves_for(asset: LocationView) -> Seq<ReserveDataView> {
        if is_sibling_parachain(asset) {
            seq![ReserveDataView { reserve: asset, teleportable: true }]
        } else if asset.starts_with(spec_ksm_location()) {
            seq![ReserveDataView { reserve: spec_asset_hub_kusama(), teleportable: false }]
        } else if asset.starts_with(spec_ethereum_location()) {
            seq![ReserveDataView { reserve: spec_ethereum_location(), teleportable: false }]
        } else {
            Seq::empty()
        }
    }

    /// The rules of this deployment give each asset the reserves that
    /// [`Self::spec_reserves_for`] states case by case.
    pub proof fn lemma_rules_resolve(asset: LocationView)
        ensures
            resolve(Self::spec_rules(), asset) == Self::spec_reserves_for(asset),
    {
        let rules = Self::spec_rules();
        if rules[0].matches(asset) {
            lemma_first_match_wins(rules, asset, 0);
        } else if rules[1].matches(asset) {
            lemma_first_match_wins(rules, asset, 1);
        } else if rules[2].matches(asset) {
            lemma_first_match_wins(rules, asset, 2);
        } else {
            lemma_no_match_no_reserves(rules, asset);
        }
    }

    /// No asset is both of the Kusama ecosystem and of Ethereum.
    pub proof fn lemma_ecosystems_are_apart(asset: LocationView)
        ensures
            !(asset.starts_with(spec_ksm_location()) && asset.starts_with(
                spec_ethereum_location(),
            )),
    {
        if asset.starts_with(spec_ksm_location()) && asset.starts_with(spec_ethereum_location()) {
            // The first junction would be both Kusama and Ethereum.
            assert(asset.interior.subrange(0, 1)[0] == spec_ksm_location().interior[0]);
            assert(asset.interior.subrange(0, 1)[0] == spec_ethereum_location().interior[0]);
        }
    }

    /// An asset of the Kusama ecosystem has the asset hub of Kusama as its
    /// one reserve, and an asset of Ethereum has Ethereum itself, whatever
    /// junctions come after the prefix; neither may be teleported.
    pub proof fn lemma_ecosystem_reserves_are_fixed(asset: LocationView, trailing: Seq<Junction>)
        ensures
            asset.starts_with(spec_ksm_location()) ==> Self::spec_reserves_for(
                asset.append(trailing),
            ) == seq![ReserveDataView { reserve: spec_asset_hub_kusama(), teleportable: false }],
            asset.starts_with(spec_ethereum_location()) ==> Self::spec_reserves_for(
                asset.append(trailing),
            ) == seq![ReserveDataView { reserve: spec_ethereum_location(), teleportable: false }],
    {
        if asset.starts_with(spec_ksm_location()) {
            lemma_trailing_junctions_keep_prefix(asset, spec_ksm_location(), trailing);
        }
        if asset.starts_with(spec_ethereum_location()) {
            lemma_trailing_junctions_keep_prefix(asset, spec_ethereum_location(), trailing);
        }
        Self::lemma_ecosystems_are_apart(asset.append(trailing));
    }

    /// The rules of this deployment, as a table.
    pub fn rules() -> (table: RuleTable)
        ensures
            table@ == Self::spec_rules(),
    {
        let table = RuleTable::new(
            vec![
                Rule::SiblingParachain,
                Rule::Ecosystem { prefix: ksm_location(), reserve: asset_hub_kusama() },
                Rule::Ecosystem { prefix: ethereum_location(), reserve: ethereum_location() },
            ],
        );
        assert(table@ =~= Self::spec_rules());
        table
    }

    /// The reserves of the foreign asset `asset_id`; none where the asset is
    /// not known as foreign.
    pub fn reserves_for(asset_id: &Location) -> (reserves: Vec<ForeignAssetReserveData>)
        ensures
            reserve_views(reserves@) == Self::spec_reserves_for(asset_id@),
            reserve_views(reserves@) == resolve(Self::spec_rules(), asset_id@),
            is_sibling_parachain(asset_id@) ==> reserve_views(reserves@) == seq![
                ReserveDataView { reserve: asset_id@, teleportable: true },
            ],
            asset_id@.starts_with(spec_ksm_location()) ==> reserve_views(reserves@) == seq![
                ReserveDataView { reserve: spec_asset_hub_kusama(), teleportable: false },
            ],
            asset_id@.starts_with(spec_ethereum_location()) ==> reserve_views(reserves@) == seq![
                ReserveDataView { reserve: spec_ethereum_location(), teleportable: false },
            ],
            asset_id@.interior.len() == 0 ==> reserves@.len() == 0,
    {
        proof {
            Self::lemma_rules_resolve(asset_id@);
            Self::lemma_ecosystems_are_apart(asset_id@);
        }
        let reserves = Self::rules().reserves_for(asset_id);
        assert(reserve_views(reserves@).len() == reserves@.len());
        reserves
    }

    /// Whether `reserves` are the reserves that [`Self::reserves_for`] gives
    /// to `asset_id`, in the same order.
    pub fn check_reserves_for(asset_id: &Location, reserves: Vec<ForeignAssetReserveData>) -> (ok:
        bool)
        ensures
            ok == (reserve_views(reserves@) == Self::spec_reserves_for(asset_id@)),
    {
        let expected = Self::reserves_for(asset_id);
        same_reserves(&expected, &reserves)
    }
}

} // verus!
