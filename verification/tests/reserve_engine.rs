use system_runtimes::asset_hub_kusama::AssetHubKusamaForeignAssetsReservesProvider;
use system_runtimes::asset_hub_polkadot::AssetHubPolkadotForeignAssetsReservesProvider;
use system_runtimes::location::{Junction, Location, NetworkId};
use system_runtimes::reserves::{same_reserves, ForeignAssetReserveData, Rule, RuleTable};

fn polkadot() -> Junction {
    Junction::GlobalConsensus(NetworkId::Polkadot)
}

fn kusama() -> Junction {
    Junction::GlobalConsensus(NetworkId::Kusama)
}

fn ethereum() -> Junction {
    Junction::GlobalConsensus(NetworkId::Ethereum { chain_id: 1 })
}

fn fixed(reserve: Location) -> Vec<ForeignAssetReserveData> {
    vec![ForeignAssetReserveData { reserve, teleportable: false }]
}

#[test]
fn every_sibling_parachain_is_its_own_teleportable_reserve() {
    for id in [0u32, 1, 999, 1000, 2000, 2001, u32::MAX] {
        let asset = Location::new(1, vec![Junction::Parachain(id)]);
        let expected = vec![ForeignAssetReserveData {
            reserve: Location::new(1, vec![Junction::Parachain(id)]),
            teleportable: true,
        }];
        assert_eq!(AssetHubKusamaForeignAssetsReservesProvider::reserves_for(&asset), expected);
        assert_eq!(AssetHubPolkadotForeignAssetsReservesProvider::reserves_for(&asset), expected);
    }
}

#[test]
fn only_the_exact_sibling_shape_counts() {
    let not_siblings = [
        Location::new(0, vec![Junction::Parachain(2000)]),
        Location::new(3, vec![Junction::Parachain(2000)]),
        Location::new(1, vec![Junction::GeneralIndex(2000)]),
        Location::new(1, vec![Junction::PalletInstance(50)]),
        Location::new(1, vec![Junction::Parachain(2000), Junction::GeneralIndex(1)]),
        Location::new(1, vec![Junction::Parachain(2000), Junction::Parachain(2000)]),
        Location::new(1, vec![polkadot()]),
        Location::new(1, vec![kusama(), Junction::Parachain(1000)]),
    ];
    for asset in &not_siblings {
        assert!(AssetHubKusamaForeignAssetsReservesProvider::reserves_for(asset).is_empty());
        assert!(AssetHubPolkadotForeignAssetsReservesProvider::reserves_for(asset).is_empty());
    }
}

#[test]
fn here_and_bare_ancestors_have_no_reserves() {
    for parents in [0u8, 1, 2, 3, 255] {
        let asset = Location::new(parents, vec![]);
        assert!(AssetHubKusamaForeignAssetsReservesProvider::reserves_for(&asset).is_empty());
        assert!(AssetHubPolkadotForeignAssetsReservesProvider::reserves_for(&asset).is_empty());
    }
}

#[test]
fn an_ecosystem_prefix_fixes_the_reserve_whatever_follows() {
    let tails: Vec<Vec<Junction>> = vec![
        vec![],
        vec![Junction::Parachain(1000)],
        vec![Junction::Parachain(2004), Junction::PalletInstance(10)],
        vec![Junction::Parachain(1000), Junction::GeneralIndex(42)],
        vec![Junction::AccountKey20 { network: None, key: [0xab; 20] }],
        vec![Junction::GeneralIndex(u128::MAX); 7],
    ];
    let kusama_hub = Location::new(2, vec![kusama(), Junction::Parachain(1000)]);
    let polkadot_hub = Location::new(2, vec![polkadot(), Junction::Parachain(1000)]);
    let ethereum_root = Location::new(2, vec![ethereum()]);
    for tail in &tails {
        let in_kusama = Location::new(2, vec![kusama()]).append(tail).unwrap();
        let in_polkadot = Location::new(2, vec![polkadot()]).append(tail).unwrap();
        let in_ethereum = Location::new(2, vec![ethereum()]).append(tail).unwrap();
        assert_eq!(
            AssetHubPolkadotForeignAssetsReservesProvider::reserves_for(&in_kusama),
            fixed(kusama_hub.clone())
        );
        assert_eq!(
            AssetHubPolkadotForeignAssetsReservesProvider::reserves_for(&in_ethereum),
            fixed(ethereum_root.clone())
        );
        assert_eq!(
            AssetHubKusamaForeignAssetsReservesProvider::reserves_for(&in_polkadot),
            fixed(polkadot_hub.clone())
        );
        assert_eq!(
            AssetHubKusamaForeignAssetsReservesProvider::reserves_for(&in_ethereum),
            fixed(polkadot_hub.clone())
        );
        // No hub knows its own ecosystem as foreign.
        assert!(AssetHubPolkadotForeignAssetsReservesProvider::reserves_for(&in_polkadot)
            .is_empty());
        assert!(AssetHubKusamaForeignAssetsReservesProvider::reserves_for(&in_kusama).is_empty());
    }
}

#[test]
fn an_ecosystem_prefix_needs_two_hops() {
    for parents in [0u8, 1, 3] {
        let asset = Location::new(parents, vec![kusama(), Junction::Parachain(1000)]);
        assert!(AssetHubPolkadotForeignAssetsReservesProvider::reserves_for(&asset).is_empty());
    }
    let prefix = Location::new(1, vec![Junction::Parachain(7)]);
    let table = RuleTable::new(vec![Rule::Ecosystem {
        prefix: prefix.clone(),
        reserve: Location::here(),
    }]);
    // The prefix has one hop, so no location with two hops begins with it,
    // and a location with one hop is not in a foreign ecosystem.
    assert!(table.reserves_for(&prefix).is_empty());
    assert!(table.reserves_for(&Location::new(2, vec![Junction::Parachain(7)])).is_empty());
}

#[test]
fn the_first_matching_rule_wins() {
    let root = Location::new(2, vec![kusama()]);
    let hub = Location::new(2, vec![kusama(), Junction::Parachain(1000)]);
    let first = Location::new(2, vec![kusama(), Junction::Parachain(1)]);
    let second = Location::new(2, vec![kusama(), Junction::Parachain(2)]);
    let asset = Location::new(2, vec![kusama(), Junction::Parachain(1000), Junction::GeneralIndex(5)]);

    let narrow_first = RuleTable::new(vec![
        Rule::SiblingParachain,
        Rule::Ecosystem { prefix: hub.clone(), reserve: first.clone() },
        Rule::Ecosystem { prefix: root.clone(), reserve: second.clone() },
    ]);
    assert_eq!(narrow_first.reserves_for(&asset), fixed(first.clone()));
    assert_eq!(narrow_first.reserves_for(&root), fixed(second.clone()));

    let wide_first = RuleTable::new(vec![
        Rule::Ecosystem { prefix: root.clone(), reserve: second.clone() },
        Rule::Ecosystem { prefix: hub.clone(), reserve: first.clone() },
        Rule::SiblingParachain,
    ]);
    assert_eq!(wide_first.reserves_for(&asset), fixed(second.clone()));
    assert_eq!(wide_first.reserves_for(&hub), fixed(second.clone()));
    let sibling = Location::new(1, vec![Junction::Parachain(9)]);
    assert_eq!(
        wide_first.reserves_for(&sibling),
        vec![ForeignAssetReserveData { reserve: sibling.clone(), teleportable: true }]
    );
}

#[test]
fn a_table_without_rules_knows_no_asset() {
    let table = RuleTable::new(vec![]);
    assert!(table.reserves_for(&Location::new(1, vec![Junction::Parachain(2000)])).is_empty());
    assert!(table.reserves_for(&Location::new(2, vec![kusama()])).is_empty());
    assert!(table.reserves_for(&Location::here()).is_empty());
    let prefixes_only = RuleTable::new(vec![Rule::Ecosystem {
        prefix: Location::new(2, vec![kusama()]),
        reserve: Location::new(2, vec![kusama(), Junction::Parachain(1000)]),
    }]);
    assert!(prefixes_only
        .reserves_for(&Location::new(1, vec![Junction::Parachain(2000)]))
        .is_empty());
}

#[test]
fn a_single_rule_gives_its_reserves_or_nothing() {
    let sibling = Location::new(1, vec![Junction::Parachain(2000)]);
    let foreign = Location::new(2, vec![ethereum(), Junction::GeneralIndex(1)]);
    assert_eq!(
        Rule::SiblingParachain.apply(&sibling),
        Some(vec![ForeignAssetReserveData { reserve: sibling.clone(), teleportable: true }])
    );
    assert_eq!(Rule::SiblingParachain.apply(&foreign), None);
    let rule = Rule::Ecosystem {
        prefix: Location::new(2, vec![ethereum()]),
        reserve: Location::new(2, vec![polkadot(), Junction::Parachain(1000)]),
    };
    assert_eq!(
        rule.apply(&foreign),
        Some(fixed(Location::new(2, vec![polkadot(), Junction::Parachain(1000)])))
    );
    assert_eq!(rule.apply(&sibling), None);
}

#[test]
fn resolution_is_the_same_every_time() {
    let asset = Location::new(2, vec![kusama(), Junction::Parachain(1000), Junction::GeneralIndex(42)]);
    let first = AssetHubPolkadotForeignAssetsReservesProvider::reserves_for(&asset);
    let second = AssetHubPolkadotForeignAssetsReservesProvider::reserves_for(&asset);
    assert_eq!(first, second);
    assert!(same_reserves(&first, &second));
}

#[test]
fn lists_of_reserves_compare_in_order() {
    let a = ForeignAssetReserveData { reserve: Location::parent(), teleportable: true };
    let b = ForeignAssetReserveData { reserve: Location::here(), teleportable: true };
    assert!(same_reserves(&vec![a.clone(), b.clone()], &vec![a.clone(), b.clone()]));
    assert!(!same_reserves(&vec![a.clone(), b.clone()], &vec![b.clone(), a.clone()]));
    assert!(!same_reserves(&vec![a.clone()], &vec![a.clone(), b.clone()]));
    assert!(same_reserves(&vec![], &vec![]));
    let c = ForeignAssetReserveData { reserve: Location::parent(), teleportable: false };
    assert!(!same_reserves(&vec![a.clone()], &vec![c.clone()]));
    assert_ne!(a, c);
    assert_ne!(a, b);
    let made: ForeignAssetReserveData = (Location::parent(), true).into();
    assert_eq!(made, a);
}

#[test]
fn concrete_scenario_of_three_assets() {
    let sibling = Location::new(1, vec![Junction::Parachain(2000)]);
    assert_eq!(
        AssetHubPolkadotForeignAssetsReservesProvider::reserves_for(&sibling),
        vec![ForeignAssetReserveData {
            reserve: Location::new(1, vec![Junction::Parachain(2000)]),
            teleportable: true
        }]
    );
    let bridged = Location::new(2, vec![kusama(), Junction::Parachain(1000), Junction::GeneralIndex(42)]);
    assert_eq!(
        AssetHubPolkadotForeignAssetsReservesProvider::reserves_for(&bridged),
        vec![ForeignAssetReserveData {
            reserve: Location::new(2, vec![kusama(), Junction::Parachain(1000)]),
            teleportable: false
        }]
    );
    let parent = Location::new(1, vec![]);
    assert_eq!(AssetHubPolkadotForeignAssetsReservesProvider::reserves_for(&parent), vec![]);
}
