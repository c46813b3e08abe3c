use staging_xcm::v5::{
    BodyId as XcmBodyId, BodyPart as XcmBodyPart, Junction as XcmJunction,
    Junctions as XcmJunctions, Location as XcmLocation, NetworkId as XcmNetworkId,
};
use system_runtimes::location::{
    bytes_equal, BodyId, BodyPart, Junction, Location, NetworkId, OverflowError, MAX_JUNCTIONS,
};

fn xcm_network(network: NetworkId) -> XcmNetworkId {
    match network {
        NetworkId::ByGenesis(hash) => XcmNetworkId::ByGenesis(hash),
        NetworkId::ByFork { block_number, block_hash } => {
            XcmNetworkId::ByFork { block_number, block_hash }
        }
        NetworkId::Polkadot => XcmNetworkId::Polkadot,
        NetworkId::Kusama => XcmNetworkId::Kusama,
        NetworkId::Ethereum { chain_id } => XcmNetworkId::Ethereum { chain_id },
        NetworkId::BitcoinCore => XcmNetworkId::BitcoinCore,
        NetworkId::BitcoinCash => XcmNetworkId::BitcoinCash,
        NetworkId::PolkadotBulletin => XcmNetworkId::PolkadotBulletin,
    }
}

fn xcm_body_id(id: BodyId) -> XcmBodyId {
    match id {
        BodyId::Unit => XcmBodyId::Unit,
        BodyId::Moniker(name) => XcmBodyId::Moniker(name),
        BodyId::Index(index) => XcmBodyId::Index(index),
        BodyId::Executive => XcmBodyId::Executive,
        BodyId::Technical => XcmBodyId::Technical,
        BodyId::Legislative => XcmBodyId::Legislative,
        BodyId::Judicial => XcmBodyId::Judicial,
        BodyId::Defense => XcmBodyId::Defense,
        BodyId::Administration => XcmBodyId::Administration,
        BodyId::Treasury => XcmBodyId::Treasury,
    }
}

fn xcm_body_part(part: BodyPart) -> XcmBodyPart {
    match part {
        BodyPart::Voice => XcmBodyPart::Voice,
        BodyPart::Members { count } => XcmBodyPart::Members { count },
        BodyPart::Fraction { nom, denom } => XcmBodyPart::Fraction { nom, denom },
        BodyPart::AtLeastProportion { nom, denom } => {
            XcmBodyPart::AtLeastProportion { nom, denom }
        }
        BodyPart::MoreThanProportion { nom, denom } => {
            XcmBodyPart::MoreThanProportion { nom, denom }
        }
    }
}

fn xcm_junction(junction: Junction) -> XcmJunction {
    match junction {
        Junction::Parachain(id) => XcmJunction::Parachain(id),
        Junction::AccountId32 { network, id } => {
            XcmJunction::AccountId32 { network: network.map(xcm_network), id }
        }
        Junction::AccountIndex64 { network, index } => {
            XcmJunction::AccountIndex64 { network: network.map(xcm_network), index }
        }
        Junction::AccountKey20 { network, key } => {
            XcmJunction::AccountKey20 { network: network.map(xcm_network), key }
        }
        Junction::PalletInstance(index) => XcmJunction::PalletInstance(index),
        Junction::GeneralIndex(index) => XcmJunction::GeneralIndex(index),
        Junction::GeneralKey { length, data } => XcmJunction::GeneralKey { length, data },
        Junction::OnlyChild => XcmJunction::OnlyChild,
        Junction::Plurality { id, part } => {
            XcmJunction::Plurality { id: xcm_body_id(id), part: xcm_body_part(part) }
        }
        Junction::GlobalConsensus(network) => XcmJunction::GlobalConsensus(xcm_network(network)),
    }
}

fn xcm_junctions(junctions: &[Junction]) -> XcmJunctions {
    let mut made = XcmJunctions::Here;
    for junction in junctions {
        made.push(xcm_junction(*junction)).unwrap();
    }
    made
}

fn xcm_location(location: &Location) -> XcmLocation {
    XcmLocation::new(location.parent_count(), xcm_junctions(location.interior()))
}

fn samples() -> Vec<Location> {
    let polkadot = Junction::GlobalConsensus(NetworkId::Polkadot);
    let kusama = Junction::GlobalConsensus(NetworkId::Kusama);
    let ethereum = Junction::GlobalConsensus(NetworkId::Ethereum { chain_id: 1 });
    let sepolia = Junction::GlobalConsensus(NetworkId::Ethereum { chain_id: 11155111 });
    let genesis = Junction::GlobalConsensus(NetworkId::ByGenesis([7u8; 32]));
    let fork =
        Junction::GlobalConsensus(NetworkId::ByFork { block_number: 9, block_hash: [7u8; 32] });
    let key = Junction::AccountKey20 { network: None, key: [3u8; 20] };
    let key_on_ethereum =
        Junction::AccountKey20 { network: Some(NetworkId::Ethereum { chain_id: 1 }), key: [3u8; 20] };
    let account = Junction::AccountId32 { network: Some(NetworkId::Kusama), id: [5u8; 32] };
    let index = Junction::AccountIndex64 { network: None, index: 77 };
    let general_key = Junction::GeneralKey { length: 3, data: [9u8; 32] };
    let council =
        Junction::Plurality { id: BodyId::Moniker(*b"cncl"), part: BodyPart::Members { count: 3 } };
    let treasury = Junction::Plurality {
        id: BodyId::Treasury,
        part: BodyPart::Fraction { nom: 1, denom: 2 },
    };
    vec![
        Location::here(),
        Location::parent(),
        Location::new(2, vec![]),
        Location::new(1, vec![Junction::Parachain(2000)]),
        Location::new(1, vec![Junction::Parachain(2001)]),
        Location::new(0, vec![Junction::Parachain(2000)]),
        Location::new(1, vec![Junction::Parachain(2000), Junction::PalletInstance(50)]),
        Location::new(
            1,
            vec![Junction::Parachain(2000), Junction::PalletInstance(50), Junction::GeneralIndex(2)],
        ),
        Location::new(2, vec![polkadot]),
        Location::new(2, vec![polkadot, Junction::Parachain(1000)]),
        Location::new(2, vec![polkadot, Junction::Parachain(1000), Junction::GeneralIndex(42)]),
        Location::new(2, vec![kusama]),
        Location::new(2, vec![kusama, Junction::Parachain(1000)]),
        Location::new(2, vec![ethereum]),
        Location::new(2, vec![ethereum, key]),
        Location::new(2, vec![ethereum, key_on_ethereum]),
        Location::new(2, vec![sepolia, key]),
        Location::new(2, vec![genesis]),
        Location::new(2, vec![fork, account]),
        Location::new(3, vec![polkadot]),
        Location::new(0, vec![index, general_key, Junction::OnlyChild]),
        Location::new(1, vec![council]),
        Location::new(1, vec![council, treasury]),
        Location::new(
            2,
            vec![
                polkadot,
                Junction::Parachain(1000),
                Junction::PalletInstance(50),
                Junction::GeneralIndex(1),
                Junction::GeneralIndex(2),
                Junction::GeneralIndex(3),
                Junction::GeneralIndex(4),
                Junction::GeneralIndex(5),
            ],
        ),
    ]
}

#[test]
fn starts_with_needs_equal_hops_and_leading_junctions() {
    let asset = Location::new(
        2,
        vec![
            Junction::GlobalConsensus(NetworkId::Polkadot),
            Junction::Parachain(1000),
            Junction::GeneralIndex(42),
        ],
    );
    let polkadot = Location::new(2, vec![Junction::GlobalConsensus(NetworkId::Polkadot)]);
    let hub = Location::new(
        2,
        vec![Junction::GlobalConsensus(NetworkId::Polkadot), Junction::Parachain(1000)],
    );
    assert!(asset.starts_with(&polkadot));
    assert!(asset.starts_with(&hub));
    assert!(asset.starts_with(&asset));
    assert!(asset.starts_with(&Location::new(2, vec![])));
    // Another hop count.
    assert!(!asset.starts_with(&Location::new(1, vec![])));
    assert!(!asset
        .starts_with(&Location::new(1, vec![Junction::GlobalConsensus(NetworkId::Polkadot)])));
    // Another junction in the way.
    assert!(!asset.starts_with(&Location::new(
        2,
        vec![Junction::GlobalConsensus(NetworkId::Polkadot), Junction::Parachain(1001)]
    )));
    // A location that is shorter than the prefix.
    assert!(!polkadot.starts_with(&hub));
    assert!(!Location::new(2, vec![]).starts_with(&polkadot));
}

#[test]
fn starts_with_agrees_with_xcm_on_every_pair() {
    let all = samples();
    for location in &all {
        for prefix in &all {
            assert_eq!(
                location.starts_with(prefix),
                xcm_location(location).starts_with(&xcm_location(prefix)),
                "{:?} starts with {:?}",
                location,
                prefix
            );
        }
    }
}

#[test]
fn equality_agrees_with_xcm_on_every_pair() {
    let all = samples();
    for (i, a) in all.iter().enumerate() {
        for (k, b) in all.iter().enumerate() {
            assert_eq!(a == b, i == k, "{:?} == {:?}", a, b);
            assert_eq!(a == b, xcm_location(a) == xcm_location(b));
        }
    }
}

#[test]
fn unpack_gives_hops_and_junctions() {
    let location = Location::new(1, vec![Junction::Parachain(2000), Junction::GeneralIndex(5)]);
    let (parents, junctions) = location.unpack();
    assert_eq!(parents, 1);
    assert_eq!(junctions, &[Junction::Parachain(2000), Junction::GeneralIndex(5)][..]);
    assert_eq!(location.parent_count(), 1);
    assert_eq!(location.interior().len(), 2);
    let here = Location::here();
    let (parents, junctions) = here.unpack();
    assert_eq!(parents, 0);
    assert!(junctions.is_empty());
    for sample in samples() {
        let xcm = xcm_location(&sample);
        let (parents, junctions) = xcm.unpack();
        assert_eq!(sample.unpack().0, parents);
        assert_eq!(xcm_junctions(sample.unpack().1).as_slice(), junctions);
    }
}

#[test]
fn locations_differ_by_hops_alone() {
    let one = Location::new(1, vec![Junction::Parachain(1000)]);
    let two = Location::new(2, vec![Junction::Parachain(1000)]);
    assert_ne!(one, two);
    assert_ne!(Location::here(), Location::parent());
    assert_eq!(Location::parent(), Location::new(1, vec![]));
    assert_eq!(Location::here(), Location::new(0, vec![]));
    assert_eq!(one.clone(), one);
}

#[test]
fn junctions_differ_by_any_field() {
    let key = Junction::AccountKey20 { network: None, key: [0u8; 20] };
    let mut other_bytes = [0u8; 20];
    other_bytes[19] = 1;
    assert_ne!(key, Junction::AccountKey20 { network: None, key: other_bytes });
    assert_ne!(key, Junction::AccountKey20 { network: Some(NetworkId::Polkadot), key: [0u8; 20] });
    assert_eq!(key, Junction::AccountKey20 { network: None, key: [0u8; 20] });
    assert_ne!(Junction::Parachain(1), Junction::GeneralIndex(1));
    assert_ne!(Junction::GeneralIndex(1), Junction::GeneralIndex(u128::MAX));
    assert_ne!(
        Junction::GeneralKey { length: 1, data: [0u8; 32] },
        Junction::GeneralKey { length: 2, data: [0u8; 32] }
    );
    assert_ne!(
        Junction::Plurality { id: BodyId::Moniker(*b"abcd"), part: BodyPart::Voice },
        Junction::Plurality { id: BodyId::Moniker(*b"abce"), part: BodyPart::Voice }
    );
    assert_ne!(
        Junction::Plurality { id: BodyId::Index(1), part: BodyPart::Members { count: 1 } },
        Junction::Plurality { id: BodyId::Index(1), part: BodyPart::Members { count: 2 } }
    );
    assert_ne!(
        NetworkId::ByFork { block_number: 1, block_hash: [0u8; 32] },
        NetworkId::ByFork { block_number: 2, block_hash: [0u8; 32] }
    );
    assert_ne!(NetworkId::ByGenesis([0u8; 32]), NetworkId::ByGenesis([1u8; 32]));
    assert_ne!(NetworkId::BitcoinCore, NetworkId::BitcoinCash);
    assert_eq!(NetworkId::PolkadotBulletin, NetworkId::PolkadotBulletin);
}

#[test]
fn bytes_compare_one_by_one() {
    assert!(bytes_equal(&[1u8, 2, 3], &[1u8, 2, 3]));
    assert!(!bytes_equal(&[1u8, 2, 3], &[1u8, 2, 4]));
    assert!(!bytes_equal(&[0u8, 2, 3], &[1u8, 2, 3]));
    assert!(bytes_equal::<0>(&[], &[]));
}

#[test]
fn append_puts_the_suffix_after_the_junctions() {
    let sibling = Location::new(1, vec![Junction::Parachain(2000)]);
    let appended =
        sibling.append(&[Junction::PalletInstance(50), Junction::GeneralIndex(2)]).unwrap();
    assert_eq!(
        appended,
        Location::new(
            1,
            vec![Junction::Parachain(2000), Junction::PalletInstance(50), Junction::GeneralIndex(2)]
        )
    );
    assert!(appended.starts_with(&sibling));
    assert_eq!(sibling.append(&[]).unwrap(), sibling);
    assert_eq!(
        Location::here().append(&[Junction::OnlyChild]).unwrap(),
        Location::new(0, vec![Junction::OnlyChild])
    );
}

#[test]
fn append_fails_past_the_limit() {
    assert_eq!(MAX_JUNCTIONS, 8);
    let seven: Vec<Junction> = (0..7).map(|i| Junction::GeneralIndex(i)).collect();
    let location = Location::new(1, seven);
    let eight = location.append(&[Junction::OnlyChild]).unwrap();
    assert_eq!(eight.interior().len(), 8);
    assert_eq!(location.append(&[Junction::OnlyChild, Junction::OnlyChild]), Err(OverflowError));
    assert_eq!(eight.append(&[Junction::OnlyChild]), Err(OverflowError));
    assert_eq!(eight.append(&[]).unwrap(), eight);
    let nine: Vec<Junction> = (0..9).map(|i| Junction::GeneralIndex(i)).collect();
    assert_eq!(Location::here().append(&nine), Err(OverflowError));
}

#[test]
fn append_agrees_with_xcm() {
    let all = samples();
    for location in &all {
        for suffix in &all {
            let ours = location.append(suffix.interior());
            let mut theirs = xcm_location(location);
            let fits = theirs.interior_mut().append_with(xcm_junctions(suffix.interior())).is_ok();
            assert_eq!(ours.is_ok(), fits);
            if let Ok(appended) = ours {
                assert_eq!(xcm_location(&appended), theirs);
            }
        }
    }
}

#[test]
fn try_new_refuses_more_junctions_than_fit() {
    let eight: Vec<Junction> = (0..8).map(|i| Junction::GeneralIndex(i)).collect();
    let nine: Vec<Junction> = (0..9).map(|i| Junction::GeneralIndex(i)).collect();
    let made = Location::try_new(3, eight.clone()).unwrap();
    assert_eq!(made.parent_count(), 3);
    assert_eq!(made.interior(), &eight[..]);
    assert_eq!(Location::try_new(3, nine), Err(OverflowError));
    assert_eq!(Location::try_new(0, vec![]), Ok(Location::here()));
}
