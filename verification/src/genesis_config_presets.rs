//! The values of the genesis presets of the bridge hub of Kusama.
//!
//! A preset is worked out from the accounts and amounts that the caller hands
//! in; turning it into the bytes of a genesis patch is left to the caller.

use crate::location::{Junction, Location, LocationView, NetworkId};
use vstd::prelude::*;
use vstd::string::StringExecFns;

verus! {

/// An account, by its public key.
pub type AccountId = [u8; 32];

/// The key with which a collator signs blocks.
pub type AuraId = [u8; 32];

/// An amount of the native token.
pub type Balance = u128;

/// The number of this chain among the parachains of Kusama.
pub const BRIDGE_HUB_KUSAMA_PARA_ID: u32 = 1002;

/// The number of the asset hub among the parachains of either relay chain.
pub const ASSET_HUB_PARA_ID: u32 = 1000;

/// How many existential deposits each endowed account gets.
pub const ENDOWMENT_FACTOR: u128 = 16_777_216;

/// How many existential deposits a candidate for collator has to bond.
pub const CANDIDACY_BOND_FACTOR: u128 = 16;

/// The name of a lane of messages between two chains, in its old form.
#[derive(Clone, Copy, Debug)]
pub struct LegacyLaneId(pub [u8; 4]);

/// A bridge that is open from the start.
#[derive(Debug)]
pub struct OpenedBridge {
    /// The chain on this side, as this chain sees it.
    pub local: Location,
    /// The chain on the other side, from the top of its own consensus.
    pub remote: Vec<Junction>,
    /// The lane that the bridge uses, where it has one of the old form.
    pub lane: Option<LegacyLaneId>,
}

/// The accounts and amounts that the presets are made of.
#[derive(Debug)]
pub struct PresetInputs {
    /// The collators that cannot be voted out, each with its block signing key.
    pub invulnerables: Vec<(AccountId, AuraId)>,
    /// The accounts that are endowed on a test network.
    pub testnet_accounts: Vec<AccountId>,
    /// The account that collects the rewards of the collators.
    pub staking_pot: AccountId,
    /// The least balance that an account may have.
    pub existential_deposit: Balance,
    /// The version of the message format that is safe to assume of other chains.
    pub safe_xcm_version: u32,
}

/// The values of a genesis patch, section by section.
#[derive(Debug)]
pub struct GenesisPatch {
    /// The balance of each endowed account.
    pub balances: Vec<(AccountId, Balance)>,
    /// The number of this chain among the parachains of its relay chain.
    pub parachain_id: u32,
    /// The collators that cannot be voted out.
    pub invulnerables: Vec<AccountId>,
    /// What a candidate for collator has to bond.
    pub candidacy_bond: Balance,
    /// For each collator its account, its validator and its block signing key.
    pub session_keys: Vec<(AccountId, AccountId, AuraId)>,
    /// The version of the message format that is safe to assume of other chains.
    pub safe_xcm_version: u32,
    /// The bridges that are open from the start.
    pub opened_bridges: Vec<OpenedBridge>,
}

/// One of the presets that this chain offers.
#[derive(Clone, Copy, Debug, PartialEq, Eq, Structural)]
pub enum Preset {
    /// A single node, for development and benchmarks.
    Development,
    /// Several nodes on one machine.
    LocalTestnet,
}

/// The preset of the given name, if there is one.
pub open spec fn spec_preset(id: Seq<char>) -> Option<Preset> {
    if id == "development"@ {
        Some(Preset::Development)
    } else if id == "local_testnet"@ {
        Some(Preset::LocalTestnet)
    } else {
        None
    }
}

/// The balances of a patch: each endowed account with the endowment.
pub open spec fn spec_balances(endowed: Seq<AccountId>, endowment: Balance) -> Seq<
    (AccountId, Balance),
> {
    Seq::new(endowed.len(), |i: int| (endowed[i], endowment))
}

/// The session keys of a patch: each collator as its own validator, with its key.
pub open spec fn spec_session_keys(invulnerables: Seq<(AccountId, AuraId)>) -> Seq<
    (AccountId, AccountId, AuraId),
> {
    Seq::new(
        invulnerables.len(),
        |i: int| (invulnerables[i].0, invulnerables[i].0, invulnerables[i].1),
    )
}

/// The accounts of the collators, without their keys.
pub open spec fn spec_collators(invulnerables: Seq<(AccountId, AuraId)>) -> Seq<AccountId> {
    Seq::new(invulnerables.len(), |i: int| invulnerables[i].0)
}

/// The names of the presets that this chain offers.
pub fn preset_names() -> (names: Vec<String>)
    ensures
        names@.len() == 2,
        names@[0]@ == "development"@,
        names@[1]@ == "local_testnet"@,
        forall|i: int| 0 <= i < names@.len() ==> spec_preset(#[trigger] names@[i]@) is Some,
{
    let mut names: Vec<String> = Vec::new();
    names.push(String::from_str("development"));
    names.push(String::from_str("local_testnet"));
    names
}

/// The preset of the given name, if there is one.
pub fn preset_of(id: &str) -> (preset: Option<Preset>)
    ensures
        preset == spec_preset(id@),
{
    let name = String::from_str(id);
    if name == String::from_str("development") {
        Some(Preset::Development)
    } else if name == String::from_str("local_testnet") {
        Some(Preset::LocalTestnet)
    } else {
        None
    }
}

/// The genesis patch of the bridge hub of Kusama: every endowed account gets
/// [`ENDOWMENT_FACTOR`] existential deposits, a candidate bonds
/// [`CANDIDACY_BOND_FACTOR`] of them, and each invulnerable collator is its
/// own validator.
pub fn bridge_hub_kusama_genesis(
    invulnerables: Vec<(AccountId, AuraId)>,
    endowed_accounts: Vec<AccountId>,
    id: u32,
    opened_bridges: Vec<OpenedBridge>,
    existential_deposit: Balance,
    safe_xcm_version: u32,
) -> (patch: GenesisPatch)
    requires
        existential_deposit * ENDOWMENT_FACTOR <= u128::MAX,
    ensures
        patch.balances@ == spec_balances(
            endowed_accounts@,
            (existential_deposit * ENDOWMENT_FACTOR) as u128,
        ),
        patch.parachain_id == id,
        patch.invulnerables@ == spec_collators(invulnerables@),
        patch.candidacy_bond == existential_deposit * CANDIDACY_BOND_FACTOR,
        patch.session_keys@ == spec_session_keys(invulnerables@),
        patch.safe_xcm_version == safe_xcm_version,
        patch.opened_bridges == opened_bridges,
{
    let endowment: Balance = existential_deposit * ENDOWMENT_FACTOR;
    let candidacy_bond: Balance = existential_deposit * CANDIDACY_BOND_FACTOR;
    let mut balances: Vec<(AccountId, Balance)> = Vec::new();
    let mut i: usize = 0;
    while i < endowed_accounts.len()
        invariant
            i <= endowed_accounts@.len(),
            balances@ == spec_balances(endowed_accounts@.subrange(0, i as int), endowment),
        decreases endowed_accounts@.len() - i,
    {
        balances.push((endowed_accounts[i], endowment));
        i += 1;
    }
    let mut collators: Vec<AccountId> = Vec::new();
    let mut session_keys: Vec<(AccountId, AccountId, AuraId)> = Vec::new();
    let mut k: usize = 0;
    while k < invulnerables.len()
        invariant
            k <= invulnerables@.len(),
            collators@ == spec_collators(invulnerables@.subrange(0, k as int)),
            session_keys@ == spec_session_keys(invulnerables@.subrange(0, k as int)),
        decreases invulnerables@.len() - k,
    {
        let (account, aura) = invulnerables[k];
        collators.push(account);
        session_keys.push((account, account, aura));
        k += 1;
    }
    GenesisPatch {
        balances,
        parachain_id: id,
        invulnerables: collators,
        candidacy_bond,
        session_keys,
        safe_xcm_version,
        opened_bridges,
    }
}

/// The chain on this side of the bridge to Polkadot: the asset hub of Kusama.
pub open spec fn spec_bridged_local() -> LocationView {
    LocationView { parents: 1, interior: seq![Junction::Parachain(ASSET_HUB_PARA_ID)] }
}

/// The chain on the other side of the bridge to Polkadot: the asset hub of Polkadot.
pub open spec fn spec_bridged_remote() -> Seq<Junction> {
    seq![Junction::GlobalConsensus(NetworkId::Polkadot), Junction::Parachain(ASSET_HUB_PARA_ID)]
}

/// The bytes of the lane of the bridge to Polkadot.
pub open spec fn spec_bridged_lane() -> Seq<u8> {
    seq![0u8, 0u8, 0u8, 1u8]
}

/// The accounts that a preset endows: the test accounts, and after them, for
/// development, the staking pot, so that benchmarks find it funded.
pub open spec fn spec_endowed(preset: Preset, inputs: PresetInputs) -> Seq<AccountId> {
    match preset {
        Preset::Development => inputs.testnet_accounts@.push(inputs.staking_pot),
        Preset::LocalTestnet => inputs.testnet_accounts@,
    }
}

/// Whether `bridges` are the bridges that a preset opens: none for
/// development, the one between the two asset hubs for a local test network.
pub open spec fn spec_opens(preset: Preset, bridges: Seq<OpenedBridge>) -> bool {
    match preset {
        Preset::Development => bridges.len() == 0,
        Preset::LocalTestnet => {
            &&& bridges.len() == 1
            &&& bridges[0].local@ == spec_bridged_local()
            &&& bridges[0].remote@ == spec_bridged_remote()
            &&& bridges[0].lane matches Some(lane)
            &&& lane.0@ == spec_bridged_lane()
        },
    }
}

/// A copy of a list of accounts.
fn copy_accounts(accounts: &Vec<AccountId>) -> (copy: Vec<AccountId>)
    ensures
        copy@ == accounts@,
{
    let mut copy: Vec<AccountId> = Vec::new();
    let mut i: usize = 0;
    while i < accounts.len()
        invariant
            i <= accounts@.len(),
            copy@ == accounts@.subrange(0, i as int),
        decreases accounts@.len() - i,
    {
        copy.push(accounts[i]);
        i += 1;
    }
    copy
}

/// A copy of a list of collators with their keys.
fn copy_invulnerables(invulnerables: &Vec<(AccountId, AuraId)>) -> (copy: Vec<(AccountId, AuraId)>)
    ensures
        copy@ == invulnerables@,
{
    let mut copy: Vec<(AccountId, AuraId)> = Vec::new();
    let mut i: usize = 0;
    while i < invulnerables.len()
        invariant
            i <= invulnerables@.len(),
            copy@ == invulnerables@.subrange(0, i as int),
        decreases invulnerables@.len() - i,
    {
        copy.push(invulnerables[i]);
        i += 1;
    }
    copy
}

/// The values of the preset named `id`, or nothing where no preset has that
/// name. Both presets are for parachain [`BRIDGE_HUB_KUSAMA_PARA_ID`] with the
/// invulnerable collators of `inputs`; they differ in the accounts that they
/// endow and in the bridges that they open.
pub fn get_preset(id: &str, inputs: &PresetInputs) -> (found: Option<GenesisPatch>)
    requires
        inputs.existential_deposit * ENDOWMENT_FACTOR <= u128::MAX,
    ensures
        found is Some <==> spec_preset(id@) is Some,
        found matches Some(patch) ==> {
            let preset = spec_preset(id@).unwrap();
            &&& patch.balances@ == spec_balances(
                spec_endowed(preset, *inputs),
                (inputs.existential_deposit * ENDOWMENT_FACTOR) as u128,
            )
            &&& patch.parachain_id == BRIDGE_HUB_KUSAMA_PARA_ID
            &&& patch.invulnerables@ == spec_collators(inputs.invulnerables@)
            &&& patch.candidacy_bond == inputs.existential_deposit * CANDIDACY_BOND_FACTOR
            &&& patch.session_keys@ == spec_session_keys(inputs.invulnerables@)
            &&& patch.safe_xcm_version == inputs.safe_xcm_version
            &&& spec_opens(preset, patch.opened_bridges@)
        },
{
    let (endowed, opened_bridges) = match preset_of(id) {
        Some(Preset::Development) => {
            let mut endowed = copy_accounts(&inputs.testnet_accounts);
            endowed.push(inputs.staking_pot);
            (endowed, Vec::new())
        },
        Some(Preset::LocalTestnet) => {
            let local = Location::new(1, vec![Junction::Parachain(ASSET_HUB_PARA_ID)]);
            let remote = vec![
                Junction::GlobalConsensus(NetworkId::Polkadot),
                Junction::Parachain(ASSET_HUB_PARA_ID),
            ];
            let lane = LegacyLaneId([0u8, 0u8, 0u8, 1u8]);
            assert(local@.interior =~= spec_bridged_local().interior);
            let mut bridges: Vec<OpenedBridge> = Vec::new();
            bridges.push(OpenedBridge { local, remote, lane: Some(lane) });
            (copy_accounts(&inputs.testnet_accounts), bridges)
        },
        None => {
            return None;
        },
    };
    Some(
        bridge_hub_kusama_genesis(
            copy_invulnerables(&inputs.invulnerables),
            endowed,
            BRIDGE_HUB_KUSAMA_PARA_ID,
            opened_bridges,
            inputs.existential_deposit,
            inputs.safe_xcm_version,
        ),
    )
}

} // verus!
