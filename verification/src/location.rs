//! Hierarchical addresses: a count of ancestor hops and a bounded path of junctions.
//!
//! Two locations are equal when they have the same hop count and the same
//! junctions, one by one. No location is brought into a normal form: two
//! different paths to one place are two different locations.

use vstd::prelude::*;
use vstd::std_specs::cmp::PartialEqSpecImpl;

verus! {

/// The largest number of junctions that a location holds.
pub const MAX_JUNCTIONS: usize = 8;

/// Whether two byte arrays of one length hold the same bytes.
pub fn bytes_equal<const N: usize>(a: &[u8; N], b: &[u8; N]) -> (same: bool)
    ensures
        same == (*a == *b),
{
    let mut i: usize = 0;
    while i < N
        invariant
            i <= N,
            forall|j: int| 0 <= j < i ==> a[j] == b[j],
        decreases N - i,
    {
        if a[i] != b[i] {
            return false;
        }
        i += 1;
    }
    assert(*a =~= *b);
    true
}

/// Identifies a global consensus system.
#[derive(Clone, Copy, Debug)]
pub enum NetworkId {
    /// A network named by the first 32 bytes of its genesis block.
    ByGenesis([u8; 32]),
    /// A network named by a block it contains.
    ByFork { block_number: u64, block_hash: [u8; 32] },
    /// The Polkadot relay chain.
    Polkadot,
    /// The Kusama relay chain.
    Kusama,
    /// An Ethereum network, named by its chain id.
    Ethereum { chain_id: u64 },
    /// The Bitcoin network as followed by Bitcoin Core.
    BitcoinCore,
    /// The Bitcoin network as followed by Bitcoin Cash.
    BitcoinCash,
    /// The Polkadot Bulletin chain.
    PolkadotBulletin,
}

impl PartialEq for NetworkId {
    fn eq(&self, other: &Self) -> (same: bool) {
        match (self, other) {
            (NetworkId::ByGenesis(a), NetworkId::ByGenesis(b)) => bytes_equal(a, b),
            (
                NetworkId::ByFork { block_number: n, block_hash: a },
                NetworkId::ByFork { block_number: m, block_hash: b },
            ) => *n == *m && bytes_equal(a, b),
            (NetworkId::Polkadot, NetworkId::Polkadot) => true,
            (NetworkId::Kusama, NetworkId::Kusama) => true,
            (NetworkId::Ethereum { chain_id: a }, NetworkId::Ethereum { chain_id: b }) => *a == *b,
            (NetworkId::BitcoinCore, NetworkId::BitcoinCore) => true,
            (NetworkId::BitcoinCash, NetworkId::BitcoinCash) => true,
            (NetworkId::PolkadotBulletin, NetworkId::PolkadotBulletin) => true,
            _ => false,
        }
    }
}

impl Eq for NetworkId {}

impl PartialEqSpecImpl for NetworkId {
    open spec fn obeys_eq_spec() -> bool {
        true
    }

    open spec fn eq_spec(&self, other: &Self) -> bool {
        *self == *other
    }
}

/// Names a body of members within a consensus system.
#[derive(Clone, Copy, Debug)]
pub enum BodyId {
    /// The only body in its context.
    Unit,
    /// A body with a name of four bytes.
    Moniker([u8; 4]),
    /// A body with a number.
    Index(u32),
    /// The executive body.
    Executive,
    /// The technical body.
    Technical,
    /// The legislative body.
    Legislative,
    /// The judicial body.
    Judicial,
    /// The defense body.
    Defense,
    /// The administration body.
    Administration,
    /// The treasury body.
    Treasury,
}

impl PartialEq for BodyId {
    fn eq(&self, other: &Self) -> (same: bool) {
        match (self, other) {
            (BodyId::Unit, BodyId::Unit) => true,
            (BodyId::Moniker(a), BodyId::Moniker(b)) => bytes_equal(a, b),
            (BodyId::Index(a), BodyId::Index(b)) => *a == *b,
            (BodyId::Executive, BodyId::Executive) => true,
            (BodyId::Technical, BodyId::Technical) => true,
            (BodyId::Legislative, BodyId::Legislative) => true,
            (BodyId::Judicial, BodyId::Judicial) => true,
            (BodyId::Defense, BodyId::Defense) => true,
            (BodyId::Administration, BodyId::Administration) => true,
            (BodyId::Treasury, BodyId::Treasury) => true,
            _ => false,
        }
    }
}

impl Eq for BodyId {}

impl PartialEqSpecImpl for BodyId {
    open spec fn obeys_eq_spec() -> bool {
        true
    }

    open spec fn eq_spec(&self, other: &Self) -> bool {
        *self == *other
    }
}

/// Which part of a body speaks.
#[derive(Clone, Copy, Debug, PartialEq, Eq, Structural)]
pub enum BodyPart {
    /// The body as a whole.
    Voice,
    /// A given number of members.
    Members { count: u32 },
    /// A given share of the members.
    Fraction { nom: u32, denom: u32 },
    /// No less than a given share of the members.
    AtLeastProportion { nom: u32, denom: u32 },
    /// More than a given share of the members.
    MoreThanProportion { nom: u32, denom: u32 },
}

/// One step of a path: a place within the place that the steps before it lead to.
#[derive(Clone, Copy, Debug)]
#[allow(inconsistent_fields)]
pub enum Junction {
    /// A parachain of the relay chain in context, by its number.
    Parachain(u32),
    /// An account with an identifier of 32 bytes.
    AccountId32 { network: Option<NetworkId>, id: [u8; 32] },
    /// An account with an index of 8 bytes.
    AccountIndex64 { network: Option<NetworkId>, index: u64 },
    /// An account with a key of 20 bytes.
    AccountKey20 { network: Option<NetworkId>, key: [u8; 20] },
    /// A pallet of the chain in context, by its index.
    PalletInstance(u8),
    /// An index without further meaning.
    GeneralIndex(u128),
    /// A key of at most 32 bytes without further meaning.
    GeneralKey { length: u8, data: [u8; 32] },
    /// The only child of the place in context.
    OnlyChild,
    /// A body of members, or a part of one.
    Plurality { id: BodyId, part: BodyPart },
    /// A global consensus system.
    GlobalConsensus(NetworkId),
}

impl PartialEq for Junction {
    fn eq(&self, other: &Self) -> (same: bool) {
        match (self, other) {
            (Junction::Parachain(a), Junction::Parachain(b)) => *a == *b,
            (
                Junction::AccountId32 { network: n, id: a },
                Junction::AccountId32 { network: m, id: b },
            ) => *n == *m && bytes_equal(a, b),
            (
                Junction::AccountIndex64 { network: n, index: a },
                Junction::AccountIndex64 { network: m, index: b },
            ) => *n == *m && *a == *b,
            (
                Junction::AccountKey20 { network: n, key: a },
                Junction::AccountKey20 { network: m, key: b },
            ) => *n == *m && bytes_equal(a, b),
            (Junction::PalletInstance(a), Junction::PalletInstance(b)) => *a == *b,
            (Junction::GeneralIndex(a), Junction::GeneralIndex(b)) => *a == *b,
            (
                Junction::GeneralKey { length: n, data: a },
                Junction::GeneralKey { length: m, data: b },
            ) => *n == *m && bytes_equal(a, b),
            (Junction::OnlyChild, Junction::OnlyChild) => true,
            (Junction::Plurality { id: a, part: p }, Junction::Plurality { id: b, part: q }) => {
                *a == *b && *p == *q
            },
            (Junction::GlobalConsensus(a), Junction::GlobalConsensus(b)) => *a == *b,
            _ => false,
        }
    }
}

impl Eq for Junction {}

impl PartialEqSpecImpl for Junction {
    open spec fn obeys_eq_spec() -> bool {
        true
    }

    open spec fn eq_spec(&self, other: &Self) -> bool {
        *self == *other
    }
}

/// More junctions than a location holds: more than [`MAX_JUNCTIONS`].
#[derive(Clone, Copy, Debug, PartialEq, Eq, Structural)]
pub struct OverflowError;

/// What a [`Location`] stands for: how many steps up, then which path down.
pub struct LocationView {
    /// The number of ancestor hops.
    pub parents: nat,
    /// The junctions, first step first.
    pub interior: Seq<Junction>,
}

impl LocationView {
    /// Whether this location has the hop count of `prefix` and begins with its junctions.
    pub open spec fn starts_with(self, prefix: LocationView) -> bool {
        &&& self.parents == prefix.parents
        &&& prefix.interior.len() <= self.interior.len()
        &&& self.interior.subrange(0, prefix.interior.len() as int) == prefix.interior
    }

    /// This location with `suffix` after its junctions.
    pub open spec fn append(self, suffix: Seq<Junction>) -> LocationView {
        LocationView { parents: self.parents, interior: self.interior + suffix }
    }

    /// Whether the hop count and the number of junctions are within the
    /// limits that hold of every [`Location`].
    pub open spec fn wf(self) -> bool {
        self.parents <= u8::MAX && self.interior.len() <= MAX_JUNCTIONS
    }
}

/// What a list of locations stands for, one by one.
pub open spec fn location_views(locations: Seq<Location>) -> Seq<LocationView> {
    locations.map_values(|location: Location| location@)
}

/// A relative address: a number of ancestor hops, then at most
/// [`MAX_JUNCTIONS`] junctions.
#[derive(Debug)]
pub struct Location {
    parents: u8,
    interior: Vec<Junction>,
}

impl View for Location {
    type V = LocationView;

    closed spec fn view(&self) -> LocationView {
        LocationView { parents: self.parents as nat, interior: self.interior@ }
    }
}

impl Location {
    #[verifier::type_invariant]
    spec fn bounded(self) -> bool {
        self.interior@.len() <= MAX_JUNCTIONS
    }

    /// The location with the given hop count and junctions.
    pub fn new(parents: u8, interior: Vec<Junction>) -> (location: Location)
        requires
            interior@.len() <= MAX_JUNCTIONS,
        ensures
            location@ == (LocationView { parents: parents as nat, interior: interior@ }),
            location@.wf(),
    {
        Location { parents, interior }
    }

    /// The location with the given hop count and junctions, unless they are too many.
    pub fn try_new(parents: u8, interior: Vec<Junction>) -> (made: Result<Location, OverflowError>)
        ensures
            made is Ok <==> interior@.len() <= MAX_JUNCTIONS,
            made matches Ok(location) ==> location@ == (LocationView {
                parents: parents as nat,
                interior: interior@,
            }),
    {
        if interior.len() <= MAX_JUNCTIONS {
            Ok(Location { parents, interior })
        } else {
            Err(OverflowError)
        }
    }

    /// The place of the observer itself: no hops, no junctions.
    pub fn here() -> (location: Location)
        ensures
            location@ == (LocationView { parents: 0, interior: Seq::empty() }),
    {
        Location { parents: 0, interior: Vec::new() }
    }

    /// The parent of the observer: one hop, no junctions.
    pub fn parent() -> (location: Location)
        ensures
            location@ == (LocationView { parents: 1, interior: Seq::empty() }),
    {
        Location { parents: 1, interior: Vec::new() }
    }

    /// The number of ancestor hops.
    pub fn parent_count(&self) -> (parents: u8)
        ensures
            parents == self@.parents,
            self@.wf(),
    {
        proof {
            use_type_invariant(self);
        }
        self.parents
    }

    /// The junctions, first step first.
    pub fn interior(&self) -> (interior: &[Junction])
        ensures
            interior@ == self@.interior,
            self@.wf(),
    {
        proof {
            use_type_invariant(self);
        }
        self.interior.as_slice()
    }

    /// The hop count and the junctions, for matching on both.
    pub fn unpack(&self) -> (parts: (u8, &[Junction]))
        ensures
            parts.0 == self@.parents,
            parts.1@ == self@.interior,
            self@.wf(),
    {
        proof {
            use_type_invariant(self);
        }
        (self.parents, self.interior.as_slice())
    }

    /// Whether this location has the hop count of `prefix` and begins with
    /// its junctions. A location shorter than `prefix` does not.
    pub fn starts_with(&self, prefix: &Location) -> (begins: bool)
        ensures
            begins == self@.starts_with(prefix@),
    {
        if self.parents != prefix.parents {
            return false;
        }
        let n = prefix.interior.len();
        if n > self.interior.len() {
            return false;
        }
        let mut i: usize = 0;
        while i < n
            invariant
                i <= n,
                n == prefix.interior@.len(),
                n <= self.interior@.len(),
                forall|j: int| 0 <= j < i ==> self.interior@[j] == prefix.interior@[j],
            decreases n - i,
        {
            if self.interior[i] != prefix.interior[i] {
                return false;
            }
            i += 1;
        }
        assert(self.interior@.subrange(0, n as int) =~= prefix.interior@);
        true
    }

    /// This location with `suffix` after its junctions, unless that makes
    /// more than [`MAX_JUNCTIONS`] of them.
    pub fn append(&self, suffix: &[Junction]) -> (appended: Result<Location, OverflowError>)
        ensures
            appended is Ok <==> self@.interior.len() + suffix@.len() <= MAX_JUNCTIONS,
            appended matches Ok(location) ==> location@ == self@.append(suffix@),
    {
        proof {
            use_type_invariant(self);
        }
        if suffix.len() > MAX_JUNCTIONS - self.interior.len() {
            return Err(OverflowError);
        }
        let mut interior: Vec<Junction> = Vec::new();
        let mut i: usize = 0;
        while i < self.interior.len()
            invariant
                i <= self.interior@.len(),
                interior@ == self.interior@.subrange(0, i as int),
            decreases self.interior@.len() - i,
        {
            interior.push(self.interior[i]);
            i += 1;
        }
        let mut k: usize = 0;
        while k < suffix.len()
            invariant
                k <= suffix@.len(),
                interior@ == self.interior@ + suffix@.subrange(0, k as int),
            decreases suffix@.len() - k,
        {
            interior.push(suffix[k]);
            k += 1;
        }
        assert(suffix@.subrange(0, k as int) =~= suffix@);
        Ok(Location { parents: self.parents, interior })
    }
}

impl Clone for Location {
    fn clone(&self) -> (copy: Location)
        ensures
            copy@ == self@,
    {
        proof {
            use_type_invariant(self);
        }
        let mut interior: Vec<Junction> = Vec::new();
        let mut i: usize = 0;
        while i < self.interior.len()
            invariant
                i <= self.interior@.len(),
                interior@ == self.interior@.subrange(0, i as int),
            decreases self.interior@.len() - i,
        {
            interior.push(self.interior[i]);
            i += 1;
        }
        assert(interior@ =~= self.interior@);
        Location { parents: self.parents, interior }
    }
}

impl PartialEq for Location {
    fn eq(&self, other: &Self) -> (same: bool) {
        if self.parents != other.parents {
            return false;
        }
        let n = self.interior.len();
        if n != other.interior.len() {
            return false;
        }
        let mut i: usize = 0;
        while i < n
            invariant
                i <= n,
                n == self.interior@.len(),
                n == other.interior@.len(),
                forall|j: int| 0 <= j < i ==> self.interior@[j] == other.interior@[j],
            decreases n - i,
        {
            if self.interior[i] != other.interior[i] {
                return false;
            }
            i += 1;
        }
        assert(self.interior@ =~= other.interior@);
        true
    }
}

impl Eq for Location {}

impl PartialEqSpecImpl for Location {
    open spec fn obeys_eq_spec() -> bool {
        true
    }

    open spec fn eq_spec(&self, other: &Self) -> bool {
        self@ == other@
    }
}

} // verus!
