//! Reserve resolution: from the location of an asset to the locations that
//! back its value, by an ordered table of rules in which the first match wins.

use crate::location::{Junction, Location, LocationView};
use vstd::prelude::*;
use vstd::std_specs::cmp::PartialEqSpecImpl;
use vstd::std_specs::convert::FromSpecImpl;

verus! {

/// What a [`ForeignAssetReserveData`] stands for.
pub struct ReserveDataView {
    /// The location that backs the asset.
    pub reserve: LocationView,
    /// Whether the asset may be teleported to and from that location.
    pub teleportable: bool,
}

/// One reserve of a foreign asset: the location that backs it, and whether
/// the asset may be teleported to and from that location.
#[derive(Debug)]
pub struct ForeignAssetReserveData {
    /// The location that backs the asset.
    pub reserve: Location,
    /// Whether the asset may be teleported to and from that location.
    pub teleportable: bool,
}

impl View for ForeignAssetReserveData {
    type V = ReserveDataView;

    open spec fn view(&self) -> ReserveDataView {
        ReserveDataView { reserve: self.reserve@, teleportable: self.teleportable }
    }
}

impl From<(Location, bool)> for ForeignAssetReserveData {
    fn from(pair: (Location, bool)) -> (data: ForeignAssetReserveData) {
        ForeignAssetReserveData { reserve: pair.0, teleportable: pair.1 }
    }
}

impl FromSpecImpl<(Location, bool)> for ForeignAssetReserveData {
    open spec fn obeys_from_spec() -> bool {
        true
    }

    open spec fn from_spec(pair: (Location, bool)) -> ForeignAssetReserveData {
        ForeignAssetReserveData { reserve: pair.0, teleportable: pair.1 }
    }
}

impl Clone for ForeignAssetReserveData {
    fn clone(&self) -> (copy: ForeignAssetReserveData)
        ensures
            copy@ == self@,
    {
        ForeignAssetReserveData { reserve: self.reserve.clone(), teleportable: self.teleportable }
    }
}

impl PartialEq for ForeignAssetReserveData {
    fn eq(&self, other: &Self) -> (same: bool) {
        self.teleportable == other.teleportable && self.reserve == other.reserve
    }
}

impl Eq for ForeignAssetReserveData {}

impl PartialEqSpecImpl for ForeignAssetReserveData {
    open spec fn obeys_eq_spec() -> bool {
        true
    }

    open spec fn eq_spec(&self, other: &Self) -> bool {
        self@ == other@
    }
}

/// What a list of reserves stands for, one by one.
pub open spec fn reserve_views(reserves: Seq<ForeignAssetReserveData>) -> Seq<ReserveDataView> {
    reserves.map_values(|data: ForeignAssetReserveData| data@)
}

/// Whether two lists of reserves hold the same reserves in the same order.
pub fn same_reserves(a: &Vec<ForeignAssetReserveData>, b: &Vec<ForeignAssetReserveData>) -> (same:
    bool)
    ensures
        same == (reserve_views(a@) == reserve_views(b@)),
{
    if a.len() != b.len() {
        return false;
    }
    let mut i: usize = 0;
    while i < a.len()
        invariant
            i <= a@.len(),
            a@.len() == b@.len(),
            forall|j: int| 0 <= j < i ==> a@[j]@ == b@[j]@,
        decreases a@.len() - i,
    {
        if a[i] != b[i] {
            assert(reserve_views(a@)[i as int] == a@[i as int]@);
            assert(reserve_views(b@)[i as int] == b@[i as int]@);
            return false;
        }
        i += 1;
    }
    assert(reserve_views(a@) =~= reserve_views(b@));
    true
}

/// Whether a location is one hop up and then one parachain: a sibling parachain.
pub open spec fn is_sibling_parachain(asset: LocationView) -> bool {
    &&& asset.parents == 1
    &&& asset.interior.len() == 1
    &&& asset.interior[0] is Parachain
}

/// What a [`Rule`] stands for.
pub enum RuleView {
    /// A sibling parachain is the reserve of its own assets.
    SiblingParachain,
    /// The assets of a foreign ecosystem have one fixed reserve.
    Ecosystem { prefix: LocationView, reserve: LocationView },
}

impl RuleView {
    /// Whether this rule has something to say about `asset`.
    pub open spec fn matches(self, asset: LocationView) -> bool {
        match self {
            RuleView::SiblingParachain => is_sibling_parachain(asset),
            RuleView::Ecosystem { prefix, .. } => asset.parents == 2 && asset.starts_with(prefix),
        }
    }

    /// The reserves that this rule gives to an asset that it matches.
    pub open spec fn reserves(self, asset: LocationView) -> Seq<ReserveDataView> {
        match self {
            RuleView::SiblingParachain => seq![
                ReserveDataView { reserve: asset, teleportable: true },
            ],
            RuleView::Ecosystem { reserve, .. } => seq![
                ReserveDataView { reserve, teleportable: false },
            ],
        }
    }
}

/// The reserves of `asset` under `rules`: those of the first rule that
/// matches, or none where no rule does.
pub open spec fn resolve(rules: Seq<RuleView>, asset: LocationView) -> Seq<ReserveDataView>
    decreases rules.len(),
{
    if rules.len() == 0 {
        Seq::empty()
    } else if rules[0].matches(asset) {
        rules[0].reserves(asset)
    } else {
        resolve(rules.drop_first(), asset)
    }
}

/// One line of a rule table: a pattern of locations and the reserves of the
/// assets that it matches.
#[derive(Debug)]
pub enum Rule {
    /// Matches one hop up and then one parachain, and nothing else. Such an
    /// asset belongs to a sibling parachain, which is its only reserve, and
    /// the asset may be teleported.
    SiblingParachain,
    /// Matches two hops up and then a path that begins as `prefix` does. Such
    /// an asset belongs to a foreign ecosystem; `reserve` is its only reserve,
    /// and the asset may not be teleported.
    Ecosystem { prefix: Location, reserve: Location },
}

impl View for Rule {
    type V = RuleView;

    open spec fn view(&self) -> RuleView {
        match self {
            Rule::SiblingParachain => RuleView::SiblingParachain,
            Rule::Ecosystem { prefix, reserve } => RuleView::Ecosystem {
                prefix: prefix@,
                reserve: reserve@,
            },
        }
    }
}

impl Rule {
    /// The reserves that this rule gives to `asset`, if it matches.
    pub fn apply(&self, asset: &Location) -> (found: Option<Vec<ForeignAssetReserveData>>)
        ensures
            found is Some <==> self@.matches(asset@),
            found matches Some(reserves) ==> reserve_views(reserves@) == self@.reserves(asset@),
    {
        match self {
            Rule::SiblingParachain => {
                let (parents, junctions) = asset.unpack();
                if parents == 1 && junctions.len() == 1 {
                    match junctions[0] {
                        Junction::Parachain(id) => {
                            let mut interior: Vec<Junction> = Vec::new();
                            interior.push(Junction::Parachain(id));
                            let reserve = Location::new(1, interior);
                            assert(reserve@.interior =~= asset@.interior);
                            let mut reserves: Vec<ForeignAssetReserveData> = Vec::new();
                            reserves.push(ForeignAssetReserveData { reserve, teleportable: true });
                            Some(reserves)
                        },
                        _ => None,
                    }
                } else {
                    None
                }
            },
            Rule::Ecosystem { prefix, reserve } => {
                if asset.parent_count() == 2 && asset.starts_with(prefix) {
                    let mut reserves: Vec<ForeignAssetReserveData> = Vec::new();
                    reserves.push(
                        ForeignAssetReserveData { reserve: reserve.clone(), teleportable: false },
                    );
                    Some(reserves)
                } else {
                    None
                }
            },
        }
    }
}

/// What a list of rules stands for, one by one.
pub open spec fn rule_views(rules: Seq<Rule>) -> Seq<RuleView> {
    rules.map_values(|rule: Rule| rule@)
}

/// The rules of one deployment, in the order in which they are tried.
#[derive(Debug)]
pub struct RuleTable {
    /// The rules, first tried first.
    pub rules: Vec<Rule>,
}

impl View for RuleTable {
    type V = Seq<RuleView>;

    open spec fn view(&self) -> Seq<RuleView> {
        rule_views(self.rules@)
    }
}

impl RuleTable {
    /// The table that tries `rules` in their order.
    pub fn new(rules: Vec<Rule>) -> (table: RuleTable)
        ensures
            table@ == rule_views(rules@),
    {
        RuleTable { rules }
    }

    /// The reserves of `asset`: those of the first rule that matches it. An
    /// asset that no rule matches has none, which is no failure: it is not a
    /// foreign asset that these rules know.
    pub fn reserves_for(&self, asset: &Location) -> (reserves: Vec<ForeignAssetReserveData>)
        ensures
            reserve_views(reserves@) == resolve(self@, asset@),
            reserves@.len() <= 1,
    {
        proof {
            lemma_at_most_one_reserve(self@, asset@);
        }
        let mut i: usize = 0;
        assert(self@.subrange(0, self@.len() as int) =~= self@);
        while i < self.rules.len()
            invariant
                i <= self.rules@.len(),
                resolve(self@, asset@) == resolve(
                    self@.subrange(i as int, self@.len() as int),
                    asset@,
                ),
            decreases self.rules@.len() - i,
        {
            let ghost rest = self@.subrange(i as int, self@.len() as int);
            assert(rest[0] == self.rules@[i as int]@);
            assert(rest.drop_first() =~= self@.subrange(i + 1, self@.len() as int));
            match self.rules[i].apply(asset) {
                Some(reserves) => {
                    assert(reserve_views(reserves@).len() == reserves@.len());
                    return reserves;
                },
                None => {},
            }
            i += 1;
        }
        let reserves: Vec<ForeignAssetReserveData> = Vec::new();
        reserves
    }
}

/// The first match wins: where rule `i` matches an asset and no rule before
/// it does, the asset has the reserves that rule `i` gives, whatever the rules
/// after it say.
pub proof fn lemma_first_match_wins(rules: Seq<RuleView>, asset: LocationView, i: int)
    requires
        0 <= i < rules.len(),
        rules[i].matches(asset),
        forall|j: int| 0 <= j < i ==> !rules[j].matches(asset),
    ensures
        resolve(rules, asset) == rules[i].reserves(asset),
    decreases i,
{
    if i > 0 {
        let rest = rules.drop_first();
        assert(rest[i - 1] == rules[i]);
        assert forall|j: int| 0 <= j < i - 1 implies !rest[j].matches(asset) by {
            assert(rest[j] == rules[j + 1]);
        }
        lemma_first_match_wins(rest, asset, i - 1);
    }
}

/// An asset that no rule matches has no reserves.
pub proof fn lemma_no_match_no_reserves(rules: Seq<RuleView>, asset: LocationView)
    requires
        forall|j: int| 0 <= j < rules.len() ==> !rules[j].matches(asset),
    ensures
        resolve(rules, asset) == Seq::<ReserveDataView>::empty(),
    decreases rules.len(),
{
    if rules.len() > 0 {
        let rest = rules.drop_first();
        assert forall|j: int| 0 <= j < rest.len() implies !rest[j].matches(asset) by {
            assert(rest[j] == rules[j + 1]);
        }
        lemma_no_match_no_reserves(rest, asset);
    }
}

/// An asset has at most the reserves of one rule: either none, or those of
/// the first rule that matches it.
pub proof fn lemma_resolve_is_some_rule(rules: Seq<RuleView>, asset: LocationView)
    ensures
        resolve(rules, asset) == Seq::<ReserveDataView>::empty() || exists|i: int|
            0 <= i < rules.len() && rules[i].matches(asset) && resolve(rules, asset)
                == #[trigger] rules[i].reserves(asset),
    decreases rules.len(),
{
    if rules.len() > 0 && !rules[0].matches(asset) {
        let rest = rules.drop_first();
        lemma_resolve_is_some_rule(rest, asset);
        if resolve(rest, asset) != Seq::<ReserveDataView>::empty() {
            let i = choose|i: int|
                0 <= i < rest.len() && rest[i].matches(asset) && resolve(rest, asset)
                    == #[trigger] rest[i].reserves(asset);
            assert(rest[i] == rules[i + 1]);
            assert(resolve(rules, asset) == rules[i + 1].reserves(asset));
        }
    }
}

/// Under any rules an asset has one reserve or none: no rule gives more
/// than one, and only one rule is heard.
pub proof fn lemma_at_most_one_reserve(rules: Seq<RuleView>, asset: LocationView)
    ensures
        resolve(rules, asset).len() <= 1,
    decreases rules.len(),
{
    if rules.len() > 0 && !rules[0].matches(asset) {
        lemma_at_most_one_reserve(rules.drop_first(), asset);
    }
}

/// The two shapes exclude each other by their hop counts: no asset is
/// matched both by the rule for sibling parachains and by a rule for an
/// ecosystem. So it does not matter which of the two comes first in a table.
pub proof fn lemma_shapes_exclude_each_other(ecosystem: RuleView, asset: LocationView)
    requires
        ecosystem is Ecosystem,
    ensures
        !(RuleView::SiblingParachain.matches(asset) && ecosystem.matches(asset)),
{
}

/// Under any rules, only the asset of a sibling parachain may be teleported,
/// and only to and from that parachain: a reserve that is marked
/// teleportable is the asset's own location, one hop up and one parachain.
pub proof fn lemma_only_siblings_teleport(rules: Seq<RuleView>, asset: LocationView, i: int)
    requires
        0 <= i < resolve(rules, asset).len(),
        resolve(rules, asset)[i].teleportable,
    ensures
        is_sibling_parachain(asset),
        resolve(rules, asset)[i].reserve == asset,
    decreases rules.len(),
{
    if rules.len() > 0 && !rules[0].matches(asset) {
        lemma_only_siblings_teleport(rules.drop_first(), asset, i);
    }
}

/// Under any rules that know sibling parachains, a sibling parachain is the
/// one reserve of its own asset, and the asset may be teleported.
pub proof fn lemma_sibling_parachain_is_its_own_reserve(rules: Seq<RuleView>, asset: LocationView)
    requires
        is_sibling_parachain(asset),
        rules.contains(RuleView::SiblingParachain),
    ensures
        resolve(rules, asset) == seq![ReserveDataView { reserve: asset, teleportable: true }],
    decreases rules.len(),
{
    if !rules[0].matches(asset) {
        let rest = rules.drop_first();
        let i = choose|i: int| 0 <= i < rules.len() && rules[i] == RuleView::SiblingParachain;
        assert(rest[i - 1] == rules[i]);
        lemma_sibling_parachain_is_its_own_reserve(rest, asset);
    }
}

/// Under any rules, the place of the observer itself (no hops, no junctions)
/// has no reserves: it is no foreign asset.
pub proof fn lemma_here_has_no_reserves(rules: Seq<RuleView>, asset: LocationView)
    requires
        asset.parents == 0,
        asset.interior.len() == 0,
    ensures
        resolve(rules, asset) == Seq::<ReserveDataView>::empty(),
{
    lemma_no_match_no_reserves(rules, asset);
}

/// Under any rules, the parent of the observer (one hop, no junctions) has no
/// reserves: it is no foreign asset.
pub proof fn lemma_parent_has_no_reserves(rules: Seq<RuleView>, asset: LocationView)
    requires
        asset.parents == 1,
        asset.interior.len() == 0,
    ensures
        resolve(rules, asset) == Seq::<ReserveDataView>::empty(),
{
    lemma_no_match_no_reserves(rules, asset);
}

/// Junctions after a prefix do not matter: a location that begins as `prefix`
/// does so still with any junctions after its own.
pub proof fn lemma_trailing_junctions_keep_prefix(
    asset: LocationView,
    prefix: LocationView,
    trailing: Seq<Junction>,
)
    requires
        asset.starts_with(prefix),
    ensures
        asset.append(trailing).starts_with(prefix),
{
    let n = prefix.interior.len() as int;
    assert(asset.append(trailing).interior.subrange(0, n) =~= asset.interior.subrange(0, n));
}

/// Where an ecosystem rule is the first to match an asset, the asset has the
/// fixed reserve of that rule and may not be teleported, and so has the same
/// asset with any junctions after its own, unless an earlier rule matches
/// the longer location.
pub proof fn lemma_ecosystem_reserve_is_fixed(
    rules: Seq<RuleView>,
    i: int,
    asset: LocationView,
    trailing: Seq<Junction>,
)
    requires
        0 <= i < rules.len(),
        rules[i] is Ecosystem,
        rules[i].matches(asset),
        forall|j: int| 0 <= j < i ==> !rules[j].matches(asset),
        forall|j: int| 0 <= j < i ==> !rules[j].matches(asset.append(trailing)),
    ensures
        resolve(rules, asset) == seq![
            ReserveDataView { reserve: rules[i]->reserve, teleportable: false },
        ],
        resolve(rules, asset.append(trailing)) == resolve(rules, asset),
{
    lemma_first_match_wins(rules, asset, i);
    lemma_trailing_junctions_keep_prefix(asset, rules[i]->prefix, trailing);
    lemma_first_match_wins(rules, asset.append(trailing), i);
}

} // verus!
