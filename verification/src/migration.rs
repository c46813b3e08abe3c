//! Bringing the persisted reserves of the registered assets into agreement
//! with the rules, and checking that agreement without changing anything.

use crate::location::{location_views, Location, LocationView};
use crate::mapping::{asset_state, persisted_reserves, AssetState, ReserveMapping};
use crate::reserves::{
    reserve_views, resolve, same_reserves, ForeignAssetReserveData, ReserveDataView, RuleTable,
    RuleView,
};
use vstd::prelude::*;

verus! {

/// The persisted reserves after the migration: each registered asset has
/// the reserves that the rules give it, in the place of what it had; what is
/// persisted for other assets stays.
pub open spec fn migrated(
    rules: Seq<RuleView>,
    registry: Seq<LocationView>,
    persisted: Map<LocationView, Seq<ReserveDataView>>,
) -> Map<LocationView, Seq<ReserveDataView>> {
    Map::new(
        |asset_id: LocationView| persisted.dom().contains(asset_id) || registry.contains(asset_id),
        |asset_id: LocationView|
            if registry.contains(asset_id) {
                resolve(rules, asset_id)
            } else {
                persisted[asset_id]
            },
    )
}

/// The writes of the migration: for each registered asset, in the order of
/// the registry, the asset and the reserves that the rules give it.
pub open spec fn planned_writes(rules: Seq<RuleView>, registry: Seq<LocationView>) -> Seq<
    (LocationView, Seq<ReserveDataView>),
> {
    Seq::new(registry.len(), |i: int| (registry[i], resolve(rules, registry[i])))
}

/// What is persisted after `writes` were made one after the other, each in
/// the place of what was persisted for its asset.
pub open spec fn written(
    persisted: Map<LocationView, Seq<ReserveDataView>>,
    writes: Seq<(LocationView, Seq<ReserveDataView>)>,
) -> Map<LocationView, Seq<ReserveDataView>>
    decreases writes.len(),
{
    if writes.len() == 0 {
        persisted
    } else {
        written(persisted, writes.drop_last()).insert(writes.last().0, writes.last().1)
    }
}

/// What a list of writes stands for, one by one.
pub open spec fn write_views(writes: Seq<(Location, Vec<ForeignAssetReserveData>)>) -> Seq<
    (LocationView, Seq<ReserveDataView>),
> {
    writes.map_values(
        |write: (Location, Vec<ForeignAssetReserveData>)| (write.0@, reserve_views(write.1@)),
    )
}

/// Whether what is persisted for an asset is what the rules give it.
#[derive(Clone, Copy, Debug, PartialEq, Eq, Structural)]
pub enum Verdict {
    /// The persisted reserves are those that the rules give.
    Matches,
    /// The persisted reserves are others than those that the rules give.
    Differs,
}

/// The verdict on one asset: whether its persisted reserves are, one by one
/// and in order, the reserves that the rules give it.
pub open spec fn verdict(
    rules: Seq<RuleView>,
    asset_id: LocationView,
    persisted: Map<LocationView, Seq<ReserveDataView>>,
) -> Verdict {
    if persisted_reserves(persisted, asset_id) == resolve(rules, asset_id) {
        Verdict::Matches
    } else {
        Verdict::Differs
    }
}

/// What a [`CheckOutcome`] stands for.
pub struct CheckOutcomeView {
    /// The asset that was checked.
    pub asset_id: LocationView,
    /// Whether its persisted reserves are those that the rules give it.
    pub verdict: Verdict,
}

/// The outcome of checking one registered asset.
#[derive(Debug)]
pub struct CheckOutcome {
    /// The asset that was checked.
    pub asset_id: Location,
    /// Whether its persisted reserves are those that the rules give it.
    pub verdict: Verdict,
}

impl View for CheckOutcome {
    type V = CheckOutcomeView;

    open spec fn view(&self) -> CheckOutcomeView {
        CheckOutcomeView { asset_id: self.asset_id@, verdict: self.verdict }
    }
}

/// What a report stands for, outcome by outcome.
pub open spec fn outcome_views(report: Seq<CheckOutcome>) -> Seq<CheckOutcomeView> {
    report.map_values(|outcome: CheckOutcome| outcome@)
}

/// The report of a check: one outcome for each registered asset, in the order
/// of the registry.
pub open spec fn check_report(
    rules: Seq<RuleView>,
    registry: Seq<LocationView>,
    persisted: Map<LocationView, Seq<ReserveDataView>>,
) -> Seq<CheckOutcomeView> {
    Seq::new(
        registry.len(),
        |i: int|
            CheckOutcomeView {
                asset_id: registry[i],
                verdict: verdict(rules, registry[i], persisted),
            },
    )
}

/// The number of outcomes in a report that say `Differs`.
pub open spec fn mismatch_count(report: Seq<CheckOutcomeView>) -> nat
    decreases report.len(),
{
    if report.len() == 0 {
        0
    } else {
        let rest = mismatch_count(report.drop_last());
        if report.last().verdict == Verdict::Differs {
            rest + 1
        } else {
            rest
        }
    }
}

/// The number of outcomes in `report` that say `Differs`.
pub fn mismatches(report: &Vec<CheckOutcome>) -> (count: usize)
    ensures
        count == mismatch_count(outcome_views(report@)),
{
    let mut count: usize = 0;
    let mut i: usize = 0;
    while i < report.len()
        invariant
            i <= report@.len(),
            count <= i,
            count == mismatch_count(outcome_views(report@).subrange(0, i as int)),
        decreases report@.len() - i,
    {
        let ghost seen = outcome_views(report@).subrange(0, i + 1);
        assert(seen.drop_last() =~= outcome_views(report@).subrange(0, i as int));
        if report[i].verdict == Verdict::Differs {
            count += 1;
        }
        i += 1;
    }
    assert(outcome_views(report@).subrange(0, i as int) =~= outcome_views(report@));
    count
}

/// The migration of the persisted reserves to the rules of one deployment.
#[derive(Debug)]
pub struct Migration {
    /// The rules that give each asset its reserves.
    pub rules: RuleTable,
}

impl View for Migration {
    type V = Seq<RuleView>;

    open spec fn view(&self) -> Seq<RuleView> {
        self.rules@
    }
}

impl Migration {
    /// The migration to `rules`.
    pub fn new(rules: RuleTable) -> (migration: Migration)
        ensures
            migration@ == rules@,
    {
        Migration { rules }
    }

    /// The writes that bring the persisted reserves into agreement with the
    /// rules: for each asset in `registry`, in that order, the asset and the
    /// reserves that the rules give it. An asset without a reserve gets an
    /// empty list.
    pub fn plan(&self, registry: &Vec<Location>) -> (writes: Vec<
        (Location, Vec<ForeignAssetReserveData>),
    >)
        ensures
            write_views(writes@) == planned_writes(self@, location_views(registry@)),
    {
        let ghost ids = location_views(registry@);
        let mut writes: Vec<(Location, Vec<ForeignAssetReserveData>)> = Vec::new();
        let mut i: usize = 0;
        while i < registry.len()
            invariant
                i <= registry@.len(),
                ids == location_views(registry@),
                writes@.len() == i,
                forall|j: int|
                    0 <= j < i ==> (#[trigger] writes@[j]).0@ == ids[j] && reserve_views(
                        writes@[j].1@,
                    ) == resolve(self@, ids[j]),
            decreases registry@.len() - i,
        {
            let reserves = self.rules.reserves_for(&registry[i]);
            writes.push((registry[i].clone(), reserves));
            i += 1;
        }
        writes
    }

    /// Persists, for each asset in `registry`, the reserves that the rules
    /// give it, in the place of what was persisted for it. An asset without a
    /// reserve gets an empty list. What is persisted for assets outside
    /// `registry` stays as it is.
    pub fn apply(&self, registry: &Vec<Location>, mapping: &mut ReserveMapping)
        ensures
            final(mapping)@ == migrated(self@, location_views(registry@), old(mapping)@),
    {
        let ghost ids = location_views(registry@);
        let mut i: usize = 0;
        while i < registry.len()
            invariant
                i <= registry@.len(),
                ids == location_views(registry@),
                mapping@ == migrated(self@, ids.subrange(0, i as int), old(mapping)@),
            decreases registry@.len() - i,
        {
            let asset_id = registry[i].clone();
            let reserves = self.rules.reserves_for(&asset_id);
            mapping.put(asset_id, reserves);
            proof {
                assert(ids[i as int] == registry@[i as int]@);
                lemma_longer_prefix(ids, i as int);
                assert(mapping@ =~= migrated(self@, ids.subrange(0, i + 1), old(mapping)@));
            }
            i += 1;
        }
        assert(ids.subrange(0, i as int) =~= ids);
    }

    /// Compares, for each asset in `registry`, what is persisted for it with
    /// the reserves that the rules give it, and changes nothing. An asset for
    /// which nothing is persisted counts as one with an empty list.
    pub fn check(&self, registry: &Vec<Location>, mapping: &ReserveMapping) -> (report: Vec<
        CheckOutcome,
    >)
        ensures
            outcome_views(report@) == check_report(self@, location_views(registry@), mapping@),
    {
        let ghost ids = location_views(registry@);
        let mut report: Vec<CheckOutcome> = Vec::new();
        let mut i: usize = 0;
        while i < registry.len()
            invariant
                i <= registry@.len(),
                ids == location_views(registry@),
                report@.len() == i,
                forall|j: int|
                    0 <= j < i ==> (#[trigger] report@[j])@ == (CheckOutcomeView {
                        asset_id: ids[j],
                        verdict: verdict(self@, ids[j], mapping@),
                    }),
            decreases registry@.len() - i,
        {
            let expected = self.rules.reserves_for(&registry[i]);
            let matches = match mapping.get(&registry[i]) {
                Some(persisted) => same_reserves(persisted, &expected),
                None => {
                    expected.len() == 0
                },
            };
            assert(matches == (persisted_reserves(mapping@, ids[i as int]) =~= resolve(
                self@,
                ids[i as int],
            )));
            let verdict = if matches {
                Verdict::Matches
            } else {
                Verdict::Differs
            };
            report.push(CheckOutcome { asset_id: registry[i].clone(), verdict });
            i += 1;
        }
        report
    }
}

/// A prefix that is longer by one holds what the shorter prefix holds, and
/// the element after it.
proof fn lemma_longer_prefix(ids: Seq<LocationView>, i: int)
    requires
        0 <= i < ids.len(),
    ensures
        forall|k: LocationView| #[trigger]
            ids.subrange(0, i + 1).contains(k) <==> (ids.subrange(0, i).contains(k) || k
                == ids[i]),
{
    let shorter = ids.subrange(0, i);
    let longer = ids.subrange(0, i + 1);
    assert forall|k: LocationView| longer.contains(k) <==> (shorter.contains(k) || k
        == ids[i]) by {
        if longer.contains(k) {
            let j = choose|j: int| 0 <= j < longer.len() && longer[j] == k;
            if j < i {
                assert(shorter[j] == k);
            }
        }
        if shorter.contains(k) {
            let j = choose|j: int| 0 <= j < shorter.len() && shorter[j] == k;
            assert(longer[j] == k);
        }
        assert(longer[i] == ids[i]);
    }
}

/// Applying the migration twice with the same rules and the same registry
/// leaves what the first run persisted.
pub proof fn lemma_apply_is_idempotent(
    rules: Seq<RuleView>,
    registry: Seq<LocationView>,
    persisted: Map<LocationView, Seq<ReserveDataView>>,
)
    ensures
        migrated(rules, registry, migrated(rules, registry, persisted)) == migrated(
            rules,
            registry,
            persisted,
        ),
{
}

/// Making the planned writes one after the other persists what the migration
/// persists.
pub proof fn lemma_planned_writes_migrate(
    rules: Seq<RuleView>,
    registry: Seq<LocationView>,
    persisted: Map<LocationView, Seq<ReserveDataView>>,
)
    ensures
        written(persisted, planned_writes(rules, registry)) == migrated(rules, registry, persisted),
    decreases registry.len(),
{
    if registry.len() > 0 {
        let last = registry.len() - 1;
        let earlier = registry.drop_last();
        lemma_planned_writes_migrate(rules, earlier, persisted);
        assert(planned_writes(rules, registry).drop_last() =~= planned_writes(rules, earlier));
        lemma_longer_prefix(registry, last);
        assert(registry.subrange(0, last + 1) =~= registry);
    }
}

/// After the migration, a check with the same rules and the same registry
/// finds that every registered asset matches: it reports no mismatch.
pub proof fn lemma_check_after_apply_matches(
    rules: Seq<RuleView>,
    registry: Seq<LocationView>,
    persisted: Map<LocationView, Seq<ReserveDataView>>,
)
    ensures
        forall|i: int|
            0 <= i < registry.len() ==> (#[trigger] check_report(
                rules,
                registry,
                migrated(rules, registry, persisted),
            )[i]).verdict == Verdict::Matches,
        mismatch_count(check_report(rules, registry, migrated(rules, registry, persisted))) == 0,
{
    let report = check_report(rules, registry, migrated(rules, registry, persisted));
    assert forall|i: int| 0 <= i < report.len() implies (#[trigger] report[i]).verdict
        == Verdict::Matches by {
        assert(registry.contains(registry[i]));
    }
    lemma_all_match_no_mismatch(report);
}

/// After the migration, a registered asset is resolved exactly where the
/// rules give it a reserve; nothing else moves it from one state to the other.
pub proof fn lemma_state_after_apply(
    rules: Seq<RuleView>,
    registry: Seq<LocationView>,
    persisted: Map<LocationView, Seq<ReserveDataView>>,
    asset_id: LocationView,
)
    ensures
        registry.contains(asset_id) ==> (asset_state(
            migrated(rules, registry, persisted),
            asset_id,
        ) == AssetState::Resolved <==> resolve(rules, asset_id).len() > 0),
        !registry.contains(asset_id) ==> asset_state(
            migrated(rules, registry, persisted),
            asset_id,
        ) == asset_state(persisted, asset_id),
{
}

/// A report in which every outcome says `Matches` counts no mismatch.
pub proof fn lemma_all_match_no_mismatch(report: Seq<CheckOutcomeView>)
    requires
        forall|i: int| 0 <= i < report.len() ==> (#[trigger] report[i]).verdict == Verdict::Matches,
    ensures
        mismatch_count(report) == 0,
    decreases report.len(),
{
    if report.len() > 0 {
        let rest = report.drop_last();
        assert forall|i: int| 0 <= i < rest.len() implies (#[trigger] rest[i]).verdict
            == Verdict::Matches by {
            assert(rest[i] == report[i]);
        }
        lemma_all_match_no_mismatch(rest);
    }
}

/// The order of the registry, and how often it names an asset, do not
/// matter to what the migration persists.
pub proof fn lemma_apply_ignores_order(
    rules: Seq<RuleView>,
    registry: Seq<LocationView>,
    reordered: Seq<LocationView>,
    persisted: Map<LocationView, Seq<ReserveDataView>>,
)
    requires
        forall|asset_id: LocationView|
            registry.contains(asset_id) <==> reordered.contains(asset_id),
    ensures
        migrated(rules, registry, persisted) == migrated(rules, reordered, persisted),
{
}

} // verus!
