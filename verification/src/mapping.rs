//! The persisted reserves as a value: for each asset that has any, its list
//! of reserves.
//!
//! Reading the reserves from storage and writing them back is left to the
//! caller; what is in between works on a [`ReserveMapping`].

use crate::location::{location_views, Location, LocationView};
use crate::reserves::{reserve_views, ForeignAssetReserveData, ReserveDataView};
use vstd::prelude::*;

verus! {

/// The reserves that are persisted for an asset: none where nothing is
/// persisted for it.
pub open spec fn persisted_reserves(
    persisted: Map<LocationView, Seq<ReserveDataView>>,
    asset_id: LocationView,
) -> Seq<ReserveDataView> {
    if persisted.dom().contains(asset_id) {
        persisted[asset_id]
    } else {
        Seq::empty()
    }
}

/// What is known of an asset from its persisted reserves.
#[derive(Clone, Copy, Debug, PartialEq, Eq, Structural)]
pub enum AssetState {
    /// Some reserve is persisted for the asset.
    Resolved,
    /// No reserve is persisted for the asset: it is not known as foreign.
    Unresolved,
}

/// The state of an asset: resolved where some reserve is persisted for it.
pub open spec fn asset_state(
    persisted: Map<LocationView, Seq<ReserveDataView>>,
    asset_id: LocationView,
) -> AssetState {
    if persisted_reserves(persisted, asset_id).len() > 0 {
        AssetState::Resolved
    } else {
        AssetState::Unresolved
    }
}

/// The reserves that are persisted for one asset.
#[derive(Debug)]
struct Entry {
    asset_id: Location,
    reserves: Vec<ForeignAssetReserveData>,
}

/// Whether some entry is for the asset `asset_id`.
spec fn has_entry(entries: Seq<Entry>, asset_id: LocationView) -> bool {
    exists|i: int| 0 <= i < entries.len() && #[trigger] entries[i].asset_id@ == asset_id
}

/// The index of an entry for the asset `asset_id`, where there is one.
spec fn entry_index(entries: Seq<Entry>, asset_id: LocationView) -> int {
    choose|i: int| 0 <= i < entries.len() && #[trigger] entries[i].asset_id@ == asset_id
}

/// Whether no two entries are for the same asset.
spec fn distinct_assets(entries: Seq<Entry>) -> bool {
    forall|i: int, j: int|
        0 <= i < j < entries.len() ==> #[trigger] entries[i].asset_id@
            != #[trigger] entries[j].asset_id@
}

/// The mapping that the entries stand for.
spec fn entries_map(entries: Seq<Entry>) -> Map<LocationView, Seq<ReserveDataView>> {
    Map::new(
        |asset_id: LocationView| has_entry(entries, asset_id),
        |asset_id: LocationView| reserve_views(entries[entry_index(entries, asset_id)].reserves@),
    )
}

/// With distinct assets, the entry at `i` is the one that the mapping holds
/// for its asset.
proof fn lemma_entry_is_mapped(entries: Seq<Entry>, i: int)
    requires
        distinct_assets(entries),
        0 <= i < entries.len(),
    ensures
        has_entry(entries, entries[i].asset_id@),
        entry_index(entries, entries[i].asset_id@) == i,
        entries_map(entries).dom().contains(entries[i].asset_id@),
        entries_map(entries)[entries[i].asset_id@] == reserve_views(entries[i].reserves@),
{
    let j = entry_index(entries, entries[i].asset_id@);
    assert(entries[j].asset_id@ == entries[i].asset_id@);
}

/// Replacing the entry of an asset by another entry for the same asset puts
/// the new reserves in the place of the old ones and changes nothing else.
proof fn lemma_update_inserts(entries: Seq<Entry>, i: int, entry: Entry)
    requires
        distinct_assets(entries),
        0 <= i < entries.len(),
        entries[i].asset_id@ == entry.asset_id@,
    ensures
        distinct_assets(entries.update(i, entry)),
        entries_map(entries.update(i, entry)) == entries_map(entries).insert(
            entry.asset_id@,
            reserve_views(entry.reserves@),
        ),
{
    let updated = entries.update(i, entry);
    let expected = entries_map(entries).insert(entry.asset_id@, reserve_views(entry.reserves@));
    // The entries are for the same assets as before, one by one.
    assert forall|j: int| 0 <= j < entries.len() implies #[trigger] updated[j].asset_id@
        == entries[j].asset_id@ by {}
    assert forall|k: LocationView| has_entry(updated, k) <==> has_entry(entries, k) by {
        if has_entry(updated, k) {
            assert(entries[entry_index(updated, k)].asset_id@ == k);
        }
        if has_entry(entries, k) {
            assert(updated[entry_index(entries, k)].asset_id@ == k);
        }
    }
    assert forall|k: LocationView| #[trigger]
        entries_map(updated).dom().contains(k) implies entries_map(updated)[k] == expected[k] by {
        let j = entry_index(updated, k);
        lemma_entry_is_mapped(updated, j);
        if j != i {
            lemma_entry_is_mapped(entries, j);
        }
    }
    assert(entries_map(updated) =~= expected);
}

/// Adding an entry for an asset that has none puts its reserves into the
/// mapping and changes nothing else.
proof fn lemma_push_inserts(entries: Seq<Entry>, entry: Entry)
    requires
        distinct_assets(entries),
        !has_entry(entries, entry.asset_id@),
    ensures
        distinct_assets(entries.push(entry)),
        entries_map(entries.push(entry)) == entries_map(entries).insert(
            entry.asset_id@,
            reserve_views(entry.reserves@),
        ),
{
    let pushed = entries.push(entry);
    let last = entries.len() as int;
    let expected = entries_map(entries).insert(entry.asset_id@, reserve_views(entry.reserves@));
    // The entries before the last are those that were there.
    assert forall|j: int| 0 <= j < last implies #[trigger] pushed[j] == entries[j] by {}
    assert(pushed[last] == entry);
    assert forall|k: LocationView|
        has_entry(pushed, k) <==> (has_entry(entries, k) || k == entry.asset_id@) by {
        if has_entry(pushed, k) && k != entry.asset_id@ {
            assert(entries[entry_index(pushed, k)].asset_id@ == k);
        }
        if has_entry(entries, k) {
            assert(pushed[entry_index(entries, k)].asset_id@ == k);
        }
        assert(pushed[last].asset_id@ == entry.asset_id@);
    }
    assert forall|k: LocationView| #[trigger]
        entries_map(pushed).dom().contains(k) implies entries_map(pushed)[k] == expected[k] by {
        let j = entry_index(pushed, k);
        lemma_entry_is_mapped(pushed, j);
        if j < last {
            lemma_entry_is_mapped(entries, j);
        }
    }
    assert(entries_map(pushed) =~= expected);
}

/// The persisted reserves: for each asset that has any, its list of reserves.
#[derive(Debug)]
pub struct ReserveMapping {
    entries: Vec<Entry>,
}

impl View for ReserveMapping {
    type V = Map<LocationView, Seq<ReserveDataView>>;

    closed spec fn view(&self) -> Map<LocationView, Seq<ReserveDataView>> {
        entries_map(self.entries@)
    }
}

impl ReserveMapping {
    #[verifier::type_invariant]
    spec fn distinct(self) -> bool {
        distinct_assets(self.entries@)
    }

    /// The mapping that holds nothing.
    pub fn new() -> (mapping: ReserveMapping)
        ensures
            mapping@ == Map::<LocationView, Seq<ReserveDataView>>::empty(),
    {
        let mapping = ReserveMapping { entries: Vec::new() };
        mapping
    }

    /// Where the entry for `asset_id` is, if there is one.
    fn position(&self, asset_id: &Location) -> (found: Option<usize>)
        ensures
            found is Some <==> has_entry(self.entries@, asset_id@),
            found matches Some(i) ==> i < self.entries@.len() && self.entries@[i as int].asset_id@
                == asset_id@,
    {
        let mut i: usize = 0;
        while i < self.entries.len()
            invariant
                i <= self.entries@.len(),
                forall|j: int| 0 <= j < i ==> self.entries@[j].asset_id@ != asset_id@,
            decreases self.entries@.len() - i,
        {
            if self.entries[i].asset_id == *asset_id {
                return Some(i);
            }
            i += 1;
        }
        None
    }

    /// The reserves that are persisted for `asset_id`, if any are.
    pub fn get(&self, asset_id: &Location) -> (found: Option<&Vec<ForeignAssetReserveData>>)
        ensures
            found is Some <==> self@.dom().contains(asset_id@),
            found matches Some(reserves) ==> reserve_views(reserves@) == self@[asset_id@],
    {
        proof {
            use_type_invariant(self);
        }
        match self.position(asset_id) {
            Some(i) => {
                proof {
                    lemma_entry_is_mapped(self.entries@, i as int);
                }
                Some(&self.entries[i].reserves)
            },
            None => None,
        }
    }

    /// Whether some reserve is persisted for `asset_id`. An asset with an
    /// empty list is as unresolved as one for which nothing is persisted.
    pub fn state_of(&self, asset_id: &Location) -> (state: AssetState)
        ensures
            state == asset_state(self@, asset_id@),
    {
        match self.get(asset_id) {
            Some(reserves) => {
                if reserves.len() > 0 {
                    AssetState::Resolved
                } else {
                    AssetState::Unresolved
                }
            },
            None => AssetState::Unresolved,
        }
    }

    /// The assets for which something is persisted, each once, in the order in
    /// which they were first persisted.
    pub fn asset_ids(&self) -> (ids: Vec<Location>)
        ensures
            forall|asset_id: LocationView|
                self@.dom().contains(asset_id) <==> location_views(ids@).contains(asset_id),
            forall|i: int, j: int|
                0 <= i < j < ids@.len() ==> location_views(ids@)[i] != location_views(ids@)[j],
    {
        proof {
            use_type_invariant(self);
        }
        let mut ids: Vec<Location> = Vec::new();
        let mut i: usize = 0;
        while i < self.entries.len()
            invariant
                i <= self.entries@.len(),
                ids@.len() == i,
                forall|j: int| 0 <= j < i ==> (#[trigger] ids@[j])@ == self.entries@[j].asset_id@,
            decreases self.entries@.len() - i,
        {
            ids.push(self.entries[i].asset_id.clone());
            i += 1;
        }
        proof {
            let views = location_views(ids@);
            assert forall|j: int| 0 <= j < views.len() implies #[trigger] views[j]
                == self.entries@[j].asset_id@ by {
                assert(views[j] == ids@[j]@);
            }
            assert forall|asset_id: LocationView|
                self@.dom().contains(asset_id) <==> views.contains(asset_id) by {
                if has_entry(self.entries@, asset_id) {
                    assert(views[entry_index(self.entries@, asset_id)] == asset_id);
                }
                if views.contains(asset_id) {
                    let j = choose|j: int| 0 <= j < views.len() && views[j] == asset_id;
                    assert(self.entries@[j].asset_id@ == asset_id);
                }
            }
        }
        ids
    }

    /// Persists `reserves` as the reserves of `asset_id`, in the place of
    /// those that were persisted for it before, if any were.
    pub fn put(&mut self, asset_id: Location, reserves: Vec<ForeignAssetReserveData>)
        ensures
            final(self)@ == old(self)@.insert(asset_id@, reserve_views(reserves@)),
    {
        proof {
            use_type_invariant(&*self);
        }
        let found = self.position(&asset_id);
        let entry = Entry { asset_id, reserves };
        let mut entries: Vec<Entry> = Vec::new();
        std::mem::swap(&mut self.entries, &mut entries);
        match found {
            Some(i) => {
                proof {
                    lemma_update_inserts(entries@, i as int, entry);
                }
                entries[i] = entry;
            },
            None => {
                proof {
                    lemma_push_inserts(entries@, entry);
                }
                entries.push(entry);
            },
        }
        std::mem::swap(&mut self.entries, &mut entries);
    }
}

} // verus!
