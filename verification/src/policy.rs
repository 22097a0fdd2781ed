//! The two ways of choosing what to fetch: everything that was marked for
//! transfer on the camera, or everything that is new since the last run.

use vstd::prelude::*;
use crate::config::Config;
use crate::item::{item_views, ItemView, TransferItem};
use crate::state::STATE_FILE_NAME;
use crate::timestamp::{lemma_before_orders, CivilTime, Timestamp};

verus! {

/// Where a policy's catalog comes from.
#[derive(Debug, Clone, Copy, PartialEq, Eq, Structural)]
pub enum Source {
    /// The files that were marked for transfer on the camera: one listing.
    TransferOrder,
    /// Every file below the root directory: a walk over the directories.
    Directories,
}

/// A sync state as a plain value.
pub open spec fn state_view(state: Option<Timestamp>) -> Option<CivilTime> {
    match state {
        Some(t) => Some(t@),
        None => None,
    }
}

/// A directory setting as a plain value.
pub open spec fn directory_view(directory: Option<String>) -> Option<Seq<char>> {
    match directory {
        Some(d) => Some(d@),
        None => None,
    }
}

/// Whether an entry was modified after the sync state: always, where there is no state.
pub open spec fn is_new(item: ItemView, state: Option<CivilTime>) -> bool {
    match state {
        Some(t) => t.before(item.date),
        None => true,
    }
}

/// The entries that were modified after the sync state, in their order.
pub open spec fn newer_than(items: Seq<ItemView>, state: Option<CivilTime>) -> Seq<ItemView>
    decreases items.len(),
{
    if items.len() == 0 {
        items
    } else if is_new(items.last(), state) {
        newer_than(items.drop_last(), state).push(items.last())
    } else {
        newer_than(items.drop_last(), state)
    }
}

/// An entry put into a run of entries, behind all that are not younger than it.
pub open spec fn insert_by_date(sorted: Seq<ItemView>, item: ItemView) -> Seq<ItemView>
    decreases sorted.len(),
{
    if sorted.len() == 0 || !item.date.before(sorted.last().date) {
        sorted.push(item)
    } else {
        insert_by_date(sorted.drop_last(), item).push(sorted.last())
    }
}

/// The entries from the oldest to the youngest; entries of the same moment
/// keep their order.
pub open spec fn sorted_by_date(items: Seq<ItemView>) -> Seq<ItemView>
    decreases items.len(),
{
    if items.len() == 0 {
        items
    } else {
        insert_by_date(sorted_by_date(items.drop_last()), items.last())
    }
}

/// No entry is older than one that stands before it.
pub open spec fn ascending(items: Seq<ItemView>) -> bool {
    forall|i: int, j: int| 0 <= i < j < items.len() ==> !items[j].date.before(items[i].date)
}

/// What an incremental transfer fetches: the catalog from the oldest entry to
/// the youngest, without what the sync state covers already.
pub open spec fn incremental_selection(catalog: Seq<ItemView>, state: Option<CivilTime>) -> Seq<ItemView> {
    newer_than(sorted_by_date(catalog), state)
}

/// Sorts the entries by their date, oldest first.
pub fn sort_by_date(items: &Vec<TransferItem>) -> (sorted: Vec<TransferItem>)
    ensures
        item_views(sorted@) == sorted_by_date(item_views(items@)),
{
    let mut sorted: Vec<TransferItem> = Vec::new();
    let mut i: usize = 0;
    assert(item_views(items@).take(0) == Seq::<ItemView>::empty());
    assert(item_views(sorted@) == Seq::<ItemView>::empty());
    while i < items.len()
        invariant
            i <= items.len(),
            item_views(sorted@) == sorted_by_date(item_views(items@).take(i as int)),
        decreases items.len() - i,
    {
        let item = items[i].clone();
        let ghost all = item_views(items@);
        let ghost run = item_views(sorted@);
        let mut p: usize = sorted.len();
        assert(run.take(p as int) == run);
        assert(run.skip(p as int) == Seq::<ItemView>::empty());
        while p > 0 && sorted[p - 1].date.is_after(&item.date)
            invariant
                p <= sorted.len(),
                run == item_views(sorted@),
                insert_by_date(run, item@) == insert_by_date(run.take(p as int), item@) + run.skip(
                    p as int,
                ),
            decreases p,
        {
            proof {
                let head = run.take(p as int);
                assert(head.last() == sorted@[p - 1]@);
                assert(head.drop_last() == run.take(p - 1));
                assert(run.skip(p - 1) == seq![head.last()] + run.skip(p as int));
            }
            p -= 1;
        }
        proof {
            let head = run.take(p as int);
            if p > 0 {
                assert(head.last() == sorted@[p - 1]@);
            }
            assert(insert_by_date(head, item@) == head.push(item@));
            assert(head.push(item@) + run.skip(p as int) == run.insert(p as int, item@));
            assert(item_views(sorted@.insert(p as int, item)) == run.insert(p as int, item@));
            assert(all.take(i + 1).drop_last() == all.take(i as int));
            assert(all.take(i + 1).last() == item@);
        }
        sorted.insert(p, item);
        i += 1;
    }
    assert(item_views(items@).take(items.len() as int) == item_views(items@));
    sorted
}

/// Keeps the entries that were modified after the sync state.
pub fn keep_newer(items: &Vec<TransferItem>, state: Option<Timestamp>) -> (kept: Vec<TransferItem>)
    ensures
        item_views(kept@) == newer_than(item_views(items@), state_view(state)),
{
    let mut kept: Vec<TransferItem> = Vec::new();
    let mut i: usize = 0;
    let ghost all = item_views(items@);
    assert(all.take(0) == Seq::<ItemView>::empty());
    assert(item_views(kept@) == Seq::<ItemView>::empty());
    while i < items.len()
        invariant
            i <= items.len(),
            all == item_views(items@),
            item_views(kept@) == newer_than(all.take(i as int), state_view(state)),
        decreases items.len() - i,
    {
        let keep = match state {
            Some(t) => items[i].date.is_after(&t),
            None => true,
        };
        proof {
            assert(all.take(i + 1).drop_last() == all.take(i as int));
            assert(all.take(i + 1).last() == items@[i as int]@);
        }
        if keep {
            let item = items[i].clone();
            assert(item_views(kept@.push(item)) == item_views(kept@).push(item@));
            kept.push(item);
        }
        i += 1;
    }
    assert(all.take(items.len() as int) == all);
    kept
}

/// A way of choosing what to fetch from the camera.
pub trait Transfer: Sized {
    /// The directory that the files go to.
    spec fn directory(&self) -> Seq<char>;

    /// The directory that a configuration names for this kind of transfer.
    spec fn configured(c: &Config) -> Option<Seq<char>>;

    /// Where the catalog comes from.
    spec fn listed_from(&self) -> Source;

    /// The name of the file that holds the sync state, for a transfer that keeps one.
    spec fn state_kept_in(&self) -> Option<Seq<char>>;

    /// What is fetched, and in what order, given the catalog and the sync state.
    spec fn selection(&self, catalog: Seq<ItemView>, state: Option<CivilTime>) -> Seq<ItemView>;

    /// The sync state that holds once the entry has been fetched; none where
    /// fetching an entry leaves the state alone.
    spec fn recorded(&self, item: ItemView) -> Option<CivilTime>;

    /// The transfer that the configuration asks for: there is one exactly
    /// when the configuration names its directory.
    fn from_config(c: &Config) -> (made: Option<Self>)
        ensures
            made is Some <==> Self::configured(c) is Some,
            made matches Some(transfer) ==> Some(transfer.directory()) == Self::configured(c),
    ;

    fn download_directory(&self) -> (directory: &String)
        ensures
            directory@ == self.directory(),
    ;

    fn source(&self) -> (source: Source)
        ensures
            source == self.listed_from(),
    ;

    /// The name, under the download directory, of the file that holds the sync state.
    fn state_file(&self) -> (name: Option<&'static str>)
        ensures
            name is Some <==> self.state_kept_in() is Some,
            name matches Some(n) ==> Some(n@) == self.state_kept_in(),
    ;

    /// The entries to fetch in this run, in the order in which to fetch them.
    fn items(&self, catalog: Vec<TransferItem>, state: Option<Timestamp>) -> (chosen: Vec<TransferItem>)
        ensures
            item_views(chosen@) == self.selection(item_views(catalog@), state_view(state)),
    ;

    /// What to persist as the sync state now that the entry has been fetched.
    fn item_downloaded(&self, item: &TransferItem) -> (state: Option<Timestamp>)
        ensures
            state_view(state) == self.recorded(item@),
    ;
}

/// Fetches what was marked for transfer on the camera. The camera keeps that
/// list, so everything in it is fetched and no state is kept.
#[derive(Debug)]
pub struct OrderTransfer {
    download_dir: String,
}

impl Transfer for OrderTransfer {
    closed spec fn directory(&self) -> Seq<char> {
        self.download_dir@
    }

    open spec fn configured(c: &Config) -> Option<Seq<char>> {
        directory_view(c.transfer_order_dir)
    }

    open spec fn listed_from(&self) -> Source {
        Source::TransferOrder
    }

    open spec fn state_kept_in(&self) -> Option<Seq<char>> {
        None
    }

    open spec fn selection(&self, catalog: Seq<ItemView>, state: Option<CivilTime>) -> Seq<ItemView> {
        catalog
    }

    open spec fn recorded(&self, item: ItemView) -> Option<CivilTime> {
        None
    }

    fn from_config(c: &Config) -> (made: Option<OrderTransfer>) {
        match &c.transfer_order_dir {
            Some(directory) => Some(OrderTransfer { download_dir: directory.clone() }),
            None => None,
        }
    }

    fn download_directory(&self) -> (directory: &String) {
        &self.download_dir
    }

    fn source(&self) -> (source: Source) {
        Source::TransferOrder
    }

    fn state_file(&self) -> (name: Option<&'static str>) {
        None
    }

    fn items(&self, catalog: Vec<TransferItem>, state: Option<Timestamp>) -> (chosen: Vec<TransferItem>) {
        catalog
    }

    fn item_downloaded(&self, item: &TransferItem) -> (state: Option<Timestamp>) {
        None
    }
}

/// Fetches what is new since the last run. The date of the last entry
/// fetched is the sync state, kept in a file under the download directory.
#[derive(Debug)]
pub struct IncrementalTransfer {
    download_dir: String,
}

impl Transfer for IncrementalTransfer {
    closed spec fn directory(&self) -> Seq<char> {
        self.download_dir@
    }

    open spec fn configured(c: &Config) -> Option<Seq<char>> {
        directory_view(c.download_dir)
    }

    open spec fn listed_from(&self) -> Source {
        Source::Directories
    }

    open spec fn state_kept_in(&self) -> Option<Seq<char>> {
        Some(STATE_FILE_NAME@)
    }

    open spec fn selection(&self, catalog: Seq<ItemView>, state: Option<CivilTime>) -> Seq<ItemView> {
        incremental_selection(catalog, state)
    }

    open spec fn recorded(&self, item: ItemView) -> Option<CivilTime> {
        Some(item.date)
    }

    fn from_config(c: &Config) -> (made: Option<IncrementalTransfer>) {
        match &c.download_dir {
            Some(directory) => Some(IncrementalTransfer { download_dir: directory.clone() }),
            None => None,
        }
    }

    fn download_directory(&self) -> (directory: &String) {
        &self.download_dir
    }

    fn source(&self) -> (source: Source) {
        Source::Directories
    }

    fn state_file(&self) -> (name: Option<&'static str>) {
        Some(STATE_FILE_NAME)
    }

    fn items(&self, catalog: Vec<TransferItem>, state: Option<Timestamp>) -> (chosen: Vec<TransferItem>) {
        let sorted = sort_by_date(&catalog);
        keep_newer(&sorted, state)
    }

    fn item_downloaded(&self, item: &TransferItem) -> (state: Option<Timestamp>) {
        Some(item.date)
    }
}

/// Inserting adds the entry and nothing else.
pub proof fn lemma_insert_adds(sorted: Seq<ItemView>, item: ItemView)
    ensures
        insert_by_date(sorted, item).to_multiset() == sorted.to_multiset().insert(item),
        insert_by_date(sorted, item).len() == sorted.len() + 1,
    decreases sorted.len(),
{
    broadcast use vstd::seq_lib::to_multiset_build;

    if sorted.len() == 0 || !item.date.before(sorted.last().date) {
    } else {
        let rest = sorted.drop_last();
        lemma_insert_adds(rest, item);
        assert(sorted == rest.push(sorted.last()));
        assert(rest.to_multiset().insert(item).insert(sorted.last()) =~= rest.to_multiset().insert(
            sorted.last(),
        ).insert(item));
    }
}

/// Inserting into a run that ascends leaves a run that ascends.
pub proof fn lemma_insert_ascends(sorted: Seq<ItemView>, item: ItemView)
    requires
        ascending(sorted),
    ensures
        ascending(insert_by_date(sorted, item)),
    decreases sorted.len(),
{
    let made = insert_by_date(sorted, item);
    if sorted.len() == 0 {
    } else if !item.date.before(sorted.last().date) {
        assert forall|i: int, j: int| 0 <= i < j < made.len() implies !made[j].date.before(
            made[i].date,
        ) by {
            if j == sorted.len() {
                lemma_before_orders(made[i].date, sorted.last().date, item.date);
            }
        }
    } else {
        let rest = sorted.drop_last();
        let last = sorted.last();
        let inner = insert_by_date(rest, item);
        assert(ascending(rest));
        lemma_insert_ascends(rest, item);
        lemma_insert_adds(rest, item);
        assert forall|i: int, j: int| 0 <= i < j < made.len() implies !made[j].date.before(
            made[i].date,
        ) by {
            if j == inner.len() {
                let e = inner[i];
                inner.to_multiset_ensures();
                rest.to_multiset_ensures();
                assert(inner.contains(e));
                if e != item {
                    broadcast use vstd::multiset::group_multiset_axioms;

                    assert(inner.to_multiset().count(e) > 0);
                    assert(rest.to_multiset().insert(item).count(e) > 0);
                    assert(rest.to_multiset().count(e) > 0);
                    assert(rest.contains(e));
                    let k = choose|k: int| 0 <= k < rest.len() && rest[k] == e;
                    assert(sorted[k] == e);
                } else {
                    lemma_before_orders(item.date, last.date, item.date);
                }
            }
        }
    }
}

/// Sorting puts the entries in ascending order.
pub proof fn lemma_sorted_ascends(items: Seq<ItemView>)
    ensures
        ascending(sorted_by_date(items)),
    decreases items.len(),
{
    if items.len() > 0 {
        lemma_sorted_ascends(items.drop_last());
        lemma_insert_ascends(sorted_by_date(items.drop_last()), items.last());
    }
}

/// Sorting neither loses nor adds nor repeats an entry.
pub proof fn lemma_sorted_permutes(items: Seq<ItemView>)
    ensures
        sorted_by_date(items).to_multiset() == items.to_multiset(),
        sorted_by_date(items).len() == items.len(),
    decreases items.len(),
{
    broadcast use vstd::seq_lib::to_multiset_build;

    if items.len() > 0 {
        lemma_sorted_permutes(items.drop_last());
        lemma_insert_adds(sorted_by_date(items.drop_last()), items.last());
        assert(items == items.drop_last().push(items.last()));
    }
}

/// Filtering keeps exactly the entries that are new, and keeps a run ascending.
pub proof fn lemma_newer_than_keeps(items: Seq<ItemView>, state: Option<CivilTime>)
    ensures
        forall|e: ItemView|
            #![trigger newer_than(items, state).contains(e)]
            #![trigger is_new(e, state)]
            newer_than(items, state).contains(e) <==> items.contains(e) && is_new(e, state),
        ascending(items) ==> ascending(newer_than(items, state)),
        newer_than(items, state).len() <= items.len(),
    decreases items.len(),
{
    let kept = newer_than(items, state);
    if items.len() > 0 {
        let rest = items.drop_last();
        let last = items.last();
        let inner = newer_than(rest, state);
        lemma_newer_than_keeps(rest, state);
        assert(items == rest.push(last));
        assert forall|e: ItemView|
            #![trigger kept.contains(e)]
            #![trigger is_new(e, state)]
            kept.contains(e) <==> items.contains(e) && is_new(e, state) by {
            if kept.contains(e) {
                let k = choose|k: int| 0 <= k < kept.len() && kept[k] == e;
                if is_new(last, state) && k == inner.len() {
                    assert(items[items.len() - 1] == e);
                } else {
                    assert(inner[k] == e);
                    assert(inner.contains(e));
                    let m = choose|m: int| 0 <= m < rest.len() && rest[m] == e;
                    assert(items[m] == e);
                }
            }
            if items.contains(e) && is_new(e, state) {
                let m = choose|m: int| 0 <= m < items.len() && items[m] == e;
                if m == rest.len() {
                    assert(kept[kept.len() - 1] == e);
                } else {
                    assert(rest[m] == e);
                    assert(rest.contains(e));
                    let k = choose|k: int| 0 <= k < inner.len() && inner[k] == e;
                    assert(kept[k] == e);
                }
            }
        }
        if ascending(items) {
            assert(ascending(rest));
            assert forall|i: int, j: int| 0 <= i < j < kept.len() implies !kept[j].date.before(
                kept[i].date,
            ) by {
                if j == inner.len() {
                    assert(inner.contains(inner[i]));
                    let m = choose|m: int| 0 <= m < rest.len() && rest[m] == inner[i];
                    assert(items[m] == inner[i]);
                }
            }
        }
    }
}

/// What an incremental transfer fetches: the entries of the catalog that were
/// modified after the sync state, those and no others, the oldest first.
pub proof fn lemma_incremental_selection(catalog: Seq<ItemView>, state: Option<CivilTime>)
    ensures
        forall|e: ItemView|
            #![trigger incremental_selection(catalog, state).contains(e)]
            #![trigger is_new(e, state)]
            incremental_selection(catalog, state).contains(e) <==> catalog.contains(e) && is_new(
                e,
                state,
            ),
        ascending(incremental_selection(catalog, state)),
{
    let sorted = sorted_by_date(catalog);
    lemma_sorted_ascends(catalog);
    lemma_sorted_permutes(catalog);
    lemma_newer_than_keeps(sorted, state);
    sorted.to_multiset_ensures();
    catalog.to_multiset_ensures();
    assert forall|e: ItemView| sorted.contains(e) <==> catalog.contains(e) by {
        assert(sorted.contains(e) <==> sorted.to_multiset().count(e) > 0);
        assert(catalog.contains(e) <==> catalog.to_multiset().count(e) > 0);
    }
}

/// Recording the date of each fetched entry in turn never moves the sync
/// state back: every date is after the state that the run began with, and
/// none is before a date recorded earlier in the run.
pub proof fn lemma_state_never_regresses(
    catalog: Seq<ItemView>,
    state: Option<CivilTime>,
    earlier: int,
    later: int,
)
    requires
        0 <= earlier <= later < incremental_selection(catalog, state).len(),
    ensures
        is_new(incremental_selection(catalog, state)[earlier], state),
        !incremental_selection(catalog, state)[later].date.before(
            incremental_selection(catalog, state)[earlier].date,
        ),
{
    let chosen = incremental_selection(catalog, state);
    lemma_incremental_selection(catalog, state);
    assert(chosen.contains(chosen[earlier]));
    if earlier == later {
        lemma_before_orders(chosen[earlier].date, chosen[earlier].date, chosen[earlier].date);
    }
}

} // verus!
