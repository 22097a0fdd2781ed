//! A run over the entries that a policy chose: which download comes next,
//! what is persisted after it, and when the run is over.

use vstd::prelude::*;
use crate::config::{Config, ErrorStrategy, OverwriteStrategy};
use crate::download::{first_action, Download, Outcome, INCOMPLETE_SUFFIX};
use crate::error::{failure_of, Error};
use crate::item::{item_views, ItemView, TransferItem, BASE_URL};
use crate::policy::{lemma_state_never_regresses, IncrementalTransfer, Transfer};
use crate::timestamp::{CivilTime, Timestamp};

verus! {

/// What the caller is asked to do next in a run over the chosen entries.
#[derive(Debug, Clone, Copy, PartialEq, Eq, Structural)]
pub enum RunAction {
    /// Download the entry at this position.
    Download(usize),
    /// Persist this sync state, for the entry at this position.
    Persist(usize, Timestamp),
    /// Nothing: the run ended, well or with this error.
    Finish(Option<Error>),
}

/// A run action as plain values.
pub enum RunStep {
    Download(int),
    Persist(int, CivilTime),
    Finish(Option<Error>),
}

impl View for RunAction {
    type V = RunStep;

    open spec fn view(&self) -> RunStep {
        match *self {
            RunAction::Download(i) => RunStep::Download(i as int),
            RunAction::Persist(i, t) => RunStep::Persist(i as int, t@),
            RunAction::Finish(e) => RunStep::Finish(e),
        }
    }
}

/// The step that begins with the entry at `position`: its download, or the
/// end of the run where no entry is left.
pub open spec fn proceed(count: int, position: int) -> RunStep {
    if position < count {
        RunStep::Download(position)
    } else {
        RunStep::Finish(None)
    }
}

/// What follows the download of the entry at `position`. A failure ends the
/// run under `Abort` and is passed over under `Continue`, in both cases
/// without a word to the policy. After an entry that was fetched, or skipped
/// because it was there already, the policy's new sync state is persisted,
/// if it has one.
pub open spec fn after_download(
    count: int,
    strategy: ErrorStrategy,
    position: int,
    recorded: Option<CivilTime>,
    outcome: Outcome,
) -> RunStep {
    match outcome {
        Outcome::Failed(e) => match strategy {
            ErrorStrategy::Abort => RunStep::Finish(Some(e)),
            ErrorStrategy::Continue => proceed(count, position + 1),
        },
        _ => match recorded {
            Some(state) => RunStep::Persist(position, state),
            None => proceed(count, position + 1),
        },
    }
}

/// What follows an attempt to persist the sync state for the entry at
/// `position`: the next entry, or the end of the run with the failure.
pub open spec fn after_persist(count: int, position: int, failure: Option<Error>) -> RunStep {
    match failure {
        Some(e) => RunStep::Finish(Some(e)),
        None => proceed(count, position + 1),
    }
}

/// A run over the entries that a policy chose: each is downloaded in turn,
/// and what the policy records for it is persisted before the next begins.
pub struct Execution<T: Transfer> {
    transfer: T,
    items: Vec<TransferItem>,
    error_strategy: ErrorStrategy,
    overwrite_strategy: OverwriteStrategy,
    pending: RunAction,
}

impl<T: Transfer> Execution<T> {
    pub closed spec fn spec_transfer(&self) -> T {
        self.transfer
    }

    pub closed spec fn spec_items(&self) -> Seq<ItemView> {
        item_views(self.items@)
    }

    pub closed spec fn spec_error_strategy(&self) -> ErrorStrategy {
        self.error_strategy
    }

    pub closed spec fn spec_overwrite_strategy(&self) -> OverwriteStrategy {
        self.overwrite_strategy
    }

    pub closed spec fn spec_pending(&self) -> RunAction {
        self.pending
    }

    /// The pending action speaks of an entry of the run.
    #[verifier::type_invariant]
    closed spec fn well_formed(self) -> bool {
        match self.pending {
            RunAction::Download(i) => i < self.items.len(),
            RunAction::Persist(i, _) => i < self.items.len(),
            RunAction::Finish(_) => true,
        }
    }

    /// Nothing but the pending action differs between the two.
    pub open spec fn same_run(&self, other: &Execution<T>) -> bool {
        &&& self.spec_transfer() == other.spec_transfer()
        &&& self.spec_items() == other.spec_items()
        &&& self.spec_error_strategy() == other.spec_error_strategy()
        &&& self.spec_overwrite_strategy() == other.spec_overwrite_strategy()
    }

    /// What the caller is asked to do now.
    pub fn pending(&self) -> (action: RunAction)
        ensures
            action == self.spec_pending(),
    {
        self.pending
    }

    /// How many entries the run goes over.
    pub fn len(&self) -> (count: usize)
        ensures
            count == self.spec_items().len(),
    {
        self.items.len()
    }

    /// The entry at a position of the run.
    pub fn item(&self, position: usize) -> (item: Option<&TransferItem>)
        ensures
            item is Some <==> position < self.spec_items().len(),
            item matches Some(found) ==> found@ == self.spec_items()[position as int],
    {
        if position < self.items.len() {
            Some(&self.items[position])
        } else {
            None
        }
    }

    /// The policy that chose the entries.
    pub fn transfer(&self) -> (transfer: &T)
        ensures
            *transfer == self.spec_transfer(),
    {
        &self.transfer
    }

    fn step_from(&self, position: usize) -> (action: RunAction)
        requires
            position <= self.items.len(),
        ensures
            action@ == proceed(self.spec_items().len() as int, position as int),
            action matches RunAction::Download(i) ==> i < self.items.len(),
            action !is Persist,
    {
        if position < self.items.len() {
            RunAction::Download(position)
        } else {
            RunAction::Finish(None)
        }
    }

    /// Begins the pending download, to the given target. Nothing is begun
    /// unless a download is what the run waits for.
    pub fn begin_download(&self, target: &str, target_exists: bool) -> (begun: Option<Download>)
        ensures
            begun is Some <==> self.spec_pending() is Download,
            begun matches Some(download) ==> {
                let item = self.spec_items()[self.spec_pending()->Download_0 as int];
                &&& download.spec_url() == BASE_URL@ + item.parent + seq!['/']
                    + item.filename
                &&& download.spec_target() == target@
                &&& download.spec_temp() == target@ + INCOMPLETE_SUFFIX@
                &&& download.spec_pending() == first_action(
                    target_exists,
                    self.spec_overwrite_strategy(),
                )
            },
    {
        proof {
            use_type_invariant(self);
        }
        match self.pending {
            RunAction::Download(i) => Some(
                self.items[i].download(target, target_exists, self.overwrite_strategy),
            ),
            _ => None,
        }
    }

    /// Takes the outcome of the pending download and says what to do next.
    /// Where the run does not wait for a download, nothing changes.
    pub fn downloaded(&mut self, outcome: Outcome) -> (action: RunAction)
        ensures
            final(self).same_run(old(self)),
            final(self).spec_pending() == action,
            match old(self).spec_pending() {
                RunAction::Download(i) => action@ == after_download(
                    old(self).spec_items().len() as int,
                    old(self).spec_error_strategy(),
                    i as int,
                    old(self).spec_transfer().recorded(old(self).spec_items()[i as int]),
                    outcome,
                ),
                other => action == other,
            },
    {
        proof {
            use_type_invariant(&*self);
        }
        let next = match self.pending {
            RunAction::Download(i) => match outcome {
                Outcome::Failed(e) => match self.error_strategy {
                    ErrorStrategy::Abort => RunAction::Finish(Some(e)),
                    ErrorStrategy::Continue => self.step_from(i + 1),
                },
                _ => match self.transfer.item_downloaded(&self.items[i]) {
                    Some(state) => RunAction::Persist(i, state),
                    None => self.step_from(i + 1),
                },
            },
            other => other,
        };
        self.pending = next;
        next
    }

    /// Takes the report on persisting the sync state and says what to do
    /// next. Where the run does not wait for that, nothing changes.
    pub fn persisted(&mut self, report: Result<(), Error>) -> (action: RunAction)
        ensures
            final(self).same_run(old(self)),
            final(self).spec_pending() == action,
            match old(self).spec_pending() {
                RunAction::Persist(i, _) => action@ == after_persist(
                    old(self).spec_items().len() as int,
                    i as int,
                    failure_of(report),
                ),
                other => action == other,
            },
    {
        proof {
            use_type_invariant(&*self);
        }
        let next = match self.pending {
            RunAction::Persist(i, _) => match report {
                Err(e) => RunAction::Finish(Some(e)),
                Ok(_) => self.step_from(i + 1),
            },
            other => other,
        };
        self.pending = next;
        next
    }
}

/// Begins a run over the entries that the policy chose, under the
/// strategies of the configuration. The first entry's download is pending,
/// or the end of the run where there is no entry.
pub fn execute_transfer<T: Transfer>(transfer: T, items: Vec<TransferItem>, config: &Config) -> (run: Execution<T>)
    ensures
        run.spec_transfer() == transfer,
        run.spec_items() == item_views(items@),
        run.spec_error_strategy() == config.error_strategy,
        run.spec_overwrite_strategy() == config.overwrite_strategy,
        run.spec_pending()@ == proceed(items@.len() as int, 0),
{
    let pending = if items.len() > 0 {
        RunAction::Download(0)
    } else {
        RunAction::Finish(None)
    };
    Execution {
        transfer,
        items,
        error_strategy: config.error_strategy,
        overwrite_strategy: config.overwrite_strategy,
        pending,
    }
}

/// A run goes through the entries in their order and comes to each once:
/// what follows the entry at a position is that entry's sync state or the
/// next entry's download, if it is not the end. An entry that failed is
/// never recorded, and under `Abort` it ends the run.
pub proof fn lemma_run_goes_forward(
    count: int,
    strategy: ErrorStrategy,
    position: int,
    recorded: Option<CivilTime>,
    outcome: Outcome,
    failure: Option<Error>,
)
    ensures
        after_download(count, strategy, position, recorded, outcome) matches RunStep::Download(next)
            ==> next == position + 1 && next < count,
        after_download(count, strategy, position, recorded, outcome) matches RunStep::Persist(
            at,
            state,
        ) ==> at == position && recorded == Some(state) && !(outcome is Failed),
        after_persist(count, position, failure) matches RunStep::Download(next) ==> next == position
            + 1 && next < count,
        !(after_persist(count, position, failure) is Persist),
        outcome matches Outcome::Failed(e) ==> after_download(
            count,
            strategy,
            position,
            recorded,
            outcome,
        ) == if strategy == ErrorStrategy::Abort {
            RunStep::Finish(Some(e))
        } else {
            proceed(count, position + 1)
        },
{
}

/// In a run of an incremental transfer the sync state only moves forward:
/// whatever is persisted is later than the state that the run began with,
/// and is not earlier than anything persisted before it in the run.
pub proof fn lemma_sync_state_advances(
    transfer: IncrementalTransfer,
    catalog: Seq<ItemView>,
    state: Option<CivilTime>,
    strategy: ErrorStrategy,
    earlier: int,
    later: int,
    first: Outcome,
    second: Outcome,
)
    requires
        0 <= earlier <= later < transfer.selection(catalog, state).len(),
    ensures
        ({
            let items = transfer.selection(catalog, state);
            let count = items.len() as int;
            after_download(count, strategy, earlier, transfer.recorded(items[earlier]), first)
                matches RunStep::Persist(_, a) ==> {
                &&& state matches Some(begun) ==> begun.before(a)
                &&& after_download(count, strategy, later, transfer.recorded(items[later]), second)
                    matches RunStep::Persist(_, b) ==> !b.before(a)
            }
        }),
{
    lemma_state_never_regresses(catalog, state, earlier, later);
}

} // verus!
