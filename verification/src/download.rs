//! One download: the body is written to a temporary file beside the target
//! and moved onto the target when it is complete, so that the target never
//! holds a part of a file.

use vstd::prelude::*;
use vstd::string::*;
use crate::config::OverwriteStrategy;
use crate::error::{failure_of, Error};
use crate::item::{TransferItem, BASE_URL};

verus! {

/// What is appended to a target's path to name the file that the body is
/// written to before it is complete.
pub const INCOMPLETE_SUFFIX: &'static str = ".incomplete";

/// How a download ended.
#[derive(Debug, Clone, Copy, PartialEq, Eq, Structural)]
pub enum Outcome {
    /// The target was there already and was left alone.
    Skipped,
    /// The target now holds the fetched bytes.
    Completed,
    /// A step failed; the target is as it was.
    Failed(Error),
}

/// What the caller is asked to do next.
#[derive(Debug, Clone, Copy, PartialEq, Eq, Structural)]
pub enum DownloadAction {
    /// Fetch the address and write the body to the temporary file; flush it
    /// and sync it to storage.
    Store,
    /// Rename the temporary file onto the target, in one operation.
    Publish,
    /// Nothing: the download is over.
    Finish(Outcome),
}

/// What a download begins with: nothing at all where the target exists and
/// is to be kept, else the fetching of the body.
pub open spec fn first_action(target_exists: bool, strategy: OverwriteStrategy) -> DownloadAction {
    if target_exists && strategy == OverwriteStrategy::Skip {
        DownloadAction::Finish(Outcome::Skipped)
    } else {
        DownloadAction::Store
    }
}

/// What follows an action once the caller reports how it went: a failure ends
/// the download at once, a body stored is published, a body published
/// completes the download, and a download that is over stays as it ended.
pub open spec fn next_action(pending: DownloadAction, failure: Option<Error>) -> DownloadAction {
    match pending {
        DownloadAction::Finish(outcome) => DownloadAction::Finish(outcome),
        DownloadAction::Store => match failure {
            Some(e) => DownloadAction::Finish(Outcome::Failed(e)),
            None => DownloadAction::Publish,
        },
        DownloadAction::Publish => match failure {
            Some(e) => DownloadAction::Finish(Outcome::Failed(e)),
            None => DownloadAction::Finish(Outcome::Completed),
        },
    }
}

/// One download, from the decision whether to fetch at all to the moment the
/// target holds the new bytes.
#[derive(Debug)]
pub struct Download {
    url: String,
    target: String,
    temp: String,
    pending: DownloadAction,
}

impl Download {
    pub closed spec fn spec_url(&self) -> Seq<char> {
        self.url@
    }

    pub closed spec fn spec_target(&self) -> Seq<char> {
        self.target@
    }

    pub closed spec fn spec_temp(&self) -> Seq<char> {
        self.temp@
    }

    pub closed spec fn spec_pending(&self) -> DownloadAction {
        self.pending
    }

    /// The address that the bytes come from.
    pub fn url(&self) -> (url: &String)
        ensures
            url@ == self.spec_url(),
    {
        &self.url
    }

    /// The path that holds the bytes in the end.
    pub fn target(&self) -> (target: &String)
        ensures
            target@ == self.spec_target(),
    {
        &self.target
    }

    /// The path that holds the bytes while they come in.
    pub fn temp(&self) -> (temp: &String)
        ensures
            temp@ == self.spec_temp(),
    {
        &self.temp
    }

    /// What the caller is asked to do now.
    pub fn pending(&self) -> (action: DownloadAction)
        ensures
            action == self.spec_pending(),
    {
        self.pending
    }

    /// Takes the report on the pending action and says what to do next.
    pub fn advance(&mut self, report: Result<(), Error>) -> (action: DownloadAction)
        ensures
            action == next_action(old(self).spec_pending(), failure_of(report)),
            final(self).spec_pending() == action,
            final(self).spec_url() == old(self).spec_url(),
            final(self).spec_target() == old(self).spec_target(),
            final(self).spec_temp() == old(self).spec_temp(),
    {
        let next = match self.pending {
            DownloadAction::Finish(outcome) => DownloadAction::Finish(outcome),
            DownloadAction::Store => match report {
                Err(e) => DownloadAction::Finish(Outcome::Failed(e)),
                Ok(_) => DownloadAction::Publish,
            },
            DownloadAction::Publish => match report {
                Err(e) => DownloadAction::Finish(Outcome::Failed(e)),
                Ok(_) => DownloadAction::Finish(Outcome::Completed),
            },
        };
        self.pending = next;
        next
    }
}

impl TransferItem {
    /// Begins the download of this entry to `target`. Whether the target
    /// exists is asked before anything is fetched: an existing target is
    /// kept under `Skip`, and replaced under `Overwrite`.
    pub fn download(&self, target: &str, target_exists: bool, strategy: OverwriteStrategy) -> (begun: Download)
        ensures
            begun.spec_url() == BASE_URL@ + self.parent@ + seq!['/'] + self.filename@,
            begun.spec_target() == target@,
            begun.spec_temp() == target@ + INCOMPLETE_SUFFIX@,
            begun.spec_pending() == first_action(target_exists, strategy),
    {
        let mut temp = String::from_str(target);
        temp.append(INCOMPLETE_SUFFIX);
        let pending = match strategy {
            OverwriteStrategy::Skip => if target_exists {
                DownloadAction::Finish(Outcome::Skipped)
            } else {
                DownloadAction::Store
            },
            OverwriteStrategy::Overwrite => DownloadAction::Store,
        };
        Download { url: self.url(), target: String::from_str(target), temp, pending }
    }
}

/// The temporary file is never the target itself.
pub proof fn lemma_temp_is_not_target(target: Seq<char>)
    ensures
        target + INCOMPLETE_SUFFIX@ != target,
{
    reveal_strlit(".incomplete");
    assert((target + INCOMPLETE_SUFFIX@).len() == target.len() + 11);
}

/// The two files that a download touches: what each holds, if it exists.
pub struct Files {
    pub target: Option<Seq<u8>>,
    pub temp: Option<Seq<u8>>,
}

/// What carrying out an action can do to the files, whether it goes well or
/// fails half way. Storing writes to the temporary file only: all of the body
/// if it goes well, and anything if it does not. Publishing moves the
/// temporary file onto the target or, if it fails, does nothing.
pub open spec fn carried_out(
    action: DownloadAction,
    failure: Option<Error>,
    body: Seq<u8>,
    before: Files,
    after: Files,
) -> bool {
    match action {
        DownloadAction::Store => after.target == before.target && (failure is None ==> after.temp
            == Some(body)),
        DownloadAction::Publish => if failure is None {
            before.temp is Some && after.target == before.temp && after.temp is None
        } else {
            after == before
        },
        DownloadAction::Finish(_) => after == before,
    }
}

/// Follows one download through any run of reports. Whatever the caller
/// reports, and wherever the run is cut short, the target holds what it held
/// before or all of the body, never a part of it. A download that is skipped
/// asks for nothing to be done; one that completes leaves the body in the
/// target.
pub proof fn lemma_target_is_never_partial(
    target_exists: bool,
    strategy: OverwriteStrategy,
    body: Seq<u8>,
    before: Files,
    first_failure: Option<Error>,
    between: Files,
    second_failure: Option<Error>,
    after: Files,
)
    requires
        carried_out(first_action(target_exists, strategy), first_failure, body, before, between),
        carried_out(
            next_action(first_action(target_exists, strategy), first_failure),
            second_failure,
            body,
            between,
            after,
        ),
    ensures
        between.target == before.target,
        after.target == before.target || after.target == Some(body),
        target_exists && strategy == OverwriteStrategy::Skip ==> after == before && first_action(
            target_exists,
            strategy,
        ) == DownloadAction::Finish(Outcome::Skipped),
        next_action(
            next_action(first_action(target_exists, strategy), first_failure),
            second_failure,
        ) == DownloadAction::Finish(Outcome::Completed) ==> after.target == Some(body),
        next_action(
            next_action(first_action(target_exists, strategy), first_failure),
            second_failure,
        ) is Finish,
{
}

} // verus!
