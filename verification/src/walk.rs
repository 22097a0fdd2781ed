//! The walk over the camera's directories that gathers its files.

use vstd::prelude::*;
use vstd::string::*;
use crate::error::Error;
use crate::item::{item_views, names_directory, ItemView, TransferItem, BASE_URL};
use crate::listing::{listing_items, listing_url, parse_listing, LIST_ENDPOINT};

verus! {

/// The directory at which the walk over the camera's files begins.
pub const ROOT_DIRECTORY: &'static str = "/DCIM";

/// Where a walk stands, as plain values.
pub struct WalkView {
    /// The directory whose listing has been asked for and not yet handed in.
    pub awaiting: Option<Seq<char>>,
    /// The entries that were listed and not yet looked at, the next one first.
    pub queue: Seq<ItemView>,
    /// The files found so far, in the order of the walk.
    pub files: Seq<ItemView>,
}

/// An entry's path: parent and name with a slash between.
pub open spec fn item_path(item: ItemView) -> Seq<char> {
    item.parent + seq!['/'] + item.filename
}

/// Looks at the entries in the queue, the first one first: files are passed
/// on to the result, and the first directory found is the next to be listed.
pub open spec fn settle(walk: WalkView) -> WalkView
    decreases walk.queue.len(),
{
    if walk.queue.len() == 0 {
        WalkView { awaiting: None, queue: walk.queue, files: walk.files }
    } else if names_directory(walk.queue[0].filename) {
        WalkView {
            awaiting: Some(item_path(walk.queue[0])),
            queue: walk.queue.skip(1),
            files: walk.files,
        }
    } else {
        settle(
            WalkView {
                awaiting: None,
                queue: walk.queue.skip(1),
                files: walk.files.push(walk.queue[0]),
            },
        )
    }
}

/// The walk after the awaited listing came in: its entries are looked at
/// before everything that was waiting already, so that a directory's files
/// stand where the directory stood.
pub open spec fn after_listing(walk: WalkView, entries: Seq<ItemView>) -> WalkView {
    settle(WalkView { awaiting: None, queue: entries + walk.queue, files: walk.files })
}

/// A depth-first walk over the camera's directories that asks its caller for
/// one listing at a time.
pub struct Walk {
    awaiting: Option<String>,
    /// The entries not yet looked at; the next one is the last.
    pending: Vec<TransferItem>,
    files: Vec<TransferItem>,
}

impl View for Walk {
    type V = WalkView;

    closed spec fn view(&self) -> WalkView {
        WalkView {
            awaiting: match self.awaiting {
                Some(directory) => Some(directory@),
                None => None,
            },
            queue: item_views(self.pending@).reverse(),
            files: item_views(self.files@),
        }
    }
}

impl Walk {
    /// A walk that waits for the listing of the root directory.
    pub fn new() -> (walk: Walk)
        ensures
            walk@ == (WalkView {
                awaiting: Some(ROOT_DIRECTORY@),
                queue: Seq::empty(),
                files: Seq::empty(),
            }),
    {
        let walk = Walk {
            awaiting: Some(String::from_str(ROOT_DIRECTORY)),
            pending: Vec::new(),
            files: Vec::new(),
        };
        assert(walk@.queue == Seq::<ItemView>::empty());
        assert(walk@.files == Seq::<ItemView>::empty());
        walk
    }

    /// The address of the listing that the walk waits for; none when the walk is over.
    pub fn request(&self) -> (url: Option<String>)
        ensures
            url is Some <==> self@.awaiting is Some,
            url matches Some(u) ==> u@ == BASE_URL@ + LIST_ENDPOINT@ + self@.awaiting->0,
    {
        match &self.awaiting {
            Some(directory) => Some(listing_url(directory.as_str())),
            None => None,
        }
    }

    /// Whether the walk is over.
    pub fn is_done(&self) -> (done: bool)
        ensures
            done == self@.awaiting is None,
    {
        self.awaiting.is_none()
    }

    /// Hands in the body of the awaited listing. A body that is no listing
    /// leaves the walk as it was and is reported.
    pub fn listed(&mut self, body: &str) -> (taken: Result<(), Error>)
        ensures
            match listing_items(body@) {
                Some(entries) => taken is Ok && final(self)@ == after_listing(old(self)@, entries),
                None => taken == Err::<(), Error>(Error::ProtocolError) && final(self)@ == old(
                    self,
                )@,
            },
    {
        let entries = match parse_listing(body) {
            Ok(entries) => entries,
            Err(e) => {
                return Err(e);
            },
        };
        let ghost before = self@;
        let ghost listed = item_views(entries@);
        // The entries go on the stack last one first, so that the first is looked at first.
        let mut i: usize = entries.len();
        assert(listed.skip(i as int) == Seq::<ItemView>::empty());
        while i > 0
            invariant
                i <= entries.len(),
                listed == item_views(entries@),
                self.awaiting == old(self).awaiting,
                self.files == old(self).files,
                item_views(self.pending@).reverse() == listed.skip(i as int) + before.queue,
                before == old(self)@,
            decreases i,
        {
            i -= 1;
            let entry = entries[i].clone();
            proof {
                let stack = item_views(self.pending@);
                assert(item_views(self.pending@.push(entry)) == stack.push(entry@));
                assert(stack.push(entry@).reverse() == seq![entry@] + stack.reverse());
                assert(listed.skip(i as int) == seq![listed[i as int]] + listed.skip(i + 1));
            }
            self.pending.push(entry);
        }
        assert(listed.skip(0) == listed);
        self.awaiting = None;
        let ghost start = WalkView { awaiting: None, queue: listed + before.queue, files: before.files };
        assert(self@ == start);
        while self.pending.len() > 0
            invariant
                self.awaiting is None,
                settle(self@) == settle(start),
                settle(start) == after_listing(old(self)@, listed),
                listing_items(body@) == Some(listed),
            decreases self.pending.len(),
        {
            let ghost here = self@;
            let ghost stack = item_views(self.pending@);
            let entry = self.pending.pop().unwrap();
            proof {
                assert(item_views(self.pending@) == stack.drop_last());
                assert(stack.reverse()[0] == entry@);
                assert(stack.drop_last().reverse() == stack.reverse().skip(1));
            }
            if entry.is_directory() {
                self.awaiting = Some(entry.path());
                assert(self@ == settle(here));
                return Ok(());
            }
            proof {
                assert(item_views(self.files@.push(entry)) == item_views(self.files@).push(entry@));
            }
            self.files.push(entry);
        }
        assert(self@.queue.len() == 0);
        Ok(())
    }

    /// The files found so far, in the order of the walk: all of them once the walk is over.
    pub fn into_files(self) -> (files: Vec<TransferItem>)
        ensures
            item_views(files@) == self@.files,
    {
        self.files
    }
}

/// The files below a run of entries, found the way one would by hand: a
/// file is itself, and a directory is the files below the entries of its
/// listing, which come before the files of the entries that follow it.
/// `camera` gives the listing of each directory. Directories are entered to
/// at most `depth` levels; where they go deeper there is no answer.
pub open spec fn files_below(
    camera: spec_fn(Seq<char>) -> Seq<ItemView>,
    entries: Seq<ItemView>,
    depth: nat,
) -> Option<Seq<ItemView>>
    decreases depth, entries.len(),
{
    if entries.len() == 0 {
        Some(Seq::empty())
    } else {
        let first = entries[0];
        let inside = if !names_directory(first.filename) {
            Some(seq![first])
        } else if depth == 0 {
            None
        } else {
            files_below(camera, camera(item_path(first)), (depth - 1) as nat)
        };
        match (inside, files_below(camera, entries.skip(1), depth)) {
            (Some(found), Some(more)) => Some(found + more),
            _ => None,
        }
    }
}

/// How many directories lie below a run of entries, to at most `depth` levels.
pub open spec fn directories_below(
    camera: spec_fn(Seq<char>) -> Seq<ItemView>,
    entries: Seq<ItemView>,
    depth: nat,
) -> nat
    decreases depth, entries.len(),
{
    if entries.len() == 0 {
        0
    } else {
        let first = entries[0];
        let inside = if names_directory(first.filename) && depth > 0 {
            1 + directories_below(camera, camera(item_path(first)), (depth - 1) as nat)
        } else {
            0
        };
        inside + directories_below(camera, entries.skip(1), depth)
    }
}

/// The walk after the camera has answered that many requests for a listing,
/// or fewer if the walk was over before.
pub open spec fn walked(
    camera: spec_fn(Seq<char>) -> Seq<ItemView>,
    walk: WalkView,
    answers: nat,
) -> WalkView
    decreases answers,
{
    if answers == 0 {
        walk
    } else {
        match walk.awaiting {
            Some(directory) => walked(
                camera,
                after_listing(walk, camera(directory)),
                (answers - 1) as nat,
            ),
            None => walk,
        }
    }
}

/// Where every walk begins.
pub open spec fn walk_start() -> WalkView {
    WalkView { awaiting: Some(ROOT_DIRECTORY@), queue: Seq::empty(), files: Seq::empty() }
}

/// Where directories go no deeper than `depth`, they go no deeper than `depth + 1`.
pub proof fn lemma_files_below_deeper(
    camera: spec_fn(Seq<char>) -> Seq<ItemView>,
    entries: Seq<ItemView>,
    depth: nat,
)
    requires
        files_below(camera, entries, depth) is Some,
    ensures
        files_below(camera, entries, depth + 1) == files_below(camera, entries, depth),
        directories_below(camera, entries, depth + 1) == directories_below(camera, entries, depth),
    decreases depth, entries.len(),
{
    if entries.len() > 0 {
        let first = entries[0];
        if names_directory(first.filename) {
            lemma_files_below_deeper(camera, camera(item_path(first)), (depth - 1) as nat);
        }
        lemma_files_below_deeper(camera, entries.skip(1), depth);
    }
}

/// The files below two runs of entries, one after the other, are the files
/// below the first and then the files below the second.
pub proof fn lemma_files_below_both(
    camera: spec_fn(Seq<char>) -> Seq<ItemView>,
    front: Seq<ItemView>,
    back: Seq<ItemView>,
    depth: nat,
)
    requires
        files_below(camera, front, depth) is Some,
        files_below(camera, back, depth) is Some,
    ensures
        files_below(camera, front + back, depth) == Some(
            files_below(camera, front, depth)->0 + files_below(camera, back, depth)->0,
        ),
        directories_below(camera, front + back, depth) == directories_below(camera, front, depth)
            + directories_below(camera, back, depth),
    decreases front.len(),
{
    if front.len() == 0 {
        assert(front + back == back);
    } else {
        let all = front + back;
        assert(all[0] == front[0]);
        assert(all.skip(1) == front.skip(1) + back);
        lemma_files_below_both(camera, front.skip(1), back, depth);
    }
}

/// A walk that looks at a run of entries finds the files below them, in
/// their order, with one request for each directory below them.
pub proof fn lemma_walk_finds_files_below(
    camera: spec_fn(Seq<char>) -> Seq<ItemView>,
    queue: Seq<ItemView>,
    files: Seq<ItemView>,
    depth: nat,
)
    requires
        files_below(camera, queue, depth) is Some,
    ensures
        walked(
            camera,
            settle(WalkView { awaiting: None, queue, files }),
            directories_below(camera, queue, depth),
        ) == (WalkView {
            awaiting: None,
            queue: Seq::empty(),
            files: files + files_below(camera, queue, depth)->0,
        }),
    decreases directories_below(camera, queue, depth), queue.len(),
{
    let here = WalkView { awaiting: None, queue, files };
    let answers = directories_below(camera, queue, depth);
    if queue.len() == 0 {
        assert(settle(here).queue == Seq::<ItemView>::empty());
        assert(files + Seq::<ItemView>::empty() == files);
    } else {
        let first = queue[0];
        let rest = queue.skip(1);
        if !names_directory(first.filename) {
            lemma_walk_finds_files_below(camera, rest, files.push(first), depth);
            assert(files.push(first) + files_below(camera, rest, depth)->0 == files + (seq![first]
                + files_below(camera, rest, depth)->0));
        } else {
            let listing = camera(item_path(first));
            let asked = WalkView { awaiting: Some(item_path(first)), queue: rest, files };
            assert(settle(here) == asked);
            lemma_files_below_deeper(camera, listing, (depth - 1) as nat);
            lemma_files_below_both(camera, listing, rest, depth);
            let next = listing + rest;
            assert(directories_below(camera, next, depth) == answers - 1);
            lemma_walk_finds_files_below(camera, next, files, depth);
            assert(after_listing(asked, listing) == settle(
                WalkView { awaiting: None, queue: next, files },
            ));
            assert(walked(camera, asked, answers) == walked(
                camera,
                after_listing(asked, listing),
                (answers - 1) as nat,
            ));
        }
    }
}

/// A walk from the root finds every file below the root, the files of a
/// directory standing where the directory stands in its listing. It asks for
/// the listing of the root and of each directory below it, once, and is then
/// over.
pub proof fn lemma_walk_is_depth_first(camera: spec_fn(Seq<char>) -> Seq<ItemView>, depth: nat)
    requires
        files_below(camera, camera(ROOT_DIRECTORY@), depth) is Some,
    ensures
        walked(
            camera,
            walk_start(),
            1 + directories_below(camera, camera(ROOT_DIRECTORY@), depth),
        ) == (WalkView {
            awaiting: None,
            queue: Seq::empty(),
            files: files_below(camera, camera(ROOT_DIRECTORY@), depth)->0,
        }),
{
    let listing = camera(ROOT_DIRECTORY@);
    let answers = directories_below(camera, listing, depth);
    let empty = Seq::<ItemView>::empty();
    lemma_walk_finds_files_below(camera, listing, empty, depth);
    assert(listing + empty == listing);
    assert(empty + files_below(camera, listing, depth)->0 == files_below(camera, listing, depth)->0);
    assert(after_listing(walk_start(), listing) == settle(
        WalkView { awaiting: None, queue: listing, files: empty },
    ));
    assert(walked(camera, walk_start(), 1 + answers) == walked(
        camera,
        after_listing(walk_start(), listing),
        answers,
    ));
}

} // verus!
