//! The files of a drag-and-drop: what the control asks the platform about
//! them, and the one release of the platform's resources.

use vstd::prelude::*;
use crate::text::{texts, utf16};

verus! {

/// One request to the platform about a set of dropped files.
#[derive(Clone, Copy, Debug, PartialEq, Eq, Structural)]
pub enum DropRequest {
    /// Ask where the pointer was when the files were dropped.
    Point,
    /// Ask how many files were dropped.
    Count,
    /// Ask for the length, in UTF-16 units, of the path of the file at this
    /// position.
    PathLength(u32),
    /// Ask for the path of the file at this position, into a buffer of this
    /// many units.
    Path(u32, u64),
    /// Tell the platform that the set is no longer needed.
    Finish,
}

/// What the platform answers.
#[derive(Debug, PartialEq, Eq)]
pub enum DropReply {
    Point(i32, i32),
    Number(u32),
    Text(String),
}

/// A reply with its text as a sequence of characters.
pub enum DropReplyView {
    Point(i32, i32),
    Number(u32),
    Text(Seq<char>),
}

impl View for DropReply {
    type V = DropReplyView;

    open spec fn view(&self) -> DropReplyView {
        match *self {
            DropReply::Point(x, y) => DropReplyView::Point(x, y),
            DropReply::Number(n) => DropReplyView::Number(n),
            DropReply::Text(s) => DropReplyView::Text(s@),
        }
    }
}

/// How far the listing of the dropped files has come: how many files there
/// are, and the paths read so far.
#[derive(Debug, PartialEq, Eq)]
pub struct FileListing {
    pub count: u32,
    pub files: Vec<String>,
}

/// A listing with its paths as sequences of characters.
pub struct Listing {
    pub count: u32,
    pub files: Seq<Seq<char>>,
}

impl View for FileListing {
    type V = Listing;

    open spec fn view(&self) -> Listing {
        Listing { count: self.count, files: texts(self.files@) }
    }
}

/// What has come back from the platform while the files are listed.
#[derive(Debug, PartialEq, Eq)]
pub enum FilesEvent {
    /// Nothing was asked yet.
    Begin,
    /// The number of files.
    Counted(u32),
    /// The length of the next path.
    Measured(u32),
    /// The next path.
    Copied(String),
}

/// An event with its text as a sequence of characters.
pub enum FilesEventView {
    Begin,
    Counted(u32),
    Measured(u32),
    Copied(Seq<char>),
}

impl View for FilesEvent {
    type V = FilesEventView;

    open spec fn view(&self) -> FilesEventView {
        match *self {
            FilesEvent::Begin => FilesEventView::Begin,
            FilesEvent::Counted(n) => FilesEventView::Counted(n),
            FilesEvent::Measured(n) => FilesEventView::Measured(n),
            FilesEvent::Copied(s) => FilesEventView::Copied(s@),
        }
    }
}

/// What to do next while the files are listed.
#[derive(Debug, PartialEq, Eq)]
pub enum FilesStep {
    /// Send this request and come back with the reply and this listing.
    Ask(FileListing, DropRequest),
    /// The listing is over: these are the paths, in the platform's order.
    Done(Vec<String>),
}

/// A step with its texts as sequences of characters.
pub enum FilesStepView {
    Ask(Listing, DropRequest),
    Done(Seq<Seq<char>>),
}

impl View for FilesStep {
    type V = FilesStepView;

    open spec fn view(&self) -> FilesStepView {
        match *self {
            FilesStep::Ask(l, r) => FilesStepView::Ask(l@, r),
            FilesStep::Done(f) => FilesStepView::Done(texts(f@)),
        }
    }
}

/// The event that the platform's reply to `asked` makes. A reply that does
/// not fit the question counts as zero or as an empty path, which is what
/// the platform gives where it fails.
pub open spec fn files_event_of(asked: DropRequest, reply: DropReplyView) -> FilesEventView {
    match (asked, reply) {
        (DropRequest::Count, DropReplyView::Number(n)) => FilesEventView::Counted(n),
        (DropRequest::PathLength(_), DropReplyView::Number(n)) => FilesEventView::Measured(n),
        (DropRequest::PathLength(_), _) => FilesEventView::Measured(0),
        (DropRequest::Path(_, _), DropReplyView::Text(t)) => FilesEventView::Copied(t),
        (DropRequest::Path(_, _), _) => FilesEventView::Copied(Seq::empty()),
        _ => FilesEventView::Counted(0),
    }
}

/// The step that follows an event of the listing. The count comes first;
/// then, for each file in turn, the length of its path and the path itself,
/// read into a buffer one unit longer than the path, for the terminator.
pub open spec fn files_step(listing: Listing, event: FilesEventView) -> FilesStepView {
    match event {
        FilesEventView::Begin => FilesStepView::Ask(
            Listing { count: 0, files: Seq::empty() },
            DropRequest::Count,
        ),
        FilesEventView::Counted(n) => if n == 0 {
            FilesStepView::Done(Seq::empty())
        } else {
            FilesStepView::Ask(Listing { count: n, files: Seq::empty() }, DropRequest::PathLength(0))
        },
        FilesEventView::Measured(length) => if listing.files.len() < listing.count {
            FilesStepView::Ask(
                listing,
                DropRequest::Path(listing.files.len() as u32, (length + 1) as u64),
            )
        } else {
            FilesStepView::Done(listing.files)
        },
        FilesEventView::Copied(path) => if listing.files.len() + 1 < listing.count {
            FilesStepView::Ask(
                Listing { count: listing.count, files: listing.files.push(path) },
                DropRequest::PathLength((listing.files.len() + 1) as u32),
            )
        } else if listing.files.len() < listing.count {
            FilesStepView::Done(listing.files.push(path))
        } else {
            FilesStepView::Done(listing.files)
        },
    }
}

impl FilesEvent {
    /// The event that the platform's reply to `asked` makes.
    pub fn from_reply(asked: DropRequest, reply: DropReply) -> (event: FilesEvent)
        ensures
            event@ == files_event_of(asked, reply@),
    {
        match (asked, reply) {
            (DropRequest::Count, DropReply::Number(n)) => FilesEvent::Counted(n),
            (DropRequest::PathLength(_), DropReply::Number(n)) => FilesEvent::Measured(n),
            (DropRequest::PathLength(_), _) => FilesEvent::Measured(0),
            (DropRequest::Path(_, _), DropReply::Text(t)) => FilesEvent::Copied(t),
            (DropRequest::Path(_, _), _) => FilesEvent::Copied(String::new()),
            _ => FilesEvent::Counted(0),
        }
    }
}

/// The state of a payload: the platform's handle of the set, and whether
/// the set was released.
pub struct DropState {
    pub drop: usize,
    pub finished: bool,
}

/// The state after a release is asked for, and the request to send, if one
/// is due: a set is released once, and a null handle never.
pub open spec fn released(d: DropState) -> (DropState, Option<DropRequest>) {
    (
        DropState { drop: d.drop, finished: true },
        if d.drop != 0 && !d.finished {
            Some(DropRequest::Finish)
        } else {
            None
        },
    )
}

/// The files dropped on a control, by the platform's handle of the set.
#[derive(Debug)]
pub struct DropFiles {
    drop: usize,
    finished: bool,
}

impl View for DropFiles {
    type V = DropState;

    closed spec fn view(&self) -> DropState {
        DropState { drop: self.drop, finished: self.finished }
    }
}

impl DropFiles {
    /// The payload for the set with this handle, not yet released.
    pub fn new(drop: usize) -> (files: DropFiles)
        ensures
            files@ == (DropState { drop, finished: false }),
    {
        DropFiles { drop, finished: false }
    }

    /// The platform's handle of the set.
    pub fn handle(&self) -> (drop: usize)
        ensures
            drop == self@.drop,
    {
        self.drop
    }

    /// The request that asks where the files were dropped.
    pub fn point_request(&self) -> (request: DropRequest)
        ensures
            request == DropRequest::Point,
    {
        DropRequest::Point
    }

    /// The place of the pointer when the files were dropped, relative to the
    /// control, from the platform's reply; the control's corner where the
    /// platform gave no place.
    pub fn point(&self, reply: &DropReply) -> (at: [i32; 2])
        ensures
            at@ == match reply@ {
                DropReplyView::Point(x, y) => seq![x, y],
                _ => seq![0i32, 0i32],
            },
    {
        match reply {
            DropReply::Point(x, y) => [*x, *y],
            _ => [0, 0],
        }
    }

    /// The request that asks how many files were dropped.
    pub fn len_request(&self) -> (request: DropRequest)
        ensures
            request == DropRequest::Count,
    {
        DropRequest::Count
    }

    /// The number of files dropped, from the platform's reply; zero where
    /// the platform gave no number.
    pub fn len(&self, reply: &DropReply) -> (count: usize)
        ensures
            count == match reply@ {
                DropReplyView::Number(n) => n as usize,
                _ => 0usize,
            },
    {
        match reply {
            DropReply::Number(n) => *n as usize,
            _ => 0,
        }
    }

    /// One step of listing the paths of the dropped files: the step that
    /// follows `event`, given how far the listing has come.
    pub fn files(&self, listing: FileListing, event: FilesEvent) -> (step: FilesStep)
        ensures
            step@ == files_step(listing@, event@),
    {
        let mut listing = listing;
        let ghost before = listing@;
        let held: usize = listing.files.len();
        match event {
            FilesEvent::Begin => {
                let fresh = FileListing { count: 0, files: Vec::new() };
                assert(fresh@.files =~= Seq::empty());
                FilesStep::Ask(fresh, DropRequest::Count)
            },
            FilesEvent::Counted(n) => {
                let files: Vec<String> = Vec::new();
                assert(texts(files@) =~= Seq::empty());
                if n == 0 {
                    FilesStep::Done(files)
                } else {
                    FilesStep::Ask(FileListing { count: n, files }, DropRequest::PathLength(0))
                }
            },
            FilesEvent::Measured(length) => {
                if held < listing.count as usize {
                    let units: u64 = length as u64 + 1;
                    FilesStep::Ask(listing, DropRequest::Path(held as u32, units))
                } else {
                    FilesStep::Done(listing.files)
                }
            },
            FilesEvent::Copied(path) => {
                if held < listing.count as usize {
                    listing.files.push(path);
                    assert(texts(listing.files@) =~= before.files.push(path@));
                    if held + 1 < listing.count as usize {
                        FilesStep::Ask(listing, DropRequest::PathLength((held + 1) as u32))
                    } else {
                        FilesStep::Done(listing.files)
                    }
                } else {
                    FilesStep::Done(listing.files)
                }
            },
        }
    }

    /// Marks the set as released and gives the request that releases it,
    /// the first time and for a handle that is not null; nothing after that.
    pub fn release(&mut self) -> (request: Option<DropRequest>)
        ensures
            (final(self)@, request) == released(old(self)@),
    {
        let due: bool = self.drop != 0 && !self.finished;
        self.finished = true;
        if due {
            Some(DropRequest::Finish)
        } else {
            None
        }
    }
}

/// A set of dropped files as the platform holds it.
pub struct Dropped {
    pub point: (i32, i32),
    pub paths: Seq<Seq<char>>,
}

/// True when the number of files and the length of each path are ones that
/// a reply can carry.
pub open spec fn countable(d: Dropped) -> bool {
    &&& d.paths.len() <= u32::MAX
    &&& forall|i: int| 0 <= i < d.paths.len() ==> utf16(#[trigger] d.paths[i]).len() <= u32::MAX
}

/// What the platform answers about a set. A path comes whole where the
/// buffer has room for it and its terminator.
pub open spec fn drop_answer(d: Dropped, request: DropRequest) -> DropReplyView {
    match request {
        DropRequest::Point => DropReplyView::Point(d.point.0, d.point.1),
        DropRequest::Count => DropReplyView::Number(d.paths.len() as u32),
        DropRequest::PathLength(i) => if i < d.paths.len() {
            DropReplyView::Number(utf16(d.paths[i as int]).len() as u32)
        } else {
            DropReplyView::Number(0)
        },
        DropRequest::Path(i, units) => if i < d.paths.len() && utf16(d.paths[i as int]).len()
            < units {
            DropReplyView::Text(d.paths[i as int])
        } else {
            DropReplyView::Number(0)
        },
        DropRequest::Finish => DropReplyView::Number(0),
    }
}

/// The step reached from `step` when the platform answers each request
/// about `d` and at most `requests` requests are made.
pub open spec fn listing_of(d: Dropped, step: FilesStepView, requests: nat) -> FilesStepView
    decreases requests,
{
    if requests == 0 {
        step
    } else {
        match step {
            FilesStepView::Ask(listing, request) => listing_of(
                d,
                files_step(listing, files_event_of(request, drop_answer(d, request))),
                (requests - 1) as nat,
            ),
            FilesStepView::Done(_) => step,
        }
    }
}

/// Once the first `held` paths are read, two requests for each file that is
/// left end the listing with every path.
proof fn lemma_listing_completes(d: Dropped, held: nat)
    requires
        countable(d),
        held < d.paths.len(),
    ensures
        listing_of(
            d,
            FilesStepView::Ask(
                Listing { count: d.paths.len() as u32, files: d.paths.take(held as int) },
                DropRequest::PathLength(held as u32),
            ),
            (2 * (d.paths.len() - held)) as nat,
        ) == FilesStepView::Done(d.paths),
    decreases d.paths.len() - held,
{
    let n = d.paths.len();
    let listing = Listing { count: n as u32, files: d.paths.take(held as int) };
    let ask_length = DropRequest::PathLength(held as u32);
    let length = utf16(d.paths[held as int]).len() as u32;
    let ask_path = DropRequest::Path(held as u32, (length + 1) as u64);
    let fuel = (2 * (n - held)) as nat;
    let second = files_step(listing, files_event_of(ask_length, drop_answer(d, ask_length)));
    assert(second == FilesStepView::Ask(listing, ask_path));
    let third = files_step(listing, files_event_of(ask_path, drop_answer(d, ask_path)));
    assert(d.paths.take(held as int).push(d.paths[held as int]) =~= d.paths.take(held as int + 1));
    assert(listing_of(d, FilesStepView::Ask(listing, ask_length), fuel) == listing_of(
        d,
        second,
        (fuel - 1) as nat,
    ));
    assert(listing_of(d, second, (fuel - 1) as nat) == listing_of(d, third, (fuel - 2) as nat));
    if held + 1 < n {
        lemma_listing_completes(d, held + 1);
    } else {
        assert(d.paths.take(n as int) =~= d.paths);
        assert(third == FilesStepView::Done(d.paths));
        assert(listing_of(d, third, (fuel - 2) as nat) == third);
    }
}

/// Listing the files of a set takes one request for the count and two for
/// each file, and ends with the path of every file, in the platform's
/// order.
pub proof fn law_files_lists_every_path(d: Dropped)
    requires
        countable(d),
    ensures
        listing_of(
            d,
            files_step(Listing { count: 0, files: Seq::empty() }, FilesEventView::Begin),
            (1 + 2 * d.paths.len()) as nat,
        ) == FilesStepView::Done(d.paths),
{
    let start = files_step(Listing { count: 0, files: Seq::empty() }, FilesEventView::Begin);
    let fuel = (1 + 2 * d.paths.len()) as nat;
    let next = files_step(
        Listing { count: 0, files: Seq::empty() },
        files_event_of(DropRequest::Count, drop_answer(d, DropRequest::Count)),
    );
    assert(listing_of(d, start, fuel) == listing_of(d, next, (fuel - 1) as nat));
    if d.paths.len() == 0 {
        assert(d.paths =~= Seq::empty());
        assert(listing_of(d, next, (fuel - 1) as nat) == next);
    } else {
        assert(d.paths.take(0) =~= Seq::empty());
        lemma_listing_completes(d, 0);
    }
}

/// A set is released exactly once: the first release of a set with a handle
/// gives the request, whether or not its files were ever listed, and no
/// later release gives one.
pub proof fn law_release_fires_once(d: DropState)
    ensures
        d.drop != 0 && !d.finished ==> released(d).1 == Some(DropRequest::Finish),
        released(released(d).0).1 == None::<DropRequest>,
        released(d).0.drop == d.drop,
{
}

} // verus!
