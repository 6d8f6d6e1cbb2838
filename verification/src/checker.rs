//! Finding out whether a repository's upstream has moved on.
//!
//! The check is a conversation with the version-control engine. The
//! library leads it: [`Checker::begin`] and [`Checker::advance`] say what
//! to ask of the engine next, the caller asks and reports what happened,
//! and in the end the checker says what it found. Nothing is asked twice
//! and nothing is asked after a failure.

use crate::revision::{commit_views, walk_messages, Commit, CommitView, History, RevisionId};
use crate::text::texts;
use crate::update_info::{UpdateInfo, UpdateInfoView};
use vstd::prelude::*;
use vstd::string::StringExecFns;

verus! {

/// A revision the engine is asked to resolve.
#[derive(Debug, Clone, Copy, PartialEq, Eq)]
pub enum Revision {
    /// The commit the local branch is at.
    Head,
    /// The commit the branch's upstream is at.
    Upstream,
}

impl Revision {
    /// The expression that names the revision to the engine.
    pub fn expression(&self) -> (e: &'static str)
        ensures
            *self == Revision::Head ==> e@ == "HEAD"@,
            *self == Revision::Upstream ==> e@ == "@{u}"@,
    {
        match self {
            Revision::Head => "HEAD",
            Revision::Upstream => "@{u}",
        }
    }
}

/// The remote every repository is fetched from.
pub fn remote_name() -> (n: &'static str)
    ensures
        n@ == "origin"@,
{
    "origin"
}

/// The one branch that is followed.
pub fn branch_name() -> (n: &'static str)
    ensures
        n@ == "master"@,
{
    "master"
}

/// What the caller is to do next.
#[derive(Debug, PartialEq, Eq)]
pub enum Request {
    /// Open the repository.
    Open,
    /// Fetch [`branch_name`] from the remote [`remote_name`], once.
    Fetch,
    /// Resolve a revision to its id.
    Resolve(Revision),
    /// Walk the history from `from`, leaving out `hide` and all that it
    /// reaches, and report each commit met: descendants before their
    /// ancestors, and of two commits that are neither the later one first.
    Walk { from: RevisionId, hide: RevisionId },
    /// Point the branch [`crate::pull::branch_reference`] at `target`,
    /// with `log` as the entry in the reference log.
    MoveBranch { target: RevisionId, log: String },
    /// Make the branch [`crate::pull::branch_reference`] the head.
    SetHead,
    /// Check the head out, overwriting what is in the working tree.
    Checkout,
}

/// A [`Request`] as specifications see it.
pub enum RequestView {
    Open,
    Fetch,
    Resolve(Revision),
    Walk { from: Seq<char>, hide: Seq<char> },
    MoveBranch { target: Seq<char>, log: Seq<char> },
    SetHead,
    Checkout,
}

impl View for Request {
    type V = RequestView;

    open spec fn view(&self) -> RequestView {
        match *self {
            Request::Open => RequestView::Open,
            Request::Fetch => RequestView::Fetch,
            Request::Resolve(r) => RequestView::Resolve(r),
            Request::Walk { from, hide } => RequestView::Walk { from: from@, hide: hide@ },
            Request::MoveBranch { target, log } => RequestView::MoveBranch {
                target: target@,
                log: log@,
            },
            Request::SetHead => RequestView::SetHead,
            Request::Checkout => RequestView::Checkout,
        }
    }
}

/// What came of a [`Request`]. A failure carries the engine's own words.
#[derive(Debug, PartialEq, Eq)]
pub enum Event {
    /// The repository is open.
    Opened,
    /// There is no repository at the path, or it cannot be read.
    OpenFailed(String),
    /// The fetch went through.
    Fetched,
    /// The repository has no remote of that name.
    RemoteMissing(String),
    /// The remote was there, the fetch failed.
    FetchFailed(String),
    /// The revision asked for is this commit.
    Resolved(RevisionId),
    /// The revision asked for names no commit.
    Unresolved(String),
    /// The walk met these commits, in this order.
    Walked(Vec<Commit>),
    /// The walk broke off.
    WalkFailed(String),
    /// The branch points at its new target.
    BranchMoved,
    /// The branch could not be moved, or could not be made the head.
    ReferenceFailed(String),
    /// The branch is the head.
    HeadSet,
    /// The working tree holds the head.
    CheckedOut,
    /// The working tree could not be written.
    CheckoutFailed(String),
}

/// An [`Event`] as specifications see it.
pub enum EventView {
    Opened,
    OpenFailed(Seq<char>),
    Fetched,
    RemoteMissing(Seq<char>),
    FetchFailed(Seq<char>),
    Resolved(Seq<char>),
    Unresolved(Seq<char>),
    Walked(Seq<CommitView>),
    WalkFailed(Seq<char>),
    BranchMoved,
    ReferenceFailed(Seq<char>),
    HeadSet,
    CheckedOut,
    CheckoutFailed(Seq<char>),
}

impl View for Event {
    type V = EventView;

    open spec fn view(&self) -> EventView {
        match *self {
            Event::Opened => EventView::Opened,
            Event::OpenFailed(m) => EventView::OpenFailed(m@),
            Event::Fetched => EventView::Fetched,
            Event::RemoteMissing(m) => EventView::RemoteMissing(m@),
            Event::FetchFailed(m) => EventView::FetchFailed(m@),
            Event::Resolved(id) => EventView::Resolved(id@),
            Event::Unresolved(m) => EventView::Unresolved(m@),
            Event::Walked(commits) => EventView::Walked(commit_views(commits@)),
            Event::WalkFailed(m) => EventView::WalkFailed(m@),
            Event::BranchMoved => EventView::BranchMoved,
            Event::ReferenceFailed(m) => EventView::ReferenceFailed(m@),
            Event::HeadSet => EventView::HeadSet,
            Event::CheckedOut => EventView::CheckedOut,
            Event::CheckoutFailed(m) => EventView::CheckoutFailed(m@),
        }
    }
}

/// Why a check came to nothing.
#[derive(Debug, PartialEq, Eq)]
pub enum CheckError {
    /// The repository's path has no last component to name it by.
    Unnamed,
    /// The repository is missing or cannot be read.
    RepoOpen(String),
    /// The repository has no remote to fetch from.
    RemoteNotFound(String),
    /// The fetch failed.
    Network(String),
    /// The local head or its upstream names no commit.
    RevisionResolution(String),
    /// The walk over the new commits broke off.
    Walk(String),
    /// An event was reported that answers no request of the checker.
    OutOfOrder,
}

/// A [`CheckError`] as specifications see it.
pub enum CheckErrorView {
    Unnamed,
    RepoOpen(Seq<char>),
    RemoteNotFound(Seq<char>),
    Network(Seq<char>),
    RevisionResolution(Seq<char>),
    Walk(Seq<char>),
    OutOfOrder,
}

impl View for CheckError {
    type V = CheckErrorView;

    open spec fn view(&self) -> CheckErrorView {
        match *self {
            CheckError::Unnamed => CheckErrorView::Unnamed,
            CheckError::RepoOpen(m) => CheckErrorView::RepoOpen(m@),
            CheckError::RemoteNotFound(m) => CheckErrorView::RemoteNotFound(m@),
            CheckError::Network(m) => CheckErrorView::Network(m@),
            CheckError::RevisionResolution(m) => CheckErrorView::RevisionResolution(m@),
            CheckError::Walk(m) => CheckErrorView::Walk(m@),
            CheckError::OutOfOrder => CheckErrorView::OutOfOrder,
        }
    }
}

/// What is said of a failed check.
pub open spec fn check_error_text(e: CheckErrorView) -> Seq<char> {
    match e {
        CheckErrorView::Unnamed => "the path names no repository"@,
        CheckErrorView::RepoOpen(m) => "cannot open the repository: "@ + m,
        CheckErrorView::RemoteNotFound(m) => "no remote to fetch from: "@ + m,
        CheckErrorView::Network(m) => "the fetch failed: "@ + m,
        CheckErrorView::RevisionResolution(m) => "cannot resolve a revision: "@ + m,
        CheckErrorView::Walk(m) => "cannot walk the new commits: "@ + m,
        CheckErrorView::OutOfOrder => "an event came out of order"@,
    }
}

impl CheckError {
    /// What went wrong, in words.
    pub fn describe(&self) -> (text: String)
        ensures
            text@ == check_error_text(self@),
    {
        match self {
            CheckError::Unnamed => String::from_str("the path names no repository"),
            CheckError::RepoOpen(m) => String::from_str("cannot open the repository: ").concat(
                m.as_str(),
            ),
            CheckError::RemoteNotFound(m) => String::from_str("no remote to fetch from: ").concat(
                m.as_str(),
            ),
            CheckError::Network(m) => String::from_str("the fetch failed: ").concat(m.as_str()),
            CheckError::RevisionResolution(m) => String::from_str(
                "cannot resolve a revision: ",
            ).concat(m.as_str()),
            CheckError::Walk(m) => String::from_str("cannot walk the new commits: ").concat(
                m.as_str(),
            ),
            CheckError::OutOfOrder => String::from_str("an event came out of order"),
        }
    }
}

/// A repository whose upstream is not where its local branch is.
#[derive(Debug)]
pub struct Divergence {
    /// Where upstream is.
    pub upstream: RevisionId,
    /// The repository's name and the messages of its new commits.
    pub info: UpdateInfo,
}

/// A [`Divergence`] as specifications see it.
pub struct DivergenceView {
    pub upstream: Seq<char>,
    pub info: UpdateInfoView,
}

impl View for Divergence {
    type V = DivergenceView;

    open spec fn view(&self) -> DivergenceView {
        DivergenceView { upstream: self.upstream@, info: self.info@ }
    }
}

/// What a check found: nothing new, a divergence, or why it failed.
pub type CheckResult = Result<Option<Divergence>, CheckError>;

/// A [`CheckResult`] as specifications see it.
pub type CheckResultView = Result<Option<DivergenceView>, CheckErrorView>;

/// The view of a check's result.
pub open spec fn check_result_view(r: CheckResult) -> CheckResultView {
    match r {
        Ok(Some(d)) => Ok(Some(d@)),
        Ok(None) => Ok(None),
        Err(e) => Err(e@),
    }
}

/// Where a check stands.
#[derive(Debug)]
pub enum Phase {
    /// The repository is being opened.
    Opening,
    /// The fetch is under way.
    Fetching,
    /// The local head is being resolved.
    ResolvingLocal,
    /// The upstream is being resolved; the local head is `local`.
    ResolvingUpstream { local: RevisionId },
    /// The new commits are being walked.
    Walking { local: RevisionId, upstream: RevisionId },
    /// The check is over.
    Finished,
}

/// A [`Phase`] as specifications see it.
pub enum PhaseView {
    Opening,
    Fetching,
    ResolvingLocal,
    ResolvingUpstream { local: Seq<char> },
    Walking { local: Seq<char>, upstream: Seq<char> },
    Finished,
}

impl View for Phase {
    type V = PhaseView;

    open spec fn view(&self) -> PhaseView {
        match *self {
            Phase::Opening => PhaseView::Opening,
            Phase::Fetching => PhaseView::Fetching,
            Phase::ResolvingLocal => PhaseView::ResolvingLocal,
            Phase::ResolvingUpstream { local } => PhaseView::ResolvingUpstream { local: local@ },
            Phase::Walking { local, upstream } => PhaseView::Walking {
                local: local@,
                upstream: upstream@,
            },
            Phase::Finished => PhaseView::Finished,
        }
    }
}

/// The check of one repository, as far as it has come.
#[derive(Debug)]
pub struct Checker {
    /// The repository's name.
    pub name: String,
    /// Where the check stands.
    pub phase: Phase,
}

/// A [`Checker`] as specifications see it.
pub struct CheckerView {
    pub name: Seq<char>,
    pub phase: PhaseView,
}

impl View for Checker {
    type V = CheckerView;

    open spec fn view(&self) -> CheckerView {
        CheckerView { name: self.name@, phase: self.phase@ }
    }
}

/// What the checker says after an event: ask the engine for more, or the
/// result.
#[derive(Debug)]
pub enum CheckStep {
    Ask(Request),
    Done(CheckResult),
}

/// A [`CheckStep`] as specifications see it.
pub enum CheckStepView {
    Ask(RequestView),
    Done(CheckResultView),
}

impl View for CheckStep {
    type V = CheckStepView;

    open spec fn view(&self) -> CheckStepView {
        match *self {
            CheckStep::Ask(r) => CheckStepView::Ask(r@),
            CheckStep::Done(r) => CheckStepView::Done(check_result_view(r)),
        }
    }
}

impl CheckerView {
    /// The checker in another phase.
    pub open spec fn at(self, phase: PhaseView) -> CheckerView {
        CheckerView { name: self.name, phase }
    }

    /// The checker goes on to `phase` and asks for `request`.
    pub open spec fn ask(self, phase: PhaseView, request: RequestView) -> (
        CheckerView,
        CheckStepView,
    ) {
        (self.at(phase), CheckStepView::Ask(request))
    }

    /// The checker ends with `result`.
    pub open spec fn end(self, result: CheckResultView) -> (CheckerView, CheckStepView) {
        (self.at(PhaseView::Finished), CheckStepView::Done(result))
    }

    /// What the checker found once the walk has yielded `walk`: the
    /// repository's name with one text for each commit, in the walk's
    /// order.
    pub open spec fn found(self, upstream: Seq<char>, walk: Seq<CommitView>) -> DivergenceView {
        DivergenceView {
            upstream,
            info: UpdateInfoView { name: self.name, commits: walk_messages(walk) },
        }
    }

    /// The checker's answer to `event`.
    ///
    /// Each phase waits for the outcome of one request. Success leads to
    /// the next request, failure ends the check with the error of that
    /// step, and an event that is no outcome of the pending request ends
    /// it with [`CheckError::OutOfOrder`]. Once upstream is known to be
    /// where the local head is, the check ends with nothing new; only
    /// otherwise is a walk asked for.
    pub open spec fn next(self, event: EventView) -> (CheckerView, CheckStepView) {
        match (self.phase, event) {
            (PhaseView::Opening, EventView::Opened) => self.ask(
                PhaseView::Fetching,
                RequestView::Fetch,
            ),
            (PhaseView::Opening, EventView::OpenFailed(m)) => self.end(
                Err(CheckErrorView::RepoOpen(m)),
            ),
            (PhaseView::Fetching, EventView::Fetched) => self.ask(
                PhaseView::ResolvingLocal,
                RequestView::Resolve(Revision::Head),
            ),
            (PhaseView::Fetching, EventView::RemoteMissing(m)) => self.end(
                Err(CheckErrorView::RemoteNotFound(m)),
            ),
            (PhaseView::Fetching, EventView::FetchFailed(m)) => self.end(
                Err(CheckErrorView::Network(m)),
            ),
            (PhaseView::ResolvingLocal, EventView::Resolved(local)) => self.ask(
                PhaseView::ResolvingUpstream { local },
                RequestView::Resolve(Revision::Upstream),
            ),
            (PhaseView::ResolvingLocal, EventView::Unresolved(m)) => self.end(
                Err(CheckErrorView::RevisionResolution(m)),
            ),
            (PhaseView::ResolvingUpstream { local }, EventView::Resolved(upstream)) => {
                if upstream == local {
                    self.end(Ok(None))
                } else {
                    self.ask(
                        PhaseView::Walking { local, upstream },
                        RequestView::Walk { from: upstream, hide: local },
                    )
                }
            },
            (PhaseView::ResolvingUpstream { local }, EventView::Unresolved(m)) => self.end(
                Err(CheckErrorView::RevisionResolution(m)),
            ),
            (PhaseView::Walking { local, upstream }, EventView::Walked(walk)) => self.end(
                Ok(Some(self.found(upstream, walk))),
            ),
            (PhaseView::Walking { local, upstream }, EventView::WalkFailed(m)) => self.end(
                Err(CheckErrorView::Walk(m)),
            ),
            _ => self.end(Err(CheckErrorView::OutOfOrder)),
        }
    }
}

/// The request changes the repository: its references, its head or its
/// working tree.
pub open spec fn changes_repository(request: RequestView) -> bool {
    request is MoveBranch || request is SetHead || request is Checkout
}

/// How far a check has come: each phase is further than the one before.
pub open spec fn progress(phase: PhaseView) -> nat {
    match phase {
        PhaseView::Opening => 0,
        PhaseView::Fetching => 1,
        PhaseView::ResolvingLocal => 2,
        PhaseView::ResolvingUpstream { .. } => 3,
        PhaseView::Walking { .. } => 4,
        PhaseView::Finished => 5,
    }
}

/// A check only reads: whatever it is told, it asks for nothing that
/// changes the repository's references, head or working tree.
pub proof fn law_check_changes_nothing(checker: CheckerView, event: EventView)
    ensures
        match checker.next(event).1 {
            CheckStepView::Ask(request) => !changes_repository(request),
            CheckStepView::Done(_) => true,
        },
{
}

/// A check never goes back: every event takes it to a later phase or ends
/// it, so nothing is asked a second time, the fetch is tried once, and the
/// check is over after five events at most.
pub proof fn law_check_moves_forward(checker: CheckerView, event: EventView)
    ensures
        checker.next(event).0.name == checker.name,
        checker.next(event).0.phase == PhaseView::Finished || progress(
            checker.next(event).0.phase,
        ) == progress(checker.phase) + 1,
        checker.next(event).1 is Done <==> checker.next(event).0.phase == PhaseView::Finished,
        checker.next(event).1 == CheckStepView::Ask(RequestView::Fetch) ==> checker.phase
            == PhaseView::Opening,
{
}

/// The checker of the repository called `name`, before its first event.
pub open spec fn started(name: Seq<char>) -> CheckerView {
    CheckerView { name, phase: PhaseView::Opening }
}

/// Where the checker `from` stands after `events`, and its answer to the
/// last of them.
pub open spec fn check_run(from: CheckerView, events: Seq<EventView>) -> (
    CheckerView,
    Option<CheckStepView>,
)
    decreases events.len(),
{
    if events.len() == 0 {
        (from, None)
    } else {
        let before = check_run(from, events.drop_last()).0;
        let (after, step) = before.next(events.last());
        (after, Some(step))
    }
}

/// What the engine reports of a repository in good order whose local head
/// is `local` and whose upstream is `upstream`, to a checker that asks as
/// [`CheckerView::next`] does; `walk` is what a walk yields.
pub open spec fn sound_events(local: Seq<char>, upstream: Seq<char>, walk: Seq<CommitView>) -> Seq<
    EventView,
> {
    let resolved = seq![
        EventView::Opened,
        EventView::Fetched,
        EventView::Resolved(local),
        EventView::Resolved(upstream),
    ];
    if local == upstream {
        resolved
    } else {
        resolved.push(EventView::Walked(walk))
    }
}

/// Unfolds a run by its last event.
pub proof fn lemma_check_run_push(from: CheckerView, events: Seq<EventView>, event: EventView)
    ensures
        check_run(from, events.push(event)) == ({
            let (after, step) = check_run(from, events).0.next(event);
            (after, Some(step))
        }),
{
    assert(events.push(event).drop_last() =~= events);
}

/// Where a check stands once both revisions of a repository in good order
/// are known.
pub proof fn lemma_check_run_resolved(name: Seq<char>, local: Seq<char>, upstream: Seq<char>)
    ensures
        check_run(
            started(name),
            seq![
                EventView::Opened,
                EventView::Fetched,
                EventView::Resolved(local),
                EventView::Resolved(upstream),
            ],
        ) == ({
            let (after, step) = started(name).at(PhaseView::ResolvingUpstream { local }).next(
                EventView::Resolved(upstream),
            );
            (after, Some(step))
        }),
{
    let e0 = Seq::<EventView>::empty();
    let e1 = e0.push(EventView::Opened);
    let e2 = e1.push(EventView::Fetched);
    let e3 = e2.push(EventView::Resolved(local));
    let e4 = e3.push(EventView::Resolved(upstream));
    lemma_check_run_push(started(name), e0, EventView::Opened);
    lemma_check_run_push(started(name), e1, EventView::Fetched);
    lemma_check_run_push(started(name), e2, EventView::Resolved(local));
    lemma_check_run_push(started(name), e3, EventView::Resolved(upstream));
    assert(e4 =~= seq![
        EventView::Opened,
        EventView::Fetched,
        EventView::Resolved(local),
        EventView::Resolved(upstream),
    ]);
}

/// A repository whose upstream is where its local head is has nothing
/// new: the check ends without a walk and reports no divergence.
pub proof fn law_same_revision_means_nothing_new(
    name: Seq<char>,
    revision: Seq<char>,
    walk: Seq<CommitView>,
)
    ensures
        check_run(started(name), sound_events(revision, revision, walk)).1 == Some(
            CheckStepView::Done(Ok(None)),
        ),
{
    lemma_check_run_resolved(name, revision, revision);
}

/// A repository whose upstream is elsewhere is reported with one text for
/// each commit that upstream reaches and the local head does not, in the
/// order of the walk, and none of them belongs to the local head itself.
pub proof fn law_divergence_lists_the_new_commits(
    name: Seq<char>,
    history: History,
    local: Seq<char>,
    upstream: Seq<char>,
    walk: Seq<CommitView>,
)
    requires
        local != upstream,
        history.is_walk(walk, upstream, local),
    ensures
        check_run(started(name), sound_events(local, upstream, walk)).1 == Some(
            CheckStepView::Done(Ok(Some(started(name).found(upstream, walk)))),
        ),
        history.new_commits(upstream, local).finite(),
        started(name).found(upstream, walk).info.commits.len() == history.new_commits(
            upstream,
            local,
        ).len(),
        forall|i: int|
            0 <= i < walk.len() ==> (#[trigger] walk[i]).id != local && started(name).found(
                upstream,
                walk,
            ).info.commits[i] == walk[i].listed(),
{
    lemma_check_run_resolved(name, local, upstream);
    let resolved = seq![
        EventView::Opened,
        EventView::Fetched,
        EventView::Resolved(local),
        EventView::Resolved(upstream),
    ];
    lemma_check_run_push(started(name), resolved, EventView::Walked(walk));
    history.lemma_walk_lists_the_new_commits(walk, upstream, local);
}

/// The texts listed for the commits of a walk: each commit's message, or
/// the empty text where it has none that can be read.
pub fn messages_of(commits: &Vec<Commit>) -> (messages: Vec<String>)
    ensures
        texts(messages@) == walk_messages(commit_views(commits@)),
{
    let mut messages: Vec<String> = Vec::new();
    let mut i: usize = 0;
    while i < commits.len()
        invariant
            i <= commits.len(),
            messages.len() == i,
            forall|k: int| 0 <= k < i ==> (#[trigger] messages@[k])@ == commits@[k]@.listed(),
        decreases commits.len() - i,
    {
        let text = match &commits[i].message {
            Some(m) => m.clone(),
            None => String::new(),
        };
        messages.push(text);
        i = i + 1;
    }
    messages
}

impl Checker {
    /// Starts the check of the repository called `name`, the last
    /// component of its path. A path without one names no repository: the
    /// check is over before anything is asked.
    pub fn begin(name: Option<String>) -> (r: (Checker, CheckStep))
        ensures
            match name {
                Some(n) => r.0@ == (CheckerView { name: n@, phase: PhaseView::Opening }) && r.1@
                    == CheckStepView::Ask(RequestView::Open),
                None => r.0@.phase == PhaseView::Finished && r.1@ == CheckStepView::Done(
                    Err(CheckErrorView::Unnamed),
                ),
            },
    {
        match name {
            Some(n) => (Checker { name: n, phase: Phase::Opening }, CheckStep::Ask(Request::Open)),
            None => (
                Checker { name: String::new(), phase: Phase::Finished },
                CheckStep::Done(Err(CheckError::Unnamed)),
            ),
        }
    }

    /// Takes the outcome of the request that is pending and says how the
    /// check goes on.
    pub fn advance(self, event: Event) -> (r: (Checker, CheckStep))
        ensures
            (r.0@, r.1@) == self@.next(event@),
    {
        let Checker { name, phase } = self;
        match phase {
            Phase::Opening => match event {
                Event::Opened => (
                    Checker { name, phase: Phase::Fetching },
                    CheckStep::Ask(Request::Fetch),
                ),
                Event::OpenFailed(m) => Self::end(name, Err(CheckError::RepoOpen(m))),
                _ => Self::end(name, Err(CheckError::OutOfOrder)),
            },
            Phase::Fetching => match event {
                Event::Fetched => (
                    Checker { name, phase: Phase::ResolvingLocal },
                    CheckStep::Ask(Request::Resolve(Revision::Head)),
                ),
                Event::RemoteMissing(m) => Self::end(name, Err(CheckError::RemoteNotFound(m))),
                Event::FetchFailed(m) => Self::end(name, Err(CheckError::Network(m))),
                _ => Self::end(name, Err(CheckError::OutOfOrder)),
            },
            Phase::ResolvingLocal => match event {
                Event::Resolved(local) => (
                    Checker { name, phase: Phase::ResolvingUpstream { local } },
                    CheckStep::Ask(Request::Resolve(Revision::Upstream)),
                ),
                Event::Unresolved(m) => Self::end(name, Err(CheckError::RevisionResolution(m))),
                _ => Self::end(name, Err(CheckError::OutOfOrder)),
            },
            Phase::ResolvingUpstream { local } => match event {
                Event::Resolved(upstream) => {
                    if upstream.same(&local) {
                        Self::end(name, Ok(None))
                    } else {
                        let request = Request::Walk {
                            from: upstream.duplicate(),
                            hide: local.duplicate(),
                        };
                        (
                            Checker { name, phase: Phase::Walking { local, upstream } },
                            CheckStep::Ask(request),
                        )
                    }
                },
                Event::Unresolved(m) => Self::end(name, Err(CheckError::RevisionResolution(m))),
                _ => Self::end(name, Err(CheckError::OutOfOrder)),
            },
            Phase::Walking { local, upstream } => match event {
                Event::Walked(commits) => {
                    let info = UpdateInfo { name: name.clone(), commits: messages_of(&commits) };
                    Self::end(name, Ok(Some(Divergence { upstream, info })))
                },
                Event::WalkFailed(m) => Self::end(name, Err(CheckError::Walk(m))),
                _ => Self::end(name, Err(CheckError::OutOfOrder)),
            },
            Phase::Finished => Self::end(name, Err(CheckError::OutOfOrder)),
        }
    }

    /// The finished checker with its result.
    fn end(name: String, result: CheckResult) -> (r: (Checker, CheckStep))
        ensures
            r.0@ == (CheckerView { name: name@, phase: PhaseView::Finished }),
            r.1@ == CheckStepView::Done(check_result_view(result)),
    {
        (Checker { name, phase: Phase::Finished }, CheckStep::Done(result))
    }
}

} // verus!
