//! Bringing a repository's local branch to where upstream is.
//!
//! A pull is a check followed, where the check finds new commits, by three
//! changes to the repository: the branch is pointed at the upstream
//! revision, made the head, and checked out over whatever is in the
//! working tree. The branch is moved without asking whether the local head
//! is an ancestor of its new target: commits that exist only locally are
//! left behind by a pull.

use crate::checker::{
    changes_repository, check_error_text, sound_events, started, CheckError, CheckErrorView,
    CheckStep, CheckStepView, Checker, CheckerView, Event, EventView, PhaseView, Request,
    RequestView,
};
use crate::revision::{CommitView, RevisionId};
use crate::style::{Palette, PaletteView};
use crate::update_info::{commit_lines, push_commit_lines, UpdateInfo, UpdateInfoView};
use vstd::prelude::*;
use vstd::string::StringExecFns;

verus! {

/// The name of the branch reference that a pull moves.
pub open spec fn branch_reference_text() -> Seq<char> {
    "refs/heads/master"@
}

/// The entry a pull leaves in the reference log.
pub open spec fn move_log(target: Seq<char>) -> Seq<char> {
    "Fast-Forward: Setting "@ + branch_reference_text() + " to id: "@ + target
}

/// What is printed of a repository with nothing to pull.
pub open spec fn nothing_new_text() -> Seq<char> {
    "No new commits to pull\n"@
}

/// What is printed before a repository is moved: its name, an empty line,
/// and a line for each new commit, in the checker's order.
pub open spec fn announcement(p: PaletteView, info: UpdateInfoView) -> Seq<char> {
    p.bold + "Pulling "@ + info.name + "..."@ + p.reset + "\n"@ + "\n"@ + commit_lines(
        p,
        info.commits,
    )
}

/// The branch reference that a pull moves and makes the head.
pub fn branch_reference() -> (r: &'static str)
    ensures
        r@ == branch_reference_text(),
{
    "refs/heads/master"
}

/// Why a pull came to nothing.
#[derive(Debug, PartialEq, Eq)]
pub enum PullError {
    /// The check failed.
    Check(CheckError),
    /// The branch could not be moved or made the head.
    RefUpdate(String),
    /// The working tree could not be written.
    Checkout(String),
    /// An event was reported that answers no request of the pull.
    OutOfOrder,
}

/// A [`PullError`] as specifications see it.
pub enum PullErrorView {
    Check(CheckErrorView),
    RefUpdate(Seq<char>),
    Checkout(Seq<char>),
    OutOfOrder,
}

impl View for PullError {
    type V = PullErrorView;

    open spec fn view(&self) -> PullErrorView {
        match *self {
            PullError::Check(e) => PullErrorView::Check(e@),
            PullError::RefUpdate(m) => PullErrorView::RefUpdate(m@),
            PullError::Checkout(m) => PullErrorView::Checkout(m@),
            PullError::OutOfOrder => PullErrorView::OutOfOrder,
        }
    }
}

/// What is said of a failed pull.
pub open spec fn pull_error_text(e: PullErrorView) -> Seq<char> {
    match e {
        PullErrorView::Check(inner) => check_error_text(inner),
        PullErrorView::RefUpdate(m) => "cannot move the branch: "@ + m,
        PullErrorView::Checkout(m) => "cannot check out the head: "@ + m,
        PullErrorView::OutOfOrder => "an event came out of order"@,
    }
}

/// The line that tells of the failed pull of the repository `name`.
pub open spec fn pull_failure_line(name: Seq<char>, e: PullErrorView) -> Seq<char> {
    "Error while pulling package "@ + name + ": "@ + pull_error_text(e)
}

impl PullError {
    /// What went wrong, in words.
    pub fn describe(&self) -> (text: String)
        ensures
            text@ == pull_error_text(self@),
    {
        match self {
            PullError::Check(inner) => inner.describe(),
            PullError::RefUpdate(m) => String::from_str("cannot move the branch: ").concat(
                m.as_str(),
            ),
            PullError::Checkout(m) => String::from_str("cannot check out the head: ").concat(
                m.as_str(),
            ),
            PullError::OutOfOrder => String::from_str("an event came out of order"),
        }
    }

    /// The line for the error stream that tells of this failure of the
    /// pull of `name`. It stops that pull and no other.
    pub fn failure_line(&self, name: &str) -> (line: String)
        ensures
            line@ == pull_failure_line(name@, self@),
    {
        let text = self.describe();
        String::from_str("Error while pulling package ").concat(name).concat(": ").concat(
            text.as_str(),
        )
    }
}

/// What a pull did.
#[derive(Debug, PartialEq, Eq)]
pub enum Pulled {
    /// Upstream was where the local head is: nothing was changed.
    NothingNew,
    /// The branch now points at `to`, and the working tree holds it.
    Moved { to: RevisionId },
}

/// A [`Pulled`] as specifications see it.
pub enum PulledView {
    NothingNew,
    Moved { to: Seq<char> },
}

impl View for Pulled {
    type V = PulledView;

    open spec fn view(&self) -> PulledView {
        match *self {
            Pulled::NothingNew => PulledView::NothingNew,
            Pulled::Moved { to } => PulledView::Moved { to: to@ },
        }
    }
}

/// How a pull ended.
pub type PullResult = Result<Pulled, PullError>;

/// A [`PullResult`] as specifications see it.
pub type PullResultView = Result<PulledView, PullErrorView>;

/// The view of a pull's result.
pub open spec fn pull_result_view(r: PullResult) -> PullResultView {
    match r {
        Ok(p) => Ok(p@),
        Err(e) => Err(e@),
    }
}

/// What the caller is to do next.
#[derive(Debug)]
pub enum PullNext {
    Ask(Request),
    Done(PullResult),
}

/// A [`PullNext`] as specifications see it.
pub enum PullNextView {
    Ask(RequestView),
    Done(PullResultView),
}

impl View for PullNext {
    type V = PullNextView;

    open spec fn view(&self) -> PullNextView {
        match *self {
            PullNext::Ask(r) => PullNextView::Ask(r@),
            PullNext::Done(r) => PullNextView::Done(pull_result_view(r)),
        }
    }
}

/// The pull's answer to an event: what to print, and what to do after that.
#[derive(Debug)]
pub struct PullStep {
    /// Text for the standard output, possibly empty; it is printed before
    /// anything else is done.
    pub say: String,
    /// What follows.
    pub next: PullNext,
}

/// A [`PullStep`] as specifications see it.
pub struct PullStepView {
    pub say: Seq<char>,
    pub next: PullNextView,
}

impl View for PullStep {
    type V = PullStepView;

    open spec fn view(&self) -> PullStepView {
        PullStepView { say: self.say@, next: self.next@ }
    }
}

/// The pull of one repository, as far as it has come.
#[derive(Debug)]
pub enum Puller {
    /// The check is under way.
    Checking(Checker),
    /// The branch is being pointed at `target`.
    Moving { target: RevisionId },
    /// The branch is being made the head.
    SettingHead { target: RevisionId },
    /// The head is being checked out.
    CheckingOut { target: RevisionId },
    /// The pull is over.
    Finished,
}

/// A [`Puller`] as specifications see it.
pub enum PullerView {
    Checking(CheckerView),
    Moving { target: Seq<char> },
    SettingHead { target: Seq<char> },
    CheckingOut { target: Seq<char> },
    Finished,
}

impl View for Puller {
    type V = PullerView;

    open spec fn view(&self) -> PullerView {
        match *self {
            Puller::Checking(c) => PullerView::Checking(c@),
            Puller::Moving { target } => PullerView::Moving { target: target@ },
            Puller::SettingHead { target } => PullerView::SettingHead { target: target@ },
            Puller::CheckingOut { target } => PullerView::CheckingOut { target: target@ },
            Puller::Finished => PullerView::Finished,
        }
    }
}

/// The pull goes on to `state` and asks for `request`, printing nothing.
pub open spec fn pull_ask(state: PullerView, request: RequestView) -> (PullerView, PullStepView) {
    (state, PullStepView { say: Seq::empty(), next: PullNextView::Ask(request) })
}

/// The pull ends with the error `e`, printing nothing.
pub open spec fn pull_fail(e: PullErrorView) -> (PullerView, PullStepView) {
    (PullerView::Finished, PullStepView { say: Seq::empty(), next: PullNextView::Done(Err(e)) })
}

impl PullerView {
    /// The pull's answer to `event`, with `p` to style what it prints.
    ///
    /// While the check is under way the pull asks what the checker asks.
    /// A check that fails ends the pull with that error; one that finds
    /// nothing new ends it with [`nothing_new_text`] and no change to the
    /// repository. One that finds a divergence is announced, and the
    /// branch is moved to the upstream revision the check resolved, then
    /// made the head, then checked out; the first of these that fails ends
    /// the pull.
    pub open spec fn next(self, event: EventView, p: PaletteView) -> (PullerView, PullStepView) {
        match self {
            PullerView::Checking(checker) => {
                let (after, step) = checker.next(event);
                match step {
                    CheckStepView::Ask(request) => pull_ask(PullerView::Checking(after), request),
                    CheckStepView::Done(Ok(None)) => (
                        PullerView::Finished,
                        PullStepView {
                            say: nothing_new_text(),
                            next: PullNextView::Done(Ok(PulledView::NothingNew)),
                        },
                    ),
                    CheckStepView::Done(Ok(Some(found))) => (
                        PullerView::Moving { target: found.upstream },
                        PullStepView {
                            say: announcement(p, found.info),
                            next: PullNextView::Ask(
                                RequestView::MoveBranch {
                                    target: found.upstream,
                                    log: move_log(found.upstream),
                                },
                            ),
                        },
                    ),
                    CheckStepView::Done(Err(e)) => pull_fail(PullErrorView::Check(e)),
                }
            },
            PullerView::Moving { target } => match event {
                EventView::BranchMoved => pull_ask(
                    PullerView::SettingHead { target },
                    RequestView::SetHead,
                ),
                EventView::ReferenceFailed(m) => pull_fail(PullErrorView::RefUpdate(m)),
                _ => pull_fail(PullErrorView::OutOfOrder),
            },
            PullerView::SettingHead { target } => match event {
                EventView::HeadSet => pull_ask(
                    PullerView::CheckingOut { target },
                    RequestView::Checkout,
                ),
                EventView::ReferenceFailed(m) => pull_fail(PullErrorView::RefUpdate(m)),
                _ => pull_fail(PullErrorView::OutOfOrder),
            },
            PullerView::CheckingOut { target } => match event {
                EventView::CheckedOut => (
                    PullerView::Finished,
                    PullStepView {
                        say: Seq::empty(),
                        next: PullNextView::Done(Ok(PulledView::Moved { to: target })),
                    },
                ),
                EventView::CheckoutFailed(m) => pull_fail(PullErrorView::Checkout(m)),
                _ => pull_fail(PullErrorView::OutOfOrder),
            },
            PullerView::Finished => pull_fail(PullErrorView::OutOfOrder),
        }
    }
}

/// The pull of the repository called `name`, before its first event.
pub open spec fn pull_started(name: Seq<char>) -> PullerView {
    PullerView::Checking(started(name))
}

/// Where the pull `from` stands after `events`, and its answer to the last
/// of them.
pub open spec fn pull_run(from: PullerView, events: Seq<EventView>, p: PaletteView) -> (
    PullerView,
    Option<PullStepView>,
)
    decreases events.len(),
{
    if events.len() == 0 {
        (from, None)
    } else {
        let before = pull_run(from, events.drop_last(), p).0;
        let (after, step) = before.next(events.last(), p);
        (after, Some(step))
    }
}

/// The answer asks for a change to the repository.
pub open spec fn asks_for_change(answer: Option<PullStepView>) -> bool {
    match answer {
        Some(step) => match step.next {
            PullNextView::Ask(request) => changes_repository(request),
            PullNextView::Done(_) => false,
        },
        None => false,
    }
}

/// Whatever a pull is told, it asks for a change to the repository only
/// once its check has found a divergence: the branch is moved in answer to
/// the walk, the head is set in answer to the moved branch, and the head
/// is checked out in answer to the head that was set. The branch is only
/// ever moved to the upstream revision that the check resolved.
pub proof fn law_pull_changes_only_after_divergence(
    puller: PullerView,
    event: EventView,
    p: PaletteView,
)
    ensures
        match puller.next(event, p).1.next {
            PullNextView::Ask(RequestView::MoveBranch { target, log }) => {
                &&& puller matches PullerView::Checking(checker)
                &&& checker.phase matches PhaseView::Walking { local, upstream }
                &&& event is Walked
                &&& target == upstream
                &&& log == move_log(upstream)
                &&& puller.next(event, p).0 == PullerView::Moving { target }
            },
            PullNextView::Ask(RequestView::SetHead) => puller is Moving && event is BranchMoved,
            PullNextView::Ask(RequestView::Checkout) => puller is SettingHead && event is HeadSet,
            _ => true,
        },
{
}

/// What the engine reports to a pull of a repository in good order whose
/// local head is `local` and whose upstream is `upstream`: what it reports
/// to the check and, where the two differ, that each change went through.
pub open spec fn sound_pull_events(
    local: Seq<char>,
    upstream: Seq<char>,
    walk: Seq<CommitView>,
) -> Seq<EventView> {
    if local == upstream {
        sound_events(local, upstream, walk)
    } else {
        sound_events(local, upstream, walk).push(EventView::BranchMoved).push(
            EventView::HeadSet,
        ).push(EventView::CheckedOut)
    }
}

/// Unfolds a run by its last event.
pub proof fn lemma_pull_run_push(
    from: PullerView,
    events: Seq<EventView>,
    event: EventView,
    p: PaletteView,
)
    ensures
        pull_run(from, events.push(event), p) == ({
            let (after, step) = pull_run(from, events, p).0.next(event, p);
            (after, Some(step))
        }),
{
    assert(events.push(event).drop_last() =~= events);
}

/// Up to the point where both revisions are known a pull asks what the
/// check asks, none of which changes the repository.
pub proof fn lemma_pull_run_resolving(
    name: Seq<char>,
    local: Seq<char>,
    upstream: Seq<char>,
    p: PaletteView,
)
    ensures
        ({
            let events = seq![
                EventView::Opened,
                EventView::Fetched,
                EventView::Resolved(local),
                EventView::Resolved(upstream),
            ];
            let waiting = PullerView::Checking(
                started(name).at(PhaseView::ResolvingUpstream { local }),
            );
            &&& pull_run(pull_started(name), events.take(0), p).1 is None
            &&& pull_run(pull_started(name), events.take(1), p).1 == Some(
                PullStepView { say: Seq::empty(), next: PullNextView::Ask(RequestView::Fetch) },
            )
            &&& pull_run(pull_started(name), events.take(2), p).1 == Some(
                PullStepView {
                    say: Seq::empty(),
                    next: PullNextView::Ask(RequestView::Resolve(crate::checker::Revision::Head)),
                },
            )
            &&& pull_run(pull_started(name), events.take(3), p) == (
                waiting,
                Some(
                    PullStepView {
                        say: Seq::empty(),
                        next: PullNextView::Ask(
                            RequestView::Resolve(crate::checker::Revision::Upstream),
                        ),
                    },
                ),
            )
            &&& pull_run(pull_started(name), events, p) == ({
                let (after, step) = waiting.next(EventView::Resolved(upstream), p);
                (after, Some(step))
            })
        }),
{
    let start = pull_started(name);
    let e0 = Seq::<EventView>::empty();
    let e1 = e0.push(EventView::Opened);
    let e2 = e1.push(EventView::Fetched);
    let e3 = e2.push(EventView::Resolved(local));
    lemma_pull_run_push(start, e0, EventView::Opened, p);
    lemma_pull_run_push(start, e1, EventView::Fetched, p);
    lemma_pull_run_push(start, e2, EventView::Resolved(local), p);
    let events = seq![
        EventView::Opened,
        EventView::Fetched,
        EventView::Resolved(local),
        EventView::Resolved(upstream),
    ];
    assert(events.take(1) =~= e1);
    assert(events.take(2) =~= e2);
    assert(events.take(3) =~= e3);
}

/// A pull of a repository whose upstream is where its local head is says
/// that there is nothing to pull, and at no point asks for a change to the
/// repository.
pub proof fn law_pull_without_divergence_changes_nothing(
    name: Seq<char>,
    revision: Seq<char>,
    walk: Seq<CommitView>,
    p: PaletteView,
)
    ensures
        pull_run(pull_started(name), sound_pull_events(revision, revision, walk), p).1 == Some(
            PullStepView {
                say: nothing_new_text(),
                next: PullNextView::Done(Ok(PulledView::NothingNew)),
            },
        ),
        forall|k: int|
            0 <= k <= sound_pull_events(revision, revision, walk).len() ==> !asks_for_change(
                pull_run(
                    pull_started(name),
                    #[trigger] sound_pull_events(revision, revision, walk).take(k),
                    p,
                ).1,
            ),
{
    lemma_pull_run_resolving(name, revision, revision, p);
}

/// A pull of a repository whose upstream is elsewhere moves the branch to
/// the upstream revision; a second pull, which finds the local head where
/// the first one left it, has nothing to pull.
pub proof fn law_second_pull_finds_nothing_new(
    name: Seq<char>,
    local: Seq<char>,
    upstream: Seq<char>,
    walk: Seq<CommitView>,
    again: Seq<CommitView>,
    p: PaletteView,
)
    requires
        local != upstream,
    ensures
        pull_run(pull_started(name), sound_pull_events(local, upstream, walk), p).1 == Some(
            PullStepView {
                say: Seq::empty(),
                next: PullNextView::Done(Ok(PulledView::Moved { to: upstream })),
            },
        ),
        pull_run(pull_started(name), sound_pull_events(upstream, upstream, again), p).1 == Some(
            PullStepView {
                say: nothing_new_text(),
                next: PullNextView::Done(Ok(PulledView::NothingNew)),
            },
        ),
{
    let start = pull_started(name);
    lemma_pull_run_resolving(name, local, upstream, p);
    let e4 = seq![
        EventView::Opened,
        EventView::Fetched,
        EventView::Resolved(local),
        EventView::Resolved(upstream),
    ];
    let e5 = e4.push(EventView::Walked(walk));
    let e6 = e5.push(EventView::BranchMoved);
    let e7 = e6.push(EventView::HeadSet);
    lemma_pull_run_push(start, e4, EventView::Walked(walk), p);
    lemma_pull_run_push(start, e5, EventView::BranchMoved, p);
    lemma_pull_run_push(start, e6, EventView::HeadSet, p);
    lemma_pull_run_push(start, e7, EventView::CheckedOut, p);
    law_pull_without_divergence_changes_nothing(name, upstream, again, p);
}

/// The text printed before the repository of `info` is moved.
pub fn announce(info: &UpdateInfo, palette: &Palette) -> (text: String)
    ensures
        text@ == announcement(palette@, info@),
{
    let mut text = String::new();
    text.append(palette.bold.as_str());
    text.append("Pulling ");
    text.append(info.name.as_str());
    text.append("...");
    text.append(palette.reset.as_str());
    text.append("\n");
    text.append("\n");
    push_commit_lines(&mut text, palette, &info.commits);
    text
}

/// The entry left in the reference log when the branch is moved to
/// `target`.
pub fn log_entry(target: &RevisionId) -> (log: String)
    ensures
        log@ == move_log(target@),
{
    let mut log = String::from_str("Fast-Forward: Setting ");
    log.append(branch_reference());
    log.append(" to id: ");
    log.append(target.hex.as_str());
    log
}

impl Puller {
    /// Starts the pull of the repository called `name`.
    pub fn begin(name: String) -> (r: (Puller, PullStep))
        ensures
            r.0@ == PullerView::Checking(started(name@)),
            r.1@ == (PullStepView {
                say: Seq::empty(),
                next: PullNextView::Ask(RequestView::Open),
            }),
    {
        let (checker, _) = Checker::begin(Some(name));
        (
            Puller::Checking(checker),
            PullStep { say: String::new(), next: PullNext::Ask(Request::Open) },
        )
    }

    /// Takes the outcome of the request that is pending and says how the
    /// pull goes on.
    pub fn advance(self, event: Event, palette: &Palette) -> (r: (Puller, PullStep))
        ensures
            (r.0@, r.1@) == self@.next(event@, palette@),
    {
        match self {
            Puller::Checking(checker) => {
                let (after, step) = checker.advance(event);
                match step {
                    CheckStep::Ask(request) => Self::ask(Puller::Checking(after), request),
                    CheckStep::Done(Ok(None)) => (
                        Puller::Finished,
                        PullStep {
                            say: String::from_str("No new commits to pull\n"),
                            next: PullNext::Done(Ok(Pulled::NothingNew)),
                        },
                    ),
                    CheckStep::Done(Ok(Some(found))) => {
                        let say = announce(&found.info, palette);
                        let log = log_entry(&found.upstream);
                        let target = found.upstream;
                        let request = Request::MoveBranch { target: target.duplicate(), log };
                        (Puller::Moving { target }, PullStep { say, next: PullNext::Ask(request) })
                    },
                    CheckStep::Done(Err(e)) => Self::fail(PullError::Check(e)),
                }
            },
            Puller::Moving { target } => match event {
                Event::BranchMoved => Self::ask(Puller::SettingHead { target }, Request::SetHead),
                Event::ReferenceFailed(m) => Self::fail(PullError::RefUpdate(m)),
                _ => Self::fail(PullError::OutOfOrder),
            },
            Puller::SettingHead { target } => match event {
                Event::HeadSet => Self::ask(Puller::CheckingOut { target }, Request::Checkout),
                Event::ReferenceFailed(m) => Self::fail(PullError::RefUpdate(m)),
                _ => Self::fail(PullError::OutOfOrder),
            },
            Puller::CheckingOut { target } => match event {
                Event::CheckedOut => (
                    Puller::Finished,
                    PullStep {
                        say: String::new(),
                        next: PullNext::Done(Ok(Pulled::Moved { to: target })),
                    },
                ),
                Event::CheckoutFailed(m) => Self::fail(PullError::Checkout(m)),
                _ => Self::fail(PullError::OutOfOrder),
            },
            Puller::Finished => Self::fail(PullError::OutOfOrder),
        }
    }

    /// The pull in `state`, asking for `request`.
    fn ask(state: Puller, request: Request) -> (r: (Puller, PullStep))
        ensures
            (r.0@, r.1@) == pull_ask(state@, request@),
    {
        (state, PullStep { say: String::new(), next: PullNext::Ask(request) })
    }

    /// The finished pull with its error.
    fn fail(e: PullError) -> (r: (Puller, PullStep))
        ensures
            (r.0@, r.1@) == pull_fail(e@),
    {
        (Puller::Finished, PullStep { say: String::new(), next: PullNext::Done(Err(e)) })
    }
}

/// The repositories a pull command works on.
#[derive(Debug, PartialEq, Eq)]
pub enum Targets {
    /// Those the command names, in its order.
    Named(Vec<String>),
    /// Every repository that is present under the root.
    AllPresent,
}

/// The repositories a pull command works on: those it names, or all that
/// are present where it names none.
pub fn pull_targets(named: Vec<String>) -> (targets: Targets)
    ensures
        targets == if named@.len() > 0 {
            Targets::Named(named)
        } else {
            Targets::AllPresent
        },
{
    if named.len() > 0 {
        Targets::Named(named)
    } else {
        Targets::AllPresent
    }
}

} // verus!
