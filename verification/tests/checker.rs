use taur::checker::{
    branch_name, remote_name, CheckError, CheckResult, CheckStep, Checker, Event, Phase, Request,
    Revision,
};
use taur::revision::{Commit, RevisionId};

fn id(hex: &str) -> RevisionId {
    RevisionId::new(String::from(hex))
}

fn commit(hex: &str, message: Option<&str>) -> Commit {
    Commit { id: id(hex), message: message.map(String::from) }
}

/// Feeds `events` to a fresh checker; gives the requests it made and the
/// result, if it came to one.
fn check(name: Option<&str>, events: Vec<Event>) -> (Vec<Request>, Option<CheckResult>) {
    let mut asked = Vec::new();
    let (mut checker, mut step) = Checker::begin(name.map(String::from));
    let mut events = events.into_iter();
    loop {
        match step {
            CheckStep::Done(result) => {
                assert!(matches!(checker.phase, Phase::Finished));
                return (asked, Some(result));
            }
            CheckStep::Ask(request) => {
                asked.push(request);
                match events.next() {
                    Some(event) => {
                        let (next, answer) = checker.advance(event);
                        checker = next;
                        step = answer;
                    }
                    None => return (asked, None),
                }
            }
        }
    }
}

fn error_of(result: Option<CheckResult>) -> CheckError {
    match result {
        Some(Err(e)) => e,
        other => panic!("expected an error, got {:?}", other),
    }
}

#[test]
fn the_constants_of_a_check() {
    assert_eq!(remote_name(), "origin");
    assert_eq!(branch_name(), "master");
    assert_eq!(Revision::Head.expression(), "HEAD");
    assert_eq!(Revision::Upstream.expression(), "@{u}");
}

#[test]
fn same_revision_is_no_divergence() {
    let (asked, result) = check(
        Some("foo"),
        vec![
            Event::Opened,
            Event::Fetched,
            Event::Resolved(id("aaaa")),
            Event::Resolved(id("aaaa")),
        ],
    );
    assert_eq!(
        asked,
        vec![
            Request::Open,
            Request::Fetch,
            Request::Resolve(Revision::Head),
            Request::Resolve(Revision::Upstream),
        ]
    );
    assert!(matches!(result, Some(Ok(None))));
}

#[test]
fn a_divergence_lists_the_walk_in_order() {
    let (asked, result) = check(
        Some("bar"),
        vec![
            Event::Opened,
            Event::Fetched,
            Event::Resolved(id("aaaa")),
            Event::Resolved(id("cccc")),
            Event::Walked(vec![
                commit("cccc", Some("add feature")),
                commit("bbbb", Some("fix bug")),
            ]),
        ],
    );
    assert_eq!(
        asked,
        vec![
            Request::Open,
            Request::Fetch,
            Request::Resolve(Revision::Head),
            Request::Resolve(Revision::Upstream),
            Request::Walk { from: id("cccc"), hide: id("aaaa") },
        ]
    );
    let found = result.unwrap().unwrap().unwrap();
    assert_eq!(found.upstream, id("cccc"));
    assert_eq!(found.info.name, "bar");
    assert_eq!(found.info.commits, vec!["add feature", "fix bug"]);
}

#[test]
fn every_commit_of_the_walk_is_listed() {
    let (_, result) = check(
        Some("bar"),
        vec![
            Event::Opened,
            Event::Fetched,
            Event::Resolved(id("aaaa")),
            Event::Resolved(id("dddd")),
            Event::Walked(vec![
                commit("dddd", Some("three")),
                commit("cccc", None),
                commit("bbbb", Some("one")),
            ]),
        ],
    );
    let found = result.unwrap().unwrap().unwrap();
    assert_eq!(found.info.commits, vec!["three", "", "one"]);
}

#[test]
fn an_empty_walk_is_still_a_divergence() {
    let (_, result) = check(
        Some("bar"),
        vec![
            Event::Opened,
            Event::Fetched,
            Event::Resolved(id("aaaa")),
            Event::Resolved(id("bbbb")),
            Event::Walked(Vec::new()),
        ],
    );
    let found = result.unwrap().unwrap().unwrap();
    assert_eq!(found.info.name, "bar");
    assert!(found.info.commits.is_empty());
}

#[test]
fn a_path_without_a_name_is_not_checked() {
    let (asked, result) = check(None, vec![Event::Opened]);
    assert!(asked.is_empty());
    assert_eq!(error_of(result), CheckError::Unnamed);
}

#[test]
fn a_repository_that_does_not_open() {
    let (asked, result) =
        check(Some("foo"), vec![Event::OpenFailed(String::from("not a repository"))]);
    assert_eq!(asked, vec![Request::Open]);
    assert_eq!(error_of(result), CheckError::RepoOpen(String::from("not a repository")));
}

#[test]
fn a_repository_without_the_remote() {
    let (asked, result) =
        check(Some("foo"), vec![Event::Opened, Event::RemoteMissing(String::from("no origin"))]);
    assert_eq!(asked, vec![Request::Open, Request::Fetch]);
    assert_eq!(error_of(result), CheckError::RemoteNotFound(String::from("no origin")));
}

#[test]
fn a_fetch_that_fails() {
    let (asked, result) =
        check(Some("foo"), vec![Event::Opened, Event::FetchFailed(String::from("timed out"))]);
    assert_eq!(asked, vec![Request::Open, Request::Fetch]);
    assert_eq!(error_of(result), CheckError::Network(String::from("timed out")));
}

#[test]
fn a_head_that_does_not_resolve() {
    let (asked, result) = check(
        Some("foo"),
        vec![Event::Opened, Event::Fetched, Event::Unresolved(String::from("bad HEAD"))],
    );
    assert_eq!(asked, vec![Request::Open, Request::Fetch, Request::Resolve(Revision::Head)]);
    assert_eq!(error_of(result), CheckError::RevisionResolution(String::from("bad HEAD")));
}

#[test]
fn an_upstream_that_does_not_resolve() {
    let (asked, result) = check(
        Some("foo"),
        vec![
            Event::Opened,
            Event::Fetched,
            Event::Resolved(id("aaaa")),
            Event::Unresolved(String::from("no upstream configured")),
        ],
    );
    assert_eq!(asked.len(), 4);
    assert_eq!(
        error_of(result),
        CheckError::RevisionResolution(String::from("no upstream configured"))
    );
}

#[test]
fn a_walk_that_breaks_off() {
    let (_, result) = check(
        Some("foo"),
        vec![
            Event::Opened,
            Event::Fetched,
            Event::Resolved(id("aaaa")),
            Event::Resolved(id("bbbb")),
            Event::WalkFailed(String::from("object missing")),
        ],
    );
    assert_eq!(error_of(result), CheckError::Walk(String::from("object missing")));
}

#[test]
fn an_event_that_answers_nothing_ends_the_check() {
    let (asked, result) = check(Some("foo"), vec![Event::Fetched]);
    assert_eq!(asked, vec![Request::Open]);
    assert_eq!(error_of(result), CheckError::OutOfOrder);
    let (_, result) = check(Some("foo"), vec![Event::Opened, Event::Resolved(id("aaaa"))]);
    assert_eq!(error_of(result), CheckError::OutOfOrder);
    let (_, result) = check(Some("foo"), vec![Event::Opened, Event::Fetched, Event::BranchMoved]);
    assert_eq!(error_of(result), CheckError::OutOfOrder);
    let (_, result) = check(
        Some("foo"),
        vec![Event::Opened, Event::Fetched, Event::Resolved(id("a")), Event::Walked(Vec::new())],
    );
    assert_eq!(error_of(result), CheckError::OutOfOrder);
    let (_, result) = check(
        Some("foo"),
        vec![
            Event::Opened,
            Event::Fetched,
            Event::Resolved(id("a")),
            Event::Resolved(id("b")),
            Event::CheckedOut,
        ],
    );
    assert_eq!(error_of(result), CheckError::OutOfOrder);
}

#[test]
fn a_finished_check_takes_no_more_events() {
    let (checker, step) = Checker::begin(None);
    assert!(matches!(step, CheckStep::Done(Err(CheckError::Unnamed))));
    let (checker, step) = checker.advance(Event::Opened);
    assert!(matches!(checker.phase, Phase::Finished));
    assert!(matches!(step, CheckStep::Done(Err(CheckError::OutOfOrder))));
}

#[test]
fn the_phases_of_a_check() {
    let (checker, _) = Checker::begin(Some(String::from("foo")));
    assert_eq!(checker.name, "foo");
    assert!(matches!(checker.phase, Phase::Opening));
    let (checker, _) = checker.advance(Event::Opened);
    assert!(matches!(checker.phase, Phase::Fetching));
    let (checker, _) = checker.advance(Event::Fetched);
    assert!(matches!(checker.phase, Phase::ResolvingLocal));
    let (checker, _) = checker.advance(Event::Resolved(id("aaaa")));
    assert!(matches!(&checker.phase, Phase::ResolvingUpstream { local } if *local == id("aaaa")));
    let (checker, _) = checker.advance(Event::Resolved(id("bbbb")));
    assert!(matches!(
        &checker.phase,
        Phase::Walking { local, upstream } if *local == id("aaaa") && *upstream == id("bbbb")
    ));
    let (checker, _) = checker.advance(Event::Walked(Vec::new()));
    assert!(matches!(checker.phase, Phase::Finished));
    assert_eq!(checker.name, "foo");
}

#[test]
fn what_is_said_of_each_failure() {
    assert_eq!(CheckError::Unnamed.describe(), "the path names no repository");
    assert_eq!(
        CheckError::RepoOpen(String::from("x")).describe(),
        "cannot open the repository: x"
    );
    assert_eq!(
        CheckError::RemoteNotFound(String::from("x")).describe(),
        "no remote to fetch from: x"
    );
    assert_eq!(CheckError::Network(String::from("x")).describe(), "the fetch failed: x");
    assert_eq!(
        CheckError::RevisionResolution(String::from("x")).describe(),
        "cannot resolve a revision: x"
    );
    assert_eq!(CheckError::Walk(String::from("x")).describe(), "cannot walk the new commits: x");
    assert_eq!(CheckError::OutOfOrder.describe(), "an event came out of order");
}

#[test]
fn revision_ids_are_compared_as_text() {
    assert!(id("abc").same(&id("abc")));
    assert!(!id("abc").same(&id("abd")));
    assert!(!id("abc").same(&id("ABC")));
    assert_eq!(id("abc").duplicate(), id("abc"));
}
