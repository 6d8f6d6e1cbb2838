use taur::checker::{CheckError, CheckResult, CheckStep, Checker, Divergence, Event};
use taur::fetch::{fetch, get_dir_list, Checked, Entry};
use taur::report::update_report;
use taur::revision::{Commit, RevisionId};
use taur::style::Palette;
use taur::update_info::UpdateInfo;

fn fetch_marks() -> Palette {
    Palette {
        bold: String::from("<b>"),
        reset: String::from("</>"),
        blue: String::from("<blue>"),
        magenta: String::from("<mag>"),
        cyan: String::from("<cyan>"),
        default_colour: String::from("<def>"),
    }
}

fn update(name: &str, commits: &[&str]) -> UpdateInfo {
    UpdateInfo {
        name: String::from(name),
        commits: commits.iter().map(|c| String::from(*c)).collect(),
    }
}

fn diverged(name: &str, commits: &[&str]) -> Checked {
    Checked {
        name: String::from(name),
        result: Ok(Some(Divergence {
            upstream: RevisionId::new(String::from("ffff")),
            info: update(name, commits),
        })),
    }
}

fn unchanged(name: &str) -> Checked {
    Checked { name: String::from(name), result: Ok(None) }
}

fn failed(name: &str, e: CheckError) -> Checked {
    Checked { name: String::from(name), result: Err(e) }
}

/// Checks the repository `name` against an engine that reports `events`.
fn checked(name: &str, events: Vec<Event>) -> Checked {
    let (mut checker, mut step) = Checker::begin(Some(String::from(name)));
    let mut events = events.into_iter();
    let result: CheckResult = loop {
        match step {
            CheckStep::Done(result) => break result,
            CheckStep::Ask(_) => {
                let (next, answer) = checker.advance(events.next().unwrap());
                checker = next;
                step = answer;
            }
        }
    };
    Checked { name: String::from(name), result }
}

fn at(hex: &str) -> Event {
    Event::Resolved(RevisionId::new(String::from(hex)))
}

fn behind_by(hex: &str, message: &str) -> Commit {
    Commit { id: RevisionId::new(String::from(hex)), message: Some(String::from(message)) }
}

fn directory(name: &str) -> Entry {
    Entry::Directory { name: Some(String::from(name)) }
}

#[test]
fn the_directories_of_a_listing() {
    let entries = vec![
        directory("foo"),
        Entry::Other,
        Entry::Unreadable,
        directory("bar"),
        Entry::Directory { name: None },
        Entry::Directory { name: Some(String::new()) },
        directory("baz"),
    ];
    assert_eq!(get_dir_list(&entries), vec!["foo", "bar", "baz"]);
}

#[test]
fn a_listing_without_directories() {
    assert!(get_dir_list(&Vec::new()).is_empty());
    assert!(get_dir_list(&vec![Entry::Other, Entry::Unreadable]).is_empty());
}

#[test]
fn a_report_on_nothing() {
    assert_eq!(
        update_report(Vec::new(), &fetch_marks()),
        "There are currently no packages with upstream changes\n"
    );
    let out = fetch(Vec::new(), &fetch_marks());
    assert_eq!(out.report, "There are currently no packages with upstream changes\n");
    assert!(out.errors.is_empty());
    let out = fetch(vec![unchanged("foo"), unchanged("bar")], &fetch_marks());
    assert_eq!(out.report, "There are currently no packages with upstream changes\n");
    assert!(out.errors.is_empty());
}

#[test]
fn a_report_is_heading_and_blocks() {
    let text = update_report(vec![update("foo", &["one"]), update("bar", &[])], &fetch_marks());
    assert_eq!(
        text,
        "<b>The following packages have upstream changes:</>\n\n\
         <b><blue>:: <def>bar</>\n\n\n\
         <b><blue>:: <def>foo</>\n\n<mag>* <cyan>one</>\n\n"
    );
}

#[test]
fn only_the_diverged_repository_is_reported() {
    let dirs = get_dir_list(&vec![directory("foo"), directory("bar")]);
    assert_eq!(dirs, vec!["foo", "bar"]);
    let foo = checked(&dirs[0], vec![Event::Opened, Event::Fetched, at("1111"), at("1111")]);
    let bar = checked(
        &dirs[1],
        vec![
            Event::Opened,
            Event::Fetched,
            at("1111"),
            at("3333"),
            Event::Walked(vec![behind_by("2222", "fix bug"), behind_by("3333", "add feature")]),
        ],
    );
    let out = fetch(vec![foo, bar], &fetch_marks());
    assert_eq!(
        out.report,
        "<b>The following packages have upstream changes:</>\n\n\
         <b><blue>:: <def>bar</>\n\n<mag>* <cyan>fix bug</>\n<mag>* <cyan>add feature</>\n\n"
    );
    assert!(!out.report.contains("foo"));
    assert!(out.errors.is_empty());
}

#[test]
fn a_failure_takes_nothing_from_the_others() {
    let out = fetch(
        vec![
            failed("A", CheckError::Network(String::from("connection refused"))),
            diverged("B", &["first", "second"]),
        ],
        &fetch_marks(),
    );
    assert_eq!(
        out.report,
        "<b>The following packages have upstream changes:</>\n\n\
         <b><blue>:: <def>B</>\n\n<mag>* <cyan>first</>\n<mag>* <cyan>second</>\n\n"
    );
    assert_eq!(
        out.errors,
        vec!["Error while checking for updates for repo A: the fetch failed: connection refused"]
    );
}

#[test]
fn the_report_is_sorted_whatever_order_the_checks_ended_in() {
    let expected = "<b>The following packages have upstream changes:</>\n\n\
                    <b><blue>:: <def>alpha</>\n\n<mag>* <cyan>a</>\n\n\
                    <b><blue>:: <def>beta</>\n\n<mag>* <cyan>b</>\n\n\
                    <b><blue>:: <def>gamma</>\n\n<mag>* <cyan>c</>\n\n";
    let orders: [[usize; 3]; 6] =
        [[0, 1, 2], [0, 2, 1], [1, 0, 2], [1, 2, 0], [2, 0, 1], [2, 1, 0]];
    for order in orders {
        let all = [("alpha", "a"), ("beta", "b"), ("gamma", "c")];
        let outcomes = order.iter().map(|&i| diverged(all[i].0, &[all[i].1])).collect();
        assert_eq!(fetch(outcomes, &fetch_marks()).report, expected);
    }
}

#[test]
fn every_failure_is_told_once_and_in_order() {
    let out = fetch(
        vec![
            failed("z", CheckError::RepoOpen(String::from("gone"))),
            unchanged("y"),
            failed("x", CheckError::RevisionResolution(String::from("no upstream"))),
            failed("w", CheckError::RemoteNotFound(String::from("no origin"))),
            failed("v", CheckError::Walk(String::from("broken"))),
            failed("u", CheckError::Unnamed),
            failed("t", CheckError::OutOfOrder),
        ],
        &fetch_marks(),
    );
    assert_eq!(out.report, "There are currently no packages with upstream changes\n");
    assert_eq!(
        out.errors,
        vec![
            "Error while checking for updates for repo z: cannot open the repository: gone",
            "Error while checking for updates for repo x: cannot resolve a revision: no upstream",
            "Error while checking for updates for repo w: no remote to fetch from: no origin",
            "Error while checking for updates for repo v: cannot walk the new commits: broken",
            "Error while checking for updates for repo u: the path names no repository",
            "Error while checking for updates for repo t: an event came out of order",
        ]
    );
}
