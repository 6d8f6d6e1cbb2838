use std::cmp::Ordering;
use taur::style::Palette;
use taur::update_info::{push_commit_lines, UpdateInfo};

fn marks() -> Palette {
    Palette {
        bold: String::from("<b>"),
        reset: String::from("</>"),
        blue: String::from("<blue>"),
        magenta: String::from("<mag>"),
        cyan: String::from("<cyan>"),
        default_colour: String::from("<def>"),
    }
}

fn info(name: &str, commits: &[&str]) -> UpdateInfo {
    UpdateInfo {
        name: String::from(name),
        commits: commits.iter().map(|c| String::from(*c)).collect(),
    }
}

#[test]
fn a_block_is_heading_empty_line_and_commits() {
    let text = info("bar", &["fix bug", "add feature"]).render(&marks());
    assert_eq!(
        text,
        "<b><blue>:: <def>bar</>\n\n<mag>* <cyan>fix bug</>\n<mag>* <cyan>add feature</>\n"
    );
}

#[test]
fn a_block_without_commits_is_heading_and_empty_line() {
    assert_eq!(info("bar", &[]).render(&marks()), "<b><blue>:: <def>bar</>\n\n");
}

#[test]
fn a_block_for_the_terminal() {
    let p = Palette {
        bold: String::from("\u{1b}[1m"),
        reset: String::from("\u{1b}[m"),
        blue: String::from("\u{1b}[38;5;4m"),
        magenta: String::from("\u{1b}[38;5;5m"),
        cyan: String::from("\u{1b}[38;5;6m"),
        default_colour: String::from("\u{1b}[39m"),
    };
    assert_eq!(
        info("foo", &["one\n"]).render(&p),
        "\u{1b}[1m\u{1b}[38;5;4m:: \u{1b}[39mfoo\u{1b}[m\n\n\
         \u{1b}[38;5;5m* \u{1b}[38;5;6mone\n\u{1b}[m\n"
    );
}

#[test]
fn commit_lines_are_appended() {
    let mut out = String::from("head\n");
    push_commit_lines(&mut out, &marks(), &vec![String::from("a"), String::from("b")]);
    assert_eq!(out, "head\n<mag>* <cyan>a</>\n<mag>* <cyan>b</>\n");
    let mut same = String::from("x");
    push_commit_lines(&mut same, &marks(), &Vec::new());
    assert_eq!(same, "x");
}

#[test]
fn infos_are_ordered_by_name_alone() {
    let bar = info("bar", &["z"]);
    let foo = info("foo", &["a"]);
    assert_eq!(bar.cmp(&foo), Ordering::Less);
    assert_eq!(foo.cmp(&bar), Ordering::Greater);
    assert_eq!(foo.cmp(&info("foo", &["other"])), Ordering::Equal);
    assert_eq!(bar.partial_cmp(&foo), Some(Ordering::Less));
    assert_eq!(foo.partial_cmp(&bar), Some(Ordering::Greater));
    assert_eq!(foo.partial_cmp(&info("foo", &[])), Some(Ordering::Equal));
    assert!(bar < foo);
    assert!(foo >= bar);
}

#[test]
fn infos_are_equal_by_name_alone() {
    assert!(info("foo", &["a"]) == info("foo", &["b", "c"]));
    assert!(info("foo", &["a"]) != info("bar", &["a"]));
}
