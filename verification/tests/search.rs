use taur::order::sort_by_name;
use taur::search::{longest, name_width, push_spaces, search, Package};
use taur::style::Palette;

fn search_marks() -> Palette {
    Palette {
        bold: String::from("<b>"),
        reset: String::from("</>"),
        blue: String::from("<blue>"),
        magenta: String::from("<mag>"),
        cyan: String::from("<cyan>"),
        default_colour: String::from("<def>"),
    }
}

fn package(name: &str, popularity: &str, description: Option<&str>) -> Package {
    Package {
        name: String::from(name),
        popularity: String::from(popularity),
        description: description.map(String::from),
    }
}

#[test]
fn a_search_that_finds_nothing() {
    assert_eq!(search(Vec::new(), &search_marks()), "No packages found\n");
}

#[test]
fn a_table_of_packages() {
    let text = search(
        vec![
            package("taur-git", "0.12", Some("Tiny AUR helper (git)")),
            package("paru", "25.00", None),
            package("taur", "1.50", Some("Tiny AUR helper")),
        ],
        &search_marks(),
    );
    assert_eq!(
        text,
        "<b>Pop  - Name     Description</>\n\
         25.00 - <mag>paru</>     \n\
         1.50 - <mag>taur</>     Tiny AUR helper\n\
         0.12 - <mag>taur-git</> Tiny AUR helper (git)\n"
    );
}

#[test]
fn the_name_column_is_never_narrower_than_its_title() {
    let text = search(vec![package("ab", "0.00", Some("short"))], &search_marks());
    assert_eq!(text, "<b>Pop  - NameDescription</>\n0.00 - <mag>ab</> short\n");
    let text = search(vec![package("abc", "0.00", Some("three"))], &search_marks());
    assert_eq!(text, "<b>Pop  - NameDescription</>\n0.00 - <mag>abc</> three\n");
    let text = search(vec![package("abcd", "0.00", Some("four"))], &search_marks());
    assert_eq!(text, "<b>Pop  - Name Description</>\n0.00 - <mag>abcd</> four\n");
}

#[test]
fn a_name_is_as_wide_as_its_encoding() {
    assert_eq!(name_width(""), 0);
    assert_eq!(name_width("taur"), 4);
    assert_eq!(name_width("\u{e9}t\u{e9}"), 5);
    assert_eq!(
        longest(&vec![
            package("ab", "", None),
            package("abcde", "", None),
            package("abc", "", None),
        ]),
        5
    );
    assert_eq!(longest(&Vec::new()), 0);
}

#[test]
fn spaces_are_appended() {
    let mut out = String::from("x");
    push_spaces(&mut out, 3);
    assert_eq!(out, "x   ");
    push_spaces(&mut out, 0);
    assert_eq!(out, "x   ");
}

#[test]
fn packages_of_one_name_stay_in_their_order() {
    let sorted = sort_by_name(vec![
        package("b", "1", None),
        package("a", "2", None),
        package("b", "3", None),
        package("a", "4", None),
        package("", "5", None),
    ]);
    let shown: Vec<(&str, &str)> =
        sorted.iter().map(|p| (p.name.as_str(), p.popularity.as_str())).collect();
    assert_eq!(shown, vec![("", "5"), ("a", "2"), ("a", "4"), ("b", "1"), ("b", "3")]);
}

#[test]
fn sorting_nothing_gives_nothing() {
    assert!(sort_by_name(Vec::<Package>::new()).is_empty());
}
