use taur::text::name_precedes;

#[test]
fn first_difference_decides() {
    assert!(name_precedes("bar", "foo"));
    assert!(!name_precedes("foo", "bar"));
    assert!(name_precedes("abc", "abd"));
    assert!(!name_precedes("abd", "abc"));
}

#[test]
fn a_prefix_comes_first() {
    assert!(name_precedes("foo", "foobar"));
    assert!(!name_precedes("foobar", "foo"));
    assert!(name_precedes("", "a"));
    assert!(!name_precedes("a", ""));
}

#[test]
fn no_name_precedes_itself() {
    assert!(!name_precedes("", ""));
    assert!(!name_precedes("taur", "taur"));
}

#[test]
fn the_order_is_that_of_the_code_points() {
    assert!(name_precedes("Zebra", "apple"));
    assert!(name_precedes("a-b", "a_b"));
    assert!(name_precedes("z", "\u{e9}"));
    assert!(name_precedes("\u{e9}", "\u{4e2d}"));
    assert!(name_precedes("\u{ffff}", "\u{10000}"));
}

#[test]
fn the_order_agrees_with_that_of_strings() {
    let names = ["", "a", "B", "ab", "abc", "b", "\u{e9}", "z", "a\u{0}", "\u{10000}", "\u{ffff}"];
    for a in names {
        for b in names {
            assert_eq!(name_precedes(a, b), a < b);
        }
    }
}
