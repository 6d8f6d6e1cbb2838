//! The table shown for a search in the package registry.

use crate::order::{sort_by_name, stable_sort, Named};
use crate::style::{Palette, PaletteView};
use vstd::prelude::*;
use vstd::string::StringExecFns;
use vstd::utf8::encode_utf8;

verus! {

/// A package as the registry describes it.
#[derive(Debug, PartialEq, Eq)]
pub struct Package {
    /// The package's name.
    pub name: String,
    /// How popular the package is, written out as it is to be shown.
    pub popularity: String,
    /// What the package is, where the registry says so.
    pub description: Option<String>,
}

impl Named for Package {
    open spec fn name_text(&self) -> Seq<char> {
        self.name@
    }

    fn name(&self) -> (n: &str) {
        self.name.as_str()
    }
}

/// The room a name takes in the table: the length of its UTF-8 encoding.
pub open spec fn width(name: Seq<char>) -> nat {
    encode_utf8(name).len()
}

/// The greatest width among the names of `packages`.
pub open spec fn longest_name(packages: Seq<Package>) -> nat
    decreases packages.len(),
{
    if packages.len() == 0 {
        0
    } else {
        let rest = longest_name(packages.drop_last());
        if width(packages.last().name@) > rest {
            width(packages.last().name@)
        } else {
            rest
        }
    }
}

/// `n` spaces.
pub open spec fn spaces(n: nat) -> Seq<char> {
    Seq::new(n, |i: int| ' ')
}

/// The whole of what is shown for a search that found nothing.
pub open spec fn nothing_found() -> Seq<char> {
    "No packages found\n"@
}

/// The line over the table. The description's column starts where it
/// starts in the rows; the names' column is never narrower than its title.
pub open spec fn table_heading(p: PaletteView, longest: nat) -> Seq<char> {
    p.bold + "Pop  - Name"@ + spaces(
        if longest >= 3 {
            (longest - 3) as nat
        } else {
            0
        },
    ) + "Description"@ + p.reset + "\n"@
}

/// What is shown of a package's description.
pub open spec fn description_text(package: Package) -> Seq<char> {
    match package.description {
        Some(d) => d@,
        None => Seq::empty(),
    }
}

/// The line for one package: popularity, name, and the description in a
/// column that starts one space behind the longest name.
pub open spec fn table_row(p: PaletteView, longest: nat, package: Package) -> Seq<char> {
    package.popularity@ + " - "@ + p.magenta + package.name@ + p.reset + spaces(
        (longest - width(package.name@) + 1) as nat,
    ) + description_text(package) + "\n"@
}

/// The lines for `packages`, one after the other.
pub open spec fn table_rows(p: PaletteView, longest: nat, packages: Seq<Package>) -> Seq<char>
    decreases packages.len(),
{
    if packages.len() == 0 {
        Seq::empty()
    } else {
        table_rows(p, longest, packages.drop_last()) + table_row(p, longest, packages.last())
    }
}

/// What is shown for `packages`, taken in the order they are in: the
/// heading and a row for each, or the one line that says there are none.
pub open spec fn search_text(p: PaletteView, packages: Seq<Package>) -> Seq<char> {
    if packages.len() == 0 {
        nothing_found()
    } else {
        table_heading(p, longest_name(packages)) + table_rows(p, longest_name(packages), packages)
    }
}

/// No name is wider than the longest.
pub proof fn lemma_longest_name_bounds(packages: Seq<Package>, i: int)
    requires
        0 <= i < packages.len(),
    ensures
        width(packages[i].name@) <= longest_name(packages),
    decreases packages.len(),
{
    if i < packages.len() - 1 {
        lemma_longest_name_bounds(packages.drop_last(), i);
    }
}

/// The width of `name`.
pub fn name_width(name: &str) -> (w: usize)
    ensures
        w == width(name@),
{
    name.as_bytes().len()
}

/// The greatest width among the names of `packages`.
pub fn longest(packages: &Vec<Package>) -> (w: usize)
    ensures
        w == longest_name(packages@),
{
    let mut w: usize = 0;
    let mut i: usize = 0;
    assert(packages@.take(0) =~= Seq::<Package>::empty());
    while i < packages.len()
        invariant
            i <= packages.len(),
            w == longest_name(packages@.take(i as int)),
        decreases packages.len() - i,
    {
        proof {
            let next = packages@.take(i + 1);
            assert(next.drop_last() =~= packages@.take(i as int));
            assert(next.last() == packages@[i as int]);
        }
        let here = name_width(packages[i].name.as_str());
        if here > w {
            w = here;
        }
        i = i + 1;
    }
    assert(packages@.take(i as int) =~= packages@);
    w
}

/// Appends `n` spaces to `out`.
pub fn push_spaces(out: &mut String, n: usize)
    ensures
        final(out)@ == old(out)@ + spaces(n as nat),
{
    let mut i: usize = 0;
    assert(out@ =~= old(out)@ + spaces(0));
    while i < n
        invariant
            i <= n,
            out@ == old(out)@ + spaces(i as nat),
        decreases n - i,
    {
        proof {
            reveal_strlit(" ");
            assert(old(out)@ + spaces(i as nat) + " "@ =~= old(out)@ + spaces((i + 1) as nat));
        }
        out.append(" ");
        i = i + 1;
    }
}

/// The table for the packages a search found, in ascending order of
/// their names. A search that found nothing shows [`nothing_found`] and
/// not a character more.
pub fn search(packages: Vec<Package>, palette: &Palette) -> (text: String)
    ensures
        text@ == search_text(palette@, stable_sort(packages@)),
        packages@.len() == 0 ==> text@ == nothing_found(),
{
    if packages.len() == 0 {
        return String::from_str("No packages found\n");
    }
    let sorted = sort_by_name(packages);
    let widest = longest(&sorted);
    let mut text = String::new();
    text.append(palette.bold.as_str());
    text.append("Pop  - Name");
    push_spaces(
        &mut text,
        if widest >= 3 {
            widest - 3
        } else {
            0
        },
    );
    text.append("Description");
    text.append(palette.reset.as_str());
    text.append("\n");
    let ghost head = text@;
    let ghost p = palette@;
    let mut i: usize = 0;
    assert(sorted@.take(0) =~= Seq::<Package>::empty());
    while i < sorted.len()
        invariant
            i <= sorted.len(),
            p == palette@,
            widest == longest_name(sorted@),
            text@ == head + table_rows(p, widest as nat, sorted@.take(i as int)),
        decreases sorted.len() - i,
    {
        proof {
            let next = sorted@.take(i + 1);
            assert(next.drop_last() =~= sorted@.take(i as int));
            assert(next.last() == sorted@[i as int]);
            lemma_longest_name_bounds(sorted@, i as int);
        }
        let package = &sorted[i];
        let ghost before = text@;
        text.append(package.popularity.as_str());
        text.append(" - ");
        text.append(palette.magenta.as_str());
        text.append(package.name.as_str());
        text.append(palette.reset.as_str());
        let ghost named = text@;
        let gap = widest - name_width(package.name.as_str());
        push_spaces(&mut text, gap);
        text.append(" ");
        proof {
            reveal_strlit(" ");
            assert(named + spaces(gap as nat) + " "@ =~= named + spaces((gap + 1) as nat));
        }
        if let Some(d) = &package.description {
            text.append(d.as_str());
        }
        text.append("\n");
        assert(text@ =~= before + table_row(p, widest as nat, *package));
        i = i + 1;
    }
    assert(sorted@.take(i as int) =~= sorted@);
    text
}

} // verus!
