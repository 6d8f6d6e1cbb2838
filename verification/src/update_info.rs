//! What is reported of a repository whose upstream has moved on.

use crate::order::Named;
use crate::style::{Palette, PaletteView};
use crate::text::{name_precedes, precedes, texts};
use core::cmp::Ordering;
use vstd::prelude::*;
use vstd::std_specs::cmp::PartialEqSpecImpl;
use vstd::std_specs::cmp::PartialOrdSpecImpl;
use vstd::string::StringExecFns;

verus! {

/// The new commits of one repository: its name and, in the order in which
/// the walk met them, the messages of the commits that upstream has and
/// the local branch has not.
#[derive(Debug, Eq)]
pub struct UpdateInfo {
    pub name: String,
    pub commits: Vec<String>,
}

/// An [`UpdateInfo`] as specifications see it.
pub struct UpdateInfoView {
    pub name: Seq<char>,
    pub commits: Seq<Seq<char>>,
}

impl View for UpdateInfo {
    type V = UpdateInfoView;

    open spec fn view(&self) -> UpdateInfoView {
        UpdateInfoView { name: self.name@, commits: texts(self.commits@) }
    }
}

/// The line that lists one commit: a bullet, then the message.
pub open spec fn commit_line(p: PaletteView, message: Seq<char>) -> Seq<char> {
    p.magenta + "* "@ + p.cyan + message + p.reset + "\n"@
}

/// The lines that list `messages`, one after the other.
pub open spec fn commit_lines(p: PaletteView, messages: Seq<Seq<char>>) -> Seq<char>
    decreases messages.len(),
{
    if messages.len() == 0 {
        Seq::empty()
    } else {
        commit_lines(p, messages.drop_last()) + commit_line(p, messages.last())
    }
}

/// The line that names a repository.
pub open spec fn heading_line(p: PaletteView, name: Seq<char>) -> Seq<char> {
    p.bold + p.blue + ":: "@ + p.default_colour + name + p.reset + "\n"@
}

/// The block that reports one repository: its heading, an empty line, and
/// a line for each commit.
pub open spec fn info_text(p: PaletteView, info: UpdateInfoView) -> Seq<char> {
    heading_line(p, info.name) + "\n"@ + commit_lines(p, info.commits)
}

/// How two names stand to each other.
pub open spec fn name_ordering(a: Seq<char>, b: Seq<char>) -> Ordering {
    if precedes(a, b) {
        Ordering::Less
    } else if precedes(b, a) {
        Ordering::Greater
    } else {
        Ordering::Equal
    }
}

/// Appends to `out` the lines that list `messages`.
pub fn push_commit_lines(out: &mut String, palette: &Palette, messages: &Vec<String>)
    ensures
        final(out)@ == old(out)@ + commit_lines(palette@, texts(messages@)),
{
    let ghost p = palette@;
    let ghost all = texts(messages@);
    let mut i: usize = 0;
    while i < messages.len()
        invariant
            i <= messages.len(),
            p == palette@,
            all == texts(messages@),
            out@ == old(out)@ + commit_lines(p, all.take(i as int)),
        decreases messages.len() - i,
    {
        assert(all.take(i + 1).drop_last() =~= all.take(i as int));
        out.append(palette.magenta.as_str());
        out.append("* ");
        out.append(palette.cyan.as_str());
        out.append(messages[i].as_str());
        out.append(palette.reset.as_str());
        out.append("\n");
        i = i + 1;
    }
    assert(all.take(i as int) =~= all);
}

impl UpdateInfo {
    /// The block that reports this repository, styled with `palette`.
    pub fn render(&self, palette: &Palette) -> (text: String)
        ensures
            text@ == info_text(palette@, self@),
    {
        let mut text = String::new();
        text.append(palette.bold.as_str());
        text.append(palette.blue.as_str());
        text.append(":: ");
        text.append(palette.default_colour.as_str());
        text.append(self.name.as_str());
        text.append(palette.reset.as_str());
        text.append("\n");
        text.append("\n");
        push_commit_lines(&mut text, palette, &self.commits);
        text
    }

    /// Orders two reports by the names of their repositories; the commits
    /// play no part.
    pub fn cmp(&self, other: &UpdateInfo) -> (o: Ordering)
        ensures
            o == name_ordering(self@.name, other@.name),
    {
        if name_precedes(self.name.as_str(), other.name.as_str()) {
            Ordering::Less
        } else if name_precedes(other.name.as_str(), self.name.as_str()) {
            Ordering::Greater
        } else {
            Ordering::Equal
        }
    }
}

impl Named for UpdateInfo {
    open spec fn name_text(&self) -> Seq<char> {
        self.name@
    }

    fn name(&self) -> (n: &str) {
        self.name.as_str()
    }
}

impl PartialEq for UpdateInfo {
    /// Two reports are equal if they are about the same repository name.
    fn eq(&self, other: &UpdateInfo) -> (r: bool) {
        self.name == other.name
    }
}

impl PartialEqSpecImpl for UpdateInfo {
    open spec fn obeys_eq_spec() -> bool {
        true
    }

    open spec fn eq_spec(&self, other: &UpdateInfo) -> bool {
        self.name@ == other.name@
    }
}

impl PartialOrd for UpdateInfo {
    /// The order of [`UpdateInfo::cmp`]: always `Some`.
    fn partial_cmp(&self, other: &UpdateInfo) -> (r: Option<Ordering>) {
        Some(self.cmp(other))
    }
}

impl PartialOrdSpecImpl for UpdateInfo {
    open spec fn obeys_partial_cmp_spec() -> bool {
        true
    }

    open spec fn partial_cmp_spec(&self, other: &UpdateInfo) -> Option<Ordering> {
        Some(name_ordering(self.name@, other.name@))
    }
}

} // verus!
