//! Checking every repository under one root.
//!
//! Each repository is checked on its own. A check that fails is told on
//! the error stream and takes nothing away from the others: the report
//! holds every divergence that was found.

use crate::checker::{check_error_text, CheckErrorView, CheckResult};
use crate::order::{
    law_sort_forgets_arrival_order, law_sort_orders_by_name, names_tell_apart, sorted_by_name,
    stable_sort,
};
use crate::report::{report_text, update_report};
use crate::style::{Palette, PaletteView};
use crate::text::texts;
use crate::update_info::UpdateInfo;
use vstd::prelude::*;
use vstd::seq_lib::lemma_multiset_commutative;
use vstd::seq_lib::to_multiset_build;
use vstd::seq_lib::to_multiset_contains;
use vstd::string::StringExecFns;

verus! {

/// One entry of the listing of the root.
#[derive(Debug, PartialEq, Eq)]
pub enum Entry {
    /// The entry could not be read.
    Unreadable,
    /// The entry is no directory.
    Other,
    /// The entry is a directory; `name` is the last component of its path,
    /// if it has one.
    Directory { name: Option<String> },
}

/// The name under which `entry` is checked, if it is: that of a directory
/// with a name that is not empty.
pub open spec fn directory_name(entry: Entry) -> Option<Seq<char>> {
    match entry {
        Entry::Directory { name: Some(n) } => if n@.len() > 0 {
            Some(n@)
        } else {
            None
        },
        _ => None,
    }
}

/// The names of the directories among `entries`, in the order of the
/// listing.
pub open spec fn directories(entries: Seq<Entry>) -> Seq<Seq<char>>
    decreases entries.len(),
{
    if entries.len() == 0 {
        Seq::empty()
    } else {
        match directory_name(entries.last()) {
            Some(n) => directories(entries.drop_last()).push(n),
            None => directories(entries.drop_last()),
        }
    }
}

/// The repositories to check: the directories of the listing. Entries
/// that cannot be read and entries that are no directories are passed
/// over in silence.
pub fn get_dir_list(entries: &Vec<Entry>) -> (dirs: Vec<String>)
    ensures
        texts(dirs@) == directories(entries@),
{
    let mut dirs: Vec<String> = Vec::new();
    let mut i: usize = 0;
    assert(entries@.take(0) =~= Seq::<Entry>::empty());
    assert(texts(dirs@) =~= Seq::<Seq<char>>::empty());
    while i < entries.len()
        invariant
            i <= entries.len(),
            texts(dirs@) == directories(entries@.take(i as int)),
        decreases entries.len() - i,
    {
        proof {
            let next = entries@.take(i + 1);
            assert(next.drop_last() =~= entries@.take(i as int));
            assert(next.last() == entries@[i as int]);
        }
        let ghost before = dirs@;
        match &entries[i] {
            Entry::Directory { name: Some(n) } => {
                if !n.as_str().is_empty() {
                    dirs.push(n.clone());
                    assert(texts(dirs@) =~= texts(before).push(n@));
                }
            },
            _ => {},
        }
        i = i + 1;
    }
    assert(entries@.take(i as int) =~= entries@);
    dirs
}

/// How the check of one repository ended.
#[derive(Debug)]
pub struct Checked {
    /// The directory that was checked.
    pub name: String,
    /// What the check found.
    pub result: CheckResult,
}

/// The line that tells of the failed check of the repository `name`.
pub open spec fn failure_line(name: Seq<char>, e: CheckErrorView) -> Seq<char> {
    "Error while checking for updates for repo "@ + name + ": "@ + check_error_text(e)
}

/// What the checks found: the update of each repository that has one, in
/// the order of `outcomes`.
pub open spec fn updates_of(outcomes: Seq<Checked>) -> Seq<UpdateInfo>
    decreases outcomes.len(),
{
    if outcomes.len() == 0 {
        Seq::empty()
    } else {
        match outcomes.last().result {
            Ok(Some(found)) => updates_of(outcomes.drop_last()).push(found.info),
            _ => updates_of(outcomes.drop_last()),
        }
    }
}

/// A line for each check that failed, in the order of `outcomes`.
pub open spec fn failures_of(outcomes: Seq<Checked>) -> Seq<Seq<char>>
    decreases outcomes.len(),
{
    if outcomes.len() == 0 {
        Seq::empty()
    } else {
        match outcomes.last().result {
            Err(e) => failures_of(outcomes.drop_last()).push(
                failure_line(outcomes.last().name@, e@),
            ),
            _ => failures_of(outcomes.drop_last()),
        }
    }
}

/// The updates found by checks that ended one after the other are those
/// of the first checks followed by those of the later ones.
pub proof fn lemma_updates_of_add(a: Seq<Checked>, b: Seq<Checked>)
    ensures
        updates_of(a + b) == updates_of(a) + updates_of(b),
    decreases b.len(),
{
    if b.len() == 0 {
        assert(a + b =~= a);
        assert(updates_of(a) + updates_of(b) =~= updates_of(a));
    } else {
        assert((a + b).drop_last() =~= a + b.drop_last());
        assert((a + b).last() == b.last());
        lemma_updates_of_add(a, b.drop_last());
        match b.last().result {
            Ok(Some(found)) => {
                assert((updates_of(a) + updates_of(b.drop_last())).push(found.info) =~= updates_of(
                    a,
                ) + updates_of(b.drop_last()).push(found.info));
            },
            _ => {},
        }
    }
}

/// The failures of checks that ended one after the other are those of the
/// first checks followed by those of the later ones.
pub proof fn lemma_failures_of_add(a: Seq<Checked>, b: Seq<Checked>)
    ensures
        failures_of(a + b) == failures_of(a) + failures_of(b),
    decreases b.len(),
{
    if b.len() == 0 {
        assert(a + b =~= a);
        assert(failures_of(a) + failures_of(b) =~= failures_of(a));
    } else {
        assert((a + b).drop_last() =~= a + b.drop_last());
        assert((a + b).last() == b.last());
        lemma_failures_of_add(a, b.drop_last());
        match b.last().result {
            Err(e) => {
                let line = failure_line(b.last().name@, e@);
                assert((failures_of(a) + failures_of(b.drop_last())).push(line) =~= failures_of(a)
                    + failures_of(b.drop_last()).push(line));
            },
            _ => {},
        }
    }
}

/// A check that fails is told and takes nothing from the others: with it
/// or without it the same updates are reported, and the one thing it adds
/// is its own line among the failures.
pub proof fn law_a_failure_stands_alone(
    before: Seq<Checked>,
    failed: Checked,
    after: Seq<Checked>,
)
    requires
        failed.result is Err,
    ensures
        updates_of(before + seq![failed] + after) == updates_of(before + after),
        failures_of(before + seq![failed] + after) == failures_of(before) + seq![
            failure_line(failed.name@, failed.result->Err_0@),
        ] + failures_of(after),
{
    let one = seq![failed];
    reveal_with_fuel(updates_of, 2);
    reveal_with_fuel(failures_of, 2);
    assert(one.drop_last() =~= Seq::<Checked>::empty());
    assert(one.last() == failed);
    assert(updates_of(one) =~= Seq::<UpdateInfo>::empty());
    assert(failures_of(one) =~= seq![failure_line(failed.name@, failed.result->Err_0@)]);
    lemma_updates_of_add(before, one);
    lemma_updates_of_add(before + one, after);
    lemma_updates_of_add(before, after);
    assert(updates_of(before) + Seq::<UpdateInfo>::empty() =~= updates_of(before));
    lemma_failures_of_add(before, one);
    lemma_failures_of_add(before + one, after);
}

/// The same checks, in whatever order they ended, found the same updates.
pub proof fn lemma_updates_of_rearranged(a: Seq<Checked>, b: Seq<Checked>)
    requires
        a.to_multiset() == b.to_multiset(),
    ensures
        updates_of(a).to_multiset() == updates_of(b).to_multiset(),
    decreases a.len(),
{
    broadcast use vstd::multiset::group_multiset_axioms;

    a.to_multiset_ensures();
    b.to_multiset_ensures();
    if a.len() == 0 {
        assert(a =~= b);
    } else {
        let x = a.last();
        let rest = a.drop_last();
        assert(a[a.len() - 1] == x);
        to_multiset_contains(a, x);
        to_multiset_contains(b, x);
        let j = choose|j: int| 0 <= j < b.len() && b[j] == x;
        let front = b.take(j);
        let back = b.skip(j + 1);
        assert(b =~= front + seq![x] + back);
        assert(b.remove(j) =~= front + back);
        assert(rest.push(x) =~= a);
        to_multiset_build(rest, x);
        assert(rest.to_multiset() =~= a.to_multiset().remove(x));
        assert((front + back).to_multiset() =~= rest.to_multiset());
        lemma_updates_of_rearranged(rest, front + back);
        lemma_updates_of_add(front, back);
        lemma_updates_of_add(front, seq![x]);
        lemma_updates_of_add(front + seq![x], back);
        lemma_updates_of_add(rest, seq![x]);
        assert(rest + seq![x] =~= a);
        let one = updates_of(seq![x]);
        lemma_multiset_commutative(updates_of(front), updates_of(back));
        lemma_multiset_commutative(updates_of(front), one);
        lemma_multiset_commutative(updates_of(front) + one, updates_of(back));
        lemma_multiset_commutative(updates_of(rest), one);
        assert(updates_of(a).to_multiset() =~= updates_of(b).to_multiset());
    }
}

/// The report does not depend on the order in which the checks ended:
/// where no two repositories with something new share a name, the same
/// checks give the same report.
pub proof fn law_report_forgets_the_order_of_checks(
    p: PaletteView,
    a: Seq<Checked>,
    b: Seq<Checked>,
)
    requires
        a.to_multiset() == b.to_multiset(),
        names_tell_apart(updates_of(a)),
    ensures
        sorted_by_name(stable_sort(updates_of(a))),
        report_text(p, stable_sort(updates_of(a))) == report_text(p, stable_sort(updates_of(b))),
{
    lemma_updates_of_rearranged(a, b);
    law_sort_forgets_arrival_order(updates_of(a), updates_of(b));
    law_sort_orders_by_name(updates_of(a));
}

/// What a fetch over all repositories has to show.
#[derive(Debug)]
pub struct FetchOutput {
    /// The report, for the standard output.
    pub report: String,
    /// A line for each check that failed, for the error stream.
    pub errors: Vec<String>,
}

/// Gathers what the checks of all repositories found, once every one of
/// them is over.
///
/// The report holds each divergence, sorted by repository name whatever
/// order the checks ended in. Each failure becomes one line of `errors`
/// and changes nothing else.
pub fn fetch(outcomes: Vec<Checked>, palette: &Palette) -> (out: FetchOutput)
    ensures
        out.report@ == report_text(palette@, stable_sort(updates_of(outcomes@))),
        sorted_by_name(stable_sort(updates_of(outcomes@))),
        texts(out.errors@) == failures_of(outcomes@),
{
    let ghost all = outcomes@;
    let mut updates: Vec<UpdateInfo> = Vec::new();
    let mut errors: Vec<String> = Vec::new();
    assert(all.take(0) =~= Seq::<Checked>::empty());
    assert(texts(errors@) =~= Seq::<Seq<char>>::empty());
    for outcome in it: outcomes
        invariant
            it.seq() == all,
            updates@ == updates_of(all.take(it.index() as int)),
            texts(errors@) == failures_of(all.take(it.index() as int)),
    {
        proof {
            let next = all.take(it.index() + 1);
            assert(next.drop_last() =~= all.take(it.index() as int));
            assert(next.last() == outcome);
        }
        let ghost before = errors@;
        let Checked { name, result } = outcome;
        match result {
            Ok(Some(found)) => {
                updates.push(found.info);
            },
            Ok(None) => {},
            Err(e) => {
                let mut line = String::from_str("Error while checking for updates for repo ");
                line.append(name.as_str());
                line.append(": ");
                line.append(e.describe().as_str());
                errors.push(line);
                assert(texts(errors@) =~= texts(before).push(failure_line(name@, e@)));
            },
        }
    }
    assert(all.take(all.len() as int) =~= all);
    FetchOutput { report: update_report(updates, palette), errors }
}

} // verus!
