//! Sorting by name.
//!
//! The sort is stable: it brings its items into ascending order of their
//! names and leaves items of the same name in the order they came in.
//! Those two properties fix the result, which [`stable_sort`] spells out.

use crate::text::{
    at_most, lemma_at_most_transitive, lemma_precedes_irreflexive, lemma_precedes_total,
    name_precedes, precedes,
};
use vstd::prelude::*;
use vstd::seq_lib::to_multiset_build;
use vstd::seq_lib::to_multiset_contains;
use vstd::seq_lib::to_multiset_insert;

verus! {

/// Something that is known, and ordered, by a name.
pub trait Named {
    /// The name, in specifications.
    spec fn name_text(&self) -> Seq<char>;

    /// The name.
    fn name(&self) -> (n: &str)
        ensures
            n@ == self.name_text(),
    ;
}

/// No item of `s` comes after one with a greater name.
pub open spec fn sorted_by_name<T: Named>(s: Seq<T>) -> bool {
    forall|i: int, j: int|
        0 <= i < j < s.len() ==> at_most(#[trigger] s[i].name_text(), #[trigger] s[j].name_text())
}

/// The items of `s` that are called `name`, in the order they have in `s`.
pub open spec fn called<T: Named>(s: Seq<T>, name: Seq<char>) -> Seq<T>
    decreases s.len(),
{
    if s.len() == 0 {
        Seq::empty()
    } else if s.last().name_text() == name {
        called(s.drop_last(), name).push(s.last())
    } else {
        called(s.drop_last(), name)
    }
}

/// Where `x` goes into the sorted `s`: behind every item whose name is not
/// greater than its own.
pub open spec fn insert_position<T: Named>(s: Seq<T>, x: T) -> int
    decreases s.len(),
{
    if s.len() == 0 {
        0
    } else if precedes(x.name_text(), s.last().name_text()) {
        insert_position(s.drop_last(), x)
    } else {
        s.len() as int
    }
}

/// `s` sorted by name, items of the same name in the order they have in
/// `s`.
pub open spec fn stable_sort<T: Named>(s: Seq<T>) -> Seq<T>
    decreases s.len(),
{
    if s.len() == 0 {
        Seq::empty()
    } else {
        let sorted = stable_sort(s.drop_last());
        sorted.insert(insert_position(sorted, s.last()), s.last())
    }
}

/// The insert position splits `s`: from it on every name is greater than
/// that of `x`, and the item just before it is not.
pub proof fn lemma_insert_position<T: Named>(s: Seq<T>, x: T)
    ensures
        0 <= insert_position(s, x) <= s.len(),
        forall|j: int|
            insert_position(s, x) <= j < s.len() ==> precedes(
                x.name_text(),
                #[trigger] s[j].name_text(),
            ),
        insert_position(s, x) > 0 ==> !precedes(
            x.name_text(),
            s[insert_position(s, x) - 1].name_text(),
        ),
    decreases s.len(),
{
    if s.len() > 0 && precedes(x.name_text(), s.last().name_text()) {
        let rest = s.drop_last();
        lemma_insert_position(rest, x);
        assert forall|j: int| insert_position(s, x) <= j < s.len() implies precedes(
            x.name_text(),
            #[trigger] s[j].name_text(),
        ) by {
            if j < rest.len() {
                assert(rest[j] == s[j]);
            }
        }
        if insert_position(s, x) > 0 {
            assert(rest[insert_position(s, x) - 1] == s[insert_position(s, x) - 1]);
        }
    }
}

/// Inserting at the insert position keeps a sorted sequence sorted.
pub proof fn lemma_insert_keeps_sorted<T: Named>(s: Seq<T>, x: T)
    requires
        sorted_by_name(s),
    ensures
        sorted_by_name(s.insert(insert_position(s, x), x)),
{
    let p = insert_position(s, x);
    let r = s.insert(p, x);
    lemma_insert_position(s, x);
    assert forall|i: int, j: int| 0 <= i < j < r.len() implies at_most(
        #[trigger] r[i].name_text(),
        #[trigger] r[j].name_text(),
    ) by {
        if j < p {
            assert(r[i] == s[i] && r[j] == s[j]);
        } else if j == p {
            assert(r[i] == s[i]);
            if i < p - 1 {
                lemma_at_most_transitive(s[i].name_text(), s[p - 1].name_text(), x.name_text());
            }
        } else if i < p {
            assert(r[i] == s[i] && r[j] == s[j - 1]);
        } else if i == p {
            assert(r[j] == s[j - 1]);
            lemma_precedes_total(x.name_text(), s[j - 1].name_text());
        } else {
            assert(r[i] == s[i - 1] && r[j] == s[j - 1]);
        }
    }
}

/// The items called `name` in a concatenation are those of its parts.
pub proof fn lemma_called_add<T: Named>(a: Seq<T>, b: Seq<T>, name: Seq<char>)
    ensures
        called(a + b, name) == called(a, name) + called(b, name),
    decreases b.len(),
{
    if b.len() == 0 {
        assert(a + b =~= a);
        assert(called(a, name) + called(b, name) =~= called(a, name));
    } else {
        assert((a + b).drop_last() =~= a + b.drop_last());
        assert((a + b).last() == b.last());
        lemma_called_add(a, b.drop_last(), name);
        if b.last().name_text() == name {
            assert((called(a, name) + called(b.drop_last(), name)).push(b.last()) =~= called(
                a,
                name,
            ) + called(b.drop_last(), name).push(b.last()));
        }
    }
}

/// Where every name of `s` is greater than `name`, nothing in `s` is
/// called `name`.
pub proof fn lemma_called_among_greater<T: Named>(s: Seq<T>, name: Seq<char>)
    requires
        forall|j: int| 0 <= j < s.len() ==> precedes(name, #[trigger] s[j].name_text()),
    ensures
        called(s, name) == Seq::<T>::empty(),
    decreases s.len(),
{
    if s.len() > 0 {
        lemma_precedes_irreflexive(name);
        assert(precedes(name, s[s.len() - 1].name_text()));
        assert forall|j: int| 0 <= j < s.drop_last().len() implies precedes(
            name,
            #[trigger] s.drop_last()[j].name_text(),
        ) by {
            assert(s.drop_last()[j] == s[j]);
        }
        lemma_called_among_greater(s.drop_last(), name);
    }
}

/// Inserting `x` at its position adds it behind the items of its name
/// and leaves the items of every other name as they are.
pub proof fn lemma_insert_called<T: Named>(s: Seq<T>, x: T, name: Seq<char>)
    ensures
        called(s.insert(insert_position(s, x), x), name) == if x.name_text() == name {
            called(s, name).push(x)
        } else {
            called(s, name)
        },
{
    let p = insert_position(s, x);
    lemma_insert_position(s, x);
    let front = s.take(p);
    let back = s.skip(p);
    assert(s =~= front + back);
    assert(s.insert(p, x) =~= front.push(x) + back);
    lemma_called_add(front, back, name);
    lemma_called_add(front.push(x), back, name);
    assert(front.push(x).drop_last() =~= front);
    if x.name_text() == name {
        assert forall|j: int| 0 <= j < back.len() implies precedes(
            name,
            #[trigger] back[j].name_text(),
        ) by {
            assert(back[j] == s[p + j]);
        }
        lemma_called_among_greater(back, name);
        assert(called(front, name) + Seq::<T>::empty() =~= called(front, name));
        assert(called(front, name).push(x) + Seq::<T>::empty() =~= called(front, name).push(x));
    }
}

/// The sorted sequence is in ascending order of names.
pub proof fn law_sort_orders_by_name<T: Named>(s: Seq<T>)
    ensures
        sorted_by_name(stable_sort(s)),
    decreases s.len(),
{
    if s.len() > 0 {
        law_sort_orders_by_name(s.drop_last());
        lemma_insert_keeps_sorted(stable_sort(s.drop_last()), s.last());
    }
}

/// Sorting rearranges: the sorted sequence holds each item as often as the
/// sequence it was made from.
pub proof fn law_sort_rearranges<T: Named>(s: Seq<T>)
    ensures
        stable_sort(s).len() == s.len(),
        stable_sort(s).to_multiset() == s.to_multiset(),
    decreases s.len(),
{
    if s.len() == 0 {
        assert(stable_sort(s) =~= s);
    } else {
        let sorted = stable_sort(s.drop_last());
        law_sort_rearranges(s.drop_last());
        lemma_insert_position(sorted, s.last());
        to_multiset_insert(sorted, insert_position(sorted, s.last()), s.last());
        to_multiset_build(s.drop_last(), s.last());
        assert(s.drop_last().push(s.last()) =~= s);
    }
}

/// Sorting is stable: the items of one name are in the sorted sequence in
/// the order they had before.
pub proof fn law_sort_keeps_equal_names_in_order<T: Named>(s: Seq<T>, name: Seq<char>)
    ensures
        called(stable_sort(s), name) == called(s, name),
    decreases s.len(),
{
    if s.len() > 0 {
        law_sort_keeps_equal_names_in_order(s.drop_last(), name);
        lemma_insert_called(stable_sort(s.drop_last()), s.last(), name);
    }
}

/// No two different items of `s` have the same name.
pub open spec fn names_tell_apart<T: Named>(s: Seq<T>) -> bool {
    forall|i: int, j: int|
        0 <= i < s.len() && 0 <= j < s.len() && (#[trigger] s[i]).name_text() == (
        #[trigger] s[j]).name_text() ==> s[i] == s[j]
}

/// Two sorted sequences of the same items, where the name tells the item,
/// are one and the same sequence.
pub proof fn lemma_sorted_same_items<T: Named>(a: Seq<T>, b: Seq<T>)
    requires
        sorted_by_name(a),
        sorted_by_name(b),
        a.to_multiset() == b.to_multiset(),
        names_tell_apart(a),
    ensures
        a == b,
    decreases a.len(),
{
    broadcast use vstd::multiset::group_multiset_axioms;

    a.to_multiset_ensures();
    b.to_multiset_ensures();
    if a.len() == 0 {
        assert(a =~= b);
    } else {
        let la = a.last();
        let lb = b.last();
        assert(a[a.len() - 1] == la && b[b.len() - 1] == lb);
        to_multiset_contains(a, la);
        to_multiset_contains(b, la);
        to_multiset_contains(a, lb);
        to_multiset_contains(b, lb);
        let i = choose|i: int| 0 <= i < a.len() && a[i] == lb;
        let j = choose|j: int| 0 <= j < b.len() && b[j] == la;
        lemma_precedes_irreflexive(la.name_text());
        lemma_precedes_irreflexive(lb.name_text());
        assert(at_most(a[i].name_text(), a[a.len() - 1].name_text()));
        assert(at_most(b[j].name_text(), b[b.len() - 1].name_text()));
        lemma_precedes_total(la.name_text(), lb.name_text());
        assert(a[i].name_text() == a[a.len() - 1].name_text());
        assert(la == lb);
        let ra = a.drop_last();
        let rb = b.drop_last();
        assert(ra.push(la) =~= a);
        assert(rb.push(lb) =~= b);
        to_multiset_build(ra, la);
        to_multiset_build(rb, lb);
        assert(ra.to_multiset() =~= a.to_multiset().remove(la));
        assert(rb.to_multiset() =~= b.to_multiset().remove(lb));
        assert forall|x: int, y: int|
            0 <= x < ra.len() && 0 <= y < ra.len() && (#[trigger] ra[x]).name_text() == (
            #[trigger] ra[y]).name_text() implies ra[x] == ra[y] by {
            assert(ra[x] == a[x] && ra[y] == a[y]);
        }
        assert forall|x: int, y: int| 0 <= x < y < ra.len() implies at_most(
            #[trigger] ra[x].name_text(),
            #[trigger] ra[y].name_text(),
        ) by {
            assert(ra[x] == a[x] && ra[y] == a[y]);
        }
        assert forall|x: int, y: int| 0 <= x < y < rb.len() implies at_most(
            #[trigger] rb[x].name_text(),
            #[trigger] rb[y].name_text(),
        ) by {
            assert(rb[x] == b[x] && rb[y] == b[y]);
        }
        lemma_sorted_same_items(ra, rb);
    }
}

/// Sorting forgets the order its items came in: where the name tells the
/// item, two sequences of the same items sort to the same sequence.
pub proof fn law_sort_forgets_arrival_order<T: Named>(a: Seq<T>, b: Seq<T>)
    requires
        a.to_multiset() == b.to_multiset(),
        names_tell_apart(a),
    ensures
        stable_sort(a) == stable_sort(b),
{
    let sa = stable_sort(a);
    let sb = stable_sort(b);
    law_sort_orders_by_name(a);
    law_sort_orders_by_name(b);
    law_sort_rearranges(a);
    law_sort_rearranges(b);
    a.to_multiset_ensures();
    sa.to_multiset_ensures();
    assert forall|i: int, j: int|
        0 <= i < sa.len() && 0 <= j < sa.len() && (#[trigger] sa[i]).name_text() == (
        #[trigger] sa[j]).name_text() implies sa[i] == sa[j] by {
        to_multiset_contains(sa, sa[i]);
        to_multiset_contains(sa, sa[j]);
        to_multiset_contains(a, sa[i]);
        to_multiset_contains(a, sa[j]);
        let x = choose|x: int| 0 <= x < a.len() && a[x] == sa[i];
        let y = choose|y: int| 0 <= y < a.len() && a[y] == sa[j];
        assert(a[x].name_text() == a[y].name_text());
    }
    lemma_sorted_same_items(sa, sb);
}

/// Sorts `items` by name, stably.
pub fn sort_by_name<T: Named>(items: Vec<T>) -> (sorted: Vec<T>)
    ensures
        sorted@ == stable_sort(items@),
        sorted_by_name(sorted@),
        sorted@.len() == items@.len(),
        sorted@.to_multiset() == items@.to_multiset(),
        forall|name: Seq<char>| #[trigger] called(sorted@, name) == called(items@, name),
{
    let ghost all = items@;
    let total = items.len();
    let mut pending = items;
    let mut sorted: Vec<T> = Vec::new();
    let mut done: usize = 0;
    assert(all.take(0) =~= Seq::<T>::empty());
    while pending.len() > 0
        invariant
            all.len() == total,
            done + pending@.len() == all.len(),
            pending@ == all.skip(done as int),
            sorted@ == stable_sort(all.take(done as int)),
        decreases pending@.len(),
    {
        let x = pending.remove(0);
        proof {
            let prefix = all.take(done + 1);
            assert(prefix.drop_last() =~= all.take(done as int));
            assert(prefix.last() == x);
            assert(pending@ =~= all.skip(done + 1));
            law_sort_rearranges(all.take(done as int));
        }
        let mut at: usize = sorted.len();
        assert(sorted@.take(at as int) =~= sorted@);
        while at > 0 && name_precedes(x.name(), sorted[at - 1].name())
            invariant
                at <= sorted@.len(),
                insert_position(sorted@, x) == insert_position(sorted@.take(at as int), x),
            decreases at,
        {
            proof {
                let head = sorted@.take(at as int);
                assert(head.last() == sorted@[at - 1]);
                assert(head.drop_last() =~= sorted@.take(at - 1));
            }
            at = at - 1;
        }
        proof {
            let head = sorted@.take(at as int);
            if at > 0 {
                assert(head.last() == sorted@[at - 1]);
            }
            assert(insert_position(head, x) == at);
        }
        sorted.insert(at, x);
        done = done + 1;
    }
    proof {
        assert(all.take(done as int) =~= all);
        law_sort_orders_by_name(all);
        law_sort_rearranges(all);
        assert forall|name: Seq<char>| #[trigger] called(sorted@, name) == called(all, name) by {
            law_sort_keeps_equal_names_in_order(all, name);
        }
    }
    sorted
}

} // verus!
