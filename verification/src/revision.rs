//! Revisions, commits, and the history they form.
//!
//! The library never looks inside a revision id: it compares two of them
//! and hands them back to the version-control engine. What a walk over the
//! history has to yield is stated here over a mathematical model of the
//! commit graph, so that the properties of an update can be proved from it.

use vstd::prelude::*;

verus! {

/// The name of one commit, as the version-control engine prints it. Two
/// ids are the same revision exactly if they are the same text.
#[derive(Debug, PartialEq, Eq)]
pub struct RevisionId {
    pub hex: String,
}

impl View for RevisionId {
    type V = Seq<char>;

    open spec fn view(&self) -> Seq<char> {
        self.hex@
    }
}

impl RevisionId {
    /// The id with the given text.
    pub fn new(hex: String) -> (id: RevisionId)
        ensures
            id@ == hex@,
    {
        RevisionId { hex }
    }

    /// Whether `self` and `other` name the same revision.
    pub fn same(&self, other: &RevisionId) -> (r: bool)
        ensures
            r == (self@ == other@),
    {
        self.hex == other.hex
    }

    /// A copy of the id.
    pub fn duplicate(&self) -> (id: RevisionId)
        ensures
            id@ == self@,
    {
        RevisionId { hex: self.hex.clone() }
    }
}

/// One commit met on a walk: its id and its message, where the message
/// could be read as text.
#[derive(Debug, PartialEq, Eq)]
pub struct Commit {
    pub id: RevisionId,
    pub message: Option<String>,
}

/// A commit as specifications see it.
pub struct CommitView {
    pub id: Seq<char>,
    pub message: Option<Seq<char>>,
}

impl View for Commit {
    type V = CommitView;

    open spec fn view(&self) -> CommitView {
        CommitView {
            id: self.id@,
            message: match self.message {
                Some(m) => Some(m@),
                None => None,
            },
        }
    }
}

impl CommitView {
    /// The text listed for the commit: its message, or the empty text for
    /// a commit whose message cannot be read.
    pub open spec fn listed(self) -> Seq<char> {
        match self.message {
            Some(m) => m,
            None => Seq::empty(),
        }
    }
}

/// The views of the commits of a walk, in order.
pub open spec fn commit_views(commits: Seq<Commit>) -> Seq<CommitView> {
    Seq::new(commits.len(), |i: int| commits[i]@)
}

/// The ids of the commits of a walk, in order.
pub open spec fn walk_ids(walk: Seq<CommitView>) -> Seq<Seq<char>> {
    Seq::new(walk.len(), |i: int| walk[i].id)
}

/// The texts listed for the commits of a walk, in order: one for each.
pub open spec fn walk_messages(walk: Seq<CommitView>) -> Seq<Seq<char>> {
    Seq::new(walk.len(), |i: int| walk[i].listed())
}

/// A commit graph: for each commit, the ids of its parents.
pub struct History {
    pub parents: Map<Seq<char>, Seq<Seq<char>>>,
}

impl History {
    /// `child` is a commit of the history and names `parent` among its
    /// parents.
    pub open spec fn is_parent(self, child: Seq<char>, parent: Seq<char>) -> bool {
        self.parents.dom().contains(child) && self.parents[child].contains(parent)
    }

    /// `path` leads from its first commit to its last, each step going
    /// from a commit to one of its parents.
    pub open spec fn is_path(self, path: Seq<Seq<char>>) -> bool {
        &&& path.len() > 0
        &&& forall|i: int| 0 < i < path.len() ==> self.is_parent(path[i - 1], #[trigger] path[i])
    }

    /// `to` is `from` itself or one of its ancestors.
    pub open spec fn reaches(self, from: Seq<char>, to: Seq<char>) -> bool {
        exists|path: Seq<Seq<char>>| #[trigger]
            self.is_path(path) && path.first() == from && path.last() == to
    }

    /// The commits that are new upstream: those that `upstream` reaches
    /// and `local` does not.
    pub open spec fn new_commits(self, upstream: Seq<char>, local: Seq<char>) -> Set<Seq<char>> {
        Set::new(|c: Seq<char>| self.reaches(upstream, c) && !self.reaches(local, c))
    }

    /// `walk` is what a walk from `upstream` that stops at `local` yields:
    /// each new commit once, and nothing else.
    pub open spec fn is_walk(
        self,
        walk: Seq<CommitView>,
        upstream: Seq<char>,
        local: Seq<char>,
    ) -> bool {
        &&& walk_ids(walk).no_duplicates()
        &&& walk_ids(walk).to_set() == self.new_commits(upstream, local)
    }

    /// Every commit reaches itself.
    pub proof fn lemma_reaches_itself(self, c: Seq<char>)
        ensures
            self.reaches(c, c),
    {
        let path = seq![c];
        assert(self.is_path(path) && path.first() == c && path.last() == c);
    }

    /// A walk never yields the commit it stops at, and yields as many
    /// commits as are new: the texts listed for it are one per new commit,
    /// none of them that of the local head.
    pub proof fn lemma_walk_lists_the_new_commits(
        self,
        walk: Seq<CommitView>,
        upstream: Seq<char>,
        local: Seq<char>,
    )
        requires
            self.is_walk(walk, upstream, local),
        ensures
            forall|i: int| 0 <= i < walk.len() ==> (#[trigger] walk[i]).id != local,
            self.new_commits(upstream, local).finite(),
            walk_messages(walk).len() == self.new_commits(upstream, local).len(),
    {
        let ids = walk_ids(walk);
        self.lemma_reaches_itself(local);
        assert forall|i: int| 0 <= i < walk.len() implies (#[trigger] walk[i]).id != local by {
            if walk[i].id == local {
                assert(ids[i] == local);
                assert(ids.to_set().contains(local));
            }
        }
        ids.unique_seq_to_set();
    }
}

} // verus!
