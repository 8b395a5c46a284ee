//! The model of the repository that the workflow engine mutates.
//!
//! The engine coordinates an external, stateful version-control tool.  What
//! that tool holds — the remotes, the branches, which branch is checked out,
//! whether an uncommitted merge sits in the index — is modelled here as one
//! exclusively-owned value, so that every rollback invariant of the engine
//! can be stated as a pre/post-state comparison.  Each method models the net
//! effect of one version-control command on that state.

use vstd::prelude::*;

verus! {

/// One local branch: its name, and the contributions recorded on it since it
/// was created from its baseline, in order.
pub struct Branch {
    pub name: String,
    pub merged: Vec<String>,
}

/// The externally visible state of one repository.
pub struct Repo {
    /// Names of the configured remotes.
    pub remotes: Vec<String>,
    /// The local branches.
    pub branches: Vec<Branch>,
    /// Index into `branches` of the branch that is checked out.
    pub current: usize,
    /// An uncommitted merge sits in the index.
    pub pending_merge: bool,
    /// Conflicted paths that were resolved by keeping "our" side and staged.
    pub staged_ours: Vec<String>,
}

/// An element-wise copy of a list of names.
pub fn clone_names(v: &Vec<String>) -> (r: Vec<String>)
    ensures
        r@ == v@,
{
    let mut r: Vec<String> = Vec::new();
    let n = v.len();
    let mut i: usize = 0;
    while i < n
        invariant
            0 <= i <= n,
            n == v@.len(),
            r@ == v@.subrange(0, i as int),
        decreases n - i,
    {
        r.push(v[i].clone());
        proof {
            assert(v@.subrange(0, i as int).push(v@[i as int]) =~= v@.subrange(0, i + 1));
        }
        i += 1;
    }
    proof {
        assert(v@.subrange(0, n as int) =~= v@);
    }
    r
}

impl Repo {
    /// Well-formedness: the checked-out index is valid and names are unique.
    pub open spec fn wf(self) -> bool {
        &&& self.current < self.branches@.len()
        &&& forall|i: int, j: int|
            0 <= i < j < self.branches@.len() ==> self.branches@[i].name@ != self.branches@[j].name@
        &&& forall|i: int, j: int|
            0 <= i < j < self.remotes@.len() ==> self.remotes@[i]@ != self.remotes@[j]@
    }

    /// A remote of this name is configured.
    pub open spec fn has_remote(self, n: Seq<char>) -> bool {
        exists|i: int| 0 <= i < self.remotes@.len() && self.remotes@[i]@ == n
    }

    /// A local branch of this name exists.
    pub open spec fn has_branch(self, n: Seq<char>) -> bool {
        exists|i: int| 0 <= i < self.branches@.len() && self.branches@[i].name@ == n
    }

    /// The branch that is checked out.
    pub open spec fn current_branch(self) -> Branch
        recommends
            self.wf(),
    {
        self.branches@[self.current as int]
    }

    /// The two states are indistinguishable: same remotes, same branches,
    /// same checkout, same index state.
    pub open spec fn same_state(self, other: Repo) -> bool {
        &&& self.remotes@ == other.remotes@
        &&& self.branches@ == other.branches@
        &&& self.current == other.current
        &&& self.pending_merge == other.pending_merge
        &&& self.staged_ours@ == other.staged_ours@
    }

    /// The index of the remote of this name (unique when `wf`).
    pub open spec fn remote_index_of(self, n: Seq<char>) -> int {
        choose|i: int| 0 <= i < self.remotes@.len() && self.remotes@[i]@ == n
    }

    /// The index of the branch of this name (unique when `wf`).
    pub open spec fn branch_index_of(self, n: Seq<char>) -> int {
        choose|i: int| 0 <= i < self.branches@.len() && self.branches@[i].name@ == n
    }

    /// In a well-formed repository a branch name pins its index down.
    pub proof fn lemma_branch_index_unique(self, n: Seq<char>, i: int)
        requires
            self.wf(),
            0 <= i < self.branches@.len(),
            self.branches@[i].name@ == n,
        ensures
            self.has_branch(n),
            self.branch_index_of(n) == i,
    {
        assert(self.has_branch(n));
        let k = self.branch_index_of(n);
        assert(0 <= k < self.branches@.len() && self.branches@[k].name@ == n);
        if k < i {
            assert(self.branches@[k].name@ != self.branches@[i].name@);
        }
        if k > i {
            assert(self.branches@[i].name@ != self.branches@[k].name@);
        }
    }

    /// In a well-formed repository a remote name pins its index down.
    pub proof fn lemma_remote_index_unique(self, n: Seq<char>, i: int)
        requires
            self.wf(),
            0 <= i < self.remotes@.len(),
            self.remotes@[i]@ == n,
        ensures
            self.has_remote(n),
            self.remote_index_of(n) == i,
    {
        assert(self.has_remote(n));
        let k = self.remote_index_of(n);
        assert(0 <= k < self.remotes@.len() && self.remotes@[k]@ == n);
        if k < i {
            assert(self.remotes@[k]@ != self.remotes@[i]@);
        }
        if k > i {
            assert(self.remotes@[i]@ != self.remotes@[k]@);
        }
    }

    /// Finds the remote of this name.
    pub fn find_remote(&self, name: &String) -> (r: Option<usize>)
        ensures
            r matches Some(i) ==> i < self.remotes@.len() && self.remotes@[i as int]@ == name@,
            r is None ==> !self.has_remote(name@),
    {
        let n = self.remotes.len();
        let mut i: usize = 0;
        while i < n
            invariant
                0 <= i <= n,
                n == self.remotes@.len(),
                forall|j: int| 0 <= j < i ==> self.remotes@[j]@ != name@,
            decreases n - i,
        {
            if self.remotes[i].eq(name) {
                return Some(i);
            }
            i += 1;
        }
        None
    }

    /// Finds the branch of this name.
    pub fn find_branch(&self, name: &String) -> (r: Option<usize>)
        ensures
            r matches Some(i) ==> i < self.branches@.len() && self.branches@[i as int].name@
                == name@,
            r is None ==> !self.has_branch(name@),
    {
        let n = self.branches.len();
        let mut i: usize = 0;
        while i < n
            invariant
                0 <= i <= n,
                n == self.branches@.len(),
                forall|j: int| 0 <= j < i ==> self.branches@[j].name@ != name@,
            decreases n - i,
        {
            if self.branches[i].name.eq(name) {
                return Some(i);
            }
            i += 1;
        }
        None
    }

    /// Models a successful `remote add`: the remote is appended.
    pub fn remote_add(&mut self, name: String)
        requires
            old(self).wf(),
            !old(self).has_remote(name@),
        ensures
            final(self).wf(),
            final(self).remotes@ == old(self).remotes@.push(name),
            final(self).branches@ == old(self).branches@,
            final(self).current == old(self).current,
            final(self).pending_merge == old(self).pending_merge,
            final(self).staged_ours@ == old(self).staged_ours@,
    {
        self.remotes.push(name);
    }

    /// Models a successful `remote remove` of a configured remote.
    pub fn remote_remove(&mut self, name: &String)
        requires
            old(self).wf(),
            old(self).has_remote(name@),
        ensures
            final(self).wf(),
            final(self).remotes@ == old(self).remotes@.remove(old(self).remote_index_of(name@)),
            final(self).branches@ == old(self).branches@,
            final(self).current == old(self).current,
            final(self).pending_merge == old(self).pending_merge,
            final(self).staged_ours@ == old(self).staged_ours@,
    {
        let r = self.find_remote(name);
        match r {
            Some(i) => {
                proof {
                    let k = self.remote_index_of(name@);
                    assert(0 <= k < self.remotes@.len() && self.remotes@[k]@ == name@);
                    assert(k == i as int);
                }
                self.remotes.remove(i);
            },
            None => {
                proof {
                    assert(false);
                }
            },
        }
    }

    /// Models a successful fetch of a remote ref into a new local branch:
    /// the branch is created at the fetched baseline, with nothing recorded
    /// on it yet, and the checkout does not move.
    pub fn fetch_branch_create(&mut self, name: String)
        requires
            old(self).wf(),
            !old(self).has_branch(name@),
        ensures
            final(self).wf(),
            final(self).branches@.len() == old(self).branches@.len() + 1,
            forall|i: int|
                0 <= i < old(self).branches@.len() ==> final(self).branches@[i] == old(self).branches@[i],
            final(self).branches@.last().name == name,
            final(self).branches@.last().merged@ == Seq::<String>::empty(),
            final(self).remotes@ == old(self).remotes@,
            final(self).current == old(self).current,
            final(self).current_branch() == old(self).current_branch(),
            final(self).pending_merge == old(self).pending_merge,
            final(self).staged_ours@ == old(self).staged_ours@,
    {
        self.branches.push(Branch { name, merged: Vec::new() });
    }

    /// Models a successful `branch -D` of a branch that is not checked out.
    pub fn branch_delete(&mut self, name: &String)
        requires
            old(self).wf(),
            old(self).has_branch(name@),
            old(self).current_branch().name@ != name@,
        ensures
            final(self).wf(),
            final(self).branches@ == old(self).branches@.remove(old(self).branch_index_of(name@)),
            final(self).current_branch() == old(self).current_branch(),
            final(self).remotes@ == old(self).remotes@,
            final(self).pending_merge == old(self).pending_merge,
            final(self).staged_ours@ == old(self).staged_ours@,
    {
        let r = self.find_branch(name);
        match r {
            Some(i) => {
                proof {
                    let k = self.branch_index_of(name@);
                    assert(0 <= k < self.branches@.len() && self.branches@[k].name@ == name@);
                    assert(k == i as int);
                    assert(i as int != self.current as int);
                }
                self.branches.remove(i);
                if i < self.current {
                    self.current = self.current - 1;
                }
            },
            None => {
                proof {
                    assert(false);
                }
            },
        }
    }

    /// Models a successful `checkout` of an existing branch.
    pub fn checkout(&mut self, name: &String)
        requires
            old(self).wf(),
            old(self).has_branch(name@),
        ensures
            final(self).wf(),
            final(self).branches@ == old(self).branches@,
            final(self).remotes@ == old(self).remotes@,
            final(self).current == old(self).branch_index_of(name@),
            final(self).current_branch().name@ == name@,
            final(self).pending_merge == old(self).pending_merge,
            final(self).staged_ours@ == old(self).staged_ours@,
    {
        let r = self.find_branch(name);
        match r {
            Some(i) => {
                proof {
                    let k = self.branch_index_of(name@);
                    assert(0 <= k < self.branches@.len() && self.branches@[k].name@ == name@);
                    assert(k == i as int);
                }
                self.current = i;
            },
            None => {
                proof {
                    assert(false);
                }
            },
        }
    }

    /// Models a merge of the named contribution into the checked-out branch
    /// being accepted into the index: the contribution is recorded on the
    /// branch and the merge awaits its commit.
    pub fn record_merge(&mut self, id: String)
        requires
            old(self).wf(),
            !old(self).pending_merge,
        ensures
            final(self).wf(),
            final(self).branches@.len() == old(self).branches@.len(),
            forall|i: int|
                0 <= i < old(self).branches@.len() && i != old(self).current as int ==> final(self).branches@[i] == old(self).branches@[i],
            final(self).current == old(self).current,
            final(self).current_branch().name == old(self).current_branch().name,
            final(self).current_branch().merged@ == old(self).current_branch().merged@.push(id),
            final(self).remotes@ == old(self).remotes@,
            final(self).pending_merge,
            final(self).staged_ours@ == old(self).staged_ours@,
    {
        let i = self.current;
        let mut b = self.branches.remove(i);
        b.merged.push(id);
        self.branches.insert(i, b);
        self.pending_merge = true;
        proof {
            assert(forall|j: int|
                0 <= j < self.branches@.len() && j != old(self).current as int ==> self.branches@[j]
                    == old(self).branches@[j]);
        }
    }

    /// Models `checkout --ours` followed by `add` on one conflicted path:
    /// the path is staged with the content of the side being merged into.
    pub fn stage_ours(&mut self, path: String)
        requires
            old(self).wf(),
        ensures
            final(self).wf(),
            final(self).branches@ == old(self).branches@,
            final(self).remotes@ == old(self).remotes@,
            final(self).current == old(self).current,
            final(self).pending_merge == old(self).pending_merge,
            final(self).staged_ours@ == old(self).staged_ours@.push(path),
    {
        self.staged_ours.push(path);
    }

    /// Models committing the pending merge: the index is clean afterwards.
    pub fn commit(&mut self)
        requires
            old(self).wf(),
            old(self).pending_merge,
        ensures
            final(self).wf(),
            final(self).branches@ == old(self).branches@,
            final(self).remotes@ == old(self).remotes@,
            final(self).current == old(self).current,
            !final(self).pending_merge,
            final(self).staged_ours@ == Seq::<String>::empty(),
    {
        self.pending_merge = false;
        self.staged_ours.clear();
    }

    /// Models `branch --move --force` of the checked-out branch onto a name
    /// that no other branch holds: the branch keeps everything recorded on
    /// it and only its name changes.
    pub fn rename_current(&mut self, name: String)
        requires
            old(self).wf(),
            !old(self).has_branch(name@),
        ensures
            final(self).wf(),
            final(self).branches@.len() == old(self).branches@.len(),
            forall|i: int|
                0 <= i < old(self).branches@.len() && i != old(self).current as int ==> final(self).branches@[i] == old(self).branches@[i],
            final(self).current == old(self).current,
            final(self).current_branch().name == name,
            final(self).current_branch().merged == old(self).current_branch().merged,
            final(self).remotes@ == old(self).remotes@,
            final(self).pending_merge == old(self).pending_merge,
            final(self).staged_ours@ == old(self).staged_ours@,
    {
        let i = self.current;
        let mut b = self.branches.remove(i);
        b.name = name;
        self.branches.insert(i, b);
        proof {
            assert(forall|j: int|
                0 <= j < self.branches@.len() && j != old(self).current as int ==> self.branches@[j]
                    == old(self).branches@[j]);
        }
    }

    /// Models a successful `switch --create`: a new branch is created at the
    /// state of the checked-out branch, carrying the same recorded
    /// contributions, and becomes the checked-out branch.
    pub fn switch_create(&mut self, name: String)
        requires
            old(self).wf(),
            !old(self).has_branch(name@),
        ensures
            final(self).wf(),
            final(self).branches@.len() == old(self).branches@.len() + 1,
            forall|i: int|
                0 <= i < old(self).branches@.len() ==> final(self).branches@[i] == old(self).branches@[i],
            final(self).branches@.last().name == name,
            final(self).branches@.last().merged@ == old(self).current_branch().merged@,
            final(self).current == old(self).branches@.len(),
            final(self).current_branch().name == name,
            final(self).remotes@ == old(self).remotes@,
            final(self).pending_merge == old(self).pending_merge,
            final(self).staged_ours@ == old(self).staged_ours@,
    {
        let i = self.current;
        let merged = clone_names(&self.branches[i].merged);
        self.branches.push(Branch { name, merged });
        self.current = self.branches.len() - 1;
    }
}

} // verus!
