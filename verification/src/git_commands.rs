//! Staging of ephemeral objects and the merge resolver.
//!
//! Every function here models one component of the engine against the
//! repository state in [`crate::repo`].  Whether each underlying
//! version-control command succeeds is decided outside the library and
//! passed in as an input, so the contracts hold for every possible answer;
//! in particular the rollback invariant — a failed staging leaves the
//! remote and branch lists exactly as they were — is proved for every
//! combination of outcomes.

use vstd::prelude::*;
use vstd::string::StrSliceExecFns;

use crate::error::Error;
use crate::repo::Repo;

verus! {

/// How a merge attempt ended, when it did not end in an error.
#[derive(Debug)]
pub enum MergeOutcome {
    /// The merge applied with no conflict.
    Clean,
    /// Every conflicted path was in the documentation class and was resolved
    /// by keeping "our" side.
    AutoResolved,
}

/// The reserved documentation extension: the path ends in `.md`.  Conflicts
/// confined to this class are resolved by keeping the side being merged
/// into; this narrow policy is a deliberate business rule.
pub open spec fn is_doc_path(s: Seq<char>) -> bool {
    s.len() >= 3 && s[s.len() - 3] == '.' && s[s.len() - 2] == 'm' && s[s.len() - 1] == 'd'
}

/// Every path of the conflict set is in the documentation class.
pub open spec fn all_doc_paths(ps: Seq<String>) -> bool {
    forall|i: int| 0 <= i < ps.len() ==> is_doc_path(ps[i]@)
}

/// The paths of the conflict set outside the documentation class, in order.
pub open spec fn non_doc_paths(ps: Seq<String>) -> Seq<String> {
    ps.filter(|p: String| !is_doc_path(p@))
}

/// Whether this path carries the reserved documentation extension.
pub fn has_doc_extension(s: &String) -> (r: bool)
    ensures
        r == is_doc_path(s@),
{
    let t = s.as_str();
    let n = t.unicode_len();
    if n < 3 {
        return false;
    }
    t.get_char(n - 3) == '.' && t.get_char(n - 2) == 'm' && t.get_char(n - 1) == 'd'
}

/// Adds the ephemeral remote and fetches the requested ref into the
/// ephemeral local branch.  `add_ok` and `fetch_ok` are the answers of the
/// two underlying commands.  If adding the remote fails nothing was created;
/// if the fetch fails the just-added remote is removed again, so a failure
/// leaves the repository exactly as it was.
pub fn add_remote_branch(
    repo: &mut Repo,
    local_remote: String,
    local_branch: String,
    remote_remote: &String,
    remote_branch: &String,
    add_ok: bool,
    fetch_ok: bool,
) -> (r: Result<(), Error>)
    requires
        old(repo).wf(),
        !old(repo).has_remote(local_remote@),
        !old(repo).has_branch(local_branch@),
    ensures
        final(repo).wf(),
        r is Ok <==> (add_ok && fetch_ok),
        !add_ok ==> r == Err::<(), Error>(Error::RemoteAddFailed),
        add_ok && !fetch_ok ==> r == Err::<(), Error>(Error::FetchFailed),
        r is Err ==> final(repo).same_state(*old(repo)),
        r is Ok ==> {
            &&& final(repo).remotes@ == old(repo).remotes@.push(local_remote)
            &&& final(repo).branches@.len() == old(repo).branches@.len() + 1
            &&& (forall|i: int|
                0 <= i < old(repo).branches@.len() ==> final(repo).branches@[i] == old(repo).branches@[i])
            &&& final(repo).branches@.last().name == local_branch
            &&& final(repo).branches@.last().merged@ == Seq::<String>::empty()
            &&& final(repo).current == old(repo).current
            &&& final(repo).current_branch() == old(repo).current_branch()
            &&& final(repo).pending_merge == old(repo).pending_merge
            &&& final(repo).staged_ours@ == old(repo).staged_ours@
        },
{
    if !add_ok {
        return Err(Error::RemoteAddFailed);
    }
    repo.remote_add(local_remote.clone());
    if !fetch_ok {
        proof {
            assert(repo.remotes@[repo.remotes@.len() - 1]@ == local_remote@);
        }
        repo.remote_remove(&local_remote);
        proof {
            let pushed = old(repo).remotes@.push(local_remote);
            let k = pushed.len() - 1;
            assert(pushed[k]@ == local_remote@);
            let c = choose|i: int| 0 <= i < pushed.len() && pushed[i]@ == local_remote@;
            if c < pushed.len() - 1 {
                assert(pushed[c] == old(repo).remotes@[c]);
                assert(false);
            }
            assert(repo.remotes@ =~= old(repo).remotes@);
        }
        return Err(Error::FetchFailed);
    }
    repo.fetch_branch_create(local_branch);
    Ok(())
}

/// Records the name of the checked-out branch, then checks out the named
/// ephemeral branch; `checkout_ok` is the answer of the checkout command.
/// On success the previous branch's name is returned.  On failure the
/// ephemeral branch and remote are both deleted, so nothing the staging
/// created survives.
pub fn checkout_from_remote(
    repo: &mut Repo,
    branch: &String,
    remote: &String,
    checkout_ok: bool,
) -> (r: Result<String, Error>)
    requires
        old(repo).wf(),
        old(repo).has_branch(branch@),
        old(repo).has_remote(remote@),
        old(repo).current_branch().name@ != branch@,
    ensures
        final(repo).wf(),
        r is Ok <==> checkout_ok,
        checkout_ok ==> (r matches Ok(prev) && prev@ == old(repo).current_branch().name@ && {
            &&& final(repo).branches@ == old(repo).branches@
            &&& final(repo).remotes@ == old(repo).remotes@
            &&& final(repo).current == old(repo).branch_index_of(branch@)
            &&& final(repo).current_branch().name@ == branch@
            &&& final(repo).pending_merge == old(repo).pending_merge
            &&& final(repo).staged_ours@ == old(repo).staged_ours@
        }),
        !checkout_ok ==> r == Err::<String, Error>(Error::CheckoutFailed) && {
            &&& final(repo).branches@ == old(repo).branches@.remove(
                old(repo).branch_index_of(branch@),
            )
            &&& final(repo).remotes@ == old(repo).remotes@.remove(
                old(repo).remote_index_of(remote@),
            )
            &&& final(repo).current_branch() == old(repo).current_branch()
            &&& final(repo).pending_merge == old(repo).pending_merge
            &&& final(repo).staged_ours@ == old(repo).staged_ours@
        },
{
    let current_branch = repo.branches[repo.current].name.clone();
    if checkout_ok {
        repo.checkout(branch);
        Ok(current_branch)
    } else {
        repo.branch_delete(branch);
        repo.remote_remove(remote);
        Err(Error::CheckoutFailed)
    }
}

/// Stages one contribution: adds the ephemeral remote, fetches the requested
/// ref into the ephemeral branch, and checks that branch out.  On success
/// exactly one new remote and one new branch exist and the new branch is
/// checked out; after a failure the repository's remote and branch lists are
/// exactly as they were before the call — no ephemeral object leaks.
pub fn stage(
    repo: &mut Repo,
    local_remote: String,
    local_branch: String,
    remote_remote: &String,
    remote_branch: &String,
    add_ok: bool,
    fetch_ok: bool,
    checkout_ok: bool,
) -> (r: Result<String, Error>)
    requires
        old(repo).wf(),
        !old(repo).has_remote(local_remote@),
        !old(repo).has_branch(local_branch@),
    ensures
        final(repo).wf(),
        r is Ok <==> (add_ok && fetch_ok && checkout_ok),
        !add_ok ==> r == Err::<String, Error>(Error::RemoteAddFailed),
        add_ok && !fetch_ok ==> r == Err::<String, Error>(Error::FetchFailed),
        add_ok && fetch_ok && !checkout_ok ==> r == Err::<String, Error>(Error::CheckoutFailed),
        r is Err ==> final(repo).same_state(*old(repo)),
        r matches Ok(prev) ==> {
            &&& prev@ == old(repo).current_branch().name@
            &&& final(repo).remotes@ == old(repo).remotes@.push(local_remote)
            &&& final(repo).branches@.len() == old(repo).branches@.len() + 1
            &&& (forall|i: int|
                0 <= i < old(repo).branches@.len() ==> final(repo).branches@[i] == old(repo).branches@[i])
            &&& final(repo).branches@.last().name@ == local_branch@
            &&& final(repo).branches@.last().merged@ == Seq::<String>::empty()
            &&& final(repo).current == old(repo).branches@.len()
            &&& final(repo).current_branch().name@ == local_branch@
            &&& final(repo).pending_merge == old(repo).pending_merge
            &&& final(repo).staged_ours@ == old(repo).staged_ours@
        },
{
    let ghost pre = *repo;
    let lb = local_branch.clone();
    let lr = local_remote.clone();
    match add_remote_branch(repo, local_remote, local_branch, remote_remote, remote_branch, add_ok, fetch_ok) {
        Err(e) => Err(e),
        Ok(()) => {
            let ghost staged = *repo;
            proof {
                assert(repo.branches@[repo.branches@.len() - 1].name@ == lb@);
                assert(repo.remotes@[repo.remotes@.len() - 1]@ == lr@);
                assert(pre.branches@[pre.current as int].name@ == pre.current_branch().name@);
                if repo.current_branch().name@ == lb@ {
                    assert(pre.branches@[pre.current as int].name@ == lb@);
                    assert(false);
                }
            }
            let r = checkout_from_remote(repo, &lb, &lr, checkout_ok);
            match r {
                Ok(prev) => {
                    proof {
                        let k = staged.branch_index_of(lb@);
                        assert(staged.branches@[staged.branches@.len() - 1].name@ == lb@);
                        assert(0 <= k < staged.branches@.len() && staged.branches@[k].name@
                            == lb@);
                        if k < staged.branches@.len() - 1 {
                            assert(staged.branches@[k] == pre.branches@[k]);
                            assert(false);
                        }
                        assert(repo.current == staged.branches@.len() - 1);
                    }
                    Ok(prev)
                },
                Err(e) => {
                    proof {
                        // the deleted branch is the one the fetch appended
                        let kb = staged.branch_index_of(lb@);
                        assert(staged.branches@[staged.branches@.len() - 1].name@ == lb@);
                        assert(0 <= kb < staged.branches@.len() && staged.branches@[kb].name@
                            == lb@);
                        if kb < staged.branches@.len() - 1 {
                            assert(staged.branches@[kb] == pre.branches@[kb]);
                            assert(false);
                        }
                        assert(repo.branches@ =~= pre.branches@);
                        // the removed remote is the one the add appended
                        let kr = staged.remote_index_of(lr@);
                        assert(staged.remotes@ == pre.remotes@.push(lr));
                        assert(staged.remotes@[staged.remotes@.len() - 1]@ == lr@);
                        assert(0 <= kr < staged.remotes@.len() && staged.remotes@[kr]@ == lr@);
                        if kr < staged.remotes@.len() - 1 {
                            assert(staged.remotes@[kr] == pre.remotes@[kr]);
                            assert(false);
                        }
                        assert(repo.remotes@ =~= pre.remotes@);
                        assert(repo.current == pre.current);
                    }
                    Err(e)
                },
            }
        },
    }
}

/// Merges the named contribution into the checked-out branch.  `merge_ok`
/// is the answer of the merge command; when it is negative, `conflicted` is
/// the set of conflicted paths the tool reports.  A conflict set confined to
/// the documentation class is resolved by keeping "our" side of every such
/// path and staging it; any other conflict aborts the merge, and the
/// repository is then exactly as it was before the attempt.
pub fn merge_into_main(
    repo: &mut Repo,
    contribution: &String,
    merge_ok: bool,
    conflicted: &Vec<String>,
) -> (r: Result<MergeOutcome, Error>)
    requires
        old(repo).wf(),
        !old(repo).pending_merge,
        old(repo).staged_ours@.len() == 0,
    ensures
        final(repo).wf(),
        final(repo).remotes@ == old(repo).remotes@,
        final(repo).current == old(repo).current,
        final(repo).branches@.len() == old(repo).branches@.len(),
        final(repo).current_branch().name == old(repo).current_branch().name,
        forall|i: int|
            0 <= i < old(repo).branches@.len() && i != old(repo).current as int ==> final(repo).branches@[i] == old(repo).branches@[i],
        merge_ok ==> r == Ok::<MergeOutcome, Error>(MergeOutcome::Clean),
        !merge_ok && all_doc_paths(conflicted@) ==> r == Ok::<MergeOutcome, Error>(
            MergeOutcome::AutoResolved,
        ),
        r is Ok ==> {
            &&& final(repo).current_branch().merged@ == old(repo).current_branch().merged@.push(
                *contribution,
            )
            &&& final(repo).pending_merge
            &&& final(repo).staged_ours@ == (if merge_ok {
                Seq::<String>::empty()
            } else {
                conflicted@
            })
        },
        !merge_ok && !all_doc_paths(conflicted@) ==> (r matches Err(e) && (e matches
            Error::ConflictUnresolved { paths } && paths@ == non_doc_paths(conflicted@))),
        r is Err ==> final(repo).same_state(*old(repo)),
{
    if merge_ok {
        repo.record_merge(contribution.clone());
        return Ok(MergeOutcome::Clean);
    }
    // inspect the whole conflict set before touching anything, so that an
    // abort leaves the repository exactly in its pre-merge-attempt state
    let n = conflicted.len();
    let mut bad: Vec<String> = Vec::new();
    let mut i: usize = 0;
    proof {
        assert(non_doc_paths(conflicted@.take(0)) =~= Seq::<String>::empty());
    }
    while i < n
        invariant
            0 <= i <= n,
            n == conflicted@.len(),
            !merge_ok,
            *repo == *old(repo),
            old(repo).wf(),
            bad@ == non_doc_paths(conflicted@.take(i as int)),
            (bad@.len() == 0) == (forall|j: int| 0 <= j < i ==> is_doc_path(conflicted@[j]@)),
        decreases n - i,
    {
        let ghost pre_bad = bad@;
        if !has_doc_extension(&conflicted[i]) {
            bad.push(conflicted[i].clone());
        }
        proof {
            let taken = conflicted@.take(i + 1);
            assert(taken.drop_last() =~= conflicted@.take(i as int));
            assert(taken.last() == conflicted@[i as int]);
            assert(taken.len() == i + 1);
            assert(non_doc_paths(taken) == if !is_doc_path(conflicted@[i as int]@) {
                non_doc_paths(conflicted@.take(i as int)).push(conflicted@[i as int])
            } else {
                non_doc_paths(conflicted@.take(i as int))
            }) by {
                reveal_with_fuel(Seq::filter, 2);
                assert(taken.drop_last() == conflicted@.take(i as int));
            }
        }
        i += 1;
    }
    proof {
        assert(conflicted@.take(n as int) =~= conflicted@);
    }
    if bad.len() > 0 {
        return Err(Error::ConflictUnresolved { paths: bad });
    }
    // every conflicted path is documentation: keep "our" side of each and
    // stage it, then accept the merge
    let ghost pre = *repo;
    let ghost all = conflicted@;
    let mut k: usize = 0;
    while k < n
        invariant
            0 <= k <= n,
            n == all.len(),
            all == conflicted@,
            pre == *old(repo),
            old(repo).wf(),
            !old(repo).pending_merge,
            old(repo).staged_ours@.len() == 0,
            repo.wf(),
            !repo.pending_merge,
            repo.branches@ == pre.branches@,
            repo.remotes@ == pre.remotes@,
            repo.current == pre.current,
            repo.staged_ours@ == pre.staged_ours@ + all.subrange(0, k as int),
        decreases n - k,
    {
        let p = conflicted[k].clone();
        proof {
            assert(pre.staged_ours@ + all.subrange(0, k as int).push(all[k as int])
                =~= (pre.staged_ours@ + all.subrange(0, k as int)).push(all[k as int]));
            assert(all.subrange(0, k as int).push(all[k as int]) =~= all.subrange(0, k + 1));
        }
        repo.stage_ours(p);
        k += 1;
    }
    proof {
        assert(all.subrange(0, n as int) =~= all);
        assert(pre.staged_ours@ =~= Seq::<String>::empty());
        assert(Seq::<String>::empty() + all =~= all);
    }
    repo.record_merge(contribution.clone());
    Ok(MergeOutcome::AutoResolved)
}

} // verus!
