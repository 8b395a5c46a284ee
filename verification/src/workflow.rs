//! The workflow orchestrator.
//!
//! One run snapshots the configuration directory, stages the long-lived
//! ephemeral remote/branch pair, merges each configured contribution in
//! order (a failure of one is reported and the loop continues), restores the
//! configuration files, applies the configured patches, moves the result to
//! a fresh branch and tears the ephemeral objects down.  The final,
//! irreversible overwrite of the user's branch is confirmation-gated and
//! happens in [`finalize`].
//!
//! The answers of the outside world — the version-control tool and the
//! contribution API — arrive in a [`RunEvents`] value, so every contract
//! here holds for every combination of answers.

use vstd::prelude::*;
use vstd::string::StringExecFns;

use crate::backup::backup_files;
use crate::backup::entries_match_dir;
use crate::backup::entry_matches_file;
use crate::backup::file_matches_entry;
use crate::backup::logical_of;
use crate::backup::restore_backup;
use crate::backup::FileEntry;
use crate::error::Error;
use crate::git_commands::all_doc_paths;
use crate::git_commands::non_doc_paths;
use crate::git_commands::merge_into_main;
use crate::git_commands::stage;
use crate::git_commands::MergeOutcome;
use crate::repo::Repo;

verus! {

/// The declarative input of one run.
pub struct Configuration {
    /// The `owner/name` identifier of the target repository.
    pub repo: String,
    /// The contribution identifiers to merge, in order.
    pub pull_requests: Vec<String>,
    /// Logical names of local patches to apply after the restore.
    pub patches: Vec<String>,
    /// The branch to overwrite at the very end, after confirmation.
    pub local_branch: String,
    /// The upstream name of the branch holding the ephemeral work.
    pub remote_branch: String,
}

/// What the contribution API answered for one identifier.
#[derive(Debug)]
pub enum FetchOutcome {
    /// The contribution exists; its metadata follows.
    Found { title: String, html_url: String },
    /// No contribution carries the identifier.
    NotFound,
    /// The transport failed.
    NetworkFailure,
    /// The payload could not be decoded into the expected shape.
    MalformedResponse,
}

/// One requested external change, resolved against the contribution API.
pub struct Contribution {
    pub source_repo: String,
    pub identifier: String,
    pub fetch_ref: String,
    pub display_title: String,
    pub source_url: String,
}

/// Everything the outside world answered for one contribution: the API
/// lookup, whether the contribution's ref could be fetched, whether the
/// merge applied cleanly, and the conflicted paths the tool reported when
/// it did not.  The last three are meaningful only when the step before
/// them succeeded.
pub struct ContributionEvents {
    pub fetch: FetchOutcome,
    pub ref_fetch_ok: bool,
    pub merge_ok: bool,
    pub conflicted: Vec<String>,
}

/// The answers of every external operation of one run.
pub struct RunEvents {
    pub add_ok: bool,
    pub fetch_ok: bool,
    pub checkout_ok: bool,
    pub contributions: Vec<ContributionEvents>,
    pub create_dir_ok: bool,
    pub patch_ok: Vec<bool>,
}

/// What one run reports for one contribution.
#[derive(Debug)]
pub enum ContributionReport {
    /// The contribution was merged, cleanly or by the documentation policy.
    Merged { identifier: String, outcome: MergeOutcome, title: String, url: String },
    /// The contribution could not be fetched or merged; the run went on.
    Failed { identifier: String, error: Error },
}

/// What one run returns when it reaches its end: the branch to go back to,
/// the freshly built branch, and what happened to every contribution and
/// patch.
pub struct RunResult {
    pub previous_branch: String,
    pub temporary_branch: String,
    pub reports: Vec<ContributionReport>,
    pub restored: Vec<FileEntry>,
    pub applied: Vec<String>,
    pub failed: Vec<String>,
}

/// The ref expression under which a numeric contribution is fetchable.
pub open spec fn fetch_ref_view(id: Seq<char>) -> Seq<char> {
    "refs/pull/"@ + id + "/head"@
}

/// Builds the ref expression for one contribution identifier.
pub fn fetch_ref_expr(id: &String) -> (r: String)
    ensures
        r@ == fetch_ref_view(id@),
{
    let mut s = String::from_str("refs/pull/");
    s.append(id.as_str());
    s.append("/head");
    proof {
        assert(("refs/pull/"@ + id@) + "/head"@ =~= "refs/pull/"@ + id@ + "/head"@);
    }
    s
}

/// The views of a list of names.
pub open spec fn views_of(ss: Seq<String>) -> Seq<Seq<char>> {
    ss.map_values(|s: String| s@)
}

/// The event answers make this contribution merge: it was found, its ref
/// could be fetched, and the merge either applied cleanly or every conflict
/// fell to the documentation policy.
pub open spec fn contribution_merges(ev: ContributionEvents) -> bool {
    ev.fetch matches FetchOutcome::Found { .. } && ev.ref_fetch_ok && (ev.merge_ok
        || all_doc_paths(ev.conflicted@))
}

/// The report one run owes for one contribution, given what the outside
/// world answered: exactly one report per identifier, success and failure
/// alike; an unresolved conflict carries every path outside the
/// documentation class.
pub open spec fn report_matches(rep: ContributionReport, id: String, ev: ContributionEvents) -> bool {
    match ev.fetch {
        FetchOutcome::Found { title, html_url } => if !ev.ref_fetch_ok {
            rep == (ContributionReport::Failed { identifier: id, error: Error::FetchFailed })
        } else if ev.merge_ok {
            rep == (ContributionReport::Merged {
                identifier: id,
                outcome: MergeOutcome::Clean,
                title,
                url: html_url,
            })
        } else if all_doc_paths(ev.conflicted@) {
            rep == (ContributionReport::Merged {
                identifier: id,
                outcome: MergeOutcome::AutoResolved,
                title,
                url: html_url,
            })
        } else {
            rep matches ContributionReport::Failed { identifier, error } && identifier == id
                && (error matches Error::ConflictUnresolved { paths } && paths@ == non_doc_paths(
                ev.conflicted@,
            ))
        },
        FetchOutcome::NotFound => rep == (ContributionReport::Failed {
            identifier: id,
            error: Error::NotFound,
        }),
        FetchOutcome::NetworkFailure => rep == (ContributionReport::Failed {
            identifier: id,
            error: Error::NetworkFailure,
        }),
        FetchOutcome::MalformedResponse => rep == (ContributionReport::Failed {
            identifier: id,
            error: Error::MalformedResponse,
        }),
    }
}

/// The identifiers (by name) that the contribution loop records on the work
/// branch, in order: exactly those whose events make them merge.
pub open spec fn merged_id_views(ids: Seq<String>, evs: Seq<ContributionEvents>) -> Seq<Seq<char>>
    decreases ids.len(),
{
    if ids.len() == 0 || ids.len() != evs.len() {
        Seq::empty()
    } else {
        let prev = merged_id_views(ids.drop_last(), evs.drop_last());
        if contribution_merges(evs.last()) {
            prev.push(ids.last()@)
        } else {
            prev
        }
    }
}

/// The logical name is one of the configured patch names.
pub open spec fn pat_in(patches: Seq<String>, l: Seq<char>) -> bool {
    exists|i: int| 0 <= i < patches.len() && patches[i]@ == l
}

/// The logical names (in directory order) of the snapshotted files that are
/// configured as patches and whose application the tool accepted.
pub open spec fn applied_patch_views(
    dir: Seq<FileEntry>,
    patches: Seq<String>,
    oks: Seq<bool>,
) -> Seq<Seq<char>>
    decreases dir.len(),
{
    if dir.len() == 0 || dir.len() != oks.len() {
        Seq::empty()
    } else {
        let prev = applied_patch_views(dir.drop_last(), patches, oks.drop_last());
        match logical_of(dir.last().name@) {
            Some(l) => if pat_in(patches, l) && oks.last() {
                prev.push(l)
            } else {
                prev
            },
            None => prev,
        }
    }
}

/// The logical names (in directory order) of the snapshotted files that are
/// configured as patches and whose application the tool refused; each is
/// reported and the run goes on.
pub open spec fn failed_patch_views(
    dir: Seq<FileEntry>,
    patches: Seq<String>,
    oks: Seq<bool>,
) -> Seq<Seq<char>>
    decreases dir.len(),
{
    if dir.len() == 0 || dir.len() != oks.len() {
        Seq::empty()
    } else {
        let prev = failed_patch_views(dir.drop_last(), patches, oks.drop_last());
        match logical_of(dir.last().name@) {
            Some(l) => if pat_in(patches, l) && !oks.last() {
                prev.push(l)
            } else {
                prev
            },
            None => prev,
        }
    }
}

/// Whether the logical name stands in the configured patch list.
pub fn name_in_list(patches: &Vec<String>, l: &String) -> (r: bool)
    ensures
        r == pat_in(patches@, l@),
{
    let n = patches.len();
    let mut i: usize = 0;
    while i < n
        invariant
            0 <= i <= n,
            n == patches@.len(),
            forall|j: int| 0 <= j < i ==> patches@[j]@ != l@,
        decreases n - i,
    {
        if patches[i].eq(l) {
            return true;
        }
        i += 1;
    }
    false
}

/// Maps one answer of the contribution API into a resolved contribution, or
/// into the error class the run reports for it: `NotFound` when the
/// identifier does not resolve, `NetworkFailure` for transport failures,
/// `MalformedResponse` when the payload could not be decoded.  The resolved
/// contribution carries the ref expression under which the change can be
/// fetched.
pub fn fetch_pull_request(repo_id: &String, id: &String, outcome: &FetchOutcome) -> (r: Result<
    Contribution,
    Error,
>)
    ensures
        r is Ok <==> outcome matches FetchOutcome::Found { .. },
        outcome matches FetchOutcome::Found { title, html_url } ==> (r matches Ok(c) && {
            &&& c.source_repo == *repo_id
            &&& c.identifier == *id
            &&& c.fetch_ref@ == fetch_ref_view(id@)
            &&& c.display_title == title
            &&& c.source_url == html_url
        }),
        outcome is NotFound ==> r == Err::<Contribution, Error>(Error::NotFound),
        outcome is NetworkFailure ==> r == Err::<Contribution, Error>(Error::NetworkFailure),
        outcome is MalformedResponse ==> r == Err::<Contribution, Error>(
            Error::MalformedResponse,
        ),
{
    match outcome {
        FetchOutcome::Found { title, html_url } => Ok(
            Contribution {
                source_repo: repo_id.clone(),
                identifier: id.clone(),
                fetch_ref: fetch_ref_expr(id),
                display_title: title.clone(),
                source_url: html_url.clone(),
            },
        ),
        FetchOutcome::NotFound => Err(Error::NotFound),
        FetchOutcome::NetworkFailure => Err(Error::NetworkFailure),
        FetchOutcome::MalformedResponse => Err(Error::MalformedResponse),
    }
}

/// Runs the whole workflow: snapshots the configuration directory, stages
/// the ephemeral remote/branch pair, merges every configured contribution in
/// the configured order — one contribution's failure is reported and the
/// loop goes on —, restores the configuration files, applies the configured
/// patches, moves the result onto a fresh branch and tears both ephemeral
/// objects down again.  On a staging failure, and on a failure to recreate
/// the configuration directory (after the compensating rollback), the
/// repository is left exactly as it was.  The confirmation-gated overwrite
/// of the user's branch is *not* part of the run; see [`finalize`].
///
/// `local_remote`, `local_branch` and `temporary_branch` are the ephemeral
/// names, generated by the caller with a uniqueness suffix so that they
/// collide with nothing in the repository.
pub fn run(
    config: &Configuration,
    repo: &mut Repo,
    dir: &Vec<FileEntry>,
    local_remote: String,
    local_branch: String,
    temporary_branch: String,
    events: &RunEvents,
) -> (r: Result<RunResult, Error>)
    requires
        old(repo).wf(),
        !old(repo).pending_merge,
        old(repo).staged_ours@.len() == 0,
        !old(repo).has_remote(local_remote@),
        !old(repo).has_branch(local_branch@),
        !old(repo).has_branch(temporary_branch@),
        local_branch@ != temporary_branch@,
        events.contributions@.len() == config.pull_requests@.len(),
        events.patch_ok@.len() == dir@.len(),
    ensures
        final(repo).wf(),
        r is Ok <==> (events.add_ok && events.fetch_ok && events.checkout_ok
            && events.create_dir_ok),
        r is Err ==> final(repo).same_state(*old(repo)),
        !events.add_ok ==> r == Err::<RunResult, Error>(Error::RemoteAddFailed),
        events.add_ok && !events.fetch_ok ==> r == Err::<RunResult, Error>(Error::FetchFailed),
        events.add_ok && events.fetch_ok && !events.checkout_ok ==> r == Err::<RunResult, Error>(
            Error::CheckoutFailed,
        ),
        events.add_ok && events.fetch_ok && events.checkout_ok && !events.create_dir_ok ==> r
            == Err::<RunResult, Error>(Error::StateInvariantViolation),
        r matches Ok(result) ==> {
            &&& result.previous_branch@ == old(repo).current_branch().name@
            &&& result.temporary_branch@ == temporary_branch@
            &&& result.reports@.len() == config.pull_requests@.len()
            &&& (forall|i: int|
                0 <= i < result.reports@.len() ==> report_matches(
                    result.reports@[i],
                    config.pull_requests@[i],
                    events.contributions@[i],
                ))
            &&& result.restored@.len() == dir@.len()
            &&& (forall|i: int|
                0 <= i < dir@.len() ==> result.restored@[i].name@ == dir@[i].name@
                    && result.restored@[i].contents@ == dir@[i].contents@)
            &&& views_of(result.applied@) == applied_patch_views(
                dir@,
                config.patches@,
                events.patch_ok@,
            )
            &&& views_of(result.failed@) == failed_patch_views(
                dir@,
                config.patches@,
                events.patch_ok@,
            )
            &&& final(repo).remotes@ == old(repo).remotes@
            &&& final(repo).branches@.len() == old(repo).branches@.len() + 1
            &&& (forall|i: int|
                0 <= i < old(repo).branches@.len() ==> final(repo).branches@[i] == old(
                    repo,
                ).branches@[i])
            &&& final(repo).branches@.last().name@ == temporary_branch@
            &&& views_of(final(repo).branches@.last().merged@) == merged_id_views(
                config.pull_requests@,
                events.contributions@,
            ) + applied_patch_views(dir@, config.patches@, events.patch_ok@)
            &&& final(repo).current == old(repo).branches@.len()
            &&& final(repo).current_branch().name@ == temporary_branch@
            &&& !final(repo).pending_merge
            &&& final(repo).staged_ours@.len() == 0
        },
{
    // snapshot every configuration file before anything mutates the tree
    let entries = backup_files(dir);

    let prev = match stage(
        repo,
        local_remote.clone(),
        local_branch.clone(),
        &config.repo,
        &config.remote_branch,
        events.add_ok,
        events.fetch_ok,
        events.checkout_ok,
    ) {
        Ok(p) => p,
        Err(e) => {
            return Err(e);
        },
    };
    let ghost st = *repo;
    let m = config.pull_requests.len();
    let mut reports: Vec<ContributionReport> = Vec::new();
    proof {
        assert(st.staged_ours@ =~= Seq::<String>::empty());
        assert(merged_id_views(
            config.pull_requests@.take(0),
            events.contributions@.take(0),
        ) =~= Seq::<Seq<char>>::empty());
        assert(views_of(st.current_branch().merged@) =~= Seq::<Seq<char>>::empty());
    }
    let mut i: usize = 0;
    while i < m
        invariant
            0 <= i <= m,
            m == config.pull_requests@.len(),
            m == events.contributions@.len(),
            repo.wf(),
            !repo.pending_merge,
            repo.staged_ours@ == Seq::<String>::empty(),
            repo.remotes@ == st.remotes@,
            repo.branches@.len() == st.branches@.len(),
            forall|j: int|
                0 <= j < st.branches@.len() && j != st.current as int ==> repo.branches@[j]
                    == st.branches@[j],
            repo.current == st.current,
            st.current < st.branches@.len(),
            repo.current_branch().name == st.current_branch().name,
            views_of(repo.current_branch().merged@) == merged_id_views(
                config.pull_requests@.take(i as int),
                events.contributions@.take(i as int),
            ),
            reports@.len() == i,
            forall|j: int|
                0 <= j < i ==> report_matches(
                    reports@[j],
                    config.pull_requests@[j],
                    events.contributions@[j],
                ),
        decreases m - i,
    {
        let id = &config.pull_requests[i];
        let ev = &events.contributions[i];
        let ghost pre_merged = repo.current_branch().merged@;
        match fetch_pull_request(&config.repo, id, &ev.fetch) {
            Ok(c) => {
                if !ev.ref_fetch_ok {
                    // the lookup succeeded but the ref could not be fetched:
                    // nothing was merged, the run goes on
                    reports.push(
                        ContributionReport::Failed {
                            identifier: id.clone(),
                            error: Error::FetchFailed,
                        },
                    );
                } else {
                    match merge_into_main(repo, id, ev.merge_ok, &ev.conflicted) {
                    Ok(outcome) => {
                        repo.commit();
                        reports.push(
                            ContributionReport::Merged {
                                identifier: id.clone(),
                                outcome,
                                title: c.display_title,
                                url: c.source_url,
                            },
                        );
                        proof {
                            assert(views_of(
                                pre_merged.push(config.pull_requests@[i as int]),
                            ) =~= views_of(pre_merged).push(config.pull_requests@[i as int]@));
                        }
                    },
                        Err(e) => {
                            reports.push(
                                ContributionReport::Failed { identifier: id.clone(), error: e },
                            );
                        },
                    }
                }
            },
            Err(e) => {
                reports.push(ContributionReport::Failed { identifier: id.clone(), error: e });
            },
        }
        proof {
            let ids = config.pull_requests@;
            let evs = events.contributions@;
            assert(ids.take(i + 1).drop_last() =~= ids.take(i as int));
            assert(evs.take(i + 1).drop_last() =~= evs.take(i as int));
            assert(ids.take(i + 1).last() == ids[i as int]);
            assert(evs.take(i + 1).last() == evs[i as int]);
            assert(report_matches(reports@[i as int], ids[i as int], evs[i as int]));
        }
        i += 1;
    }
    let ghost am = *repo;
    proof {
        assert(config.pull_requests@.take(m as int) =~= config.pull_requests@);
        assert(events.contributions@.take(m as int) =~= events.contributions@);
    }
    if !events.create_dir_ok {
        // the directory could not be recreated after the branch switch: run
        // the compensating rollback — previous branch back, ephemeral remote
        // and branch removed — before surfacing the failure
        proof {
            assert(repo.branches@[old(repo).current as int] == old(repo).branches@[old(
                repo,
            ).current as int]);
            repo.lemma_branch_index_unique(prev@, old(repo).current as int);
        }
        repo.checkout(&prev);
        proof {
            assert(repo.branches@[st.current as int].name@ == local_branch@);
            if repo.current_branch().name@ == local_branch@ {
                assert(old(repo).branches@[old(repo).current as int].name@ == local_branch@);
                assert(false);
            }
            repo.lemma_branch_index_unique(local_branch@, st.current as int);
        }
        repo.branch_delete(&local_branch);
        proof {
            assert(repo.branches@ =~= old(repo).branches@);
            assert(repo.remotes@[st.remotes@.len() - 1]@ == local_remote@);
            repo.lemma_remote_index_unique(local_remote@, st.remotes@.len() - 1);
        }
        repo.remote_remove(&local_remote);
        proof {
            assert(repo.remotes@ =~= old(repo).remotes@);
            assert(repo.staged_ours@ =~= old(repo).staged_ours@);
        }
        return Err(Error::StateInvariantViolation);
    }
    // the directory is recreated: replay the snapshot into it
    let mut restored: Vec<FileEntry> = Vec::new();
    restore_backup(&entries, &mut restored);
    proof {
        assert forall|j: int|
            0 <= j < dir@.len() implies restored@[j].name@ == dir@[j].name@
            && restored@[j].contents@ == dir@[j].contents@ by {
            assert(entry_matches_file(entries@[j], dir@[j]));
            assert(file_matches_entry(restored@[j], entries@[j]));
        }
    }
    // apply every configured patch among the restored files; a refused patch
    // is reported and the run goes on
    let n_entries = entries.len();
    let mut applied: Vec<String> = Vec::new();
    let mut failed: Vec<String> = Vec::new();
    let ghost base = repo.current_branch().merged@;
    proof {
        assert(applied_patch_views(
            dir@.take(0),
            config.patches@,
            events.patch_ok@.take(0),
        ) =~= Seq::<Seq<char>>::empty());
        assert(failed_patch_views(
            dir@.take(0),
            config.patches@,
            events.patch_ok@.take(0),
        ) =~= Seq::<Seq<char>>::empty());
        assert(views_of(Seq::<String>::empty()) =~= Seq::<Seq<char>>::empty());
        assert(views_of(base) + Seq::<Seq<char>>::empty() =~= views_of(base));
    }
    let mut k: usize = 0;
    while k < n_entries
        invariant
            0 <= k <= n_entries,
            n_entries == entries@.len(),
            n_entries == dir@.len(),
            n_entries == events.patch_ok@.len(),
            entries_match_dir(entries@, dir@),
            repo.wf(),
            !repo.pending_merge,
            repo.staged_ours@ == Seq::<String>::empty(),
            repo.remotes@ == am.remotes@,
            repo.branches@.len() == am.branches@.len(),
            forall|j: int|
                0 <= j < am.branches@.len() && j != am.current as int ==> repo.branches@[j]
                    == am.branches@[j],
            repo.current == am.current,
            am.current < am.branches@.len(),
            repo.current_branch().name == am.current_branch().name,
            views_of(repo.current_branch().merged@) == views_of(base) + applied_patch_views(
                dir@.take(k as int),
                config.patches@,
                events.patch_ok@.take(k as int),
            ),
            views_of(applied@) == applied_patch_views(
                dir@.take(k as int),
                config.patches@,
                events.patch_ok@.take(k as int),
            ),
            views_of(failed@) == failed_patch_views(
                dir@.take(k as int),
                config.patches@,
                events.patch_ok@.take(k as int),
            ),
        decreases n_entries - k,
    {
        let e = &entries[k];
        let ghost pre_merged = repo.current_branch().merged@;
        let ghost pre_applied = applied@;
        let ghost pre_failed = failed@;
        proof {
            assert(entry_matches_file(entries@[k as int], dir@[k as int]));
        }
        match &e.logical {
            Some(l) => {
                if name_in_list(&config.patches, l) {
                    if events.patch_ok[k] {
                        repo.record_merge(l.clone());
                        repo.commit();
                        applied.push(l.clone());
                        proof {
                            assert(views_of(pre_merged.push(*l)) =~= views_of(pre_merged).push(
                                l@,
                            ));
                            assert(views_of(pre_applied.push(*l)) =~= views_of(pre_applied).push(
                                l@,
                            ));
                        }
                    } else {
                        failed.push(l.clone());
                        proof {
                            assert(views_of(pre_failed.push(*l)) =~= views_of(pre_failed).push(
                                l@,
                            ));
                        }
                    }
                }
            },
            None => {},
        }
        proof {
            assert(dir@.take(k + 1).drop_last() =~= dir@.take(k as int));
            assert(events.patch_ok@.take(k + 1).drop_last() =~= events.patch_ok@.take(k as int));
            assert(dir@.take(k + 1).last() == dir@[k as int]);
            assert(events.patch_ok@.take(k + 1).last() == events.patch_ok@[k as int]);
        }
        k += 1;
    }
    proof {
        assert(dir@.take(n_entries as int) =~= dir@);
        assert(events.patch_ok@.take(n_entries as int) =~= events.patch_ok@);
    }
    // move the merged result onto a fresh branch, then remove both ephemeral
    // objects: the new branch is the run's only residue
    proof {
        assert(!repo.has_branch(temporary_branch@)) by {
            if repo.has_branch(temporary_branch@) {
                let j = choose|j: int|
                    0 <= j < repo.branches@.len() && repo.branches@[j].name@
                        == temporary_branch@;
                if j == st.current as int {
                    assert(repo.current_branch().name@ == local_branch@);
                } else {
                    assert(repo.branches@[j] == st.branches@[j]);
                    assert(st.branches@[j] == old(repo).branches@[j]);
                    assert(old(repo).has_branch(temporary_branch@));
                }
            }
        }
    }
    repo.switch_create(temporary_branch.clone());
    proof {
        assert(repo.remotes@[st.remotes@.len() - 1]@ == local_remote@);
        repo.lemma_remote_index_unique(local_remote@, st.remotes@.len() - 1);
    }
    repo.remote_remove(&local_remote);
    proof {
        assert(repo.remotes@ =~= old(repo).remotes@);
        assert(repo.branches@[st.current as int].name@ == local_branch@);
        if repo.current_branch().name@ == local_branch@ {
            assert(false);
        }
        repo.lemma_branch_index_unique(local_branch@, st.current as int);
    }
    repo.branch_delete(&local_branch);
    proof {
        assert(repo.branches@.len() == old(repo).branches@.len() + 1);
        assert(forall|j: int|
            0 <= j < old(repo).branches@.len() ==> repo.branches@[j] == old(repo).branches@[j]);
        assert(repo.current == old(repo).branches@.len());
        assert(views_of(repo.current_branch().merged@) == merged_id_views(
            config.pull_requests@,
            events.contributions@,
        ) + applied_patch_views(dir@, config.patches@, events.patch_ok@));
    }
    Ok(
        RunResult {
            previous_branch: prev,
            temporary_branch,
            reports,
            restored,
            applied,
            failed,
        },
    )
}

/// What the confirmation-gated overwrite did.
#[derive(Debug)]
pub enum FinalizeOutcome {
    /// The user confirmed: the target branch was overwritten with the
    /// freshly built branch.
    Renamed,
    /// The user declined: nothing changed, and `manual_args` is the exact
    /// argument vector of the rename that would have occurred, so it can be
    /// run by hand later.
    Declined { manual_args: Vec<String> },
}

/// The argument vector of the guarded overwrite: a forced rename of the
/// freshly built branch onto the target branch.
pub open spec fn rename_command_views(temp: Seq<char>, target: Seq<char>) -> Seq<Seq<char>> {
    seq!["branch"@, "--move"@, "--force"@, temp, target]
}

/// The final, guarded overwrite.  With confirmation, the freshly built
/// branch (the one checked out) is forcefully renamed onto the user's
/// target branch, erasing whatever that branch held; every other branch and
/// every remote is untouched.  Without confirmation nothing changes at all:
/// the built branch keeps its temporary name, the target branch stays as it
/// is, and the returned argument vector reproduces exactly the rename that
/// would have occurred.
pub fn finalize(
    repo: &mut Repo,
    temporary_branch: &String,
    local_branch: &String,
    confirmed: bool,
) -> (r: FinalizeOutcome)
    requires
        old(repo).wf(),
        old(repo).current_branch().name@ == temporary_branch@,
        temporary_branch@ != local_branch@,
    ensures
        final(repo).wf(),
        !confirmed ==> final(repo).same_state(*old(repo)),
        !confirmed ==> (r matches FinalizeOutcome::Declined { manual_args } && views_of(
            manual_args@,
        ) == rename_command_views(temporary_branch@, local_branch@)),
        confirmed ==> r == FinalizeOutcome::Renamed && {
            &&& final(repo).current_branch().name@ == local_branch@
            &&& final(repo).current_branch().merged == old(repo).current_branch().merged
            &&& final(repo).has_branch(local_branch@)
            &&& !final(repo).has_branch(temporary_branch@)
            &&& final(repo).remotes@ == old(repo).remotes@
            &&& final(repo).pending_merge == old(repo).pending_merge
            &&& final(repo).staged_ours@ == old(repo).staged_ours@
            &&& (forall|n: Seq<char>|
                n != temporary_branch@ && n != local_branch@ ==> final(repo).has_branch(n)
                    == old(repo).has_branch(n))
        },
{
    if confirmed {
        let existing = repo.find_branch(local_branch);
        match existing {
            Some(j) => {
                proof {
                    repo.lemma_branch_index_unique(local_branch@, j as int);
                }
                repo.branch_delete(local_branch);
                proof {
                    let pre = old(repo).branches@;
                    assert(!repo.has_branch(local_branch@)) by {
                        if repo.has_branch(local_branch@) {
                            let i = choose|i: int|
                                0 <= i < repo.branches@.len() && repo.branches@[i].name@
                                    == local_branch@;
                            if i < j as int {
                                assert(repo.branches@[i] == pre[i]);
                                assert(pre[i].name@ != pre[j as int].name@);
                            } else {
                                assert(repo.branches@[i] == pre[i + 1]);
                                assert(pre[j as int].name@ != pre[i + 1].name@);
                            }
                        }
                    }
                }
            },
            None => {},
        }
        let ghost mid = *repo;
        repo.rename_current(local_branch.clone());
        proof {
            assert(repo.has_branch(local_branch@)) by {
                assert(repo.branches@[repo.current as int].name@ == local_branch@);
            }
            assert(!repo.has_branch(temporary_branch@)) by {
                if repo.has_branch(temporary_branch@) {
                    let i = choose|i: int|
                        0 <= i < repo.branches@.len() && repo.branches@[i].name@
                            == temporary_branch@;
                    if i == repo.current as int {
                        assert(repo.branches@[i].name@ == local_branch@);
                    } else {
                        assert(repo.branches@[i] == mid.branches@[i]);
                        assert(mid.branches@[mid.current as int].name@ == temporary_branch@);
                        assert(mid.branches@[i].name@ != mid.branches@[mid.current as int].name@
                            || i == mid.current as int);
                    }
                }
            }
            // every branch under another name survives the overwrite
            assert forall|n: Seq<char>|
                n != temporary_branch@ && n != local_branch@ implies repo.has_branch(n) == old(
                repo,
            ).has_branch(n) by {
                if repo.has_branch(n) {
                    let i = choose|i: int|
                        0 <= i < repo.branches@.len() && repo.branches@[i].name@ == n;
                    assert(i != repo.current as int);
                    assert(repo.branches@[i] == mid.branches@[i]);
                    if mid.branches@.len() == old(repo).branches@.len() {
                        assert(mid.branches@[i] == old(repo).branches@[i]);
                        assert(old(repo).has_branch(n));
                    } else {
                        let bi = old(repo).branch_index_of(local_branch@);
                        if i < bi {
                            assert(mid.branches@[i] == old(repo).branches@[i]);
                            assert(old(repo).has_branch(n));
                        } else {
                            assert(mid.branches@[i] == old(repo).branches@[i + 1]);
                            assert(old(repo).has_branch(n));
                        }
                    }
                }
                if old(repo).has_branch(n) {
                    let i = choose|i: int|
                        0 <= i < old(repo).branches@.len() && old(repo).branches@[i].name@ == n;
                    assert(i != old(repo).current as int);
                    if mid.branches@.len() == old(repo).branches@.len() {
                        assert(mid.branches@[i] == old(repo).branches@[i]);
                        assert(i != mid.current as int) by {
                            assert(mid.branches@[mid.current as int].name@ == temporary_branch@);
                        }
                        assert(repo.branches@[i] == mid.branches@[i]);
                        assert(repo.has_branch(n));
                    } else {
                        let bi = old(repo).branch_index_of(local_branch@);
                        assert(i != bi) by {
                            assert(old(repo).branches@[bi].name@ == local_branch@);
                        }
                        let j = if i < bi { i } else { i - 1 };
                        assert(mid.branches@[j] == old(repo).branches@[i]);
                        assert(j != mid.current as int) by {
                            assert(mid.branches@[mid.current as int].name@ == temporary_branch@);
                        }
                        assert(repo.branches@[j] == mid.branches@[j]);
                        assert(repo.has_branch(n));
                    }
                }
            }
        }
        FinalizeOutcome::Renamed
    } else {
        let mut manual_args: Vec<String> = Vec::new();
        manual_args.push(String::from_str("branch"));
        manual_args.push(String::from_str("--move"));
        manual_args.push(String::from_str("--force"));
        manual_args.push(temporary_branch.clone());
        manual_args.push(local_branch.clone());
        proof {
            assert(views_of(manual_args@) =~= rename_command_views(
                temporary_branch@,
                local_branch@,
            ));
        }
        FinalizeOutcome::Declined { manual_args }
    }
}

/// Repeating the fetch-and-merge loop over contributions that no longer
/// merge records nothing: when every event of a run reports a failure — the
/// contribution cannot be fetched, or its merge is refused with a conflict
/// outside the documentation class — the loop adds nothing to the work
/// branch, whatever the identifiers.  Together with [`run`]'s contract
/// (every failure is reported per contribution, and the checked-out branch,
/// the branch list and the remote list are pinned exactly), a second run
/// over an already-merged contribution yields its reported failure and
/// never corrupts the working branch.
pub proof fn lemma_failed_contributions_record_nothing(
    ids: Seq<String>,
    evs: Seq<ContributionEvents>,
)
    requires
        ids.len() == evs.len(),
        forall|i: int| 0 <= i < evs.len() ==> !contribution_merges(evs[i]),
    ensures
        merged_id_views(ids, evs) == Seq::<Seq<char>>::empty(),
    decreases ids.len(),
{
    if ids.len() == 0 {
        assert(merged_id_views(ids, evs) =~= Seq::<Seq<char>>::empty());
    } else {
        assert(!contribution_merges(evs[evs.len() - 1]));
        lemma_failed_contributions_record_nothing(ids.drop_last(), evs.drop_last());
    }
}

} // verus!
