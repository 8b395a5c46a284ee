use patchy::backup::FileEntry;
use patchy::error::Error;
use patchy::git_commands::MergeOutcome;
use patchy::repo::Branch;
use patchy::repo::Repo;
use patchy::workflow::fetch_pull_request;
use patchy::workflow::fetch_ref_expr;
use patchy::workflow::finalize;
use patchy::workflow::run;
use patchy::workflow::Configuration;
use patchy::workflow::ContributionEvents;
use patchy::workflow::ContributionReport;
use patchy::workflow::FetchOutcome;
use patchy::workflow::FinalizeOutcome;
use patchy::workflow::RunEvents;

fn repo_with_main() -> Repo {
    Repo {
        remotes: vec![],
        branches: vec![Branch { name: "main".to_string(), merged: vec![] }],
        current: 0,
        pending_merge: false,
        staged_ours: vec![],
    }
}

fn config(prs: &[&str], patches: &[&str]) -> Configuration {
    Configuration {
        repo: "owner/name".to_string(),
        pull_requests: prs.iter().map(|s| s.to_string()).collect(),
        patches: patches.iter().map(|s| s.to_string()).collect(),
        local_branch: "main".to_string(),
        remote_branch: "develop".to_string(),
    }
}

fn found(title: &str, url: &str) -> FetchOutcome {
    FetchOutcome::Found { title: title.to_string(), html_url: url.to_string() }
}

fn merged_cleanly(title: &str, url: &str) -> ContributionEvents {
    ContributionEvents {
        fetch: found(title, url),
        ref_fetch_ok: true,
        merge_ok: true,
        conflicted: vec![],
    }
}

fn all_ok(contributions: Vec<ContributionEvents>, n_files: usize) -> RunEvents {
    RunEvents {
        add_ok: true,
        fetch_ok: true,
        checkout_ok: true,
        contributions,
        create_dir_ok: true,
        patch_ok: vec![true; n_files],
    }
}

#[test]
fn fetch_ref_expression_names_the_contribution() {
    assert_eq!(fetch_ref_expr(&"42".to_string()), "refs/pull/42/head");
}

#[test]
fn fetch_maps_every_api_answer() {
    let repo_id = "owner/name".to_string();
    let id = "7".to_string();
    let c = fetch_pull_request(&repo_id, &id, &found("Title", "https://x/7")).unwrap();
    assert_eq!(c.source_repo, "owner/name");
    assert_eq!(c.identifier, "7");
    assert_eq!(c.fetch_ref, "refs/pull/7/head");
    assert_eq!(c.display_title, "Title");
    assert_eq!(c.source_url, "https://x/7");
    assert!(matches!(
        fetch_pull_request(&repo_id, &id, &FetchOutcome::NotFound),
        Err(Error::NotFound)
    ));
    assert!(matches!(
        fetch_pull_request(&repo_id, &id, &FetchOutcome::NetworkFailure),
        Err(Error::NetworkFailure)
    ));
    assert!(matches!(
        fetch_pull_request(&repo_id, &id, &FetchOutcome::MalformedResponse),
        Err(Error::MalformedResponse)
    ));
}

#[test]
fn run_merges_clean_pr_and_auto_resolves_readme_conflict() {
    let mut repo = repo_with_main();
    let cfg = config(&["101", "202"], &[]);
    let dir = vec![FileEntry { name: "config.toml".to_string(), contents: b"c".to_vec() }];
    let events = all_ok(
        vec![
            merged_cleanly("First", "https://x/101"),
            ContributionEvents {
                fetch: found("Second", "https://x/202"),
                ref_fetch_ok: true,
                merge_ok: false,
                conflicted: vec!["README.md".to_string()],
            },
        ],
        dir.len(),
    );
    let result = run(
        &cfg,
        &mut repo,
        &dir,
        "rem-1".to_string(),
        "br-1".to_string(),
        "temp-1".to_string(),
        &events,
    )
    .unwrap();

    assert_eq!(result.previous_branch, "main");
    assert_eq!(result.temporary_branch, "temp-1");
    assert_eq!(result.reports.len(), 2);
    match &result.reports[0] {
        ContributionReport::Merged { identifier, outcome, title, url } => {
            assert_eq!(identifier, "101");
            assert!(matches!(outcome, MergeOutcome::Clean));
            assert_eq!(title, "First");
            assert_eq!(url, "https://x/101");
        },
        other => panic!("expected a merge report, got {:?}", other),
    }
    match &result.reports[1] {
        ContributionReport::Merged { identifier, outcome, .. } => {
            assert_eq!(identifier, "202");
            assert!(matches!(outcome, MergeOutcome::AutoResolved));
        },
        other => panic!("expected an auto-resolved report, got {:?}", other),
    }
    // the final branch carries both contributions, and only the new branch
    // is left behind
    assert!(repo.remotes.is_empty());
    assert_eq!(repo.branches.len(), 2);
    let last = &repo.branches[1];
    assert_eq!(last.name, "temp-1");
    assert_eq!(last.merged, vec!["101".to_string(), "202".to_string()]);
    assert_eq!(repo.current, 1);
    // the configuration files came back byte for byte
    assert_eq!(result.restored.len(), 1);
    assert_eq!(result.restored[0].name, "config.toml");
    assert_eq!(result.restored[0].contents, b"c".to_vec());
}

#[test]
fn run_reports_missing_pr_and_continues() {
    let mut repo = repo_with_main();
    let cfg = config(&["303", "101"], &[]);
    let dir: Vec<FileEntry> = vec![];
    let events = all_ok(
        vec![
            ContributionEvents {
                fetch: FetchOutcome::NotFound,
                ref_fetch_ok: false,
                merge_ok: false,
                conflicted: vec![],
            },
            merged_cleanly("First", "https://x/101"),
        ],
        0,
    );
    let result = run(
        &cfg,
        &mut repo,
        &dir,
        "rem-1".to_string(),
        "br-1".to_string(),
        "temp-1".to_string(),
        &events,
    )
    .unwrap();
    assert_eq!(result.reports.len(), 2);
    match &result.reports[0] {
        ContributionReport::Failed { identifier, error } => {
            assert_eq!(identifier, "303");
            assert!(matches!(error, Error::NotFound));
        },
        other => panic!("expected a failure report, got {:?}", other),
    }
    assert!(matches!(&result.reports[1], ContributionReport::Merged { .. }));
    assert_eq!(repo.branches[1].merged, vec!["101".to_string()]);
}

#[test]
fn run_reports_unresolved_conflict_and_continues() {
    let mut repo = repo_with_main();
    let cfg = config(&["1", "2"], &[]);
    let dir: Vec<FileEntry> = vec![];
    let events = all_ok(
        vec![
            ContributionEvents {
                fetch: found("Big", "https://x/1"),
                ref_fetch_ok: true,
                merge_ok: false,
                conflicted: vec!["docs.md".to_string(), "src/main.rs".to_string()],
            },
            merged_cleanly("Next", "https://x/2"),
        ],
        0,
    );
    let result = run(
        &cfg,
        &mut repo,
        &dir,
        "rem-1".to_string(),
        "br-1".to_string(),
        "temp-1".to_string(),
        &events,
    )
    .unwrap();
    match &result.reports[0] {
        ContributionReport::Failed { error: Error::ConflictUnresolved { paths }, .. } => {
            assert_eq!(paths, &vec!["src/main.rs".to_string()]);
        },
        other => panic!("expected an unresolved conflict report, got {:?}", other),
    }
    assert_eq!(repo.branches[1].merged, vec!["2".to_string()]);
}

#[test]
fn run_reports_failed_ref_fetch_and_records_nothing() {
    let mut repo = repo_with_main();
    let cfg = config(&["9", "10"], &[]);
    let dir: Vec<FileEntry> = vec![];
    let events = all_ok(
        vec![
            ContributionEvents {
                fetch: found("Gone", "https://x/9"),
                ref_fetch_ok: false,
                merge_ok: false,
                conflicted: vec![],
            },
            merged_cleanly("Next", "https://x/10"),
        ],
        0,
    );
    let result = run(
        &cfg,
        &mut repo,
        &dir,
        "rem-1".to_string(),
        "br-1".to_string(),
        "temp-1".to_string(),
        &events,
    )
    .unwrap();
    match &result.reports[0] {
        ContributionReport::Failed { identifier, error } => {
            assert_eq!(identifier, "9");
            assert!(matches!(error, Error::FetchFailed));
        },
        other => panic!("expected a failure report, got {:?}", other),
    }
    // only the second contribution reached the branch
    assert_eq!(repo.branches[1].merged, vec!["10".to_string()]);
}

#[test]
fn run_applies_configured_patches_and_reports_refused_ones() {
    let mut repo = repo_with_main();
    let cfg = config(&[], &["fix", "feature"]);
    let dir = vec![
        FileEntry { name: "config.toml".to_string(), contents: b"c".to_vec() },
        FileEntry { name: "fix.patch".to_string(), contents: b"p1".to_vec() },
        FileEntry { name: "feature.patch".to_string(), contents: b"p2".to_vec() },
        FileEntry { name: "other.patch".to_string(), contents: b"p3".to_vec() },
    ];
    let mut events = all_ok(vec![], dir.len());
    events.patch_ok = vec![true, true, false, true];
    let result = run(
        &cfg,
        &mut repo,
        &dir,
        "rem-1".to_string(),
        "br-1".to_string(),
        "temp-1".to_string(),
        &events,
    )
    .unwrap();
    // "fix" applied, "feature" was refused, "other" is not configured
    assert_eq!(result.applied, vec!["fix".to_string()]);
    assert_eq!(result.failed, vec!["feature".to_string()]);
    assert_eq!(repo.branches[1].merged, vec!["fix".to_string()]);
}

#[test]
fn run_staging_failure_leaves_repository_untouched() {
    let mut repo = repo_with_main();
    let cfg = config(&["101"], &[]);
    let dir: Vec<FileEntry> = vec![];
    let mut events = all_ok(vec![merged_cleanly("T", "u")], 0);
    events.fetch_ok = false;
    let r = run(
        &cfg,
        &mut repo,
        &dir,
        "rem-1".to_string(),
        "br-1".to_string(),
        "temp-1".to_string(),
        &events,
    );
    assert!(matches!(r, Err(Error::FetchFailed)));
    assert!(repo.remotes.is_empty());
    assert_eq!(repo.branches.len(), 1);
    assert_eq!(repo.branches[0].name, "main");
    assert!(repo.branches[0].merged.is_empty());
    assert_eq!(repo.current, 0);
}

#[test]
fn run_rolls_back_when_directory_recreation_fails() {
    let mut repo = repo_with_main();
    let cfg = config(&["101"], &[]);
    let dir = vec![FileEntry { name: "config.toml".to_string(), contents: b"c".to_vec() }];
    let mut events = all_ok(vec![merged_cleanly("T", "u")], dir.len());
    events.create_dir_ok = false;
    let r = run(
        &cfg,
        &mut repo,
        &dir,
        "rem-1".to_string(),
        "br-1".to_string(),
        "temp-1".to_string(),
        &events,
    );
    assert!(matches!(r, Err(Error::StateInvariantViolation)));
    // the compensating rollback removed every ephemeral object again
    assert!(repo.remotes.is_empty());
    assert_eq!(repo.branches.len(), 1);
    assert_eq!(repo.branches[0].name, "main");
    assert_eq!(repo.current, 0);
}

#[test]
fn declined_confirmation_changes_nothing_and_prints_the_exact_command() {
    let mut repo = repo_with_main();
    let cfg = config(&["101"], &[]);
    let dir: Vec<FileEntry> = vec![];
    let events = all_ok(vec![merged_cleanly("T", "u")], 0);
    run(
        &cfg,
        &mut repo,
        &dir,
        "rem-1".to_string(),
        "br-1".to_string(),
        "temp-1".to_string(),
        &events,
    )
    .unwrap();
    let temp = "temp-1".to_string();
    let target = "main".to_string();
    let r = finalize(&mut repo, &temp, &target, false);
    match r {
        FinalizeOutcome::Declined { manual_args } => {
            assert_eq!(
                manual_args,
                vec![
                    "branch".to_string(),
                    "--move".to_string(),
                    "--force".to_string(),
                    "temp-1".to_string(),
                    "main".to_string(),
                ]
            );
        },
        other => panic!("expected a declined outcome, got {:?}", other),
    }
    // the built branch keeps its temporary name, the target is untouched
    assert_eq!(repo.branches.len(), 2);
    assert_eq!(repo.branches[0].name, "main");
    assert!(repo.branches[0].merged.is_empty());
    assert_eq!(repo.branches[1].name, "temp-1");
    assert_eq!(repo.branches[1].merged, vec!["101".to_string()]);
    assert_eq!(repo.current, 1);
}

#[test]
fn confirmed_overwrite_erases_the_target_branch() {
    let mut repo = repo_with_main();
    let cfg = config(&["101"], &[]);
    let dir: Vec<FileEntry> = vec![];
    let events = all_ok(vec![merged_cleanly("T", "u")], 0);
    run(
        &cfg,
        &mut repo,
        &dir,
        "rem-1".to_string(),
        "br-1".to_string(),
        "temp-1".to_string(),
        &events,
    )
    .unwrap();
    let temp = "temp-1".to_string();
    let target = "main".to_string();
    let r = finalize(&mut repo, &temp, &target, true);
    assert!(matches!(r, FinalizeOutcome::Renamed));
    assert_eq!(repo.branches.len(), 1);
    assert_eq!(repo.branches[0].name, "main");
    assert_eq!(repo.branches[0].merged, vec!["101".to_string()]);
}
