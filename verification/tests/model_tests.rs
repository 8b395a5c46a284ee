use patchy::backup::backup_files;
use patchy::backup::derive_logical;
use patchy::backup::restore_backup;
use patchy::backup::FileEntry;
use patchy::error::Error;
use patchy::executor::get_git_output;
use patchy::flags::extract_value_from_flag;
use patchy::flags::is_valid_flag;
use patchy::flags::Flag;
use patchy::gen_patch::patch_file_name;
use patchy::git_commands::add_remote_branch;
use patchy::git_commands::checkout_from_remote;
use patchy::git_commands::merge_into_main;
use patchy::git_commands::stage;
use patchy::git_commands::MergeOutcome;
use patchy::repo::Branch;
use patchy::repo::Repo;

fn fresh_repo() -> Repo {
    Repo {
        remotes: vec![],
        branches: vec![Branch { name: "main".to_string(), merged: vec![] }],
        current: 0,
        pending_merge: false,
        staged_ours: vec![],
    }
}

fn branch_names(repo: &Repo) -> Vec<String> {
    repo.branches.iter().map(|b| b.name.clone()).collect()
}

#[test]
fn extract_value_long_and_short() {
    let my_flag = Flag { short: "-r=", long: "--remote-name=" };
    assert_eq!(extract_value_from_flag("--remote-name=abc", &my_flag), Some("abc".to_string()));
    assert_eq!(extract_value_from_flag("-r=abcdefg", &my_flag), Some("abcdefg".to_string()));
    assert_eq!(extract_value_from_flag("-m=abcdefg", &my_flag), None);
}

#[test]
fn extract_value_empty_assignment() {
    let my_flag = Flag { short: "-n=", long: "--patch-filename=" };
    assert_eq!(extract_value_from_flag("--patch-filename=", &my_flag), Some(String::new()));
}

#[test]
fn command_output_trims_trailing_whitespace() {
    let r = get_git_output(true, b"main\n".to_vec(), vec![], vec![]);
    assert_eq!(r.unwrap(), b"main".to_vec());
    let r = get_git_output(true, b"a b\t\r\n \n".to_vec(), vec![], vec![]);
    assert_eq!(r.unwrap(), b"a b".to_vec());
    // vertical tab and form feed are whitespace too
    let r = get_git_output(true, b"f\x0c\x0b".to_vec(), vec![], vec![]);
    assert_eq!(r.unwrap(), b"f".to_vec());
    let r = get_git_output(true, b"  inner  kept".to_vec(), vec![], vec![]);
    assert_eq!(r.unwrap(), b"  inner  kept".to_vec());
}

#[test]
fn flags_outside_the_known_set_are_invalid() {
    let flags = vec![
        Flag { short: "-n=", long: "--patch-filename=" },
        Flag { short: "-h", long: "--help" },
    ];
    assert!(is_valid_flag("--patch-filename=fix", &flags));
    assert!(is_valid_flag("-n=fix", &flags));
    assert!(is_valid_flag("--help", &flags));
    assert!(!is_valid_flag("-x", &flags));
    assert!(!is_valid_flag("--unknown", &flags));
}

#[test]
fn command_failure_keeps_full_diagnostics() {
    let args = vec!["merge".to_string(), "--abort".to_string()];
    let r = get_git_output(false, b"out".to_vec(), b"err".to_vec(), args.clone());
    let f = r.err().unwrap();
    assert_eq!(f.args, args);
    assert_eq!(f.stdout, b"out".to_vec());
    assert_eq!(f.stderr, b"err".to_vec());
}

#[test]
fn stage_success_creates_exactly_one_remote_and_branch() {
    let mut repo = fresh_repo();
    let url = "https://github.com/owner/name.git".to_string();
    let upstream = "develop".to_string();
    let prev = stage(
        &mut repo,
        "rem-1".to_string(),
        "br-1".to_string(),
        &url,
        &upstream,
        true,
        true,
        true,
    )
    .unwrap();
    assert_eq!(prev, "main");
    assert_eq!(repo.remotes, vec!["rem-1".to_string()]);
    assert_eq!(branch_names(&repo), vec!["main".to_string(), "br-1".to_string()]);
    assert_eq!(repo.branches[repo.current].name, "br-1");
}

#[test]
fn stage_failure_leaks_nothing_when_fetch_fails() {
    let mut repo = fresh_repo();
    let url = "u".to_string();
    let upstream = "develop".to_string();
    let r = stage(&mut repo, "rem-1".to_string(), "br-1".to_string(), &url, &upstream, true, false, true);
    assert!(matches!(r, Err(Error::FetchFailed)));
    assert!(repo.remotes.is_empty());
    assert_eq!(branch_names(&repo), vec!["main".to_string()]);
    assert_eq!(repo.current, 0);
}

#[test]
fn stage_failure_leaks_nothing_when_checkout_fails() {
    let mut repo = fresh_repo();
    let url = "u".to_string();
    let upstream = "develop".to_string();
    let r = stage(&mut repo, "rem-1".to_string(), "br-1".to_string(), &url, &upstream, true, true, false);
    assert!(matches!(r, Err(Error::CheckoutFailed)));
    assert!(repo.remotes.is_empty());
    assert_eq!(branch_names(&repo), vec!["main".to_string()]);
    assert_eq!(repo.current, 0);
}

#[test]
fn add_remote_branch_failure_removes_the_added_remote() {
    let mut repo = fresh_repo();
    let url = "u".to_string();
    let upstream = "develop".to_string();
    let r = add_remote_branch(&mut repo, "rem-1".to_string(), "br-1".to_string(), &url, &upstream, false, false);
    assert!(matches!(r, Err(Error::RemoteAddFailed)));
    assert!(repo.remotes.is_empty());
    let r = add_remote_branch(&mut repo, "rem-1".to_string(), "br-1".to_string(), &url, &upstream, true, false);
    assert!(matches!(r, Err(Error::FetchFailed)));
    assert!(repo.remotes.is_empty());
    assert_eq!(branch_names(&repo), vec!["main".to_string()]);
}

#[test]
fn checkout_failure_tears_both_ephemerals_down() {
    let mut repo = fresh_repo();
    let url = "u".to_string();
    let upstream = "develop".to_string();
    add_remote_branch(&mut repo, "rem-1".to_string(), "br-1".to_string(), &url, &upstream, true, true)
        .unwrap();
    let branch = "br-1".to_string();
    let remote = "rem-1".to_string();
    let r = checkout_from_remote(&mut repo, &branch, &remote, false);
    assert!(matches!(r, Err(Error::CheckoutFailed)));
    assert!(repo.remotes.is_empty());
    assert_eq!(branch_names(&repo), vec!["main".to_string()]);
}

#[test]
fn merge_clean_records_the_contribution() {
    let mut repo = fresh_repo();
    let id = "101".to_string();
    let r = merge_into_main(&mut repo, &id, true, &vec![]);
    assert!(matches!(r, Ok(MergeOutcome::Clean)));
    assert!(repo.pending_merge);
    assert_eq!(repo.branches[0].merged, vec!["101".to_string()]);
}

#[test]
fn merge_conflicts_only_in_docs_are_auto_resolved() {
    let mut repo = fresh_repo();
    let id = "202".to_string();
    let conflicted = vec!["README.md".to_string(), "docs/guide.md".to_string()];
    let r = merge_into_main(&mut repo, &id, false, &conflicted);
    assert!(matches!(r, Ok(MergeOutcome::AutoResolved)));
    assert_eq!(repo.staged_ours, conflicted);
    assert!(repo.pending_merge);
    assert_eq!(repo.branches[0].merged, vec!["202".to_string()]);
}

#[test]
fn merge_conflict_outside_docs_aborts_and_preserves_state() {
    let mut repo = fresh_repo();
    let id = "202".to_string();
    let conflicted = vec!["README.md".to_string(), "src/lib.rs".to_string()];
    let r = merge_into_main(&mut repo, &id, false, &conflicted);
    match r {
        Err(Error::ConflictUnresolved { paths }) => {
            assert_eq!(paths, vec!["src/lib.rs".to_string()])
        },
        other => panic!("expected an unresolved conflict, got {:?}", other),
    }
    assert!(!repo.pending_merge);
    assert!(repo.staged_ours.is_empty());
    assert!(repo.branches[0].merged.is_empty());
    assert_eq!(branch_names(&repo), vec!["main".to_string()]);
}

#[test]
fn repeated_failing_merge_never_corrupts_the_branch() {
    let mut repo = fresh_repo();
    let id = "7".to_string();
    let conflicted = vec!["Cargo.toml".to_string()];
    for _ in 0..2 {
        let r = merge_into_main(&mut repo, &id, false, &conflicted);
        assert!(matches!(r, Err(Error::ConflictUnresolved { .. })));
        assert_eq!(branch_names(&repo), vec!["main".to_string()]);
        assert_eq!(repo.current, 0);
        assert!(repo.branches[0].merged.is_empty());
        assert!(!repo.pending_merge);
    }
}

#[test]
fn backup_round_trip_is_byte_identical() {
    let dir = vec![
        FileEntry { name: "config.toml".to_string(), contents: b"[repo]\nx = 1\n".to_vec() },
        FileEntry { name: "fix.patch".to_string(), contents: vec![0, 155, 7, 255] },
        FileEntry { name: "empty".to_string(), contents: vec![] },
    ];
    let entries = backup_files(&dir);
    // the directory is deleted and recreated: the destination starts empty
    let mut restored: Vec<FileEntry> = Vec::new();
    restore_backup(&entries, &mut restored);
    assert_eq!(restored.len(), dir.len());
    for (r, d) in restored.iter().zip(dir.iter()) {
        assert_eq!(r.name, d.name);
        assert_eq!(r.contents, d.contents);
    }
}

#[test]
fn logical_names_derive_only_from_patch_artifacts() {
    assert_eq!(derive_logical(&"fix.patch".to_string()), Some("fix".to_string()));
    assert_eq!(derive_logical(&"config.toml".to_string()), None);
    assert_eq!(derive_logical(&".patch".to_string()), Some(String::new()));
    assert_eq!(derive_logical(&"patch".to_string()), None);
}

#[test]
fn patch_file_names_prefer_custom_then_subject_then_hash() {
    let hash = "deadbeef".to_string();
    assert_eq!(
        patch_file_name(Some("mine".to_string()), Some("subject".to_string()), &hash),
        "mine.patch"
    );
    assert_eq!(patch_file_name(None, Some("subject".to_string()), &hash), "subject.patch");
    assert_eq!(patch_file_name(None, None, &hash), "deadbeef.patch");
}
