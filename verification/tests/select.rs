use borg_tool::config::{RepoCtx, RepoStatus};
use borg_tool::error::ErrorKind;
use borg_tool::select::{
    choose_repo, ensure_repo_available, mode, names_of, select_repo_ctx, Chosen, Commands, Mode,
    Selection,
};

fn ctx(name: &str, repo: &str, status: RepoStatus) -> RepoCtx {
    RepoCtx {
        name: name.into(),
        repo: repo.into(),
        borg_bin: "borg".into(),
        mount_root: "/mnt".into(),
        backups: vec![],
        status,
    }
}

fn two() -> Vec<RepoCtx> {
    vec![
        ctx("local", "/srv/repo", RepoStatus::Reachable),
        ctx("remote", "ssh://host/repo", RepoStatus::Unknown),
    ]
}

#[test]
fn mode_tells_how_a_command_deals_with_the_operator() {
    assert_eq!(mode(None), Mode::Interactive);
    assert_eq!(mode(Some(&Commands::Interactive)), Mode::Interactive);
    assert_eq!(
        mode(Some(&Commands::Backup { backup: None })),
        Mode::Choosing
    );
    assert_eq!(mode(Some(&Commands::List)), Mode::SingleShot);
    assert_eq!(
        mode(Some(&Commands::Files { archive: None })),
        Mode::SingleShot
    );
    assert_eq!(
        mode(Some(&Commands::Mount {
            archive: "a".into(),
            target: None
        })),
        Mode::SingleShot
    );
    assert_eq!(
        mode(Some(&Commands::Umount {
            mountpoint: "/mnt/a".into()
        })),
        Mode::SingleShot
    );
}

#[test]
fn a_missing_repository_fails_a_list_command() {
    let repo = ctx("gone", "/nonexistent/path", RepoStatus::MissingLocal);
    let err = ensure_repo_available(repo, Some(&Commands::List)).unwrap_err();
    assert_eq!(err.kind, ErrorKind::Configuration);
    assert_eq!(err.message, "Repo 'gone' path '/nonexistent/path' not found.");
}

#[test]
fn a_missing_repository_warns_the_interactive_command_and_proceeds() {
    let repo = ctx("gone", "/nonexistent/path", RepoStatus::MissingLocal);
    let selected = ensure_repo_available(repo, Some(&Commands::Interactive)).unwrap();
    assert_eq!(selected.repo.name, "gone");
    assert_eq!(selected.repo.repo, "/nonexistent/path");
    assert_eq!(
        selected.warning,
        Some("Warning: Repo 'gone' path '/nonexistent/path' not found.".to_string())
    );

    let repo = ctx("gone", "/nonexistent/path", RepoStatus::MissingLocal);
    let selected = ensure_repo_available(repo, None).unwrap();
    assert!(selected.warning.is_some());
}

#[test]
fn a_missing_repository_fails_a_backup_command() {
    let repo = ctx("gone", "/nonexistent/path", RepoStatus::MissingLocal);
    let err = ensure_repo_available(repo, Some(&Commands::Backup { backup: None })).unwrap_err();
    assert_eq!(err.message, "Repo 'gone' path '/nonexistent/path' not found.");
}

#[test]
fn a_refused_login_warns_or_fails_by_command() {
    let repo = ctx("far", "ssh://host/repo", RepoStatus::RemoteAuthNeeded);
    let selected = ensure_repo_available(repo, None).unwrap();
    assert_eq!(
        selected.warning,
        Some("Warning: Repo 'far' seems to require SSH auth (no key?).".to_string())
    );

    let repo = ctx("far", "ssh://host/repo", RepoStatus::RemoteAuthNeeded);
    let err = ensure_repo_available(repo, Some(&Commands::List)).unwrap_err();
    assert_eq!(err.kind, ErrorKind::Configuration);
    assert_eq!(err.message, "Repo 'far' seems to require SSH auth (no key?).");
}

#[test]
fn other_repositories_are_worked_on_without_a_word() {
    for status in [
        RepoStatus::Reachable,
        RepoStatus::RemoteOk,
        RepoStatus::Unknown,
    ] {
        let selected =
            ensure_repo_available(ctx("r", "/srv/repo", status), Some(&Commands::List)).unwrap();
        assert_eq!(selected.warning, None);
        assert_eq!(selected.repo.status, status);
    }
}

#[test]
fn select_repo_ctx_fails_without_repositories() {
    let err = select_repo_ctx(&vec![], None, None).unwrap_err();
    assert_eq!(err.kind, ErrorKind::Configuration);
    assert_eq!(err.message, "No repositories configured in config file");
}

#[test]
fn select_repo_ctx_takes_the_single_repository() {
    let repos = vec![ctx("default", "/srv/repo", RepoStatus::Reachable)];
    for wanted in [None, Some("default")] {
        match select_repo_ctx(&repos, wanted, Some(&Commands::List)).unwrap() {
            Selection::Use(s) => {
                assert_eq!(s.repo.name, "default");
                assert_eq!(s.warning, None);
            }
            other => panic!("expected the repository, got {other:?}"),
        }
    }
}

#[test]
fn select_repo_ctx_checks_the_single_repository() {
    let repos = vec![ctx("default", "/nonexistent/path", RepoStatus::MissingLocal)];
    let err = select_repo_ctx(&repos, None, Some(&Commands::List)).unwrap_err();
    assert_eq!(err.kind, ErrorKind::Configuration);
    assert_eq!(
        err.message,
        "Repo 'default' path '/nonexistent/path' not found."
    );
    match select_repo_ctx(&repos, None, Some(&Commands::Interactive)).unwrap() {
        Selection::Use(s) => {
            assert_eq!(s.repo.name, "default");
            assert_eq!(
                s.warning,
                Some("Warning: Repo 'default' path '/nonexistent/path' not found.".to_string())
            );
        }
        other => panic!("expected the repository, got {other:?}"),
    }
}

#[test]
fn select_repo_ctx_does_not_fall_back_on_a_mismatch() {
    let repos = vec![ctx("default", "/srv/repo", RepoStatus::Reachable)];
    let err = select_repo_ctx(&repos, Some("other"), None).unwrap_err();
    assert_eq!(err.kind, ErrorKind::Configuration);
    assert_eq!(
        err.message,
        "Repo 'other' not found. Only available repo: default"
    );
}

#[test]
fn select_repo_ctx_takes_the_named_one_of_several() {
    match select_repo_ctx(&two(), Some("remote"), Some(&Commands::List)).unwrap() {
        Selection::Use(s) => {
            assert_eq!(s.repo.name, "remote");
            assert_eq!(s.repo.repo, "ssh://host/repo");
        }
        other => panic!("expected the repository, got {other:?}"),
    }
}

#[test]
fn select_repo_ctx_lists_the_names_when_the_named_one_is_absent() {
    let err = select_repo_ctx(&two(), Some("nope"), None).unwrap_err();
    assert_eq!(err.kind, ErrorKind::Configuration);
    assert_eq!(
        err.message,
        "Repo 'nope' not found. Available: local, remote"
    );
}

#[test]
fn select_repo_ctx_checks_the_named_one() {
    let repos = vec![
        ctx("local", "/srv/repo", RepoStatus::Reachable),
        ctx("gone", "/nonexistent/path", RepoStatus::MissingLocal),
    ];
    let err = select_repo_ctx(&repos, Some("gone"), Some(&Commands::List)).unwrap_err();
    assert_eq!(err.message, "Repo 'gone' path '/nonexistent/path' not found.");
    match select_repo_ctx(&repos, Some("gone"), Some(&Commands::Interactive)).unwrap() {
        Selection::Use(s) => assert!(s.warning.is_some()),
        other => panic!("expected the repository, got {other:?}"),
    }
}

#[test]
fn select_repo_ctx_lets_the_operator_choose_where_the_command_allows() {
    assert!(matches!(
        select_repo_ctx(&two(), None, None).unwrap(),
        Selection::Choose
    ));
    assert!(matches!(
        select_repo_ctx(&two(), None, Some(&Commands::Interactive)).unwrap(),
        Selection::Choose
    ));
    assert!(matches!(
        select_repo_ctx(&two(), None, Some(&Commands::Backup { backup: None })).unwrap(),
        Selection::Choose
    ));
}

#[test]
fn select_repo_ctx_wants_a_name_for_single_shot_commands() {
    let err = select_repo_ctx(&two(), None, Some(&Commands::List)).unwrap_err();
    assert_eq!(err.kind, ErrorKind::Configuration);
    assert_eq!(
        err.message,
        "Multiple repos configured. Please choose with --repo <name>. Available: local, remote"
    );
}

#[test]
fn choose_repo_reads_the_pick() {
    match choose_repo(&two(), Some(1), None).unwrap() {
        Chosen::Use(s) => assert_eq!(s.repo.name, "remote"),
        other => panic!("expected the repository, got {other:?}"),
    }
    assert!(matches!(
        choose_repo(&two(), Some(2), None).unwrap(),
        Chosen::SetUp
    ));
    assert!(matches!(
        choose_repo(&two(), Some(3), None).unwrap(),
        Chosen::Quit
    ));
    assert!(matches!(
        choose_repo(&two(), None, Some(&Commands::Interactive)).unwrap(),
        Chosen::Quit
    ));
}

#[test]
fn choose_repo_fails_a_command_that_runs_once_when_nothing_is_picked() {
    let cmd = Commands::Backup { backup: None };
    let err = choose_repo(&two(), None, Some(&cmd)).unwrap_err();
    assert_eq!(err.kind, ErrorKind::SelectionAbandoned);
    assert_eq!(err.message, "No repository selected");
    let err = choose_repo(&two(), Some(3), Some(&cmd)).unwrap_err();
    assert_eq!(err.kind, ErrorKind::SelectionAbandoned);
}

#[test]
fn choose_repo_checks_the_picked_repository() {
    let repos = vec![
        ctx("local", "/srv/repo", RepoStatus::Reachable),
        ctx("gone", "/nonexistent/path", RepoStatus::MissingLocal),
    ];
    let cmd = Commands::Backup { backup: None };
    let err = choose_repo(&repos, Some(1), Some(&cmd)).unwrap_err();
    assert_eq!(err.kind, ErrorKind::Configuration);
    match choose_repo(&repos, Some(1), None).unwrap() {
        Chosen::Use(s) => assert!(s.warning.is_some()),
        other => panic!("expected the repository, got {other:?}"),
    }
}

#[test]
fn names_of_lists_the_names_in_order() {
    assert_eq!(names_of(&two()), vec!["local", "remote"]);
    assert!(names_of(&vec![]).is_empty());
}
