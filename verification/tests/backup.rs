use borg_tool::backup::{
    archive_name_at, auto_exclude, backup_outcome, build_archive_name, create_archive, hint,
    repo_exclude_pattern, run_backup, select_preset, strip_joints, Canonical, LocalFacts,
    PresetPick,
};
use borg_tool::config::{BackupConfig, RepoCtx, RepoStatus};
use borg_tool::engine::RunResult;
use borg_tool::error::ErrorKind;

fn preset(name: &str, prefix: Option<&str>) -> BackupConfig {
    BackupConfig {
        name: name.into(),
        includes: vec!["/data".into()],
        excludes: vec![],
        compression: None,
        one_file_system: false,
        exclude_caches: false,
        archive_prefix: prefix.map(|p| p.to_string()),
    }
}

fn ctx(repo: &str) -> RepoCtx {
    RepoCtx {
        name: "r".into(),
        repo: repo.into(),
        borg_bin: "borg".into(),
        mount_root: "/mnt".into(),
        backups: vec![],
        status: RepoStatus::Unknown,
    }
}

#[test]
fn build_archive_name_uses_prefix_and_preset() {
    let preset = BackupConfig {
        name: "home".into(),
        includes: vec!["/data".into()],
        excludes: vec![],
        compression: None,
        one_file_system: false,
        exclude_caches: false,
        archive_prefix: Some("raspi".into()),
    };

    let name = build_archive_name(&preset, "repo");

    let parts: Vec<&str> = name.split('-').collect();
    assert!(parts.len() >= 3, "unexpected format: {name}");
    assert_eq!(parts[0], "raspi");
    assert_eq!(parts[1], "home");
}

#[test]
fn build_archive_name_defaults_to_repo_prefix() {
    let preset = BackupConfig {
        name: "sys".into(),
        includes: vec!["/".into()],
        excludes: vec![],
        compression: None,
        one_file_system: false,
        exclude_caches: false,
        archive_prefix: None,
    };

    let name = build_archive_name(&preset, "laptop");
    let parts: Vec<&str> = name.split('-').collect();
    assert!(parts.len() >= 3, "unexpected format: {name}");
    assert_eq!(parts[0], "laptop");
    assert_eq!(parts[1], "sys");
}

#[test]
fn repo_exclude_pattern_returns_local_path() {
    let ctx = RepoCtx {
        name: "r".into(),
        repo: "/tmp/work/repo".into(),
        borg_bin: "borg".into(),
        mount_root: "/tmp/work/mnt".into(),
        backups: vec![],
        status: RepoStatus::Reachable,
    };
    let facts = LocalFacts {
        exists: true,
        canonical: Canonical::Resolved("/private/tmp/work/repo".into()),
    };

    let exclude = repo_exclude_pattern(&ctx, &facts).expect("should produce exclude");
    assert_eq!(exclude, "/private/tmp/work/repo");
}

#[test]
fn repo_exclude_pattern_skips_remote() {
    let ctx = RepoCtx {
        name: "r".into(),
        repo: "ssh://user@host/remote".into(),
        borg_bin: "borg".into(),
        mount_root: "/mnt".into(),
        backups: vec![],
        status: RepoStatus::Unknown,
    };
    let facts = LocalFacts {
        exists: false,
        canonical: Canonical::Unresolved,
    };

    assert!(repo_exclude_pattern(&ctx, &facts).is_none());
}

#[test]
fn repo_exclude_pattern_skips_remote_even_if_a_path_of_that_name_exists() {
    let facts = LocalFacts {
        exists: true,
        canonical: Canonical::Resolved("/srv/user@host:repo".into()),
    };
    assert!(repo_exclude_pattern(&ctx("/srv/user@host:repo"), &facts).is_none());
}

#[test]
fn repo_exclude_pattern_gives_canonical_path_of_existing_absolute_repo() {
    let facts = LocalFacts {
        exists: true,
        canonical: Canonical::Resolved("/real/repo".into()),
    };
    assert_eq!(
        repo_exclude_pattern(&ctx("/link/repo"), &facts),
        Some("/real/repo".to_string())
    );
}

#[test]
fn repo_exclude_pattern_falls_back_to_the_locator() {
    let facts = LocalFacts {
        exists: true,
        canonical: Canonical::Unresolved,
    };
    assert_eq!(
        repo_exclude_pattern(&ctx("/link/repo"), &facts),
        Some("/link/repo".to_string())
    );
    let not_text = LocalFacts {
        exists: true,
        canonical: Canonical::NotText,
    };
    assert_eq!(repo_exclude_pattern(&ctx("/link/repo"), &not_text), None);
}

#[test]
fn repo_exclude_pattern_skips_relative_and_missing() {
    let there = LocalFacts {
        exists: true,
        canonical: Canonical::Resolved("/cwd/relative/repo".into()),
    };
    assert_eq!(repo_exclude_pattern(&ctx("relative/repo"), &there), None);
    let missing = LocalFacts {
        exists: false,
        canonical: Canonical::Unresolved,
    };
    assert_eq!(repo_exclude_pattern(&ctx("/no/such"), &missing), None);
}

#[test]
fn auto_exclude_is_not_added_twice() {
    let facts = LocalFacts {
        exists: true,
        canonical: Canonical::Resolved("/real/repo".into()),
    };
    let mut p = preset("home", None);
    assert_eq!(
        auto_exclude(&ctx("/real/repo"), &p, &facts),
        Some("/real/repo".to_string())
    );
    p.excludes = vec!["/tmp".into(), "/real/repo".into()];
    assert_eq!(auto_exclude(&ctx("/real/repo"), &p, &facts), None);
    p.excludes = vec!["/real/REPO".into()];
    assert_eq!(
        auto_exclude(&ctx("/real/repo"), &p, &facts),
        Some("/real/repo".to_string())
    );
}

#[test]
fn archive_name_at_joins_head_preset_and_time() {
    assert_eq!(
        archive_name_at(&preset("home", Some("raspi")), "repo", "2024-05-06_07-08-09"),
        "raspi-home-2024-05-06_07-08-09"
    );
    assert_eq!(
        archive_name_at(&preset("sys", None), "laptop", "2024-05-06_07-08-09"),
        "laptop-sys-2024-05-06_07-08-09"
    );
}

#[test]
fn archive_name_at_strips_joints_at_the_end_of_the_prefix() {
    assert_eq!(
        archive_name_at(&preset("home", Some("pi-_-")), "repo", "T"),
        "pi-home-T"
    );
    assert_eq!(
        archive_name_at(&preset("home", Some("a-b_")), "repo", "T"),
        "a-b-home-T"
    );
    assert_eq!(
        archive_name_at(&preset("home", Some("--")), "repo", "T"),
        "-home-T"
    );
}

#[test]
fn archive_name_at_uses_repo_name_for_empty_prefix() {
    assert_eq!(
        archive_name_at(&preset("home", Some("")), "repo", "T"),
        "repo-home-T"
    );
}

#[test]
fn build_archive_name_ends_in_a_time_to_the_second() {
    let name = build_archive_name(&preset("home", Some("raspi")), "repo");
    let stamp = name.strip_prefix("raspi-home-").unwrap();
    let shape: String = stamp
        .chars()
        .map(|c| if c.is_ascii_digit() { '9' } else { c })
        .collect();
    assert_eq!(shape, "9999-99-99_99-99-99");
}

#[test]
fn strip_joints_removes_hyphens_and_underscores_at_the_end() {
    assert_eq!(strip_joints("pi-"), "pi");
    assert_eq!(strip_joints("pi_-_"), "pi");
    assert_eq!(strip_joints("-pi"), "-pi");
    assert_eq!(strip_joints("a-b"), "a-b");
    assert_eq!(strip_joints("---"), "");
    assert_eq!(strip_joints(""), "");
}

fn count_excludes(args: &[String]) -> usize {
    args.iter().filter(|a| *a == "--exclude").count()
}

fn has_exclude(args: &[String], path: &str) -> bool {
    args.windows(2).any(|w| w[0] == "--exclude" && w[1] == path)
}

fn local_facts(path: &str) -> LocalFacts {
    LocalFacts {
        exists: true,
        canonical: Canonical::Resolved(path.into()),
    }
}

#[test]
fn run_backup_adds_repo_exclude_when_missing() {
    let preset = preset("home", None);
    let ctx = ctx("/tmp/x/repo");

    let run = run_backup(&ctx, &preset, &local_facts("/private/tmp/x/repo"), None).unwrap();

    let args = &run.call.args;
    assert_eq!(count_excludes(args), 1, "expected exactly one auto-exclude");
    assert!(
        has_exclude(args, "/private/tmp/x/repo"),
        "exclude list should contain canonical repo path"
    );
}

#[test]
fn run_backup_skips_repo_exclude_when_already_present() {
    let mut preset = preset("home", None);
    preset.excludes = vec!["/private/tmp/x/repo".into()];
    let ctx = ctx("/tmp/x/repo");

    let run = run_backup(&ctx, &preset, &local_facts("/private/tmp/x/repo"), None).unwrap();

    let args = &run.call.args;
    assert_eq!(
        count_excludes(args),
        1,
        "should not add a second repo exclude when already specified"
    );
    assert!(
        has_exclude(args, "/private/tmp/x/repo"),
        "preset exclude should remain intact"
    );
}

#[test]
fn run_backup_does_not_add_exclude_for_relative_repo() {
    let preset = preset("home", None);
    let ctx = ctx("relative/repo");

    let run = run_backup(&ctx, &preset, &local_facts("/cwd/relative/repo"), None).unwrap();

    assert_eq!(
        count_excludes(&run.call.args),
        0,
        "relative repo path should not trigger automatic exclude"
    );
}

#[test]
fn run_backup_does_not_add_exclude_for_remote_repo() {
    let run = run_backup(
        &ctx("ssh://user@host/remote"),
        &preset("home", None),
        &LocalFacts {
            exists: false,
            canonical: Canonical::Unresolved,
        },
        None,
    )
    .unwrap();
    assert_eq!(count_excludes(&run.call.args), 0);
}

#[test]
fn run_backup_refuses_a_preset_without_includes() {
    let mut p = preset("home", None);
    p.includes = vec![];
    let err = run_backup(&ctx("/srv/repo"), &p, &local_facts("/srv/repo"), None).unwrap_err();
    assert_eq!(err.kind, ErrorKind::Configuration);
    assert_eq!(err.message, "Backup 'home' has no includes configured");
}

#[test]
fn run_backup_names_the_archive_after_repository_and_preset() {
    let run = run_backup(
        &ctx("/srv/repo"),
        &preset("home", None),
        &local_facts("/srv/repo"),
        Some("pw"),
    )
    .unwrap();
    assert!(run.archive_name.starts_with("r-home-"));
    assert_eq!(run.call.program, "borg");
    assert_eq!(run.call.passphrase, Some("pw".to_string()));
    assert_eq!(run.call.working_dir, None);
    assert_eq!(run.call.caption, format!("Creating {}", run.archive_name));
    assert_eq!(
        run.call.args,
        vec![
            "create".to_string(),
            "--exclude".to_string(),
            "/srv/repo".to_string(),
            format!("/srv/repo::{}", run.archive_name),
            "/data".to_string(),
        ]
    );
}

#[test]
fn create_archive_puts_options_excludes_archive_and_includes_in_order() {
    let p = BackupConfig {
        name: "home".into(),
        includes: vec!["/home".into(), "/etc".into()],
        excludes: vec!["*.bak".into(), "/home/tmp".into()],
        compression: Some("zstd,6".into()),
        one_file_system: true,
        exclude_caches: true,
        archive_prefix: None,
    };
    let call = create_archive(&ctx("/srv/repo"), &p, Some("/srv/repo"), "r-home-T", Some("pw"));
    assert_eq!(
        call.args,
        vec![
            "create",
            "--compression",
            "zstd,6",
            "--one-file-system",
            "--exclude-caches",
            "--exclude",
            "*.bak",
            "--exclude",
            "/home/tmp",
            "--exclude",
            "/srv/repo",
            "/srv/repo::r-home-T",
            "/home",
            "/etc",
        ]
    );
    assert_eq!(call.caption, "Creating r-home-T");
    assert_eq!(call.passphrase, Some("pw".to_string()));
}

#[test]
fn create_archive_without_options() {
    let call = create_archive(
        &ctx("ssh://host/repo"),
        &preset("home", None),
        None,
        "r-home-T",
        None,
    );
    assert_eq!(call.args, vec!["create", "ssh://host/repo::r-home-T", "/data"]);
    assert_eq!(call.passphrase, None);
}

fn ended(success: bool, stderr: &str) -> RunResult {
    RunResult {
        success,
        status: if success {
            "exit status: 0".into()
        } else {
            "exit status: 2".into()
        },
        stdout: String::new(),
        stderr: stderr.into(),
    }
}

#[test]
fn backup_outcome_reports_the_created_archive() {
    assert_eq!(
        backup_outcome("r-home-T", &ended(true, "")).unwrap(),
        "Backup 'r-home-T' completed"
    );
}

#[test]
fn backup_outcome_describes_a_failure() {
    let err = backup_outcome("r-home-T", &ended(false, " Repository locked\n")).unwrap_err();
    assert_eq!(err.kind, ErrorKind::OperationFailed);
    assert_eq!(
        err.message,
        "borg create failed with status exit status: 2: Repository locked"
    );
}

#[test]
fn backup_outcome_hints_at_privileges_when_access_was_denied() {
    let err = backup_outcome(
        "r-home-T",
        &ended(false, "/etc/shadow: open: [Errno 13] Permission denied: '/etc/shadow'\n"),
    )
    .unwrap_err();
    assert_eq!(
        err.message,
        "borg create failed with status exit status: 2: /etc/shadow: open: [Errno 13] \
         Permission denied: '/etc/shadow' (hint: run with sudo for system paths)"
    );
}

#[test]
fn select_preset_finds_the_named_preset() {
    let mut c = ctx("/srv/repo");
    c.backups = vec![preset("home", None), preset("etc", Some("x"))];
    match select_preset(&c, Some("etc")).unwrap() {
        PresetPick::Use(p) => {
            assert_eq!(p.name, "etc");
            assert_eq!(p.archive_prefix, Some("x".to_string()));
        }
        other => panic!("expected the preset, got {other:?}"),
    }
    assert!(matches!(
        select_preset(&c, None).unwrap(),
        PresetPick::Choose
    ));
}

#[test]
fn select_preset_lists_the_names_when_the_named_one_is_absent() {
    let mut c = ctx("/srv/repo");
    c.backups = vec![preset("home", None), preset("etc", None)];
    let err = select_preset(&c, Some("var")).unwrap_err();
    assert_eq!(err.kind, ErrorKind::Configuration);
    assert_eq!(
        err.message,
        "Backup 'var' not found for repo 'r'. Available: home, etc"
    );
}

#[test]
fn select_preset_fails_without_presets() {
    for wanted in [None, Some("home")] {
        let err = select_preset(&ctx("/srv/repo"), wanted).unwrap_err();
        assert_eq!(err.kind, ErrorKind::Configuration);
        assert_eq!(err.message, "No backups configured for repo 'r'");
    }
}

#[test]
fn hint_is_given_for_access_denied_only() {
    assert_eq!(
        hint("open: permission denied"),
        " (hint: run with sudo for system paths)"
    );
    assert_eq!(hint("repository locked"), "");
    assert_eq!(hint("Permission denied"), "");
    assert_eq!(hint(""), "");
}
