use borg_tool::config::{
    add_preset_to_config, build_repo_list, clone_backups, default_borg_bin, default_config_path,
    default_mount_root, default_probe_ssh, load_config_resolved, locate_config,
    migrate_legacy_repo, status_label, BackupConfig, Config, ConfigStep, LoadOutcome, RepoConfig,
    RepoStatus,
};
use borg_tool::error::ErrorKind;

fn preset(name: &str) -> BackupConfig {
    BackupConfig {
        name: name.into(),
        includes: vec!["/data".into()],
        excludes: vec![],
        compression: None,
        one_file_system: false,
        exclude_caches: false,
        archive_prefix: None,
    }
}

fn repo(name: &str, locator: &str) -> RepoConfig {
    RepoConfig {
        name: name.into(),
        repo: locator.into(),
        borg_bin: None,
        mount_root: None,
        backups: vec![],
    }
}

fn config(repos: Vec<RepoConfig>, legacy: Option<&str>) -> Config {
    Config {
        repos,
        repo: legacy.map(|s| s.to_string()),
        borg_bin: "borg".into(),
        mount_root: "/tmp/mounts".into(),
        probe_ssh: true,
    }
}

#[test]
fn status_label_names_each_status() {
    assert_eq!(status_label(RepoStatus::Reachable), "ok");
    assert_eq!(status_label(RepoStatus::MissingLocal), "missing");
    assert_eq!(status_label(RepoStatus::RemoteOk), "remote-ok");
    assert_eq!(status_label(RepoStatus::RemoteAuthNeeded), "remote-auth?");
    assert_eq!(status_label(RepoStatus::Unknown), "remote?");
}

#[test]
fn defaults_are_borg_and_probing() {
    assert_eq!(default_borg_bin(), "borg");
    assert!(default_probe_ssh());
    assert_eq!(default_mount_root("/tmp"), "/tmp/borg-tool-mounts");
    assert_eq!(default_mount_root("/var/tmp/"), "/var/tmp/borg-tool-mounts");
}

#[test]
fn default_config_path_prefers_the_configuration_directory() {
    assert_eq!(
        default_config_path(Some("/xdg"), Some("/home/me")),
        "/xdg/borg-tool/config.toml"
    );
    assert_eq!(
        default_config_path(None, Some("/home/me")),
        "/home/me/.config/borg-tool/config.toml"
    );
    assert_eq!(default_config_path(None, None), "config.toml");
}

#[test]
fn build_repo_list_fills_in_the_global_settings() {
    let mut a = repo("a", "/srv/a");
    a.backups = vec![preset("home"), preset("etc")];
    let mut b = repo("b", "ssh://host/b");
    b.borg_bin = Some("/opt/borg".into());
    b.mount_root = Some("/mnt/b".into());
    let cfg = config(vec![a, b], Some("/ignored"));

    let repos = build_repo_list(&cfg);

    assert_eq!(repos.len(), 2);
    assert_eq!(repos[0].name, "a");
    assert_eq!(repos[0].repo, "/srv/a");
    assert_eq!(repos[0].borg_bin, "borg");
    assert_eq!(repos[0].mount_root, "/tmp/mounts");
    assert_eq!(repos[0].backups.len(), 2);
    assert_eq!(repos[0].backups[1].name, "etc");
    assert_eq!(repos[0].status, RepoStatus::Unknown);
    assert_eq!(repos[1].name, "b");
    assert_eq!(repos[1].borg_bin, "/opt/borg");
    assert_eq!(repos[1].mount_root, "/mnt/b");
    assert_eq!(repos[1].status, RepoStatus::Unknown);
}

#[test]
fn build_repo_list_names_the_legacy_repository_default() {
    let repos = build_repo_list(&config(vec![], Some("/srv/legacy")));
    assert_eq!(repos.len(), 1);
    assert_eq!(repos[0].name, "default");
    assert_eq!(repos[0].repo, "/srv/legacy");
    assert_eq!(repos[0].borg_bin, "borg");
    assert_eq!(repos[0].mount_root, "/tmp/mounts");
    assert!(repos[0].backups.is_empty());
}

#[test]
fn build_repo_list_is_empty_without_repositories() {
    assert!(build_repo_list(&config(vec![], None)).is_empty());
}

#[test]
fn migrate_legacy_repo_moves_the_single_repository_into_the_list() {
    let mut cfg = config(vec![], Some("/srv/legacy"));
    migrate_legacy_repo(&mut cfg);
    assert_eq!(cfg.repo, None);
    assert_eq!(cfg.repos.len(), 1);
    assert_eq!(cfg.repos[0].name, "default");
    assert_eq!(cfg.repos[0].repo, "/srv/legacy");
    assert_eq!(cfg.repos[0].borg_bin, None);
    assert_eq!(cfg.repos[0].mount_root, None);
    assert!(cfg.repos[0].backups.is_empty());
}

#[test]
fn migrate_legacy_repo_leaves_a_list_alone() {
    let mut cfg = config(vec![repo("a", "/srv/a")], Some("/srv/legacy"));
    migrate_legacy_repo(&mut cfg);
    assert_eq!(cfg.repo, Some("/srv/legacy".to_string()));
    assert_eq!(cfg.repos.len(), 1);
    assert_eq!(cfg.repos[0].name, "a");

    let mut none = config(vec![], None);
    migrate_legacy_repo(&mut none);
    assert!(none.repos.is_empty());
    assert_eq!(none.repo, None);
}

#[test]
fn migration_keeps_the_repository_list() {
    let mut cfg = config(vec![], Some("/srv/legacy"));
    let before = build_repo_list(&cfg);
    migrate_legacy_repo(&mut cfg);
    let after = build_repo_list(&cfg);
    assert_eq!(before.len(), after.len());
    assert_eq!(before[0].name, after[0].name);
    assert_eq!(before[0].repo, after[0].repo);
    assert_eq!(before[0].borg_bin, after[0].borg_bin);
    assert_eq!(before[0].mount_root, after[0].mount_root);
}

#[test]
fn add_preset_to_config_appends_to_the_first_repository_of_that_name() {
    let mut first = repo("a", "/srv/a");
    first.backups = vec![preset("home")];
    let mut cfg = config(vec![repo("b", "/srv/b"), first, repo("a", "/srv/a2")], None);

    add_preset_to_config(&mut cfg, "a", preset("etc"));

    assert_eq!(cfg.repos.len(), 3);
    assert!(cfg.repos[0].backups.is_empty());
    assert_eq!(cfg.repos[1].name, "a");
    assert_eq!(cfg.repos[1].repo, "/srv/a");
    assert_eq!(cfg.repos[1].backups.len(), 2);
    assert_eq!(cfg.repos[1].backups[0].name, "home");
    assert_eq!(cfg.repos[1].backups[1].name, "etc");
    assert!(cfg.repos[2].backups.is_empty());
}

#[test]
fn add_preset_to_config_ignores_an_unknown_repository() {
    let mut cfg = config(vec![repo("a", "/srv/a")], Some("/srv/legacy"));
    add_preset_to_config(&mut cfg, "default", preset("etc"));
    assert_eq!(cfg.repos.len(), 1);
    assert!(cfg.repos[0].backups.is_empty());
}

#[test]
fn clone_backups_copies_every_field() {
    let mut p = preset("home");
    p.excludes = vec!["/tmp".into()];
    p.compression = Some("zstd,6".into());
    p.one_file_system = true;
    p.archive_prefix = Some("pi".into());
    let copy = clone_backups(&vec![p, preset("etc")]);
    assert_eq!(copy.len(), 2);
    assert_eq!(copy[0].name, "home");
    assert_eq!(copy[0].includes, vec!["/data"]);
    assert_eq!(copy[0].excludes, vec!["/tmp"]);
    assert_eq!(copy[0].compression, Some("zstd,6".to_string()));
    assert!(copy[0].one_file_system);
    assert!(!copy[0].exclude_caches);
    assert_eq!(copy[0].archive_prefix, Some("pi".to_string()));
    assert_eq!(copy[1].name, "etc");
}

fn tried(step: ConfigStep) -> (usize, String) {
    match step {
        ConfigStep::Try { attempt, path } => (attempt, path),
        other => panic!("expected a file to try, got {other:?}"),
    }
}

fn used(step: ConfigStep) -> String {
    match step {
        ConfigStep::Use { path } => path,
        other => panic!("expected a file to use, got {other:?}"),
    }
}

fn failed(step: ConfigStep) -> (ErrorKind, String) {
    match step {
        ConfigStep::Fail(e) => (e.kind, e.message),
        other => panic!("expected a failure, got {other:?}"),
    }
}

#[test]
fn locate_config_starts_with_the_named_file_or_the_default() {
    assert_eq!(
        tried(locate_config(Some("/etc/bt.toml"), "/d/config.toml")),
        (0, "/etc/bt.toml".to_string())
    );
    assert_eq!(
        tried(locate_config(None, "/d/config.toml")),
        (0, "/d/config.toml".to_string())
    );
}

#[test]
fn load_config_resolved_uses_the_first_file_that_loads() {
    assert_eq!(
        used(load_config_resolved(None, "/d/config.toml", 0, LoadOutcome::Loaded)),
        "/d/config.toml"
    );
    assert_eq!(
        used(load_config_resolved(None, "/d/config.toml", 1, LoadOutcome::Loaded)),
        "config.toml"
    );
    assert_eq!(
        used(load_config_resolved(Some("/etc/bt.toml"), "/d/config.toml", 0, LoadOutcome::Loaded)),
        "/etc/bt.toml"
    );
}

#[test]
fn load_config_resolved_tries_the_fallback_after_a_missing_default() {
    assert_eq!(
        tried(load_config_resolved(None, "/d/config.toml", 0, LoadOutcome::NotFound)),
        (1, "config.toml".to_string())
    );
}

#[test]
fn load_config_resolved_reports_when_no_file_was_found() {
    assert_eq!(
        failed(load_config_resolved(None, "/d/config.toml", 1, LoadOutcome::NotFound)),
        (
            ErrorKind::Configuration,
            "No config file found. Tried: /d/config.toml, config.toml".to_string()
        )
    );
    assert_eq!(
        failed(load_config_resolved(None, "/d/config.toml", 2, LoadOutcome::Loaded)),
        (
            ErrorKind::Configuration,
            "No config file found. Tried: /d/config.toml, config.toml".to_string()
        )
    );
}

#[test]
fn load_config_resolved_surfaces_other_failures_at_once() {
    assert_eq!(
        failed(load_config_resolved(None, "/d/config.toml", 0, LoadOutcome::Invalid)),
        (
            ErrorKind::Configuration,
            "Invalid TOML in /d/config.toml".to_string()
        )
    );
    assert_eq!(
        failed(load_config_resolved(None, "/d/config.toml", 1, LoadOutcome::Unreadable)),
        (
            ErrorKind::Configuration,
            "Cannot read config file config.toml".to_string()
        )
    );
}

#[test]
fn load_config_resolved_reads_no_other_file_than_the_named_one() {
    assert_eq!(
        failed(load_config_resolved(
            Some("/etc/bt.toml"),
            "/d/config.toml",
            0,
            LoadOutcome::NotFound
        )),
        (
            ErrorKind::Configuration,
            "Cannot read config file /etc/bt.toml".to_string()
        )
    );
    assert_eq!(
        failed(load_config_resolved(
            Some("/etc/bt.toml"),
            "/d/config.toml",
            1,
            LoadOutcome::Loaded
        ))
        .0,
        ErrorKind::Configuration
    );
}
