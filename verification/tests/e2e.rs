use borg_tool::backup::{backup_outcome, run_backup, select_preset, Canonical, LocalFacts, PresetPick};
use borg_tool::config::{build_repo_list, BackupConfig, Config, RepoConfig, RepoStatus};
use borg_tool::engine::{
    collect_items, ensure_success, find_archive, item_lines, list_archives, list_items,
    BorgArchive, BorgItem, RunResult,
};
use borg_tool::probe::{repo_status, Evidence};
use borg_tool::screens::{archive_rows, item_rows};
use borg_tool::select::{select_repo_ctx, Commands, Selection};

fn config(repo: &str, data: &str) -> Config {
    Config {
        repos: vec![RepoConfig {
            name: "local".into(),
            repo: repo.into(),
            borg_bin: None,
            mount_root: None,
            backups: vec![BackupConfig {
                name: "test".into(),
                includes: vec![data.into()],
                excludes: vec![],
                compression: None,
                one_file_system: false,
                exclude_caches: false,
                archive_prefix: None,
            }],
        }],
        repo: None,
        borg_bin: "borg".into(),
        mount_root: "/tmp/borg-tool-mounts".into(),
        probe_ssh: false,
    }
}

fn succeeded(stdout: String) -> RunResult {
    RunResult {
        success: true,
        status: "exit status: 0".into(),
        stdout,
        stderr: String::new(),
    }
}

fn text_of(value: &serde_json::Value, key: &str) -> Option<String> {
    value.get(key).and_then(|v| v.as_str()).map(|s| s.to_string())
}

fn decode_archives(stdout: &str) -> Vec<BorgArchive> {
    let value: serde_json::Value = serde_json::from_str(stdout).unwrap();
    value
        .get("archives")
        .and_then(|a| a.as_array())
        .unwrap()
        .iter()
        .map(|a| BorgArchive {
            name: text_of(a, "archive").unwrap(),
            time_utc: text_of(a, "time"),
        })
        .collect()
}

fn decode_item(line: &str) -> Option<BorgItem> {
    let value: serde_json::Value = serde_json::from_str(line).ok()?;
    Some(BorgItem {
        path: text_of(&value, "path")?,
        item_type: text_of(&value, "type"),
        size: value.get("size").and_then(|s| s.as_u64()),
    })
}

#[test]
fn e2e_backup_and_list_flow() {
    let cfg = config("/tmp/t/repo.borg", "/tmp/t/data");

    // Choose the repository the way `--repo local backup test` does.
    let mut repos = build_repo_list(&cfg);
    for r in repos.iter_mut() {
        r.status = repo_status(&r.repo, cfg.probe_ssh, &Evidence::Path { exists: true });
    }
    let cmd = Commands::Backup {
        backup: Some("test".into()),
    };
    let repo = match select_repo_ctx(&repos, Some("local"), Some(&cmd)).unwrap() {
        Selection::Use(s) => s.repo,
        other => panic!("expected the repository, got {other:?}"),
    };
    assert_eq!(repo.name, "local");
    assert_eq!(repo.status, RepoStatus::Reachable);

    // Run the backup.
    let preset = match select_preset(&repo, Some("test")).unwrap() {
        PresetPick::Use(p) => p,
        other => panic!("expected the preset, got {other:?}"),
    };
    let facts = LocalFacts {
        exists: true,
        canonical: Canonical::Resolved("/tmp/t/repo.borg".into()),
    };
    let run = run_backup(&repo, &preset, &facts, None).unwrap();
    assert_eq!(run.call.program, "borg");
    assert_eq!(
        run.call.args,
        vec![
            "create".to_string(),
            "--exclude".to_string(),
            "/tmp/t/repo.borg".to_string(),
            format!("/tmp/t/repo.borg::{}", run.archive_name),
            "/tmp/t/data".to_string(),
        ]
    );
    let done = backup_outcome(&run.archive_name, &succeeded(String::new())).unwrap();
    assert_eq!(done, format!("Backup '{}' completed", run.archive_name));

    // List the archives: the engine answers with the one archive.
    let call = list_archives(&repo, None);
    assert_eq!(call.args, vec!["list", "--json", "/tmp/t/repo.borg"]);
    let answer = succeeded(format!(
        "{{\"archives\": [{{\"archive\": \"{}\", \"time\": \"2024-05-06T07:08:09.000000\"}}]}}",
        run.archive_name
    ));
    ensure_success("list", &answer).unwrap();
    let archives = decode_archives(&answer.stdout);
    assert_eq!(archives.len(), 1, "expected exactly one archive");
    let rows = archive_rows(&archives);
    assert_eq!(rows.len(), 1);
    assert!(rows[0].contains(&run.archive_name));

    // List the files of that archive.
    let archive = find_archive(&archives, &run.archive_name).unwrap();
    let call = list_items(&repo, &archive.name, None);
    assert_eq!(
        call.args,
        vec![
            "list".to_string(),
            "--json-lines".to_string(),
            format!("/tmp/t/repo.borg::{}", run.archive_name),
        ]
    );
    let answer = succeeded(
        "{\"type\": \"d\", \"path\": \"tmp/t/data\", \"size\": 0}\n\
         {\"type\": \"-\", \"path\": \"tmp/t/data/hello.txt\", \"size\": 11}\n"
            .to_string(),
    );
    ensure_success("list items", &answer).unwrap();
    let lines = item_lines(&answer.stdout);
    let decoded: Vec<Option<BorgItem>> = lines.iter().map(|l| decode_item(&l.text)).collect();
    let items = collect_items(&lines, &decoded).unwrap();
    assert_eq!(items.len(), 2);
    assert!(items.iter().any(|i| i.path.ends_with("hello.txt")));
    assert!(item_rows(&items).iter().any(|r| r.ends_with("hello.txt")));
}

#[test]
fn a_missing_local_repository_probes_to_missing_and_fails_a_list_command() {
    let cfg = config("/nonexistent/path", "/tmp/t/data");
    let mut repos = build_repo_list(&cfg);
    repos[0].status = repo_status(&repos[0].repo, true, &Evidence::Path { exists: false });
    assert_eq!(repos[0].status, RepoStatus::MissingLocal);

    let err = select_repo_ctx(&repos, None, Some(&Commands::List)).unwrap_err();
    assert_eq!(err.message, "Repo 'local' path '/nonexistent/path' not found.");
    let err = select_repo_ctx(&repos, Some("local"), Some(&Commands::List)).unwrap_err();
    assert_eq!(err.message, "Repo 'local' path '/nonexistent/path' not found.");

    for cmd in [None, Some(&Commands::Interactive)] {
        match select_repo_ctx(&repos, None, cmd).unwrap() {
            Selection::Use(s) => {
                assert_eq!(
                    s.warning,
                    Some("Warning: Repo 'local' path '/nonexistent/path' not found.".to_string())
                );
                assert_eq!(s.repo.name, "local");
            }
            other => panic!("expected the repository, got {other:?}"),
        }
    }
}

#[test]
fn a_line_that_is_no_entry_fails_the_listing_of_files() {
    let stdout = "{\"type\": \"d\", \"path\": \"tmp/t/data\"}\n\nnot json\n{\"path\": \"x\"}\n";
    let lines = item_lines(stdout);
    let decoded: Vec<Option<BorgItem>> = lines.iter().map(|l| decode_item(&l.text)).collect();
    let err = collect_items(&lines, &decoded).unwrap_err();
    assert_eq!(err.message, "Failed to parse JSON line 3 from borg output");
}
