use borg_tool::config::{BackupConfig, RepoCtx, RepoStatus};
use borg_tool::engine::{BorgArchive, BorgItem};
use borg_tool::error::{ErrorKind, ToolError};
use borg_tool::menu::InteractiveOutcome;
use borg_tool::nav::{Area, Back, Branch, Input, Report, Screen, Session};

fn preset(name: &str) -> BackupConfig {
    BackupConfig {
        name: name.into(),
        includes: vec!["/data".into()],
        excludes: vec![],
        compression: None,
        one_file_system: false,
        exclude_caches: false,
        archive_prefix: None,
    }
}

fn repo(backups: Vec<BackupConfig>) -> RepoCtx {
    RepoCtx {
        name: "local".into(),
        repo: "/srv/repo".into(),
        borg_bin: "borg".into(),
        mount_root: "/tmp/mounts".into(),
        backups,
        status: RepoStatus::Reachable,
    }
}

fn archives() -> Vec<BorgArchive> {
    vec![
        BorgArchive {
            name: "home-1".into(),
            time_utc: Some("2024-01-01T00:00:00".into()),
        },
        BorgArchive {
            name: "home-2".into(),
            time_utc: None,
        },
    ]
}

fn items() -> Vec<BorgItem> {
    vec![
        BorgItem {
            path: "home/me".into(),
            item_type: Some("d".into()),
            size: Some(0),
        },
        BorgItem {
            path: "home/me/hello.txt".into(),
            item_type: Some("-".into()),
            size: Some(11),
        },
    ]
}

fn failure(kind: ErrorKind, message: &str) -> ToolError {
    ToolError {
        kind,
        message: message.into(),
    }
}

fn start(mount_available: bool) -> Session {
    Session::start(repo(vec![preset("test")]), mount_available)
}

/// A session that has listed the archives and chosen the second.
fn at_archive_menu(mount_available: bool) -> Session {
    start(mount_available)
        .advance(Input::Choice(Some(0)))
        .advance(Input::Done)
        .advance(Input::Archives(archives()))
        .advance(Input::Choice(Some(1)))
}

/// A session with the second archive mounted at `/mnt/x`, back in the
/// menu of the first archive.
fn with_mount() -> Session {
    at_archive_menu(true)
        .advance(Input::Choice(Some(1)))
        .advance(Input::Text("/mnt/x".into()))
        .advance(Input::Done)
        .advance(Input::Choice(Some(0)))
        .advance(Input::Done)
        .advance(Input::Archives(archives()))
        .advance(Input::Choice(Some(0)))
}

#[test]
fn a_session_starts_in_the_main_menu() {
    let s = start(true);
    assert!(matches!(s.screen, Screen::MainMenu));
    assert!(s.mount.is_none());
    assert!(s.archives.is_empty());
    assert!(s.items.is_empty());
    assert!(s.report.is_none());
    assert!(s.mount_available);
    assert_eq!(s.repo.name, "local");
    assert_eq!(s.screen.area(), Area::Main);
}

#[test]
fn the_main_menu_leads_to_its_four_entries() {
    assert!(matches!(
        start(true).advance(Input::Choice(Some(0))).screen,
        Screen::Unlock(Branch::Archives)
    ));
    assert!(matches!(
        start(true).advance(Input::Choice(Some(1))).screen,
        Screen::Unlock(Branch::Backups)
    ));
    assert!(matches!(
        start(true).advance(Input::Choice(Some(2))).screen,
        Screen::Finished(InteractiveOutcome::ChangeRepo)
    ));
    assert!(matches!(
        start(true).advance(Input::Choice(Some(3))).screen,
        Screen::Finished(InteractiveOutcome::Quit)
    ));
}

#[test]
fn escape_in_the_main_menu_leads_to_the_choice_of_repository() {
    assert!(matches!(
        start(true).advance(Input::Choice(None)).screen,
        Screen::Finished(InteractiveOutcome::ChangeRepo)
    ));
}

#[test]
fn an_input_that_does_not_fit_changes_nothing() {
    let s = start(true).advance(Input::Text("what".into()));
    assert!(matches!(s.screen, Screen::MainMenu));
    let s = s.advance(Input::Done);
    assert!(matches!(s.screen, Screen::MainMenu));
    let s = at_archive_menu(true).advance(Input::Answer(true));
    assert!(matches!(s.screen, Screen::ArchiveMenu { archive: 1 }));
    assert_eq!(s.archives.len(), 2);
}

#[test]
fn a_finished_session_stays_finished() {
    let s = start(true).advance(Input::Choice(Some(3)));
    let s = s.advance(Input::Choice(Some(0)));
    assert!(matches!(
        s.screen,
        Screen::Finished(InteractiveOutcome::Quit)
    ));
    assert_eq!(s.screen.area(), Area::Over);
}

#[test]
fn archives_are_listed_after_unlocking() {
    let s = start(true)
        .advance(Input::Choice(Some(0)))
        .advance(Input::Done);
    assert!(matches!(s.screen, Screen::LoadArchives));
    let s = s.advance(Input::Archives(archives()));
    assert!(matches!(s.screen, Screen::ArchiveList));
    assert_eq!(s.archives.len(), 2);
    assert_eq!(s.archives[1].name, "home-2");
    assert!(s.report.is_none());
}

#[test]
fn an_empty_listing_returns_to_the_main_menu_with_a_message() {
    let s = start(true)
        .advance(Input::Choice(Some(0)))
        .advance(Input::Done)
        .advance(Input::Archives(vec![]));
    assert!(matches!(s.screen, Screen::MainMenu));
    assert!(matches!(s.report, Some(Report::NoArchives)));
    let s = s.advance(Input::Choice(Some(0)));
    assert!(s.report.is_none());
}

#[test]
fn the_archive_list_leads_to_an_archive_or_back() {
    let listed = || {
        start(true)
            .advance(Input::Choice(Some(0)))
            .advance(Input::Done)
            .advance(Input::Archives(archives()))
    };
    assert!(matches!(
        listed().advance(Input::Choice(Some(0))).screen,
        Screen::ArchiveMenu { archive: 0 }
    ));
    assert!(matches!(
        listed().advance(Input::Choice(Some(2))).screen,
        Screen::MainMenu
    ));
    assert!(matches!(
        listed().advance(Input::Choice(None)).screen,
        Screen::MainMenu
    ));
}

#[test]
fn back_from_the_archive_menu_keeps_the_listing() {
    let s = at_archive_menu(false).advance(Input::Choice(Some(1)));
    assert!(matches!(s.screen, Screen::ArchiveList));
    assert_eq!(s.archives.len(), 2);
    let s = at_archive_menu(true).advance(Input::Choice(None));
    assert!(matches!(s.screen, Screen::ArchiveList));
    assert_eq!(s.archives.len(), 2);
}

#[test]
fn mounting_is_not_offered_without_mount_support() {
    let s = at_archive_menu(false).advance(Input::Choice(Some(1)));
    assert!(matches!(s.screen, Screen::ArchiveList));
    assert!(s.mount.is_none());
}

#[test]
fn mounting_asks_for_the_mountpoint_and_records_the_mount() {
    let s = at_archive_menu(true).advance(Input::Choice(Some(1)));
    assert!(matches!(s.screen, Screen::AskMountpoint { archive: 1 }));
    let s = s.advance(Input::Text("/mnt/x".into()));
    match &s.screen {
        Screen::Mounting {
            archive,
            mountpoint,
        } => {
            assert_eq!(*archive, 1);
            assert_eq!(mountpoint, "/mnt/x");
        }
        other => panic!("expected mounting, got {other:?}"),
    }
    assert!(s.mount.is_none());
    let s = s.advance(Input::Done);
    assert!(matches!(s.screen, Screen::MainMenu));
    assert!(matches!(s.report, Some(Report::Mounted)));
    let mount = s.mount.as_ref().unwrap();
    assert_eq!(mount.archive, "home-2");
    assert_eq!(mount.mountpoint, "/mnt/x");
}

#[test]
fn a_failed_mount_is_shown_and_leaves_nothing_mounted() {
    let s = at_archive_menu(true)
        .advance(Input::Choice(Some(1)))
        .advance(Input::Text("/mnt/x".into()))
        .advance(Input::Failed(failure(
            ErrorKind::MountState,
            "Mountpoint /mnt/x is not empty; choose an empty directory",
        )));
    match &s.screen {
        Screen::Notice { error, back } => {
            assert_eq!(error.kind, ErrorKind::MountState);
            assert_eq!(*back, Back::ArchiveMenu { archive: 1 });
        }
        other => panic!("expected a notice, got {other:?}"),
    }
    assert!(s.mount.is_none());
    let s = s.advance(Input::Done);
    assert!(matches!(s.screen, Screen::ArchiveMenu { archive: 1 }));
    assert_eq!(s.archives.len(), 2);
}

#[test]
fn a_second_mount_needs_the_first_unmounted() {
    let s = with_mount();
    assert!(matches!(s.screen, Screen::ArchiveMenu { archive: 0 }));
    let s = s.advance(Input::Choice(Some(1)));
    assert!(matches!(s.screen, Screen::ConfirmUnmount { archive: 0 }));
    assert_eq!(s.mount.as_ref().unwrap().mountpoint, "/mnt/x");

    let s = s.advance(Input::Answer(true));
    assert!(matches!(s.screen, Screen::UnmountFirst { archive: 0 }));
    assert!(s.mount.is_some());

    let s = s.advance(Input::Done);
    assert!(matches!(s.screen, Screen::AskMountpoint { archive: 0 }));
    assert!(s.mount.is_none());
    match &s.report {
        Some(Report::Unmounted { mountpoint }) => assert_eq!(mountpoint, "/mnt/x"),
        other => panic!("expected a report, got {other:?}"),
    }

    let s = s.advance(Input::Text("/mnt/y".into())).advance(Input::Done);
    let mount = s.mount.as_ref().unwrap();
    assert_eq!(mount.archive, "home-1");
    assert_eq!(mount.mountpoint, "/mnt/y");
}

#[test]
fn declining_to_unmount_aborts_the_mount_without_side_effects() {
    let s = with_mount()
        .advance(Input::Choice(Some(1)))
        .advance(Input::Answer(false));
    assert!(matches!(s.screen, Screen::MainMenu));
    let mount = s.mount.as_ref().unwrap();
    assert_eq!(mount.archive, "home-2");
    assert_eq!(mount.mountpoint, "/mnt/x");
    assert_eq!(s.archives.len(), 2);
    assert!(s.report.is_none());
}

#[test]
fn unmount_current_ends_the_mount() {
    let s = with_mount().advance(Input::Choice(Some(2)));
    assert!(matches!(s.screen, Screen::Unmounting { archive: 0 }));
    assert!(s.mount.is_some());
    let s = s.advance(Input::Done);
    assert!(matches!(s.screen, Screen::MainMenu));
    assert!(s.mount.is_none());
    match &s.report {
        Some(Report::Unmounted { mountpoint }) => assert_eq!(mountpoint, "/mnt/x"),
        other => panic!("expected a report, got {other:?}"),
    }
}

#[test]
fn a_failed_unmount_keeps_the_mount() {
    let s = with_mount()
        .advance(Input::Choice(Some(2)))
        .advance(Input::Failed(failure(
            ErrorKind::OperationFailed,
            "borg umount failed with status exit status: 2: busy",
        )));
    assert!(matches!(
        s.screen,
        Screen::Notice {
            back: Back::ArchiveMenu { archive: 0 },
            ..
        }
    ));
    assert_eq!(s.mount.as_ref().unwrap().mountpoint, "/mnt/x");
}

#[test]
fn unmount_is_not_offered_with_nothing_mounted() {
    let s = at_archive_menu(true).advance(Input::Choice(Some(2)));
    assert!(matches!(s.screen, Screen::ArchiveList));
}

#[test]
fn browsing_lists_the_entries_of_the_archive() {
    let s = at_archive_menu(true).advance(Input::Choice(Some(0)));
    assert!(matches!(s.screen, Screen::LoadItems { archive: 1 }));
    let s = s.advance(Input::Items(items()));
    assert!(matches!(s.screen, Screen::ItemList { archive: 1 }));
    assert_eq!(s.items.len(), 2);
    assert!(s.items[1].path.ends_with("hello.txt"));
}

#[test]
fn an_archive_without_entries_returns_to_the_archives() {
    let s = at_archive_menu(true)
        .advance(Input::Choice(Some(0)))
        .advance(Input::Items(vec![]));
    assert!(matches!(s.screen, Screen::ArchiveList));
    assert!(matches!(s.report, Some(Report::NoFiles { archive: 1 })));
}

#[test]
fn back_from_the_entries_returns_to_the_archives() {
    let s = at_archive_menu(true)
        .advance(Input::Choice(Some(0)))
        .advance(Input::Items(items()))
        .advance(Input::Choice(Some(2)));
    assert!(matches!(s.screen, Screen::ArchiveList));
    assert_eq!(s.archives.len(), 2);
}

#[test]
fn declining_extraction_returns_to_the_entries() {
    let s = at_archive_menu(true)
        .advance(Input::Choice(Some(0)))
        .advance(Input::Items(items()))
        .advance(Input::Choice(Some(1)));
    assert!(matches!(
        s.screen,
        Screen::ConfirmExtract {
            archive: 1,
            item: 1
        }
    ));
    let s = s.advance(Input::Answer(false));
    assert!(matches!(s.screen, Screen::ItemList { archive: 1 }));
    assert_eq!(s.items.len(), 2);
}

#[test]
fn extraction_asks_for_the_destination() {
    let s = at_archive_menu(true)
        .advance(Input::Choice(Some(0)))
        .advance(Input::Items(items()))
        .advance(Input::Choice(Some(1)))
        .advance(Input::Answer(true));
    assert!(matches!(
        s.screen,
        Screen::AskDestination {
            archive: 1,
            item: 1
        }
    ));
    let s = s.advance(Input::Text("/tmp/out".into()));
    match &s.screen {
        Screen::Extracting {
            archive,
            item,
            dest,
        } => {
            assert_eq!((*archive, *item), (1, 1));
            assert_eq!(dest, "/tmp/out");
        }
        other => panic!("expected extracting, got {other:?}"),
    }
    let s = s.advance(Input::Done);
    assert!(matches!(s.screen, Screen::ItemList { archive: 1 }));
    match &s.report {
        Some(Report::Extracted { dest }) => assert_eq!(dest, "/tmp/out"),
        other => panic!("expected a report, got {other:?}"),
    }
}

#[test]
fn a_failed_extraction_returns_to_the_entries() {
    let s = at_archive_menu(true)
        .advance(Input::Choice(Some(0)))
        .advance(Input::Items(items()))
        .advance(Input::Choice(Some(1)))
        .advance(Input::Answer(true))
        .advance(Input::Text("/tmp/out".into()))
        .advance(Input::Failed(failure(ErrorKind::OperationFailed, "nope")));
    assert!(matches!(
        s.screen,
        Screen::Notice {
            back: Back::ItemList { archive: 1 },
            ..
        }
    ));
    let s = s.advance(Input::Done);
    assert!(matches!(s.screen, Screen::ItemList { archive: 1 }));
}

#[test]
fn backups_offer_the_presets() {
    let s = start(true)
        .advance(Input::Choice(Some(1)))
        .advance(Input::Done);
    assert!(matches!(s.screen, Screen::PresetList));
    assert!(matches!(
        s.advance(Input::Choice(Some(0))).screen,
        Screen::RunBackup { preset: 0 }
    ));
}

#[test]
fn a_finished_backup_returns_to_the_main_menu() {
    let s = start(true)
        .advance(Input::Choice(Some(1)))
        .advance(Input::Done)
        .advance(Input::Choice(Some(0)))
        .advance(Input::Done);
    assert!(matches!(s.screen, Screen::MainMenu));
}

#[test]
fn a_failed_backup_is_shown_and_returns_to_the_presets() {
    let s = start(true)
        .advance(Input::Choice(Some(1)))
        .advance(Input::Done)
        .advance(Input::Choice(Some(0)))
        .advance(Input::Failed(failure(
            ErrorKind::OperationFailed,
            "borg create failed with status exit status: 2: boom",
        )));
    match &s.screen {
        Screen::Notice { error, back } => {
            assert_eq!(
                error.message,
                "borg create failed with status exit status: 2: boom"
            );
            assert_eq!(*back, Back::PresetList);
        }
        other => panic!("expected a notice, got {other:?}"),
    }
    let s = s.advance(Input::Done);
    assert!(matches!(s.screen, Screen::PresetList));
    assert_eq!(s.repo.name, "local");
}

#[test]
fn a_missing_engine_ends_the_session() {
    let s = start(true)
        .advance(Input::Choice(Some(0)))
        .advance(Input::Done)
        .advance(Input::Failed(failure(
            ErrorKind::EngineInvocationFailed,
            "Failed to invoke borg binary",
        )));
    match &s.screen {
        Screen::Aborted(e) => assert_eq!(e.kind, ErrorKind::EngineInvocationFailed),
        other => panic!("expected the end, got {other:?}"),
    }
    let s = s.advance(Input::Done);
    assert!(matches!(s.screen, Screen::Aborted(_)));
}

#[test]
fn malformed_output_ends_the_session() {
    let s = at_archive_menu(true)
        .advance(Input::Choice(Some(0)))
        .advance(Input::Failed(failure(
            ErrorKind::MalformedEngineOutput,
            "Failed to parse JSON line 3 from borg output",
        )));
    assert!(matches!(s.screen, Screen::Aborted(_)));
}

#[test]
fn a_failed_listing_is_shown_and_returns_to_the_main_menu() {
    let s = start(true)
        .advance(Input::Choice(Some(0)))
        .advance(Input::Done)
        .advance(Input::Failed(failure(ErrorKind::OperationFailed, "nope")));
    assert!(matches!(
        s.screen,
        Screen::Notice {
            back: Back::Main,
            ..
        }
    ));
    assert!(matches!(s.advance(Input::Done).screen, Screen::MainMenu));
}

#[test]
fn without_presets_one_is_offered() {
    let s = Session::start(repo(vec![]), true)
        .advance(Input::Choice(Some(1)))
        .advance(Input::Done);
    assert!(matches!(s.screen, Screen::OfferPreset));
    let declined = Session::start(repo(vec![]), true)
        .advance(Input::Choice(Some(1)))
        .advance(Input::Done)
        .advance(Input::Answer(false));
    assert!(matches!(declined.screen, Screen::MainMenu));
    let s = s.advance(Input::Answer(true));
    assert!(matches!(s.screen, Screen::NewPreset { run: false }));
    let s = s.advance(Input::Preset(Some(preset("fresh"))));
    assert!(matches!(s.screen, Screen::CommitPreset { run: false }));
    assert_eq!(s.repo.backups.len(), 1);
    assert_eq!(s.repo.backups[0].name, "fresh");
    let s = s.advance(Input::Done);
    assert!(matches!(s.screen, Screen::MainMenu));
}

#[test]
fn a_preset_created_from_the_list_is_run_at_once() {
    let s = start(true)
        .advance(Input::Choice(Some(1)))
        .advance(Input::Done)
        .advance(Input::Choice(Some(1)));
    assert!(matches!(s.screen, Screen::NewPreset { run: true }));
    let s = s.advance(Input::Preset(Some(preset("fresh"))));
    assert!(matches!(s.screen, Screen::CommitPreset { run: true }));
    assert_eq!(s.repo.backups.len(), 2);
    assert_eq!(s.repo.backups[0].name, "test");
    assert_eq!(s.repo.backups[1].name, "fresh");
    let s = s.advance(Input::Done);
    assert!(matches!(s.screen, Screen::RunBackup { preset: 1 }));
}

#[test]
fn an_abandoned_preset_changes_nothing() {
    let s = start(true)
        .advance(Input::Choice(Some(1)))
        .advance(Input::Done)
        .advance(Input::Choice(Some(1)))
        .advance(Input::Preset(None));
    assert!(matches!(s.screen, Screen::MainMenu));
    assert_eq!(s.repo.backups.len(), 1);
}

#[test]
fn back_from_the_presets_returns_to_the_main_menu() {
    let listed = || {
        start(true)
            .advance(Input::Choice(Some(1)))
            .advance(Input::Done)
    };
    assert!(matches!(
        listed().advance(Input::Choice(Some(2))).screen,
        Screen::MainMenu
    ));
    assert!(matches!(
        listed().advance(Input::Choice(None)).screen,
        Screen::MainMenu
    ));
}

#[test]
fn the_mount_survives_a_change_of_repository_only_as_long_as_the_session() {
    let s = with_mount()
        .advance(Input::Choice(None))
        .advance(Input::Choice(None))
        .advance(Input::Choice(Some(2)));
    assert!(matches!(
        s.screen,
        Screen::Finished(InteractiveOutcome::ChangeRepo)
    ));
    assert_eq!(s.mount.as_ref().unwrap().mountpoint, "/mnt/x");
    let fresh = Session::start(repo(vec![]), true);
    assert!(fresh.mount.is_none());
}

#[test]
fn a_backup_of_a_preset_without_includes_is_shown_and_returns_to_the_presets() {
    let s = start(true)
        .advance(Input::Choice(Some(1)))
        .advance(Input::Done)
        .advance(Input::Choice(Some(0)))
        .advance(Input::Failed(failure(
            ErrorKind::Configuration,
            "Backup 'test' has no includes configured",
        )));
    match &s.screen {
        Screen::Notice { error, back } => {
            assert_eq!(error.kind, ErrorKind::Configuration);
            assert_eq!(error.message, "Backup 'test' has no includes configured");
            assert_eq!(*back, Back::PresetList);
        }
        other => panic!("expected a notice, got {other:?}"),
    }
    let s = s.advance(Input::Done);
    assert!(matches!(s.screen, Screen::PresetList));
    assert_eq!(s.repo.backups.len(), 1);
}

#[test]
fn no_failure_of_a_backup_ends_the_session() {
    for kind in [
        ErrorKind::Configuration,
        ErrorKind::SelectionAbandoned,
        ErrorKind::EngineInvocationFailed,
        ErrorKind::OperationFailed,
        ErrorKind::MalformedEngineOutput,
        ErrorKind::MountState,
    ] {
        let s = start(true)
            .advance(Input::Choice(Some(1)))
            .advance(Input::Done)
            .advance(Input::Choice(Some(0)))
            .advance(Input::Failed(failure(kind, "boom")));
        assert!(matches!(
            s.screen,
            Screen::Notice {
                back: Back::PresetList,
                ..
            }
        ));
        assert!(matches!(s.advance(Input::Done).screen, Screen::PresetList));
    }
}
