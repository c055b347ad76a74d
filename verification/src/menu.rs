//! The menus of the console: what each offers, and which entry an answer
//! picks. An answer is the position the operator chose, or nothing where
//! the operator pressed Escape.

use crate::config::{BackupConfig, BackupConfigView};
use crate::engine::{BorgArchive, BorgArchiveView, BorgItem};
use crate::error::{ErrorKind, ToolError, ToolErrorView};
use crate::text::text3;
use vstd::prelude::*;

verus! {

/// What can be done with an archive.
#[derive(Clone, Copy, Debug, PartialEq, Eq, Structural)]
pub enum ArchiveAction {
    Browse,
    Mount,
    UnmountCurrent,
    Back,
}

/// What the main menu offers.
#[derive(Clone, Copy, Debug, PartialEq, Eq, Structural)]
pub enum MainAction {
    Archives,
    Backups,
    BackRepo,
    Quit,
}

/// How an interactive session ended.
#[derive(Clone, Copy, Debug, PartialEq, Eq, Structural)]
pub enum InteractiveOutcome {
    /// The operator is done.
    Quit,
    /// The operator wants to work on another repository.
    ChangeRepo,
}

/// What the operator chose in the list of backup presets.
#[derive(Debug)]
pub enum BackupChoice {
    Preset(BackupConfig),
    CreateNew,
    Back,
}

/// What a [`BackupChoice`] holds.
pub enum BackupChoiceView {
    Preset(BackupConfigView),
    CreateNew,
    Back,
}

impl View for BackupChoice {
    type V = BackupChoiceView;

    open spec fn view(&self) -> BackupChoiceView {
        match *self {
            BackupChoice::Preset(p) => BackupChoiceView::Preset(p@),
            BackupChoice::CreateNew => BackupChoiceView::CreateNew,
            BackupChoice::Back => BackupChoiceView::Back,
        }
    }
}

/// The entry of the main menu that an answer picks: the entries in their
/// order, "change repository" for Escape, and "quit" for anything else.
pub open spec fn main_action(choice: Option<usize>) -> MainAction {
    match choice {
        Some(i) => if i == 0 {
            MainAction::Archives
        } else if i == 1 {
            MainAction::Backups
        } else if i == 2 {
            MainAction::BackRepo
        } else {
            MainAction::Quit
        },
        None => MainAction::BackRepo,
    }
}

/// The entry of the main menu that an answer picks.
pub fn select_main_action(choice: Option<usize>) -> (r: MainAction)
    ensures
        r == main_action(choice),
{
    match choice {
        Some(0) => MainAction::Archives,
        Some(1) => MainAction::Backups,
        Some(2) => MainAction::BackRepo,
        None => MainAction::BackRepo,
        _ => MainAction::Quit,
    }
}

/// What the archive menu offers, in its order: browsing always, mounting
/// only where the engine can mount, unmounting only while an archive is
/// mounted, and the way back always.
pub open spec fn action_options(has_mount: bool, mount_available: bool) -> Seq<ArchiveAction> {
    seq![ArchiveAction::Browse] + (if mount_available {
        seq![ArchiveAction::Mount]
    } else {
        Seq::empty()
    }) + (if has_mount {
        seq![ArchiveAction::UnmountCurrent]
    } else {
        Seq::empty()
    }) + seq![ArchiveAction::Back]
}

/// The entry of the archive menu that an answer picks; the way back for
/// Escape and for a position the menu does not have.
pub open spec fn archive_action(
    choice: Option<usize>,
    has_mount: bool,
    mount_available: bool,
) -> ArchiveAction {
    let options = action_options(has_mount, mount_available);
    match choice {
        Some(i) => if i < options.len() {
            options[i as int]
        } else {
            ArchiveAction::Back
        },
        None => ArchiveAction::Back,
    }
}

/// What the archive menu offers, in its order.
pub fn archive_actions(has_mount: bool, mount_available: bool) -> (r: Vec<ArchiveAction>)
    ensures
        r@ == action_options(has_mount, mount_available),
{
    let mut r: Vec<ArchiveAction> = Vec::new();
    r.push(ArchiveAction::Browse);
    if mount_available {
        r.push(ArchiveAction::Mount);
    }
    if has_mount {
        r.push(ArchiveAction::UnmountCurrent);
    }
    r.push(ArchiveAction::Back);
    r
}

/// The entry of the archive menu that an answer picks.
pub fn select_archive_action(choice: Option<usize>, has_mount: bool, mount_available: bool) -> (r:
    ArchiveAction)
    ensures
        r == archive_action(choice, has_mount, mount_available),
{
    let options = archive_actions(has_mount, mount_available);
    match choice {
        Some(i) => if i < options.len() {
            options[i]
        } else {
            ArchiveAction::Back
        },
        None => ArchiveAction::Back,
    }
}

/// Mounting is offered only where the engine can mount, and unmounting
/// only while an archive is mounted: no answer picks the one or the other
/// otherwise.
pub proof fn lemma_actions_offered(choice: Option<usize>, has_mount: bool, mount_available: bool)
    ensures
        archive_action(choice, has_mount, mount_available) == ArchiveAction::Mount
            ==> mount_available,
        archive_action(choice, has_mount, mount_available) == ArchiveAction::UnmountCurrent
            ==> has_mount,
        action_options(has_mount, mount_available).contains(ArchiveAction::Mount)
            <==> mount_available,
        action_options(has_mount, mount_available).contains(ArchiveAction::UnmountCurrent)
            <==> has_mount,
{
    let options = action_options(has_mount, mount_available);
    if mount_available {
        assert(options[1] == ArchiveAction::Mount);
    }
    if has_mount {
        if mount_available {
            assert(options[2] == ArchiveAction::UnmountCurrent);
        } else {
            assert(options[1] == ArchiveAction::UnmountCurrent);
        }
    }
}

/// The position in a list of `len` entries that an answer picks; nothing
/// for Escape and for what lies behind the list (the way back).
pub open spec fn picked(len: nat, choice: Option<usize>) -> Option<usize> {
    match choice {
        Some(i) => if i < len {
            Some(i)
        } else {
            None
        },
        None => None,
    }
}

/// The position in a list of `len` entries that an answer picks.
pub fn pick(len: usize, choice: Option<usize>) -> (r: Option<usize>)
    ensures
        r == picked(len as nat, choice),
{
    match choice {
        Some(i) => if i < len {
            Some(i)
        } else {
            None
        },
        None => None,
    }
}

/// The archive that an answer picks from the list.
pub fn select_archive(archives: &Vec<BorgArchive>, choice: Option<usize>) -> (r: Option<
    BorgArchive,
>)
    ensures
        r.deep_view() == match picked(archives.len() as nat, choice) {
            Some(i) => Some(archives.deep_view()[i as int]),
            None => None,
        },
{
    match pick(archives.len(), choice) {
        Some(i) => Some(archives[i].clone()),
        None => None,
    }
}

/// The entry that an answer picks from the list.
pub fn select_item(items: &Vec<BorgItem>, choice: Option<usize>) -> (r: Option<BorgItem>)
    ensures
        r.deep_view() == match picked(items.len() as nat, choice) {
            Some(i) => Some(items.deep_view()[i as int]),
            None => None,
        },
{
    match pick(items.len(), choice) {
        Some(i) => Some(items[i].clone()),
        None => None,
    }
}

/// What an answer picks in the list of presets: a preset, the entry right
/// behind them that creates a new one, or the way back.
pub open spec fn backup_choice(backups: Seq<BackupConfigView>, choice: Option<usize>) -> BackupChoiceView {
    match choice {
        Some(i) => if i < backups.len() {
            BackupChoiceView::Preset(backups[i as int])
        } else if i == backups.len() {
            BackupChoiceView::CreateNew
        } else {
            BackupChoiceView::Back
        },
        None => BackupChoiceView::Back,
    }
}

/// What an answer picks in the list of presets.
pub fn select_backup(backups: &Vec<BackupConfig>, choice: Option<usize>) -> (r: BackupChoice)
    ensures
        r@ == backup_choice(backups.deep_view(), choice),
{
    match choice {
        Some(i) => if i < backups.len() {
            BackupChoice::Preset(backups[i].clone())
        } else if i == backups.len() {
            BackupChoice::CreateNew
        } else {
            BackupChoice::Back
        },
        None => BackupChoice::Back,
    }
}

/// The failure of a command that runs once and was left without the
/// choice it needs.
pub open spec fn abandoned(what: Seq<char>) -> ToolErrorView {
    ToolErrorView { kind: ErrorKind::SelectionAbandoned, message: "No "@ + what + " selected"@ }
}

fn abandon(what: &str) -> (e: ToolError)
    ensures
        e@ == abandoned(what@),
{
    ToolError::new(ErrorKind::SelectionAbandoned, text3("No ", what, " selected"))
}

/// The archive a command that runs once works on, going by the operator's
/// answer: the archive that was picked, and a failure where none was.
pub fn require_archive(archives: &Vec<BorgArchive>, choice: Option<usize>) -> (r: Result<
    BorgArchive,
    ToolError,
>)
    ensures
        match picked(archives.len() as nat, choice) {
            Some(i) => r is Ok && r->Ok_0@ == archives.deep_view()[i as int],
            None => r is Err && r->Err_0@ == abandoned("archive"@),
        },
{
    match select_archive(archives, choice) {
        Some(a) => Ok(a),
        None => Err(abandon("archive")),
    }
}

/// The preset a command that runs once works on, going by the operator's
/// answer: the preset that was picked, and a failure where none was.
pub fn require_backup(backups: &Vec<BackupConfig>, choice: Option<usize>) -> (r: Result<
    BackupConfig,
    ToolError,
>)
    ensures
        match picked(backups.len() as nat, choice) {
            Some(i) => r is Ok && r->Ok_0@ == backups.deep_view()[i as int],
            None => r is Err && r->Err_0@ == abandoned("backup preset"@),
        },
{
    match select_backup(backups, choice) {
        BackupChoice::Preset(p) => Ok(p),
        _ => Err(abandon("backup preset")),
    }
}

} // verus!
