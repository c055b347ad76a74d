//! What the console shows: the lines of its screens, the entries of its
//! menus, its questions and its messages, as text.

use crate::config::{status_label, status_text, BackupConfig, BackupConfigView, RepoCtx, RepoCtxView};
use crate::engine::{BorgArchive, BorgArchiveView, BorgItem, BorgItemView, RunResult, RunResultView};
use crate::error::{ToolError, ToolErrorView};
use crate::menu::{action_options, archive_actions, ArchiveAction};
use crate::mount::{MountInfo, MountInfoView};
use crate::nav::{Back, Report, ReportView, Session, SessionView};
use crate::text::{
    decimal, decimal_string, is_blank, join, join_with, no_texts, pad_right, padded, push_text,
    push_texts, text2, text3, text4, text5, text6, text7, trim, trimmed,
};
use crate::wizard::{Remark, RepoDraft, RepoDraftView};
use vstd::prelude::*;

verus! {

/// The lines of a screen: its title, then what it has to say, followed by
/// an empty line where it says anything.
pub open spec fn step_lines(title: Seq<char>, lines: Seq<Seq<char>>) -> Seq<Seq<char>> {
    if lines.len() > 0 {
        seq![title] + lines + seq![Seq::<char>::empty()]
    } else {
        seq![title]
    }
}

/// The lines of a screen, to be written on a cleared terminal.
pub fn show_step(title: &str, lines: &Vec<String>) -> (r: Vec<String>)
    ensures
        r.deep_view() == step_lines(title@, lines.deep_view()),
{
    let mut r = no_texts();
    push_text(&mut r, title);
    if lines.len() > 0 {
        push_texts(&mut r, lines);
        push_text(&mut r, "");
        proof {
            reveal_strlit("");
            assert(""@ =~= Seq::<char>::empty());
        }
    }
    r
}

/// What the head line says of mounting.
pub open spec fn mount_note(mount_available: bool, mount: Option<MountInfoView>) -> Seq<char> {
    if mount_available {
        match mount {
            Some(m) => "Mount: "@ + m.archive + " @ "@ + m.mountpoint,
            None => "Mount: none"@,
        }
    } else {
        "Mount: unavailable"@
    }
}

/// The head line of a screen: the host, the repository, and what is
/// mounted.
pub open spec fn head_line(
    host: Seq<char>,
    repo: RepoCtxView,
    mount_available: bool,
    mount: Option<MountInfoView>,
) -> Seq<char> {
    "Host: "@ + host + " | Repo: "@ + repo.name + " ("@ + repo.repo + ") | "@ + mount_note(
        mount_available,
        mount,
    )
}

/// The head line of a screen.
pub fn header(host: &str, repo: &RepoCtx, mount_available: bool, mount: Option<&MountInfo>) -> (r:
    String)
    ensures
        r@ == head_line(host@, repo@, mount_available, mount.deep_view()),
{
    let note = if mount_available {
        match mount {
            Some(m) => text4("Mount: ", m.archive.as_str(), " @ ", m.mountpoint.as_str()),
            None => "Mount: none".to_owned(),
        }
    } else {
        "Mount: unavailable".to_owned()
    };
    text7(
        "Host: ",
        host,
        " | Repo: ",
        repo.name.as_str(),
        " (",
        repo.repo.as_str(),
        text2(") | ", note.as_str()).as_str(),
    )
}

/// The lines of a screen within a session: the head line, an empty line,
/// then the screen itself.
pub open spec fn ctx_lines(
    title: Seq<char>,
    lines: Seq<Seq<char>>,
    host: Seq<char>,
    repo: RepoCtxView,
    mount_available: bool,
    mount: Option<MountInfoView>,
) -> Seq<Seq<char>> {
    seq![head_line(host, repo, mount_available, mount), Seq::<char>::empty()] + step_lines(
        title,
        lines,
    )
}

/// The lines of a screen within a session, to be written on a cleared
/// terminal.
pub fn show_step_with_ctx(
    title: &str,
    lines: &Vec<String>,
    host: &str,
    repo: &RepoCtx,
    mount_available: bool,
    mount: Option<&MountInfo>,
) -> (r: Vec<String>)
    ensures
        r.deep_view() == ctx_lines(
            title@,
            lines.deep_view(),
            host@,
            repo@,
            mount_available,
            mount.deep_view(),
        ),
{
    let mut r = no_texts();
    push_text(&mut r, header(host, repo, mount_available, mount).as_str());
    push_text(&mut r, "");
    proof {
        reveal_strlit("");
        assert(""@ =~= Seq::<char>::empty());
    }
    let body = show_step(title, lines);
    push_texts(&mut r, &body);
    r
}

/// The line that names the repository.
pub open spec fn repo_text(repo: RepoCtxView) -> Seq<char> {
    "Repo: "@ + repo.name + " ("@ + repo.repo + ")"@
}

/// The line that names the repository.
pub fn repo_line(repo: &RepoCtx) -> (r: String)
    ensures
        r@ == repo_text(repo@),
{
    text5("Repo: ", repo.name.as_str(), " (", repo.repo.as_str(), ")")
}

/// The line that tells what is mounted.
pub open spec fn mounted_text(m: MountInfoView) -> Seq<char> {
    "Mounted: "@ + m.archive + " @ "@ + m.mountpoint
}

/// The line that tells how mounting stands.
pub open spec fn mount_text(mount_available: bool, mount: Option<MountInfoView>) -> Seq<char> {
    if mount_available {
        match mount {
            Some(m) => mounted_text(m),
            None => "Mount available (none mounted)"@,
        }
    } else {
        "Mount unavailable (no FUSE support detected)"@
    }
}

/// The line that tells how mounting stands.
pub fn mount_line(mount_available: bool, mount: Option<&MountInfo>) -> (r: String)
    ensures
        r@ == mount_text(mount_available, mount.deep_view()),
{
    if mount_available {
        match mount {
            Some(m) => text4("Mounted: ", m.archive.as_str(), " @ ", m.mountpoint.as_str()),
            None => "Mount available (none mounted)".to_owned(),
        }
    } else {
        "Mount unavailable (no FUSE support detected)".to_owned()
    }
}

/// When an archive was made, as it is shown: a dash where it is not
/// known.
pub open spec fn time_text(time: Option<Seq<char>>) -> Seq<char> {
    match time {
        Some(t) => t,
        None => "-"@,
    }
}

/// The line that names an archive.
pub open spec fn archive_text(a: BorgArchiveView) -> Seq<char> {
    "Archive: "@ + a.name + " ["@ + time_text(a.time_utc) + "]"@
}

fn time_of(a: &BorgArchive) -> (r: String)
    ensures
        r@ == time_text(a@.time_utc),
{
    match &a.time_utc {
        Some(t) => t.clone(),
        None => "-".to_owned(),
    }
}

/// The line that names an archive.
pub fn archive_line(a: &BorgArchive) -> (r: String)
    ensures
        r@ == archive_text(a@),
{
    text5("Archive: ", a.name.as_str(), " [", time_of(a).as_str(), "]")
}

/// What the main menu has to say.
pub open spec fn main_text(s: SessionView) -> Seq<Seq<char>> {
    seq![repo_text(s.repo), mount_text(s.mount_available, s.mount)]
}

/// What the list of archives has to say.
pub open spec fn archives_text(s: SessionView) -> Seq<Seq<char>> {
    seq![
        repo_text(s.repo),
        "Archives found: "@ + decimal(s.archives.len()),
        mount_text(s.mount_available, s.mount),
    ]
}

/// What the menu of an archive has to say.
pub open spec fn action_text(s: SessionView, a: BorgArchiveView) -> Seq<Seq<char>> {
    seq![repo_text(s.repo), archive_text(a)] + match s.mount {
        Some(m) => seq![mounted_text(m)],
        None => Seq::empty(),
    }
}

/// What the list of an archive's entries has to say.
pub open spec fn browse_text(s: SessionView, a: BorgArchiveView) -> Seq<Seq<char>> {
    seq![repo_text(s.repo), archive_text(a)]
}

fn mount_ref(s: &Session) -> (r: Option<&MountInfo>)
    ensures
        r.deep_view() == s@.mount,
{
    match &s.mount {
        Some(m) => Some(m),
        None => None,
    }
}

/// What the main menu has to say.
pub fn main_info(s: &Session) -> (r: Vec<String>)
    ensures
        r.deep_view() == main_text(s@),
{
    let mut r = no_texts();
    push_text(&mut r, repo_line(&s.repo).as_str());
    push_text(&mut r, mount_line(s.mount_available, mount_ref(s)).as_str());
    r
}

/// What the list of archives has to say.
pub fn archive_info(s: &Session) -> (r: Vec<String>)
    ensures
        r.deep_view() == archives_text(s@),
{
    let mut r = no_texts();
    push_text(&mut r, repo_line(&s.repo).as_str());
    push_text(&mut r, text2("Archives found: ", decimal_string(s.archives.len()).as_str()).as_str());
    push_text(&mut r, mount_line(s.mount_available, mount_ref(s)).as_str());
    r
}

/// What the menu of the archive `a` has to say.
pub fn action_info(s: &Session, a: &BorgArchive) -> (r: Vec<String>)
    ensures
        r.deep_view() == action_text(s@, a@),
{
    let mut r = no_texts();
    push_text(&mut r, repo_line(&s.repo).as_str());
    push_text(&mut r, archive_line(a).as_str());
    if let Some(m) = &s.mount {
        push_text(&mut r, text4("Mounted: ", m.archive.as_str(), " @ ", m.mountpoint.as_str()).as_str());
    }
    r
}

/// What the list of the entries of the archive `a` has to say.
pub fn browse_info(s: &Session, a: &BorgArchive) -> (r: Vec<String>)
    ensures
        r.deep_view() == browse_text(s@, a@),
{
    let mut r = no_texts();
    push_text(&mut r, repo_line(&s.repo).as_str());
    push_text(&mut r, archive_line(a).as_str());
    r
}

/// The entry of a repository in the list to choose from.
pub open spec fn repo_label(r: RepoCtxView) -> Seq<char> {
    r.name + "  ("@ + r.repo + ") ["@ + status_text(r.status) + "]"@
}

/// The list of repositories to choose from: the repositories with their
/// status, the entry that sets up a new one, and the entry that leaves.
pub open spec fn repo_menu(repos: Seq<RepoCtxView>) -> Seq<Seq<char>> {
    Seq::new(repos.len(), |i: int| repo_label(repos[i])) + seq![
        "Set up new repository"@,
        "Quit"@,
    ]
}

/// The list of repositories to choose from.
pub fn repo_labels(repos: &Vec<RepoCtx>) -> (r: Vec<String>)
    ensures
        r.deep_view() == repo_menu(repos.deep_view()),
{
    let mut r = no_texts();
    let ghost all = Seq::new(repos.deep_view().len(), |i: int| repo_label(repos.deep_view()[i]));
    let mut i: usize = 0;
    while i < repos.len()
        invariant
            i <= repos.len(),
            all == Seq::new(repos.deep_view().len(), |i: int| repo_label(repos.deep_view()[i])),
            r.deep_view() == all.take(i as int),
        decreases repos.len() - i,
    {
        let x = &repos[i];
        push_text(
            &mut r,
            text6(
                x.name.as_str(),
                "  (",
                x.repo.as_str(),
                ") [",
                status_label(x.status),
                "]",
            ).as_str(),
        );
        i += 1;
    }
    push_text(&mut r, "Set up new repository");
    push_text(&mut r, "Quit");
    r
}

/// The entry of an archive in the list to choose from.
pub open spec fn archive_label(a: BorgArchiveView) -> Seq<char> {
    a.name + "  ["@ + time_text(a.time_utc) + "]"@
}

/// The list of archives to choose from, with the way back at its end.
pub open spec fn archive_menu(archives: Seq<BorgArchiveView>) -> Seq<Seq<char>> {
    Seq::new(archives.len(), |i: int| archive_label(archives[i])) + seq!["Back"@]
}

/// The list of archives to choose from.
pub fn archive_labels(archives: &Vec<BorgArchive>) -> (r: Vec<String>)
    ensures
        r.deep_view() == archive_menu(archives.deep_view()),
{
    let mut r = no_texts();
    let ghost all = Seq::new(
        archives.deep_view().len(),
        |i: int| archive_label(archives.deep_view()[i]),
    );
    let mut i: usize = 0;
    while i < archives.len()
        invariant
            i <= archives.len(),
            all == Seq::new(
                archives.deep_view().len(),
                |i: int| archive_label(archives.deep_view()[i]),
            ),
            r.deep_view() == all.take(i as int),
        decreases archives.len() - i,
    {
        let a = &archives[i];
        push_text(&mut r, text4(a.name.as_str(), "  [", time_of(a).as_str(), "]").as_str());
        i += 1;
    }
    push_text(&mut r, "Back");
    r
}

/// The kind of an entry, as it is shown: nothing where it is not known.
pub open spec fn kind_text(kind: Option<Seq<char>>) -> Seq<char> {
    match kind {
        Some(k) => k,
        None => Seq::empty(),
    }
}

/// A row of two columns: the first filled up to `width`, a space, the
/// second.
pub open spec fn row(first: Seq<char>, width: nat, second: Seq<char>) -> Seq<char> {
    pad_right(first, width) + " "@ + second
}

fn make_row(first: &str, width: usize, second: &str) -> (r: String)
    ensures
        r@ == row(first@, width as nat, second@),
{
    text3(padded(first, width).as_str(), " ", second)
}

fn kind_of(item: &BorgItem) -> (r: String)
    ensures
        r@ == kind_text(item@.item_type),
{
    match &item.item_type {
        Some(k) => k.clone(),
        None => String::new(),
    }
}

/// The list of an archive's entries to choose from, each with its kind in
/// a column of six, and the way back at its end.
pub open spec fn item_menu(items: Seq<BorgItemView>) -> Seq<Seq<char>> {
    Seq::new(items.len(), |i: int| row(kind_text(items[i].item_type), 6, items[i].path)) + seq![
        "Back"@,
    ]
}

/// The list of an archive's entries to choose from.
pub fn item_labels(items: &Vec<BorgItem>) -> (r: Vec<String>)
    ensures
        r.deep_view() == item_menu(items.deep_view()),
{
    let mut r = no_texts();
    let ghost all = Seq::new(
        items.deep_view().len(),
        |i: int| row(kind_text(items.deep_view()[i].item_type), 6, items.deep_view()[i].path),
    );
    let mut i: usize = 0;
    while i < items.len()
        invariant
            i <= items.len(),
            all == Seq::new(
                items.deep_view().len(),
                |i: int|
                    row(kind_text(items.deep_view()[i].item_type), 6, items.deep_view()[i].path),
            ),
            r.deep_view() == all.take(i as int),
        decreases items.len() - i,
    {
        let x = &items[i];
        push_text(&mut r, make_row(kind_of(x).as_str(), 6, x.path.as_str()).as_str());
        i += 1;
    }
    push_text(&mut r, "Back");
    r
}

/// The entry of a preset in the list to choose from.
pub open spec fn backup_label(b: BackupConfigView) -> Seq<char> {
    b.name + "  ("@ + decimal(b.includes.len()) + " includes)"@
}

/// The list of presets to choose from: the presets, the entry that
/// creates a new one, and the way back.
pub open spec fn backup_menu(backups: Seq<BackupConfigView>) -> Seq<Seq<char>> {
    Seq::new(backups.len(), |i: int| backup_label(backups[i])) + seq![
        "Create new backup preset"@,
        "Back"@,
    ]
}

/// The list of presets to choose from.
pub fn backup_labels(backups: &Vec<BackupConfig>) -> (r: Vec<String>)
    ensures
        r.deep_view() == backup_menu(backups.deep_view()),
{
    let mut r = no_texts();
    let ghost all = Seq::new(
        backups.deep_view().len(),
        |i: int| backup_label(backups.deep_view()[i]),
    );
    let mut i: usize = 0;
    while i < backups.len()
        invariant
            i <= backups.len(),
            all == Seq::new(
                backups.deep_view().len(),
                |i: int| backup_label(backups.deep_view()[i]),
            ),
            r.deep_view() == all.take(i as int),
        decreases backups.len() - i,
    {
        let b = &backups[i];
        push_text(
            &mut r,
            text4(
                b.name.as_str(),
                "  (",
                decimal_string(b.includes.len()).as_str(),
                " includes)",
            ).as_str(),
        );
        i += 1;
    }
    push_text(&mut r, "Create new backup preset");
    push_text(&mut r, "Back");
    r
}

/// What an entry of the archive menu is called.
pub open spec fn action_name(a: ArchiveAction) -> Seq<char> {
    match a {
        ArchiveAction::Browse => "Browse files"@,
        ArchiveAction::Mount => "Mount"@,
        ArchiveAction::UnmountCurrent => "Unmount current"@,
        ArchiveAction::Back => "Back"@,
    }
}

/// The entries of the archive menu, by name.
pub open spec fn action_menu(has_mount: bool, mount_available: bool) -> Seq<Seq<char>> {
    Seq::new(
        action_options(has_mount, mount_available).len(),
        |i: int| action_name(action_options(has_mount, mount_available)[i]),
    )
}

/// The entries of the archive menu, by name.
pub fn action_labels(has_mount: bool, mount_available: bool) -> (r: Vec<String>)
    ensures
        r.deep_view() == action_menu(has_mount, mount_available),
{
    let options = archive_actions(has_mount, mount_available);
    let mut r = no_texts();
    let ghost all = action_menu(has_mount, mount_available);
    let mut i: usize = 0;
    while i < options.len()
        invariant
            i <= options.len(),
            options@ == action_options(has_mount, mount_available),
            all == action_menu(has_mount, mount_available),
            r.deep_view() == all.take(i as int),
        decreases options.len() - i,
    {
        let name = match options[i] {
            ArchiveAction::Browse => "Browse files",
            ArchiveAction::Mount => "Mount",
            ArchiveAction::UnmountCurrent => "Unmount current",
            ArchiveAction::Back => "Back",
        };
        push_text(&mut r, name);
        i += 1;
    }
    r
}

/// The entries of the main menu, by name.
pub fn main_labels() -> (r: Vec<String>)
    ensures
        r.deep_view() == seq!["Archives"@, "Backups"@, "Change repository"@, "Quit"@],
{
    let mut r = no_texts();
    push_text(&mut r, "Archives");
    push_text(&mut r, "Backups");
    push_text(&mut r, "Change repository");
    push_text(&mut r, "Quit");
    r
}

/// The archives as they are printed: a line each, the name in a column of
/// forty and the time behind it; one line that says so where there is
/// none.
pub open spec fn archive_table(archives: Seq<BorgArchiveView>) -> Seq<Seq<char>> {
    if archives.len() == 0 {
        seq!["No archives found"@]
    } else {
        Seq::new(
            archives.len(),
            |i: int| row(archives[i].name, 40, time_text(archives[i].time_utc)),
        )
    }
}

/// The archives as they are printed.
pub fn archive_rows(archives: &Vec<BorgArchive>) -> (r: Vec<String>)
    ensures
        r.deep_view() == archive_table(archives.deep_view()),
{
    let mut r = no_texts();
    if archives.len() == 0 {
        push_text(&mut r, "No archives found");
        return r;
    }
    let ghost all = archive_table(archives.deep_view());
    let mut i: usize = 0;
    while i < archives.len()
        invariant
            i <= archives.len(),
            archives.len() > 0,
            all == archive_table(archives.deep_view()),
            r.deep_view() == all.take(i as int),
        decreases archives.len() - i,
    {
        let a = &archives[i];
        push_text(&mut r, make_row(a.name.as_str(), 40, time_of(a).as_str()).as_str());
        i += 1;
    }
    r
}

/// The entries of an archive as they are printed: a line each, the kind
/// in a column of eight and the path behind it; one line that says so
/// where there is none.
pub open spec fn item_table(items: Seq<BorgItemView>) -> Seq<Seq<char>> {
    if items.len() == 0 {
        seq!["No files in archive"@]
    } else {
        Seq::new(items.len(), |i: int| row(kind_text(items[i].item_type), 8, items[i].path))
    }
}

/// The entries of an archive as they are printed.
pub fn item_rows(items: &Vec<BorgItem>) -> (r: Vec<String>)
    ensures
        r.deep_view() == item_table(items.deep_view()),
{
    let mut r = no_texts();
    if items.len() == 0 {
        push_text(&mut r, "No files in archive");
        return r;
    }
    let ghost all = item_table(items.deep_view());
    let mut i: usize = 0;
    while i < items.len()
        invariant
            i <= items.len(),
            items.len() > 0,
            all == item_table(items.deep_view()),
            r.deep_view() == all.take(i as int),
        decreases items.len() - i,
    {
        let x = &items[i];
        push_text(&mut r, make_row(kind_of(x).as_str(), 8, x.path.as_str()).as_str());
        i += 1;
    }
    r
}

/// What a report says. A report of an archive that the session does not
/// list says nothing of its name.
pub open spec fn report_says(s: SessionView, report: ReportView) -> Seq<char> {
    match report {
        ReportView::NoArchives => "No archives found"@,
        ReportView::NoFiles { archive } => "No files in archive "@ + (if archive
            < s.archives.len() {
            s.archives[archive as int].name
        } else {
            Seq::empty()
        }),
        ReportView::Mounted => match s.mount {
            Some(m) => "Mounted "@ + m.archive + " at "@ + m.mountpoint,
            None => "Mounted"@,
        },
        ReportView::Unmounted { mountpoint } => "Unmounted "@ + mountpoint,
        ReportView::Extracted { dest } => "Extracted to "@ + dest,
    }
}

/// What the session's report says, if it has one.
pub fn report_text(s: &Session) -> (r: Option<String>)
    ensures
        r.deep_view() == match s@.report {
            Some(report) => Some(report_says(s@, report)),
            None => None,
        },
{
    match &s.report {
        None => None,
        Some(report) => Some(
            match report {
                Report::NoArchives => "No archives found".to_owned(),
                Report::NoFiles { archive } => {
                    if *archive < s.archives.len() {
                        text2("No files in archive ", s.archives[*archive].name.as_str())
                    } else {
                        proof {
                            reveal_strlit("");
                        }
                        text2("No files in archive ", "")
                    }
                },
                Report::Mounted => match &s.mount {
                    Some(m) => text4(
                        "Mounted ",
                        m.archive.as_str(),
                        " at ",
                        m.mountpoint.as_str(),
                    ),
                    None => "Mounted".to_owned(),
                },
                Report::Unmounted { mountpoint } => text2("Unmounted ", mountpoint.as_str()),
                Report::Extracted { dest } => text2("Extracted to ", dest.as_str()),
            },
        ),
    }
}

/// The question whether to unmount what is mounted before mounting anew.
pub fn unmount_question(mountpoint: &str) -> (r: String)
    ensures
        r@ == "Unmount current ("@ + mountpoint@ + ") before mounting new one?"@,
{
    text3("Unmount current (", mountpoint, ") before mounting new one?")
}

/// The question whether to extract an entry.
pub fn extract_question(path: &str, archive: &str) -> (r: String)
    ensures
        r@ == "Extract '"@ + path@ + "' from '"@ + archive@ + "' to current directory?"@,
{
    text5("Extract '", path, "' from '", archive, "' to current directory?")
}

/// The question whether to save the configuration.
pub fn save_question(config_path: &str) -> (r: String)
    ensures
        r@ == "Save updated config to "@ + config_path@ + "? (comments will be lost)"@,
{
    text3("Save updated config to ", config_path, "? (comments will be lost)")
}

/// What a failure is shown as while a backup was run.
pub fn backup_failed_text(error: &ToolError) -> (r: String)
    ensures
        r@ == "Backup failed: "@ + error@.message,
{
    text2("Backup failed: ", error.message.as_str())
}

/// What a failure says when it is shown in a session: what went wrong, and
/// before that, where the way back leads to the presets, that it was a
/// backup that failed.
pub open spec fn notice_says(error: ToolErrorView, back: Back) -> Seq<char> {
    if back == Back::PresetList {
        "Backup failed: "@ + error.message
    } else {
        error.message
    }
}

/// What a failure says when it is shown in a session.
pub fn notice_text(error: &ToolError, back: Back) -> (r: String)
    ensures
        r@ == notice_says(error@, back),
{
    match back {
        Back::PresetList => backup_failed_text(error),
        _ => error.message.clone(),
    }
}

/// What a failure is shown as while a repository was initialised.
pub fn init_failed_text(error: &ToolError) -> (r: String)
    ensures
        r@ == "Failed to initialize repo: "@ + error@.message,
{
    text2("Failed to initialize repo: ", error.message.as_str())
}

/// What a failure is shown as while the configuration was saved.
pub fn save_failed_text(error: &ToolError) -> (r: String)
    ensures
        r@ == "Failed to save config: "@ + error@.message,
{
    text2("Failed to save config: ", error.message.as_str())
}

/// What a remark of the repository dialogue says.
pub open spec fn repo_remark(remark: Remark, name: Seq<char>, config_path: Seq<char>) -> Seq<char> {
    match remark {
        Remark::NameEmpty => "Name cannot be empty"@,
        Remark::NameTaken => "Repo '"@ + name + "' already exists. Aborting setup."@,
        Remark::NoIncludes => "You must provide at least one include."@,
        Remark::PassphraseMismatch => "Passphrases did not match. Please try again."@,
        Remark::Saved => "Config saved to "@ + config_path,
        Remark::NotSaved => "Config not saved. Repo '"@ + name
            + "' is available for this session only."@,
    }
}

/// What a remark of the repository dialogue says, of the repository
/// called `name` and the configuration at `config_path`.
pub fn repo_remark_text(remark: Remark, name: &str, config_path: &str) -> (r: String)
    ensures
        r@ == repo_remark(remark, name@, config_path@),
{
    match remark {
        Remark::NameEmpty => "Name cannot be empty".to_owned(),
        Remark::NameTaken => text3("Repo '", name, "' already exists. Aborting setup."),
        Remark::NoIncludes => "You must provide at least one include.".to_owned(),
        Remark::PassphraseMismatch => "Passphrases did not match. Please try again.".to_owned(),
        Remark::Saved => text2("Config saved to ", config_path),
        Remark::NotSaved => text3(
            "Config not saved. Repo '",
            name,
            "' is available for this session only.",
        ),
    }
}

/// What a remark of the preset dialogue says.
pub open spec fn preset_remark(remark: Remark, name: Seq<char>, config_path: Seq<char>) -> Seq<
    char,
> {
    match remark {
        Remark::NameTaken => "Preset '"@ + name + "' already exists. Aborting setup."@,
        _ => repo_remark(remark, name, config_path),
    }
}

/// What a remark of the preset dialogue says, of the preset called `name`.
pub fn preset_remark_text(remark: Remark, name: &str, config_path: &str) -> (r: String)
    ensures
        r@ == preset_remark(remark, name@, config_path@),
{
    match remark {
        Remark::NameTaken => text3("Preset '", name, "' already exists. Aborting setup."),
        _ => repo_remark_text(remark, name, config_path),
    }
}

/// What a mode of encryption is called: a key kept in the repository, or
/// none.
pub open spec fn encryption_name(encrypted: bool) -> Seq<char> {
    if encrypted {
        "repokey"@
    } else {
        "none"@
    }
}

/// What a mode of encryption is called.
pub fn encryption_mode(encrypted: bool) -> (r: &'static str)
    ensures
        r@ == encryption_name(encrypted),
{
    if encrypted {
        "repokey"
    } else {
        "none"
    }
}

/// What the review of a new repository shows.
pub open spec fn repo_summary(d: RepoDraftView) -> Seq<Seq<char>> {
    seq![
        "Name: "@ + d.name,
        "Repo: "@ + d.repo,
        "borg bin: "@ + d.borg_bin,
        "mount root: "@ + d.mount_root,
        "encryption: "@ + encryption_name(d.encrypted),
    ]
}

/// What the review of a new repository shows.
pub fn repo_review(d: &RepoDraft) -> (r: Vec<String>)
    ensures
        r.deep_view() == repo_summary(d@),
{
    let mut r = no_texts();
    push_text(&mut r, text2("Name: ", d.name.as_str()).as_str());
    push_text(&mut r, text2("Repo: ", d.repo.as_str()).as_str());
    push_text(&mut r, text2("borg bin: ", d.borg_bin.as_str()).as_str());
    push_text(&mut r, text2("mount root: ", d.mount_root.as_str()).as_str());
    push_text(&mut r, text2("encryption: ", encryption_mode(d.encrypted)).as_str());
    r
}

/// A list as it is shown in a review: its entries with commas between
/// them, or a word for none.
pub open spec fn listed(entries: Seq<Seq<char>>) -> Seq<char> {
    if entries.len() == 0 {
        "(none)"@
    } else {
        join(entries, ", "@)
    }
}

/// Yes or no, as a review shows it.
pub open spec fn flag_text(b: bool) -> Seq<char> {
    if b {
        "true"@
    } else {
        "false"@
    }
}

/// What the review of a new preset shows.
pub open spec fn preset_summary(repo_name: Seq<char>, p: BackupConfigView) -> Seq<Seq<char>> {
    seq![
        "Repo: "@ + repo_name,
        "Preset: "@ + p.name,
        "Includes: "@ + join(p.includes, ", "@),
        "Excludes: "@ + listed(p.excludes),
        "Compression: "@ + match p.compression {
            Some(c) => c,
            None => "(none)"@,
        },
        "one_file_system: "@ + flag_text(p.one_file_system),
        "exclude_caches: "@ + flag_text(p.exclude_caches),
        "archive_prefix: "@ + match p.archive_prefix {
            Some(x) => x,
            None => "(repo name)"@,
        },
    ]
}

fn flag(b: bool) -> (r: &'static str)
    ensures
        r@ == flag_text(b),
{
    if b {
        "true"
    } else {
        "false"
    }
}

/// What the review of a new preset shows.
pub fn preset_review(repo_name: &str, p: &BackupConfig) -> (r: Vec<String>)
    ensures
        r.deep_view() == preset_summary(repo_name@, p@),
{
    let mut r = no_texts();
    push_text(&mut r, text2("Repo: ", repo_name).as_str());
    push_text(&mut r, text2("Preset: ", p.name.as_str()).as_str());
    push_text(&mut r, text2("Includes: ", join_with(&p.includes, ", ").as_str()).as_str());
    let excludes = if p.excludes.len() == 0 {
        "(none)".to_owned()
    } else {
        join_with(&p.excludes, ", ")
    };
    push_text(&mut r, text2("Excludes: ", excludes.as_str()).as_str());
    let compression = match &p.compression {
        Some(c) => c.clone(),
        None => "(none)".to_owned(),
    };
    push_text(&mut r, text2("Compression: ", compression.as_str()).as_str());
    push_text(&mut r, text2("one_file_system: ", flag(p.one_file_system)).as_str());
    push_text(&mut r, text2("exclude_caches: ", flag(p.exclude_caches)).as_str());
    let prefix = match &p.archive_prefix {
        Some(x) => x.clone(),
        None => "(repo name)".to_owned(),
    };
    push_text(&mut r, text2("archive_prefix: ", prefix.as_str()).as_str());
    r
}

/// What is shown while a repository is probed: which of how many it is,
/// its name and its locator.
pub fn probing_text(number: usize, total: usize, repo: &RepoCtx) -> (r: String)
    ensures
        r@ == "("@ + decimal(number as nat) + "/"@ + decimal(total as nat) + ") Probing "@
            + repo.name@ + " ("@ + repo.repo@ + ")"@,
{
    let mut r = text5(
        "(",
        decimal_string(number).as_str(),
        "/",
        decimal_string(total).as_str(),
        ") Probing ",
    );
    r.append(repo.name.as_str());
    r.append(" (");
    r.append(repo.repo.as_str());
    r.append(")");
    r
}

/// What is shown once a repository has been probed: its status, its name
/// and its locator.
pub fn probed_text(repo: &RepoCtx) -> (r: String)
    ensures
        r@ == "["@ + status_text(repo.status) + "] "@ + repo.name@ + " ("@ + repo.repo@ + ")"@,
{
    text7(
        "[",
        status_label(repo.status),
        "] ",
        repo.name.as_str(),
        " (",
        repo.repo.as_str(),
        ")",
    )
}

/// The name of the host, going by the environment: what it says, unless
/// it says nothing or only whitespace.
pub open spec fn env_host(env: Option<Seq<char>>) -> Option<Seq<char>> {
    match env {
        Some(name) => if trim(name).len() > 0 {
            Some(name)
        } else {
            None
        },
        None => None,
    }
}

/// The name of the host, going by the environment; nothing where the
/// system has to be asked.
pub fn hostname_from_env(env: Option<&str>) -> (r: Option<String>)
    ensures
        r.deep_view() == env_host(env.deep_view()),
{
    match env {
        Some(name) => if is_blank(name) {
            None
        } else {
            Some(name.to_owned())
        },
        None => None,
    }
}

/// The name of the host, going by what the system answered when asked
/// for its short name: the answer without the whitespace around it, and
/// `unknown` where it failed to answer or answered nothing.
pub open spec fn asked_host(answer: Option<RunResultView>) -> Seq<char> {
    match answer {
        Some(r) => if r.success && trim(r.stdout).len() > 0 {
            trim(r.stdout)
        } else {
            "unknown"@
        },
        None => "unknown"@,
    }
}

/// The name of the host, going by what the system answered.
pub fn short_hostname(answer: Option<&RunResult>) -> (r: String)
    ensures
        r@ == asked_host(answer.deep_view()),
{
    match answer {
        Some(result) => {
            if result.success {
                let name = trimmed(result.stdout.as_str());
                if name.as_str().unicode_len() > 0 {
                    return name;
                }
            }
            "unknown".to_owned()
        },
        None => "unknown".to_owned(),
    }
}

} // verus!
