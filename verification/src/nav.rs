//! The interactive session on one repository: a controller that moves from
//! screen to screen. Each screen waits for one thing (an answer of the
//! operator, or what came of an engine operation); `advance` takes it and
//! gives the session in its next screen. Whoever runs the session shows
//! the screen, performs what it stands for and hands back the answer.

use crate::config::{BackupConfig, BackupConfigView, RepoCtx, RepoCtxView};
use crate::engine::{BorgArchive, BorgArchiveView, BorgItem, BorgItemView};
use crate::error::{recoverable, ToolError, ToolErrorView};
use crate::mount::{MountInfo, MountInfoView};
use crate::menu::{
    archive_action, main_action, pick, picked, select_archive_action, select_main_action,
    ArchiveAction, InteractiveOutcome, MainAction,
};
use vstd::prelude::*;

verus! {

/// The two branches of the main menu that need the repository unlocked.
#[derive(Clone, Copy, Debug, PartialEq, Eq, Structural)]
pub enum Branch {
    Archives,
    Backups,
}

/// The menu a session returns to once a failure has been shown.
#[derive(Clone, Copy, Debug, PartialEq, Eq, Structural)]
pub enum Back {
    Main,
    ArchiveMenu { archive: usize },
    ItemList { archive: usize },
    PresetList,
}

/// The screens of a session. `archive`, `item` and `preset` are positions
/// in the session's lists of archives, of entries and of presets.
#[derive(Debug)]
pub enum Screen {
    /// The main menu; waits for a choice.
    MainMenu,
    /// A passphrase is being made sure of; waits for `Done`.
    Unlock(Branch),
    /// The archives are being listed; waits for `Archives`.
    LoadArchives,
    /// The list of archives; waits for a choice.
    ArchiveList,
    /// What to do with an archive; waits for a choice.
    ArchiveMenu { archive: usize },
    /// An archive is mounted and another is to be: unmount the first? Waits
    /// for a yes or no.
    ConfirmUnmount { archive: usize },
    /// The mounted archive is being unmounted to make room; waits for
    /// `Done`.
    UnmountFirst { archive: usize },
    /// Where to mount; waits for a text.
    AskMountpoint { archive: usize },
    /// The archive is being mounted; waits for `Done`.
    Mounting { archive: usize, mountpoint: String },
    /// The mounted archive is being unmounted; waits for `Done`.
    Unmounting { archive: usize },
    /// The entries of an archive are being listed; waits for `Items`.
    LoadItems { archive: usize },
    /// The entries of an archive; waits for a choice.
    ItemList { archive: usize },
    /// Extract this entry? Waits for a yes or no.
    ConfirmExtract { archive: usize, item: usize },
    /// Where to extract to; waits for a text.
    AskDestination { archive: usize, item: usize },
    /// The entry is being extracted; waits for `Done`.
    Extracting { archive: usize, item: usize, dest: String },
    /// There is no preset: create one? Waits for a yes or no.
    OfferPreset,
    /// The list of presets; waits for a choice.
    PresetList,
    /// A preset is being set up; waits for `Preset`. `run` says whether
    /// the new preset is run at once.
    NewPreset { run: bool },
    /// The new preset, the last of the repository's, is being recorded in
    /// the configuration; waits for `Done`.
    CommitPreset { run: bool },
    /// A backup is running; waits for `Done`.
    RunBackup { preset: usize },
    /// A failure is shown; waits for `Done`, then goes back.
    Notice { error: ToolError, back: Back },
    /// The session is over.
    Finished(InteractiveOutcome),
    /// The session ended on a failure it cannot recover from.
    Aborted(ToolError),
}

/// What a [`Screen`] holds.
pub enum ScreenView {
    MainMenu,
    Unlock(Branch),
    LoadArchives,
    ArchiveList,
    ArchiveMenu { archive: usize },
    ConfirmUnmount { archive: usize },
    UnmountFirst { archive: usize },
    AskMountpoint { archive: usize },
    Mounting { archive: usize, mountpoint: Seq<char> },
    Unmounting { archive: usize },
    LoadItems { archive: usize },
    ItemList { archive: usize },
    ConfirmExtract { archive: usize, item: usize },
    AskDestination { archive: usize, item: usize },
    Extracting { archive: usize, item: usize, dest: Seq<char> },
    OfferPreset,
    PresetList,
    NewPreset { run: bool },
    CommitPreset { run: bool },
    RunBackup { preset: usize },
    Notice { error: ToolErrorView, back: Back },
    Finished(InteractiveOutcome),
    Aborted(ToolErrorView),
}

impl View for Screen {
    type V = ScreenView;

    open spec fn view(&self) -> ScreenView {
        match *self {
            Screen::MainMenu => ScreenView::MainMenu,
            Screen::Unlock(b) => ScreenView::Unlock(b),
            Screen::LoadArchives => ScreenView::LoadArchives,
            Screen::ArchiveList => ScreenView::ArchiveList,
            Screen::ArchiveMenu { archive } => ScreenView::ArchiveMenu { archive },
            Screen::ConfirmUnmount { archive } => ScreenView::ConfirmUnmount { archive },
            Screen::UnmountFirst { archive } => ScreenView::UnmountFirst { archive },
            Screen::AskMountpoint { archive } => ScreenView::AskMountpoint { archive },
            Screen::Mounting { archive, mountpoint } => ScreenView::Mounting {
                archive,
                mountpoint: mountpoint@,
            },
            Screen::Unmounting { archive } => ScreenView::Unmounting { archive },
            Screen::LoadItems { archive } => ScreenView::LoadItems { archive },
            Screen::ItemList { archive } => ScreenView::ItemList { archive },
            Screen::ConfirmExtract { archive, item } => ScreenView::ConfirmExtract { archive, item },
            Screen::AskDestination { archive, item } => ScreenView::AskDestination { archive, item },
            Screen::Extracting { archive, item, dest } => ScreenView::Extracting {
                archive,
                item,
                dest: dest@,
            },
            Screen::OfferPreset => ScreenView::OfferPreset,
            Screen::PresetList => ScreenView::PresetList,
            Screen::NewPreset { run } => ScreenView::NewPreset { run },
            Screen::CommitPreset { run } => ScreenView::CommitPreset { run },
            Screen::RunBackup { preset } => ScreenView::RunBackup { preset },
            Screen::Notice { error, back } => ScreenView::Notice { error: error@, back },
            Screen::Finished(outcome) => ScreenView::Finished(outcome),
            Screen::Aborted(error) => ScreenView::Aborted(error@),
        }
    }
}

/// What the last step has to tell the operator.
#[derive(Debug)]
pub enum Report {
    /// The repository holds no archive.
    NoArchives,
    /// The archive at this position holds no entry.
    NoFiles { archive: usize },
    /// The archive named by the session's mount is mounted now.
    Mounted,
    /// What was mounted there is unmounted now.
    Unmounted { mountpoint: String },
    /// The entry was extracted to this directory.
    Extracted { dest: String },
}

/// What a [`Report`] holds.
pub enum ReportView {
    NoArchives,
    NoFiles { archive: usize },
    Mounted,
    Unmounted { mountpoint: Seq<char> },
    Extracted { dest: Seq<char> },
}

impl View for Report {
    type V = ReportView;

    open spec fn view(&self) -> ReportView {
        match *self {
            Report::NoArchives => ReportView::NoArchives,
            Report::NoFiles { archive } => ReportView::NoFiles { archive },
            Report::Mounted => ReportView::Mounted,
            Report::Unmounted { mountpoint } => ReportView::Unmounted { mountpoint: mountpoint@ },
            Report::Extracted { dest } => ReportView::Extracted { dest: dest@ },
        }
    }
}

impl DeepView for Report {
    type V = ReportView;

    open spec fn deep_view(&self) -> ReportView {
        self@
    }
}

/// What a screen can be answered with.
#[derive(Debug)]
pub enum Input {
    /// The position chosen in a list, or nothing for Escape.
    Choice(Option<usize>),
    /// Yes or no.
    Answer(bool),
    /// A line of text.
    Text(String),
    /// The archives of the repository.
    Archives(Vec<BorgArchive>),
    /// The entries of an archive.
    Items(Vec<BorgItem>),
    /// The preset that was set up, or nothing where the operator gave up.
    Preset(Option<BackupConfig>),
    /// What the screen stands for has been done.
    Done,
    /// What the screen stands for has failed.
    Failed(ToolError),
}

/// What an [`Input`] holds.
pub enum InputView {
    Choice(Option<usize>),
    Answer(bool),
    Text(Seq<char>),
    Archives(Seq<BorgArchiveView>),
    Items(Seq<BorgItemView>),
    Preset(Option<BackupConfigView>),
    Done,
    Failed(ToolErrorView),
}

impl View for Input {
    type V = InputView;

    open spec fn view(&self) -> InputView {
        match *self {
            Input::Choice(c) => InputView::Choice(c),
            Input::Answer(yes) => InputView::Answer(yes),
            Input::Text(t) => InputView::Text(t@),
            Input::Archives(list) => InputView::Archives(list.deep_view()),
            Input::Items(list) => InputView::Items(list.deep_view()),
            Input::Preset(p) => InputView::Preset(p.deep_view()),
            Input::Done => InputView::Done,
            Input::Failed(e) => InputView::Failed(e@),
        }
    }
}

/// An interactive session on one repository.
#[derive(Debug)]
pub struct Session {
    /// The repository the session works on.
    pub repo: RepoCtx,
    /// Whether the engine can mount archives.
    pub mount_available: bool,
    /// The archive that is mounted, if one is.
    pub mount: Option<MountInfo>,
    /// The archives as they were last listed.
    pub archives: Vec<BorgArchive>,
    /// The entries of an archive as they were last listed.
    pub items: Vec<BorgItem>,
    /// The screen the session is in.
    pub screen: Screen,
    /// What the last step has to tell the operator.
    pub report: Option<Report>,
}

/// What a [`Session`] holds.
pub struct SessionView {
    pub repo: RepoCtxView,
    pub mount_available: bool,
    pub mount: Option<MountInfoView>,
    pub archives: Seq<BorgArchiveView>,
    pub items: Seq<BorgItemView>,
    pub screen: ScreenView,
    pub report: Option<ReportView>,
}

impl View for Session {
    type V = SessionView;

    open spec fn view(&self) -> SessionView {
        SessionView {
            repo: self.repo@,
            mount_available: self.mount_available,
            mount: self.mount.deep_view(),
            archives: self.archives.deep_view(),
            items: self.items.deep_view(),
            screen: self.screen@,
            report: self.report.deep_view(),
        }
    }
}

/// The session as it starts on a repository: in the main menu, with
/// nothing mounted and nothing listed.
pub open spec fn started(repo: RepoCtxView, mount_available: bool) -> SessionView {
    SessionView {
        repo,
        mount_available,
        mount: None,
        archives: Seq::empty(),
        items: Seq::empty(),
        screen: ScreenView::MainMenu,
        report: None,
    }
}

/// The session in another screen, with nothing to report.
pub open spec fn at(s: SessionView, screen: ScreenView) -> SessionView {
    SessionView { screen, report: None, ..s }
}

/// The session in another screen, with something to report.
pub open spec fn at_with(s: SessionView, screen: ScreenView, report: ReportView) -> SessionView {
    SessionView { screen, report: Some(report), ..s }
}

/// The session after a failure: shown, with the way back to a menu, where
/// the session can go on; ended otherwise.
pub open spec fn failed(s: SessionView, error: ToolErrorView, back: Back) -> SessionView {
    if recoverable(error.kind) {
        at(s, ScreenView::Notice { error, back })
    } else {
        at(s, ScreenView::Aborted(error))
    }
}

/// The session once the engine has unmounted: nothing is mounted any more.
pub open spec fn unmounted(s: SessionView, screen: ScreenView) -> SessionView {
    match s.mount {
        Some(m) => at_with(
            SessionView { mount: None, ..s },
            screen,
            ReportView::Unmounted { mountpoint: m.mountpoint },
        ),
        None => at(s, screen),
    }
}

/// The screen a way back leads to.
pub open spec fn resumed(back: Back) -> ScreenView {
    match back {
        Back::Main => ScreenView::MainMenu,
        Back::ArchiveMenu { archive } => ScreenView::ArchiveMenu { archive },
        Back::ItemList { archive } => ScreenView::ItemList { archive },
        Back::PresetList => ScreenView::PresetList,
    }
}

/// The main menu and the unlocking behind it.
pub open spec fn step_main(s: SessionView, input: InputView) -> SessionView {
    match s.screen {
        ScreenView::MainMenu => match input {
            InputView::Choice(c) => match main_action(c) {
                MainAction::Archives => at(s, ScreenView::Unlock(Branch::Archives)),
                MainAction::Backups => at(s, ScreenView::Unlock(Branch::Backups)),
                MainAction::BackRepo => at(s, ScreenView::Finished(InteractiveOutcome::ChangeRepo)),
                MainAction::Quit => at(s, ScreenView::Finished(InteractiveOutcome::Quit)),
            },
            _ => s,
        },
        ScreenView::Unlock(branch) => match input {
            InputView::Done => match branch {
                Branch::Archives => at(s, ScreenView::LoadArchives),
                Branch::Backups => if s.repo.backups.len() == 0 {
                    at(s, ScreenView::OfferPreset)
                } else {
                    at(s, ScreenView::PresetList)
                },
            },
            InputView::Failed(e) => failed(s, e, Back::Main),
            _ => s,
        },
        ScreenView::Notice { error, back } => match input {
            InputView::Done => at(s, resumed(back)),
            _ => s,
        },
        _ => s,
    }
}

/// The list of archives and the menu of one archive.
pub open spec fn step_archives(s: SessionView, input: InputView) -> SessionView {
    match s.screen {
        ScreenView::LoadArchives => match input {
            InputView::Archives(list) => if list.len() == 0 {
                at_with(
                    SessionView { archives: list, ..s },
                    ScreenView::MainMenu,
                    ReportView::NoArchives,
                )
            } else {
                at(SessionView { archives: list, ..s }, ScreenView::ArchiveList)
            },
            InputView::Failed(e) => failed(s, e, Back::Main),
            _ => s,
        },
        ScreenView::ArchiveList => match input {
            InputView::Choice(c) => match picked(s.archives.len(), c) {
                Some(archive) => at(s, ScreenView::ArchiveMenu { archive }),
                None => at(s, ScreenView::MainMenu),
            },
            _ => s,
        },
        ScreenView::ArchiveMenu { archive } => match input {
            InputView::Choice(c) => match archive_action(c, s.mount is Some, s.mount_available) {
                ArchiveAction::Browse => at(s, ScreenView::LoadItems { archive }),
                ArchiveAction::Mount => if s.mount is Some {
                    at(s, ScreenView::ConfirmUnmount { archive })
                } else {
                    at(s, ScreenView::AskMountpoint { archive })
                },
                ArchiveAction::UnmountCurrent => if s.mount is Some {
                    at(s, ScreenView::Unmounting { archive })
                } else {
                    at(s, ScreenView::MainMenu)
                },
                ArchiveAction::Back => at(s, ScreenView::ArchiveList),
            },
            _ => s,
        },
        _ => s,
    }
}

/// Mounting and unmounting. An archive is mounted only while none is: with
/// one mounted, the operator is asked to have it unmounted first, and a no
/// leads back to the main menu with nothing done.
pub open spec fn step_mount(s: SessionView, input: InputView) -> SessionView {
    match s.screen {
        ScreenView::ConfirmUnmount { archive } => match input {
            InputView::Answer(yes) => if yes && s.mount is Some {
                at(s, ScreenView::UnmountFirst { archive })
            } else {
                at(s, ScreenView::MainMenu)
            },
            _ => s,
        },
        ScreenView::UnmountFirst { archive } => match input {
            InputView::Done => unmounted(s, ScreenView::AskMountpoint { archive }),
            InputView::Failed(e) => failed(s, e, Back::ArchiveMenu { archive }),
            _ => s,
        },
        ScreenView::AskMountpoint { archive } => match input {
            InputView::Text(mountpoint) => if s.mount is None {
                at(s, ScreenView::Mounting { archive, mountpoint })
            } else {
                at(s, ScreenView::MainMenu)
            },
            _ => s,
        },
        ScreenView::Mounting { archive, mountpoint } => match input {
            InputView::Done => if s.mount is None && archive < s.archives.len() {
                at_with(
                    SessionView {
                        mount: Some(
                            MountInfoView { archive: s.archives[archive as int].name, mountpoint },
                        ),
                        ..s
                    },
                    ScreenView::MainMenu,
                    ReportView::Mounted,
                )
            } else {
                at(s, ScreenView::MainMenu)
            },
            InputView::Failed(e) => failed(s, e, Back::ArchiveMenu { archive }),
            _ => s,
        },
        ScreenView::Unmounting { archive } => match input {
            InputView::Done => unmounted(s, ScreenView::MainMenu),
            InputView::Failed(e) => failed(s, e, Back::ArchiveMenu { archive }),
            _ => s,
        },
        _ => s,
    }
}

/// Browsing the entries of an archive and extracting one.
pub open spec fn step_items(s: SessionView, input: InputView) -> SessionView {
    match s.screen {
        ScreenView::LoadItems { archive } => match input {
            InputView::Items(list) => if list.len() == 0 {
                at_with(
                    SessionView { items: list, ..s },
                    ScreenView::ArchiveList,
                    ReportView::NoFiles { archive },
                )
            } else {
                at(SessionView { items: list, ..s }, ScreenView::ItemList { archive })
            },
            InputView::Failed(e) => failed(s, e, Back::ArchiveMenu { archive }),
            _ => s,
        },
        ScreenView::ItemList { archive } => match input {
            InputView::Choice(c) => match picked(s.items.len(), c) {
                Some(item) => at(s, ScreenView::ConfirmExtract { archive, item }),
                None => at(s, ScreenView::ArchiveList),
            },
            _ => s,
        },
        ScreenView::ConfirmExtract { archive, item } => match input {
            InputView::Answer(yes) => if yes {
                at(s, ScreenView::AskDestination { archive, item })
            } else {
                at(s, ScreenView::ItemList { archive })
            },
            _ => s,
        },
        ScreenView::AskDestination { archive, item } => match input {
            InputView::Text(dest) => at(s, ScreenView::Extracting { archive, item, dest }),
            _ => s,
        },
        ScreenView::Extracting { archive, item, dest } => match input {
            InputView::Done => at_with(
                s,
                ScreenView::ItemList { archive },
                ReportView::Extracted { dest },
            ),
            InputView::Failed(e) => failed(s, e, Back::ItemList { archive }),
            _ => s,
        },
        _ => s,
    }
}

/// The session after a failure that is shown whatever its kind, with the
/// way back to a menu.
pub open spec fn shown(s: SessionView, error: ToolErrorView, back: Back) -> SessionView {
    at(s, ScreenView::Notice { error, back })
}

/// The presets: choosing one, setting one up, and running a backup. A
/// preset that was set up becomes the last of the repository's presets. A
/// backup that fails never ends the session: whatever went wrong, be it a
/// preset without includes, an engine that reports failure or one that
/// cannot be started, it is shown, and the operator is back at the list
/// of presets.
pub open spec fn step_presets(s: SessionView, input: InputView) -> SessionView {
    match s.screen {
        ScreenView::OfferPreset => match input {
            InputView::Answer(yes) => if yes {
                at(s, ScreenView::NewPreset { run: false })
            } else {
                at(s, ScreenView::MainMenu)
            },
            _ => s,
        },
        ScreenView::PresetList => match input {
            InputView::Choice(c) => match c {
                Some(i) => if i < s.repo.backups.len() {
                    at(s, ScreenView::RunBackup { preset: i })
                } else if i == s.repo.backups.len() {
                    at(s, ScreenView::NewPreset { run: true })
                } else {
                    at(s, ScreenView::MainMenu)
                },
                None => at(s, ScreenView::MainMenu),
            },
            _ => s,
        },
        ScreenView::NewPreset { run } => match input {
            InputView::Preset(Some(preset)) => at(
                SessionView {
                    repo: RepoCtxView { backups: s.repo.backups.push(preset), ..s.repo },
                    ..s
                },
                ScreenView::CommitPreset { run },
            ),
            InputView::Preset(None) => at(s, ScreenView::MainMenu),
            InputView::Failed(e) => failed(s, e, Back::Main),
            _ => s,
        },
        ScreenView::CommitPreset { run } => match input {
            InputView::Done => if run && 0 < s.repo.backups.len() <= usize::MAX {
                at(s, ScreenView::RunBackup { preset: (s.repo.backups.len() - 1) as usize })
            } else {
                at(s, ScreenView::MainMenu)
            },
            InputView::Failed(e) => failed(s, e, Back::Main),
            _ => s,
        },
        ScreenView::RunBackup { preset } => match input {
            InputView::Done => at(s, ScreenView::MainMenu),
            InputView::Failed(e) => shown(s, e, Back::PresetList),
            _ => s,
        },
        _ => s,
    }
}

/// The part of the console a screen belongs to.
#[derive(Clone, Copy, Debug, PartialEq, Eq, Structural)]
pub enum Area {
    Main,
    Archives,
    Mount,
    Items,
    Presets,
    Over,
}

/// The part of the console a screen belongs to.
pub open spec fn area(screen: ScreenView) -> Area {
    match screen {
        ScreenView::MainMenu => Area::Main,
        ScreenView::Unlock(_) => Area::Main,
        ScreenView::Notice { .. } => Area::Main,
        ScreenView::LoadArchives => Area::Archives,
        ScreenView::ArchiveList => Area::Archives,
        ScreenView::ArchiveMenu { .. } => Area::Archives,
        ScreenView::ConfirmUnmount { .. } => Area::Mount,
        ScreenView::UnmountFirst { .. } => Area::Mount,
        ScreenView::AskMountpoint { .. } => Area::Mount,
        ScreenView::Mounting { .. } => Area::Mount,
        ScreenView::Unmounting { .. } => Area::Mount,
        ScreenView::LoadItems { .. } => Area::Items,
        ScreenView::ItemList { .. } => Area::Items,
        ScreenView::ConfirmExtract { .. } => Area::Items,
        ScreenView::AskDestination { .. } => Area::Items,
        ScreenView::Extracting { .. } => Area::Items,
        ScreenView::OfferPreset => Area::Presets,
        ScreenView::PresetList => Area::Presets,
        ScreenView::NewPreset { .. } => Area::Presets,
        ScreenView::CommitPreset { .. } => Area::Presets,
        ScreenView::RunBackup { .. } => Area::Presets,
        ScreenView::Finished(_) => Area::Over,
        ScreenView::Aborted(_) => Area::Over,
    }
}

/// The session after `input`. An input that the screen does not wait for
/// leaves the session as it is, and so does any input once the session is
/// over.
pub open spec fn step(s: SessionView, input: InputView) -> SessionView {
    match area(s.screen) {
        Area::Main => step_main(s, input),
        Area::Archives => step_archives(s, input),
        Area::Mount => step_mount(s, input),
        Area::Items => step_items(s, input),
        Area::Presets => step_presets(s, input),
        Area::Over => s,
    }
}

impl Screen {
    /// The part of the console this screen belongs to.
    pub fn area(&self) -> (r: Area)
        ensures
            r == area(self@),
    {
        match self {
            Screen::MainMenu => Area::Main,
            Screen::Unlock(_) => Area::Main,
            Screen::Notice { .. } => Area::Main,
            Screen::LoadArchives => Area::Archives,
            Screen::ArchiveList => Area::Archives,
            Screen::ArchiveMenu { .. } => Area::Archives,
            Screen::ConfirmUnmount { .. } => Area::Mount,
            Screen::UnmountFirst { .. } => Area::Mount,
            Screen::AskMountpoint { .. } => Area::Mount,
            Screen::Mounting { .. } => Area::Mount,
            Screen::Unmounting { .. } => Area::Mount,
            Screen::LoadItems { .. } => Area::Items,
            Screen::ItemList { .. } => Area::Items,
            Screen::ConfirmExtract { .. } => Area::Items,
            Screen::AskDestination { .. } => Area::Items,
            Screen::Extracting { .. } => Area::Items,
            Screen::OfferPreset => Area::Presets,
            Screen::PresetList => Area::Presets,
            Screen::NewPreset { .. } => Area::Presets,
            Screen::CommitPreset { .. } => Area::Presets,
            Screen::RunBackup { .. } => Area::Presets,
            Screen::Finished(_) => Area::Over,
            Screen::Aborted(_) => Area::Over,
        }
    }
}

impl Session {
    /// A session on `repo`, in the main menu.
    pub fn start(repo: RepoCtx, mount_available: bool) -> (s: Session)
        ensures
            s@ == started(repo@, mount_available),
    {
        let s = Session {
            repo,
            mount_available,
            mount: None,
            archives: Vec::new(),
            items: Vec::new(),
            screen: Screen::MainMenu,
            report: None,
        };
        assert(s.archives.deep_view() =~= Seq::empty());
        assert(s.items.deep_view() =~= Seq::empty());
        s
    }

    fn go(self, screen: Screen) -> (next: Session)
        ensures
            next@ == at(self@, screen@),
    {
        let mut s = self;
        s.screen = screen;
        s.report = None;
        s
    }

    fn go_with(self, screen: Screen, report: Report) -> (next: Session)
        ensures
            next@ == at_with(self@, screen@, report@),
    {
        let mut s = self;
        s.screen = screen;
        s.report = Some(report);
        s
    }

    fn fail(self, error: ToolError, back: Back) -> (next: Session)
        ensures
            next@ == failed(self@, error@, back),
    {
        if error.is_recoverable() {
            self.go(Screen::Notice { error, back })
        } else {
            self.go(Screen::Aborted(error))
        }
    }

    fn unmount_done(self, screen: Screen) -> (next: Session)
        ensures
            next@ == unmounted(self@, screen@),
    {
        let mut s = self;
        match s.mount.take() {
            Some(m) => s.go_with(screen, Report::Unmounted { mountpoint: m.mountpoint }),
            None => s.go(screen),
        }
    }

    fn resume(back: Back) -> (screen: Screen)
        ensures
            screen@ == resumed(back),
    {
        match back {
            Back::Main => Screen::MainMenu,
            Back::ArchiveMenu { archive } => Screen::ArchiveMenu { archive },
            Back::ItemList { archive } => Screen::ItemList { archive },
            Back::PresetList => Screen::PresetList,
        }
    }

    fn advance_main(self, input: Input) -> (next: Session)
        ensures
            next@ == step_main(self@, input@),
    {
        let mut s = self;
        match (s.screen, input) {
            (Screen::MainMenu, Input::Choice(c)) => {
                s.screen = Screen::MainMenu;
                match select_main_action(c) {
                    MainAction::Archives => s.go(Screen::Unlock(Branch::Archives)),
                    MainAction::Backups => s.go(Screen::Unlock(Branch::Backups)),
                    MainAction::BackRepo => s.go(Screen::Finished(InteractiveOutcome::ChangeRepo)),
                    MainAction::Quit => s.go(Screen::Finished(InteractiveOutcome::Quit)),
                }
            },
            (Screen::Unlock(branch), Input::Done) => {
                s.screen = Screen::Unlock(branch);
                match branch {
                    Branch::Archives => s.go(Screen::LoadArchives),
                    Branch::Backups => if s.repo.backups.len() == 0 {
                        s.go(Screen::OfferPreset)
                    } else {
                        s.go(Screen::PresetList)
                    },
                }
            },
            (Screen::Unlock(branch), Input::Failed(e)) => {
                s.screen = Screen::Unlock(branch);
                s.fail(e, Back::Main)
            },
            (Screen::Notice { error, back }, Input::Done) => {
                s.screen = Screen::MainMenu;
                s.go(Session::resume(back))
            },
            (screen, _) => {
                s.screen = screen;
                s
            },
        }
    }

    fn advance_archives(self, input: Input) -> (next: Session)
        ensures
            next@ == step_archives(self@, input@),
    {
        let mut s = self;
        match (s.screen, input) {
            (Screen::LoadArchives, Input::Archives(list)) => {
                s.screen = Screen::LoadArchives;
                let none = list.len() == 0;
                s.archives = list;
                if none {
                    s.go_with(Screen::MainMenu, Report::NoArchives)
                } else {
                    s.go(Screen::ArchiveList)
                }
            },
            (Screen::LoadArchives, Input::Failed(e)) => {
                s.screen = Screen::LoadArchives;
                s.fail(e, Back::Main)
            },
            (Screen::ArchiveList, Input::Choice(c)) => {
                s.screen = Screen::ArchiveList;
                match pick(s.archives.len(), c) {
                    Some(archive) => s.go(Screen::ArchiveMenu { archive }),
                    None => s.go(Screen::MainMenu),
                }
            },
            (Screen::ArchiveMenu { archive }, Input::Choice(c)) => {
                s.screen = Screen::ArchiveMenu { archive };
                let mounted = s.mount.is_some();
                match select_archive_action(c, mounted, s.mount_available) {
                    ArchiveAction::Browse => s.go(Screen::LoadItems { archive }),
                    ArchiveAction::Mount => if mounted {
                        s.go(Screen::ConfirmUnmount { archive })
                    } else {
                        s.go(Screen::AskMountpoint { archive })
                    },
                    ArchiveAction::UnmountCurrent => if mounted {
                        s.go(Screen::Unmounting { archive })
                    } else {
                        s.go(Screen::MainMenu)
                    },
                    ArchiveAction::Back => s.go(Screen::ArchiveList),
                }
            },
            (screen, _) => {
                s.screen = screen;
                s
            },
        }
    }

    fn advance_mount(self, input: Input) -> (next: Session)
        ensures
            next@ == step_mount(self@, input@),
    {
        let mut s = self;
        match (s.screen, input) {
            (Screen::ConfirmUnmount { archive }, Input::Answer(yes)) => {
                s.screen = Screen::ConfirmUnmount { archive };
                if yes && s.mount.is_some() {
                    s.go(Screen::UnmountFirst { archive })
                } else {
                    s.go(Screen::MainMenu)
                }
            },
            (Screen::UnmountFirst { archive }, Input::Done) => {
                s.screen = Screen::UnmountFirst { archive };
                s.unmount_done(Screen::AskMountpoint { archive })
            },
            (Screen::UnmountFirst { archive }, Input::Failed(e)) => {
                s.screen = Screen::UnmountFirst { archive };
                s.fail(e, Back::ArchiveMenu { archive })
            },
            (Screen::AskMountpoint { archive }, Input::Text(mountpoint)) => {
                s.screen = Screen::AskMountpoint { archive };
                if s.mount.is_none() {
                    s.go(Screen::Mounting { archive, mountpoint })
                } else {
                    s.go(Screen::MainMenu)
                }
            },
            (Screen::Mounting { archive, mountpoint }, Input::Done) => {
                s.screen = Screen::MainMenu;
                if s.mount.is_none() && archive < s.archives.len() {
                    s.mount = Some(
                        MountInfo { archive: s.archives[archive].name.clone(), mountpoint },
                    );
                    s.go_with(Screen::MainMenu, Report::Mounted)
                } else {
                    s.go(Screen::MainMenu)
                }
            },
            (Screen::Mounting { archive, mountpoint }, Input::Failed(e)) => {
                s.screen = Screen::MainMenu;
                s.fail(e, Back::ArchiveMenu { archive })
            },
            (Screen::Unmounting { archive }, Input::Done) => {
                s.screen = Screen::Unmounting { archive };
                s.unmount_done(Screen::MainMenu)
            },
            (Screen::Unmounting { archive }, Input::Failed(e)) => {
                s.screen = Screen::Unmounting { archive };
                s.fail(e, Back::ArchiveMenu { archive })
            },
            (screen, _) => {
                s.screen = screen;
                s
            },
        }
    }

    fn advance_items(self, input: Input) -> (next: Session)
        ensures
            next@ == step_items(self@, input@),
    {
        let mut s = self;
        match (s.screen, input) {
            (Screen::LoadItems { archive }, Input::Items(list)) => {
                s.screen = Screen::LoadItems { archive };
                let none = list.len() == 0;
                s.items = list;
                if none {
                    s.go_with(Screen::ArchiveList, Report::NoFiles { archive })
                } else {
                    s.go(Screen::ItemList { archive })
                }
            },
            (Screen::LoadItems { archive }, Input::Failed(e)) => {
                s.screen = Screen::LoadItems { archive };
                s.fail(e, Back::ArchiveMenu { archive })
            },
            (Screen::ItemList { archive }, Input::Choice(c)) => {
                s.screen = Screen::ItemList { archive };
                match pick(s.items.len(), c) {
                    Some(item) => s.go(Screen::ConfirmExtract { archive, item }),
                    None => s.go(Screen::ArchiveList),
                }
            },
            (Screen::ConfirmExtract { archive, item }, Input::Answer(yes)) => {
                s.screen = Screen::ConfirmExtract { archive, item };
                if yes {
                    s.go(Screen::AskDestination { archive, item })
                } else {
                    s.go(Screen::ItemList { archive })
                }
            },
            (Screen::AskDestination { archive, item }, Input::Text(dest)) => {
                s.screen = Screen::AskDestination { archive, item };
                s.go(Screen::Extracting { archive, item, dest })
            },
            (Screen::Extracting { archive, item, dest }, Input::Done) => {
                s.screen = Screen::MainMenu;
                s.go_with(Screen::ItemList { archive }, Report::Extracted { dest })
            },
            (Screen::Extracting { archive, item, dest }, Input::Failed(e)) => {
                s.screen = Screen::MainMenu;
                s.fail(e, Back::ItemList { archive })
            },
            (screen, _) => {
                s.screen = screen;
                s
            },
        }
    }

    fn advance_presets(self, input: Input) -> (next: Session)
        ensures
            next@ == step_presets(self@, input@),
    {
        let mut s = self;
        match (s.screen, input) {
            (Screen::OfferPreset, Input::Answer(yes)) => {
                s.screen = Screen::OfferPreset;
                if yes {
                    s.go(Screen::NewPreset { run: false })
                } else {
                    s.go(Screen::MainMenu)
                }
            },
            (Screen::PresetList, Input::Choice(c)) => {
                s.screen = Screen::PresetList;
                match c {
                    Some(i) => if i < s.repo.backups.len() {
                        s.go(Screen::RunBackup { preset: i })
                    } else if i == s.repo.backups.len() {
                        s.go(Screen::NewPreset { run: true })
                    } else {
                        s.go(Screen::MainMenu)
                    },
                    None => s.go(Screen::MainMenu),
                }
            },
            (Screen::NewPreset { run }, Input::Preset(Some(preset))) => {
                s.screen = Screen::NewPreset { run };
                let ghost before = s.repo.backups.deep_view();
                let ghost added = preset@;
                s.repo.backups.push(preset);
                assert(s.repo.backups.deep_view() =~= before.push(added));
                s.go(Screen::CommitPreset { run })
            },
            (Screen::NewPreset { run }, Input::Preset(None)) => {
                s.screen = Screen::NewPreset { run };
                s.go(Screen::MainMenu)
            },
            (Screen::NewPreset { run }, Input::Failed(e)) => {
                s.screen = Screen::NewPreset { run };
                s.fail(e, Back::Main)
            },
            (Screen::CommitPreset { run }, Input::Done) => {
                s.screen = Screen::CommitPreset { run };
                if run && s.repo.backups.len() > 0 {
                    let preset = s.repo.backups.len() - 1;
                    s.go(Screen::RunBackup { preset })
                } else {
                    s.go(Screen::MainMenu)
                }
            },
            (Screen::CommitPreset { run }, Input::Failed(e)) => {
                s.screen = Screen::CommitPreset { run };
                s.fail(e, Back::Main)
            },
            (Screen::RunBackup { preset }, Input::Done) => {
                s.screen = Screen::RunBackup { preset };
                s.go(Screen::MainMenu)
            },
            (Screen::RunBackup { preset }, Input::Failed(e)) => {
                s.screen = Screen::RunBackup { preset };
                s.go(Screen::Notice { error: e, back: Back::PresetList })
            },
            (screen, _) => {
                s.screen = screen;
                s
            },
        }
    }

    /// The session after `input`.
    pub fn advance(self, input: Input) -> (next: Session)
        ensures
            next@ == step(self@, input@),
    {
        match self.screen.area() {
            Area::Main => self.advance_main(input),
            Area::Archives => self.advance_archives(input),
            Area::Mount => self.advance_mount(input),
            Area::Items => self.advance_items(input),
            Area::Presets => self.advance_presets(input),
            Area::Over => self,
        }
    }
}

/// Whether the positions a screen holds lie in the session's lists, and
/// the screen fits what is mounted: the screens that unmount have a mount
/// to end, and the screens that mount have none in their way.
pub open spec fn well_formed(s: SessionView) -> bool {
    match s.screen {
        ScreenView::ArchiveMenu { archive } => archive < s.archives.len(),
        ScreenView::ConfirmUnmount { archive } => archive < s.archives.len() && s.mount is Some,
        ScreenView::UnmountFirst { archive } => archive < s.archives.len() && s.mount is Some,
        ScreenView::Unmounting { archive } => archive < s.archives.len() && s.mount is Some,
        ScreenView::AskMountpoint { archive } => archive < s.archives.len() && s.mount is None,
        ScreenView::Mounting { archive, .. } => archive < s.archives.len() && s.mount is None,
        ScreenView::LoadItems { archive } => archive < s.archives.len(),
        ScreenView::ItemList { archive } => archive < s.archives.len(),
        ScreenView::ConfirmExtract { archive, item } => archive < s.archives.len() && item
            < s.items.len(),
        ScreenView::AskDestination { archive, item } => archive < s.archives.len() && item
            < s.items.len(),
        ScreenView::Extracting { archive, item, .. } => archive < s.archives.len() && item
            < s.items.len(),
        ScreenView::CommitPreset { .. } => s.repo.backups.len() > 0,
        ScreenView::RunBackup { preset } => preset < s.repo.backups.len(),
        ScreenView::Notice { back, .. } => match back {
            Back::ArchiveMenu { archive } => archive < s.archives.len(),
            Back::ItemList { archive } => archive < s.archives.len(),
            _ => true,
        },
        _ => true,
    }
}

/// A session starts well formed.
pub proof fn lemma_start_well_formed(repo: RepoCtxView, mount_available: bool)
    ensures
        well_formed(started(repo, mount_available)),
{
}

/// A well-formed session stays well formed, whatever it is answered with.
pub proof fn lemma_step_well_formed(s: SessionView, input: InputView)
    requires
        well_formed(s),
    ensures
        well_formed(step(s, input)),
{
}

/// At most one archive is mounted, and none is mounted over another: the
/// session enters the screen that mounts only with nothing mounted, and
/// leaves it with exactly the archive and mountpoint of that screen
/// mounted, or with nothing mounted.
pub proof fn lemma_mount_only_when_unmounted(s: SessionView, input: InputView)
    requires
        well_formed(s),
    ensures
        step(s, input).screen is Mounting ==> step(s, input).mount is None,
        step(s, input).mount is Some && step(s, input).mount != s.mount ==> {
            &&& s.mount is None
            &&& s.screen matches ScreenView::Mounting { archive, mountpoint }
            &&& input is Done
            &&& step(s, input).mount == Some(
                MountInfoView { archive: s.archives[archive as int].name, mountpoint },
            )
        },
{
}

/// What is mounted stays mounted until the engine has unmounted it: the
/// mount is given up only on the two screens that unmount, and only when
/// the engine is done.
pub proof fn lemma_mount_ends_with_unmount(s: SessionView, input: InputView)
    requires
        s.mount is Some,
        step(s, input).mount != s.mount,
    ensures
        s.screen is Unmounting || s.screen is UnmountFirst,
        input is Done,
        step(s, input).mount is None,
        step(s, input).report == Some(ReportView::Unmounted { mountpoint: s.mount->0.mountpoint }),
{
}

/// Saying no to unmounting the mounted archive gives up the new mount with
/// nothing done: the session is back in the main menu, and all else is as
/// it was.
pub proof fn lemma_declined_unmount_changes_nothing(s: SessionView, archive: usize)
    requires
        s.screen == (ScreenView::ConfirmUnmount { archive }),
    ensures
        step(s, InputView::Answer(false)) == at(s, ScreenView::MainMenu),
        step(s, InputView::Answer(false)).mount == s.mount,
{
}

/// Once a session is over it stays as it is.
pub proof fn lemma_over_is_final(s: SessionView, input: InputView)
    requires
        s.screen is Finished || s.screen is Aborted,
    ensures
        step(s, input) == s,
{
}

/// A session never changes which repository it works on, nor whether the
/// engine can mount; of the repository only the presets change, and only
/// by one more at their end.
pub proof fn lemma_step_keeps_repository(s: SessionView, input: InputView)
    ensures
        step(s, input).mount_available == s.mount_available,
        step(s, input).repo.name == s.repo.name,
        step(s, input).repo.repo == s.repo.repo,
        step(s, input).repo.borg_bin == s.repo.borg_bin,
        step(s, input).repo.mount_root == s.repo.mount_root,
        step(s, input).repo.status == s.repo.status,
        step(s, input).repo.backups == s.repo.backups || (exists|p: BackupConfigView|
            step(s, input).repo.backups == s.repo.backups.push(p)),
{
    match (s.screen, input) {
        (ScreenView::NewPreset { run }, InputView::Preset(Some(p))) => {
            assert(step(s, input).repo.backups == s.repo.backups.push(p));
        },
        _ => {},
    }
}

/// Escape leads one level up and keeps what was listed: from the main
/// menu to the choice of repository, from the archives and the presets to
/// the main menu, from an archive's menu and from its entries to the
/// archives.
pub proof fn lemma_escape_goes_up(s: SessionView)
    ensures
        s.screen is MainMenu ==> step(s, InputView::Choice(None)).screen == ScreenView::Finished(
            InteractiveOutcome::ChangeRepo,
        ),
        s.screen is ArchiveList ==> step(s, InputView::Choice(None)).screen == ScreenView::MainMenu,
        s.screen is PresetList ==> step(s, InputView::Choice(None)).screen == ScreenView::MainMenu,
        s.screen is ArchiveMenu ==> step(s, InputView::Choice(None)).screen
            == ScreenView::ArchiveList,
        s.screen is ItemList ==> step(s, InputView::Choice(None)).screen == ScreenView::ArchiveList,
        step(s, InputView::Choice(None)).archives == s.archives,
        step(s, InputView::Choice(None)).items == s.items,
        step(s, InputView::Choice(None)).mount == s.mount,
{
}

/// A failure of the engine's work is shown and the session goes on from a
/// menu; only a failure that leaves nothing to go on with ends it, and a
/// failure of a backup never does.
pub proof fn lemma_failure_is_shown_or_final(s: SessionView, error: ToolErrorView)
    requires
        !(s.screen is Finished || s.screen is Aborted),
        step(s, InputView::Failed(error)) != s,
    ensures
        recoverable(error.kind) || s.screen is RunBackup ==> step(
            s,
            InputView::Failed(error),
        ).screen is Notice,
        !recoverable(error.kind) && !(s.screen is RunBackup) ==> step(
            s,
            InputView::Failed(error),
        ).screen == ScreenView::Aborted(error),
        step(s, InputView::Failed(error)).mount == s.mount,
        step(s, InputView::Failed(error)).repo == s.repo,
{
}

/// A backup that fails is shown and the operator returns to the list of
/// presets, whatever the failure: the session does not end on it, and the
/// repository, what is mounted and what was listed stay as they were. Once
/// the failure has been acknowledged the list of presets is offered again.
pub proof fn lemma_backup_failure_is_shown(s: SessionView, preset: usize, error: ToolErrorView)
    requires
        s.screen == (ScreenView::RunBackup { preset }),
    ensures
        step(s, InputView::Failed(error)) == shown(s, error, Back::PresetList),
        step(s, InputView::Failed(error)).screen == (ScreenView::Notice {
            error,
            back: Back::PresetList,
        }),
        step(s, InputView::Failed(error)).repo == s.repo,
        step(s, InputView::Failed(error)).mount == s.mount,
        step(s, InputView::Failed(error)).archives == s.archives,
        step(step(s, InputView::Failed(error)), InputView::Done).screen == ScreenView::PresetList,
        step(step(s, InputView::Failed(error)), InputView::Done).repo == s.repo,
{
}

} // verus!
