//! The two setup dialogues: one that adds a repository to the
//! configuration and one that defines a backup preset. Each asks its
//! questions in a fixed order, can be given up at its review, and changes
//! nothing unless it is carried through.

use crate::config::{
    migrate_legacy_repo, migrated, repo_list, BackupConfig, BackupConfigView, Config, ConfigView,
    RepoConfig, RepoConfigView, RepoCtx, RepoCtxView, RepoStatus,
};
use crate::error::{ToolError, ToolErrorView};
use crate::nav::{Input, InputView};
use crate::text::{
    is_blank, is_trimmed, lemma_trim_is_trimmed, same_text, split, split_on, trim, trimmed,
};
use vstd::prelude::*;

verus! {

/// The entries of a comma-separated list: the pieces between the commas,
/// each without the whitespace around it, the empty ones left out.
pub open spec fn entries(pieces: Seq<Seq<char>>) -> Seq<Seq<char>>
    decreases pieces.len(),
{
    if pieces.len() == 0 {
        Seq::empty()
    } else if trim(pieces.last()).len() > 0 {
        entries(pieces.drop_last()).push(trim(pieces.last()))
    } else {
        entries(pieces.drop_last())
    }
}

/// The entries of a comma-separated list.
pub open spec fn list_entries(input: Seq<char>) -> Seq<Seq<char>> {
    entries(split(input, ','))
}

/// Whether each text of a list holds something and has no whitespace at
/// its start or at its end.
pub open spec fn tidy(list: Seq<Seq<char>>) -> bool {
    forall|i: int| 0 <= i < list.len() ==> (#[trigger] list[i]).len() > 0 && is_trimmed(list[i])
}

/// No entry of a list is empty, and none has whitespace at its start or at
/// its end.
pub proof fn lemma_entries_not_empty(pieces: Seq<Seq<char>>, i: int)
    requires
        0 <= i < entries(pieces).len(),
    ensures
        entries(pieces)[i].len() > 0,
        is_trimmed(entries(pieces)[i]),
    decreases pieces.len(),
{
    if pieces.len() > 0 {
        if trim(pieces.last()).len() > 0 {
            if i < entries(pieces.drop_last()).len() {
                lemma_entries_not_empty(pieces.drop_last(), i);
            } else {
                lemma_trim_is_trimmed(pieces.last());
            }
        } else {
            lemma_entries_not_empty(pieces.drop_last(), i);
        }
    }
}

/// The entries of a comma-separated list are tidy.
pub proof fn lemma_list_entries_tidy(input: Seq<char>)
    ensures
        tidy(list_entries(input)),
{
    assert forall|i: int| 0 <= i < list_entries(input).len() implies (#[trigger] list_entries(
        input,
    )[i]).len() > 0 && is_trimmed(list_entries(input)[i]) by {
        lemma_entries_not_empty(split(input, ','), i);
    }
}

/// The entries of a comma-separated list.
pub fn parse_list(input: &str) -> (r: Vec<String>)
    ensures
        r.deep_view() == list_entries(input@),
{
    let pieces = split_on(input, ',');
    let mut r: Vec<String> = Vec::new();
    let mut i: usize = 0;
    while i < pieces.len()
        invariant
            i <= pieces.len(),
            r.deep_view() == entries(pieces.deep_view().take(i as int)),
        decreases pieces.len() - i,
    {
        let ghost now = pieces.deep_view().take(i + 1);
        proof {
            assert(now.drop_last() =~= pieces.deep_view().take(i as int));
        }
        let t = trimmed(pieces[i].as_str());
        if t.as_str().unicode_len() > 0 {
            r.push(t);
        }
        i += 1;
    }
    assert(pieces.deep_view().take(pieces.len() as int) =~= pieces.deep_view());
    r
}

/// What a dialogue tells the operator beside its questions.
#[derive(Clone, Copy, Debug, PartialEq, Eq, Structural)]
pub enum Remark {
    /// A name must not be empty.
    NameEmpty,
    /// The name is in use; the dialogue ends.
    NameTaken,
    /// A preset needs at least one include; the dialogue ends.
    NoIncludes,
    /// The two passphrases differ; both are asked for again.
    PassphraseMismatch,
    /// The configuration was saved.
    Saved,
    /// The configuration was not saved: what was set up lasts as long as
    /// the program runs.
    NotSaved,
}

/// Whether `name` is the name of one of `names`.
pub open spec fn taken(names: Seq<Seq<char>>, name: Seq<char>) -> bool {
    names.contains(name)
}

/// Whether `name` is among `names`.
pub fn is_taken(names: &Vec<String>, name: &str) -> (r: bool)
    ensures
        r == taken(names.deep_view(), name@),
{
    let mut i: usize = 0;
    while i < names.len()
        invariant
            i <= names.len(),
            forall|j: int| 0 <= j < i ==> names.deep_view()[j] != name@,
        decreases names.len() - i,
    {
        if same_text(names[i].as_str(), name) {
            assert(names.deep_view()[i as int] == name@);
            return true;
        }
        i += 1;
    }
    false
}

/// Where the preset dialogue stands.
#[derive(Clone, Copy, Debug, PartialEq, Eq, Structural)]
pub enum PresetStage {
    /// Waits for the name, a text.
    AskName,
    /// Waits for the includes, a comma-separated text.
    AskIncludes,
    /// Waits for the excludes, a comma-separated text.
    AskExcludes,
    /// Waits for the compression, a text.
    AskCompression,
    /// Stay on one file system? Waits for a yes or no.
    AskOneFileSystem,
    /// Leave caches out? Waits for a yes or no.
    AskExcludeCaches,
    /// Waits for the prefix of archive names, a text.
    AskPrefix,
    /// Create the preset as reviewed? Waits for a yes or no.
    Review,
    /// The dialogue is over, with the preset as its result.
    Created,
    /// The dialogue is over, without a result.
    Abandoned,
}

/// The dialogue that defines a backup preset.
#[derive(Debug)]
pub struct PresetWizard {
    /// The names of the presets the repository has.
    pub names: Vec<String>,
    /// The preset as far as it has been entered.
    pub draft: BackupConfig,
    /// Where the dialogue stands.
    pub stage: PresetStage,
    /// What the last step has to tell the operator.
    pub remark: Option<Remark>,
}

/// What a [`PresetWizard`] holds.
pub struct PresetWizardView {
    pub names: Seq<Seq<char>>,
    pub draft: BackupConfigView,
    pub stage: PresetStage,
    pub remark: Option<Remark>,
}

impl View for PresetWizard {
    type V = PresetWizardView;

    open spec fn view(&self) -> PresetWizardView {
        PresetWizardView {
            names: self.names.deep_view(),
            draft: self.draft@,
            stage: self.stage,
            remark: self.remark,
        }
    }
}

/// A preset with nothing entered yet.
pub open spec fn blank_preset() -> BackupConfigView {
    BackupConfigView {
        name: Seq::empty(),
        includes: Seq::empty(),
        excludes: Seq::empty(),
        compression: None,
        one_file_system: false,
        exclude_caches: false,
        archive_prefix: None,
    }
}

/// The names of presets.
pub open spec fn preset_names(presets: Seq<BackupConfigView>) -> Seq<Seq<char>> {
    Seq::new(presets.len(), |i: int| presets[i].name)
}

/// The dialogue at another stage, with nothing to remark.
pub open spec fn preset_at(w: PresetWizardView, stage: PresetStage) -> PresetWizardView {
    PresetWizardView { stage, remark: None, ..w }
}

/// The preset dialogue after `input`. An input the stage does not wait for
/// leaves the dialogue as it is.
pub open spec fn preset_step(w: PresetWizardView, input: InputView) -> PresetWizardView {
    match (w.stage, input) {
        (PresetStage::AskName, InputView::Text(name)) => if trim(name).len() == 0 {
            PresetWizardView { remark: Some(Remark::NameEmpty), ..w }
        } else if taken(w.names, name) {
            PresetWizardView {
                stage: PresetStage::Abandoned,
                remark: Some(Remark::NameTaken),
                draft: BackupConfigView { name, ..w.draft },
                ..w
            }
        } else {
            preset_at(
                PresetWizardView { draft: BackupConfigView { name, ..w.draft }, ..w },
                PresetStage::AskIncludes,
            )
        },
        (PresetStage::AskIncludes, InputView::Text(raw)) => if list_entries(raw).len() == 0 {
            PresetWizardView {
                stage: PresetStage::Abandoned,
                remark: Some(Remark::NoIncludes),
                ..w
            }
        } else {
            preset_at(
                PresetWizardView {
                    draft: BackupConfigView { includes: list_entries(raw), ..w.draft },
                    ..w
                },
                PresetStage::AskExcludes,
            )
        },
        (PresetStage::AskExcludes, InputView::Text(raw)) => preset_at(
            PresetWizardView {
                draft: BackupConfigView { excludes: list_entries(raw), ..w.draft },
                ..w
            },
            PresetStage::AskCompression,
        ),
        (PresetStage::AskCompression, InputView::Text(raw)) => preset_at(
            PresetWizardView {
                draft: BackupConfigView {
                    compression: if trim(raw).len() == 0 {
                        None
                    } else {
                        Some(raw)
                    },
                    ..w.draft
                },
                ..w
            },
            PresetStage::AskOneFileSystem,
        ),
        (PresetStage::AskOneFileSystem, InputView::Answer(yes)) => preset_at(
            PresetWizardView { draft: BackupConfigView { one_file_system: yes, ..w.draft }, ..w },
            PresetStage::AskExcludeCaches,
        ),
        (PresetStage::AskExcludeCaches, InputView::Answer(yes)) => preset_at(
            PresetWizardView { draft: BackupConfigView { exclude_caches: yes, ..w.draft }, ..w },
            PresetStage::AskPrefix,
        ),
        (PresetStage::AskPrefix, InputView::Text(raw)) => preset_at(
            PresetWizardView {
                draft: BackupConfigView {
                    archive_prefix: if trim(raw).len() == 0 {
                        None
                    } else {
                        Some(trim(raw))
                    },
                    ..w.draft
                },
                ..w
            },
            PresetStage::Review,
        ),
        (PresetStage::Review, InputView::Answer(yes)) => if yes {
            preset_at(w, PresetStage::Created)
        } else {
            preset_at(w, PresetStage::Abandoned)
        },
        _ => w,
    }
}

/// The preset dialogue as it starts for a repository with these presets.
pub open spec fn preset_started(presets: Seq<BackupConfigView>) -> PresetWizardView {
    PresetWizardView {
        names: preset_names(presets),
        draft: blank_preset(),
        stage: PresetStage::AskName,
        remark: None,
    }
}

impl PresetWizard {
    /// The dialogue for one more preset of `repo`.
    pub fn start(repo: &RepoCtx) -> (w: PresetWizard)
        ensures
            w@ == preset_started(repo@.backups),
    {
        let mut names: Vec<String> = Vec::new();
        let mut i: usize = 0;
        while i < repo.backups.len()
            invariant
                i <= repo.backups.len(),
                names.deep_view() == preset_names(repo@.backups).take(i as int),
            decreases repo.backups.len() - i,
        {
            let name = repo.backups[i].name.clone();
            let ghost before = names.deep_view();
            let ghost added = name@;
            names.push(name);
            assert(names.deep_view() =~= before.push(added));
            i += 1;
        }
        assert(preset_names(repo@.backups).take(repo.backups.len() as int) =~= preset_names(
            repo@.backups,
        ));
        let draft = BackupConfig {
            name: String::new(),
            includes: Vec::new(),
            excludes: Vec::new(),
            compression: None,
            one_file_system: false,
            exclude_caches: false,
            archive_prefix: None,
        };
        assert(draft.excludes.deep_view() =~= Seq::empty());
        PresetWizard { names, draft, stage: PresetStage::AskName, remark: None }
    }

    /// The dialogue after `input`.
    pub fn advance(self, input: Input) -> (next: PresetWizard)
        ensures
            next@ == preset_step(self@, input@),
    {
        let mut w = self;
        match (w.stage, input) {
            (PresetStage::AskName, Input::Text(name)) => {
                if is_blank(name.as_str()) {
                    w.remark = Some(Remark::NameEmpty);
                } else if is_taken(&w.names, name.as_str()) {
                    w.draft.name = name;
                    w.stage = PresetStage::Abandoned;
                    w.remark = Some(Remark::NameTaken);
                } else {
                    w.draft.name = name;
                    w.stage = PresetStage::AskIncludes;
                    w.remark = None;
                }
                w
            },
            (PresetStage::AskIncludes, Input::Text(raw)) => {
                let includes = parse_list(raw.as_str());
                if includes.len() == 0 {
                    w.stage = PresetStage::Abandoned;
                    w.remark = Some(Remark::NoIncludes);
                } else {
                    w.draft.includes = includes;
                    w.stage = PresetStage::AskExcludes;
                    w.remark = None;
                }
                w
            },
            (PresetStage::AskExcludes, Input::Text(raw)) => {
                w.draft.excludes = parse_list(raw.as_str());
                w.stage = PresetStage::AskCompression;
                w.remark = None;
                w
            },
            (PresetStage::AskCompression, Input::Text(raw)) => {
                w.draft.compression = if is_blank(raw.as_str()) {
                    None
                } else {
                    Some(raw)
                };
                w.stage = PresetStage::AskOneFileSystem;
                w.remark = None;
                w
            },
            (PresetStage::AskOneFileSystem, Input::Answer(yes)) => {
                w.draft.one_file_system = yes;
                w.stage = PresetStage::AskExcludeCaches;
                w.remark = None;
                w
            },
            (PresetStage::AskExcludeCaches, Input::Answer(yes)) => {
                w.draft.exclude_caches = yes;
                w.stage = PresetStage::AskPrefix;
                w.remark = None;
                w
            },
            (PresetStage::AskPrefix, Input::Text(raw)) => {
                let t = trimmed(raw.as_str());
                w.draft.archive_prefix = if t.as_str().unicode_len() == 0 {
                    None
                } else {
                    Some(t)
                };
                w.stage = PresetStage::Review;
                w.remark = None;
                w
            },
            (PresetStage::Review, Input::Answer(yes)) => {
                w.stage = if yes {
                    PresetStage::Created
                } else {
                    PresetStage::Abandoned
                };
                w.remark = None;
                w
            },
            _ => w,
        }
    }

    /// The preset that was set up; nothing unless the dialogue was carried
    /// through.
    pub fn result(&self) -> (r: Option<BackupConfig>)
        ensures
            r.deep_view() == preset_result(self@),
    {
        match self.stage {
            PresetStage::Created => Some(self.draft.clone()),
            _ => None,
        }
    }

    /// Whether the dialogue is over.
    pub fn is_over(&self) -> (r: bool)
        ensures
            r == (self.stage == PresetStage::Created || self.stage == PresetStage::Abandoned),
    {
        match self.stage {
            PresetStage::Created => true,
            PresetStage::Abandoned => true,
            _ => false,
        }
    }
}

/// The preset that a dialogue has set up.
pub open spec fn preset_result(w: PresetWizardView) -> Option<BackupConfigView> {
    if w.stage == PresetStage::Created {
        Some(w.draft)
    } else {
        None
    }
}

/// What holds of a preset dialogue from its start: once the name has been
/// accepted it is not blank and no preset of the repository has it, and
/// once the includes have been accepted there is at least one. Whatever
/// the preset holds by then is tidy: every include and every exclude holds
/// something and has no whitespace around it, and so does the prefix where
/// there is one; and a compression, where there is one, is not blank.
pub open spec fn preset_sound(w: PresetWizardView) -> bool {
    &&& w.stage != PresetStage::AskName && w.stage != PresetStage::Abandoned ==> {
        &&& trim(w.draft.name).len() > 0
        &&& !taken(w.names, w.draft.name)
    }
    &&& w.stage != PresetStage::AskName && w.stage != PresetStage::AskIncludes && w.stage
        != PresetStage::Abandoned ==> w.draft.includes.len() > 0
    &&& tidy(w.draft.includes)
    &&& tidy(w.draft.excludes)
    &&& w.draft.archive_prefix is Some ==> w.draft.archive_prefix->0.len() > 0 && is_trimmed(
        w.draft.archive_prefix->0,
    )
    &&& w.draft.compression is Some ==> trim(w.draft.compression->0).len() > 0
}

/// A preset dialogue is sound at its start and stays so.
pub proof fn lemma_preset_dialogue_sound(w: PresetWizardView, input: InputView)
    requires
        preset_sound(w),
    ensures
        preset_sound(preset_step(w, input)),
        forall|presets: Seq<BackupConfigView>| preset_sound(#[trigger] preset_started(presets)),
{
    match input {
        InputView::Text(raw) => {
            lemma_list_entries_tidy(raw);
            lemma_trim_is_trimmed(raw);
        },
        _ => {},
    }
}

/// A preset that a dialogue sets up can be added to the repository: it has
/// includes, and its name, which is not blank, is new among the names of
/// the repository's presets. Its includes, its excludes and its prefix
/// are tidy, and its compression is not blank.
pub proof fn lemma_created_preset_is_new(w: PresetWizardView)
    requires
        preset_sound(w),
        preset_result(w) is Some,
    ensures
        preset_result(w)->0.includes.len() > 0,
        trim(preset_result(w)->0.name).len() > 0,
        !w.names.contains(preset_result(w)->0.name),
        tidy(preset_result(w)->0.includes),
        tidy(preset_result(w)->0.excludes),
        preset_result(w)->0.archive_prefix is Some ==> preset_result(w)->0.archive_prefix->0.len()
            > 0 && is_trimmed(preset_result(w)->0.archive_prefix->0),
        preset_result(w)->0.compression is Some ==> trim(preset_result(w)->0.compression->0).len()
            > 0,
{
}

/// A dialogue that is over stays as it is.
pub proof fn lemma_preset_dialogue_ends(w: PresetWizardView, input: InputView)
    requires
        w.stage == PresetStage::Created || w.stage == PresetStage::Abandoned,
    ensures
        preset_step(w, input) == w,
{
}

/// Where the repository dialogue stands.
#[derive(Clone, Copy, Debug, PartialEq, Eq, Structural)]
pub enum RepoStage {
    /// Waits for the name, a text.
    AskName,
    /// Waits for the path or URL of the repository, a text.
    AskLocator,
    /// Waits for the engine binary, a text.
    AskBin,
    /// Waits for the mount root, a text.
    AskMountRoot,
    /// Waits for the choice of encryption.
    AskEncryption,
    /// Initialise the repository as reviewed? Waits for a yes or no.
    Review,
    /// Waits for the new passphrase, a text.
    AskPassphrase,
    /// Waits for the new passphrase once more, a text.
    ConfirmPassphrase,
    /// The engine initialises the repository; waits for `Done`.
    Init,
    /// The failure to initialise is shown; waits for `Done`.
    InitFailed,
    /// Save the configuration? Waits for a yes or no.
    OfferSave,
    /// The configuration is being saved; waits for `Done`.
    Save,
    /// The failure to save is shown; waits for `Done`.
    SaveFailed,
    /// The dialogue is over, with the repository as its result.
    Created,
    /// The dialogue is over, without a result.
    Abandoned,
}

/// A repository as far as it has been entered.
#[derive(Debug)]
pub struct RepoDraft {
    pub name: String,
    pub repo: String,
    pub borg_bin: String,
    pub mount_root: String,
    /// Whether the repository is encrypted with a key kept in it.
    pub encrypted: bool,
}

/// What a [`RepoDraft`] holds.
pub struct RepoDraftView {
    pub name: Seq<char>,
    pub repo: Seq<char>,
    pub borg_bin: Seq<char>,
    pub mount_root: Seq<char>,
    pub encrypted: bool,
}

impl View for RepoDraft {
    type V = RepoDraftView;

    open spec fn view(&self) -> RepoDraftView {
        RepoDraftView {
            name: self.name@,
            repo: self.repo@,
            borg_bin: self.borg_bin@,
            mount_root: self.mount_root@,
            encrypted: self.encrypted,
        }
    }
}

/// The dialogue that adds a repository. It holds the configuration while
/// it runs and changes it at one point only: when the engine has
/// initialised the new repository.
#[derive(Debug)]
pub struct RepoWizard {
    /// The configuration the repository is added to.
    pub cfg: Config,
    /// The mount root that is used where the configuration names none.
    pub default_mount_root: String,
    /// The repository as far as it has been entered.
    pub draft: RepoDraft,
    /// The passphrase as it was entered the first time.
    pub first_entry: Option<String>,
    /// The passphrase of the new repository, where it is encrypted.
    pub passphrase: Option<String>,
    /// The failure that is being shown.
    pub failure: Option<ToolError>,
    /// Where the dialogue stands.
    pub stage: RepoStage,
    /// What the last step has to tell the operator.
    pub remark: Option<Remark>,
}

/// What a [`RepoWizard`] holds.
pub struct RepoWizardView {
    pub cfg: ConfigView,
    pub default_mount_root: Seq<char>,
    pub draft: RepoDraftView,
    pub first_entry: Option<Seq<char>>,
    pub passphrase: Option<Seq<char>>,
    pub failure: Option<ToolErrorView>,
    pub stage: RepoStage,
    pub remark: Option<Remark>,
}

impl View for RepoWizard {
    type V = RepoWizardView;

    open spec fn view(&self) -> RepoWizardView {
        RepoWizardView {
            cfg: self.cfg@,
            default_mount_root: self.default_mount_root@,
            draft: self.draft@,
            first_entry: self.first_entry.deep_view(),
            passphrase: self.passphrase.deep_view(),
            failure: self.failure.deep_view(),
            stage: self.stage,
            remark: self.remark,
        }
    }
}

/// The names of the repositories of a configuration, the one of the older
/// form included.
pub open spec fn repo_names(cfg: ConfigView) -> Seq<Seq<char>> {
    Seq::new(repo_list(cfg).len(), |i: int| repo_list(cfg)[i].name)
}

/// The new repository as it is written to the configuration: a setting
/// that is the configuration's own, or the built-in one, is left out.
pub open spec fn new_entry(cfg: ConfigView, default_root: Seq<char>, d: RepoDraftView) -> RepoConfigView {
    RepoConfigView {
        name: d.name,
        repo: d.repo,
        borg_bin: if d.borg_bin == cfg.borg_bin || d.borg_bin == "borg"@ {
            None
        } else {
            Some(d.borg_bin)
        },
        mount_root: if d.mount_root == cfg.mount_root || d.mount_root == default_root {
            None
        } else {
            Some(d.mount_root)
        },
        backups: Seq::empty(),
    }
}

/// The new repository as the console works on it. `status` is `Unknown`
/// for the engine to initialise it and `Reachable` once that is done.
pub open spec fn new_ctx(d: RepoDraftView, status: RepoStatus) -> RepoCtxView {
    RepoCtxView {
        name: d.name,
        repo: d.repo,
        borg_bin: d.borg_bin,
        mount_root: d.mount_root,
        backups: Seq::empty(),
        status,
    }
}

/// The configuration with the new repository at the end of its list, a
/// repository of the older form having been moved into the list first.
pub open spec fn committed(cfg: ConfigView, default_root: Seq<char>, d: RepoDraftView) -> ConfigView {
    ConfigView {
        repos: migrated(cfg).repos.push(new_entry(cfg, default_root, d)),
        ..migrated(cfg)
    }
}

/// The dialogue at another stage, with nothing to remark.
pub open spec fn repo_at(w: RepoWizardView, stage: RepoStage) -> RepoWizardView {
    RepoWizardView { stage, remark: None, ..w }
}

/// The dialogue at another stage, with a remark.
pub open spec fn repo_at_with(w: RepoWizardView, stage: RepoStage, remark: Remark) -> RepoWizardView {
    RepoWizardView { stage, remark: Some(remark), ..w }
}

/// The questions of the repository dialogue, up to its review.
pub open spec fn repo_step_questions(w: RepoWizardView, input: InputView) -> RepoWizardView {
    match (w.stage, input) {
        (RepoStage::AskName, InputView::Text(name)) => if trim(name).len() == 0 {
            repo_at_with(w, RepoStage::AskName, Remark::NameEmpty)
        } else if taken(repo_names(w.cfg), name) {
            repo_at_with(
                RepoWizardView { draft: RepoDraftView { name, ..w.draft }, ..w },
                RepoStage::Abandoned,
                Remark::NameTaken,
            )
        } else {
            repo_at(
                RepoWizardView { draft: RepoDraftView { name, ..w.draft }, ..w },
                RepoStage::AskLocator,
            )
        },
        (RepoStage::AskLocator, InputView::Text(repo)) => repo_at(
            RepoWizardView { draft: RepoDraftView { repo, ..w.draft }, ..w },
            RepoStage::AskBin,
        ),
        (RepoStage::AskBin, InputView::Text(borg_bin)) => repo_at(
            RepoWizardView { draft: RepoDraftView { borg_bin, ..w.draft }, ..w },
            RepoStage::AskMountRoot,
        ),
        (RepoStage::AskMountRoot, InputView::Text(mount_root)) => repo_at(
            RepoWizardView { draft: RepoDraftView { mount_root, ..w.draft }, ..w },
            RepoStage::AskEncryption,
        ),
        (RepoStage::AskEncryption, InputView::Choice(c)) => repo_at(
            RepoWizardView {
                draft: RepoDraftView { encrypted: c is None || c == Some(0usize), ..w.draft },
                ..w
            },
            RepoStage::Review,
        ),
        (RepoStage::Review, InputView::Answer(yes)) => if !yes {
            repo_at(w, RepoStage::Abandoned)
        } else if w.draft.encrypted {
            repo_at(w, RepoStage::AskPassphrase)
        } else {
            repo_at(RepoWizardView { passphrase: None, ..w }, RepoStage::Init)
        },
        (RepoStage::AskPassphrase, InputView::Text(first)) => repo_at(
            RepoWizardView { first_entry: Some(first), ..w },
            RepoStage::ConfirmPassphrase,
        ),
        (RepoStage::ConfirmPassphrase, InputView::Text(second)) => if w.first_entry == Some(
            second,
        ) {
            repo_at(
                RepoWizardView { passphrase: Some(second), first_entry: None, ..w },
                RepoStage::Init,
            )
        } else {
            repo_at_with(
                RepoWizardView { first_entry: None, ..w },
                RepoStage::AskPassphrase,
                Remark::PassphraseMismatch,
            )
        },
        _ => w,
    }
}

/// The repository dialogue from the engine's work on.
pub open spec fn repo_step_commit(w: RepoWizardView, input: InputView) -> RepoWizardView {
    match (w.stage, input) {
        (RepoStage::Init, InputView::Done) => repo_at(
            RepoWizardView { cfg: committed(w.cfg, w.default_mount_root, w.draft), ..w },
            RepoStage::OfferSave,
        ),
        (RepoStage::Init, InputView::Failed(e)) => repo_at(
            RepoWizardView { failure: Some(e), ..w },
            RepoStage::InitFailed,
        ),
        (RepoStage::InitFailed, InputView::Done) => repo_at(
            RepoWizardView { failure: None, ..w },
            RepoStage::Abandoned,
        ),
        (RepoStage::OfferSave, InputView::Answer(yes)) => if yes {
            repo_at(w, RepoStage::Save)
        } else {
            repo_at_with(w, RepoStage::Created, Remark::NotSaved)
        },
        (RepoStage::Save, InputView::Done) => repo_at_with(w, RepoStage::Created, Remark::Saved),
        (RepoStage::Save, InputView::Failed(e)) => repo_at(
            RepoWizardView { failure: Some(e), ..w },
            RepoStage::SaveFailed,
        ),
        (RepoStage::SaveFailed, InputView::Done) => repo_at(
            RepoWizardView { failure: None, ..w },
            RepoStage::Created,
        ),
        _ => w,
    }
}

/// Whether a stage lies before the engine's work.
pub open spec fn asks(stage: RepoStage) -> bool {
    match stage {
        RepoStage::AskName => true,
        RepoStage::AskLocator => true,
        RepoStage::AskBin => true,
        RepoStage::AskMountRoot => true,
        RepoStage::AskEncryption => true,
        RepoStage::Review => true,
        RepoStage::AskPassphrase => true,
        RepoStage::ConfirmPassphrase => true,
        _ => false,
    }
}

/// The repository dialogue after `input`. An input the stage does not wait
/// for leaves the dialogue as it is.
pub open spec fn repo_step(w: RepoWizardView, input: InputView) -> RepoWizardView {
    if asks(w.stage) {
        repo_step_questions(w, input)
    } else {
        repo_step_commit(w, input)
    }
}

/// The repository dialogue as it starts.
pub open spec fn repo_started(cfg: ConfigView, default_root: Seq<char>) -> RepoWizardView {
    RepoWizardView {
        cfg,
        default_mount_root: default_root,
        draft: RepoDraftView {
            name: Seq::empty(),
            repo: Seq::empty(),
            borg_bin: Seq::empty(),
            mount_root: Seq::empty(),
            encrypted: true,
        },
        first_entry: None,
        passphrase: None,
        failure: None,
        stage: RepoStage::AskName,
        remark: None,
    }
}

/// The repository that a dialogue has set up.
pub open spec fn repo_result(w: RepoWizardView) -> Option<RepoCtxView> {
    if w.stage == RepoStage::Created {
        Some(new_ctx(w.draft, RepoStatus::Reachable))
    } else {
        None
    }
}

/// Whether one of the repositories of `cfg` is called `name`.
pub fn repo_name_taken(cfg: &Config, name: &str) -> (r: bool)
    ensures
        r == taken(repo_names(cfg@), name@),
{
    if cfg.repos.len() > 0 {
        let mut i: usize = 0;
        while i < cfg.repos.len()
            invariant
                i <= cfg.repos.len(),
                cfg.repos.len() > 0,
                forall|j: int| 0 <= j < i ==> repo_names(cfg@)[j] != name@,
            decreases cfg.repos.len() - i,
        {
            if same_text(cfg.repos[i].name.as_str(), name) {
                assert(repo_names(cfg@)[i as int] == name@);
                return true;
            }
            i += 1;
        }
        false
    } else {
        match &cfg.repo {
            Some(_) => {
                let r = same_text("default", name);
                proof {
                    if r {
                        assert(repo_names(cfg@)[0] == name@);
                    }
                }
                r
            },
            None => false,
        }
    }
}

impl RepoWizard {
    /// The dialogue that adds a repository to `cfg`.
    pub fn start(cfg: Config, default_mount_root: String) -> (w: RepoWizard)
        ensures
            w@ == repo_started(cfg@, default_mount_root@),
    {
        RepoWizard {
            cfg,
            default_mount_root,
            draft: RepoDraft {
                name: String::new(),
                repo: String::new(),
                borg_bin: String::new(),
                mount_root: String::new(),
                encrypted: true,
            },
            first_entry: None,
            passphrase: None,
            failure: None,
            stage: RepoStage::AskName,
            remark: None,
        }
    }

    fn asks(&self) -> (r: bool)
        ensures
            r == asks(self.stage),
    {
        match self.stage {
            RepoStage::AskName => true,
            RepoStage::AskLocator => true,
            RepoStage::AskBin => true,
            RepoStage::AskMountRoot => true,
            RepoStage::AskEncryption => true,
            RepoStage::Review => true,
            RepoStage::AskPassphrase => true,
            RepoStage::ConfirmPassphrase => true,
            _ => false,
        }
    }

    fn to(self, stage: RepoStage) -> (next: RepoWizard)
        ensures
            next@ == repo_at(self@, stage),
    {
        let mut w = self;
        w.stage = stage;
        w.remark = None;
        w
    }

    fn to_with(self, stage: RepoStage, remark: Remark) -> (next: RepoWizard)
        ensures
            next@ == repo_at_with(self@, stage, remark),
    {
        let mut w = self;
        w.stage = stage;
        w.remark = Some(remark);
        w
    }

    fn advance_questions(self, input: Input) -> (next: RepoWizard)
        ensures
            next@ == repo_step_questions(self@, input@),
    {
        let mut w = self;
        match (w.stage, input) {
            (RepoStage::AskName, Input::Text(name)) => {
                if is_blank(name.as_str()) {
                    w.to_with(RepoStage::AskName, Remark::NameEmpty)
                } else if repo_name_taken(&w.cfg, name.as_str()) {
                    w.draft.name = name;
                    w.to_with(RepoStage::Abandoned, Remark::NameTaken)
                } else {
                    w.draft.name = name;
                    w.to(RepoStage::AskLocator)
                }
            },
            (RepoStage::AskLocator, Input::Text(repo)) => {
                w.draft.repo = repo;
                w.to(RepoStage::AskBin)
            },
            (RepoStage::AskBin, Input::Text(borg_bin)) => {
                w.draft.borg_bin = borg_bin;
                w.to(RepoStage::AskMountRoot)
            },
            (RepoStage::AskMountRoot, Input::Text(mount_root)) => {
                w.draft.mount_root = mount_root;
                w.to(RepoStage::AskEncryption)
            },
            (RepoStage::AskEncryption, Input::Choice(c)) => {
                w.draft.encrypted = match c {
                    None => true,
                    Some(i) => i == 0,
                };
                w.to(RepoStage::Review)
            },
            (RepoStage::Review, Input::Answer(yes)) => {
                if !yes {
                    w.to(RepoStage::Abandoned)
                } else if w.draft.encrypted {
                    w.to(RepoStage::AskPassphrase)
                } else {
                    w.passphrase = None;
                    w.to(RepoStage::Init)
                }
            },
            (RepoStage::AskPassphrase, Input::Text(first)) => {
                w.first_entry = Some(first);
                w.to(RepoStage::ConfirmPassphrase)
            },
            (RepoStage::ConfirmPassphrase, Input::Text(second)) => {
                let same = match &w.first_entry {
                    Some(first) => same_text(first.as_str(), second.as_str()),
                    None => false,
                };
                w.first_entry = None;
                if same {
                    w.passphrase = Some(second);
                    w.to(RepoStage::Init)
                } else {
                    w.to_with(RepoStage::AskPassphrase, Remark::PassphraseMismatch)
                }
            },
            _ => w,
        }
    }

    fn entry(&self) -> (e: RepoConfig)
        ensures
            e@ == new_entry(self@.cfg, self@.default_mount_root, self@.draft),
    {
        let d = &self.draft;
        let borg_bin = if same_text(d.borg_bin.as_str(), self.cfg.borg_bin.as_str()) || same_text(
            d.borg_bin.as_str(),
            "borg",
        ) {
            None
        } else {
            Some(d.borg_bin.clone())
        };
        let mount_root = if same_text(d.mount_root.as_str(), self.cfg.mount_root.as_str())
            || same_text(d.mount_root.as_str(), self.default_mount_root.as_str()) {
            None
        } else {
            Some(d.mount_root.clone())
        };
        let e = RepoConfig {
            name: d.name.clone(),
            repo: d.repo.clone(),
            borg_bin,
            mount_root,
            backups: Vec::new(),
        };
        assert(e.backups.deep_view() =~= Seq::empty());
        e
    }

    fn advance_commit(self, input: Input) -> (next: RepoWizard)
        ensures
            next@ == repo_step_commit(self@, input@),
    {
        let mut w = self;
        match (w.stage, input) {
            (RepoStage::Init, Input::Done) => {
                let e = w.entry();
                migrate_legacy_repo(&mut w.cfg);
                let ghost before = w.cfg.repos.deep_view();
                let ghost added = e@;
                w.cfg.repos.push(e);
                assert(w.cfg.repos.deep_view() =~= before.push(added));
                w.to(RepoStage::OfferSave)
            },
            (RepoStage::Init, Input::Failed(e)) => {
                w.failure = Some(e);
                w.to(RepoStage::InitFailed)
            },
            (RepoStage::InitFailed, Input::Done) => {
                w.failure = None;
                w.to(RepoStage::Abandoned)
            },
            (RepoStage::OfferSave, Input::Answer(yes)) => {
                if yes {
                    w.to(RepoStage::Save)
                } else {
                    w.to_with(RepoStage::Created, Remark::NotSaved)
                }
            },
            (RepoStage::Save, Input::Done) => w.to_with(RepoStage::Created, Remark::Saved),
            (RepoStage::Save, Input::Failed(e)) => {
                w.failure = Some(e);
                w.to(RepoStage::SaveFailed)
            },
            (RepoStage::SaveFailed, Input::Done) => {
                w.failure = None;
                w.to(RepoStage::Created)
            },
            _ => w,
        }
    }

    /// The dialogue after `input`.
    pub fn advance(self, input: Input) -> (next: RepoWizard)
        ensures
            next@ == repo_step(self@, input@),
    {
        if self.asks() {
            self.advance_questions(input)
        } else {
            self.advance_commit(input)
        }
    }

    /// The new repository as the console works on it, with the status
    /// given.
    pub fn context(&self, status: RepoStatus) -> (ctx: RepoCtx)
        ensures
            ctx@ == new_ctx(self@.draft, status),
    {
        let ctx = RepoCtx {
            name: self.draft.name.clone(),
            repo: self.draft.repo.clone(),
            borg_bin: self.draft.borg_bin.clone(),
            mount_root: self.draft.mount_root.clone(),
            backups: Vec::new(),
            status,
        };
        assert(ctx.backups.deep_view() =~= Seq::empty());
        ctx
    }

    /// The repository that was set up; nothing unless the dialogue was
    /// carried through.
    pub fn result(&self) -> (r: Option<RepoCtx>)
        ensures
            r.deep_view() == repo_result(self@),
    {
        match self.stage {
            RepoStage::Created => Some(self.context(RepoStatus::Reachable)),
            _ => None,
        }
    }

    /// Whether the dialogue is over.
    pub fn is_over(&self) -> (r: bool)
        ensures
            r == (self.stage == RepoStage::Created || self.stage == RepoStage::Abandoned),
    {
        match self.stage {
            RepoStage::Created => true,
            RepoStage::Abandoned => true,
            _ => false,
        }
    }
}

/// Whether a stage lies behind the point at which the repository joins the
/// configuration.
pub open spec fn past_commit(stage: RepoStage) -> bool {
    stage == RepoStage::OfferSave || stage == RepoStage::Save || stage == RepoStage::SaveFailed
        || stage == RepoStage::Created
}

/// The dialogue changes the configuration at one point only, when the
/// engine has initialised the repository; there the repository joins the
/// end of the list. Before that point the dialogue can be given up, and a
/// dialogue that is given up has left the configuration as it was; behind
/// it the dialogue ends with the repository as its result.
pub proof fn lemma_repo_dialogue_commits_once(w: RepoWizardView, input: InputView)
    ensures
        w.stage == RepoStage::Init && input is Done ==> repo_step(w, input).cfg == committed(
            w.cfg,
            w.default_mount_root,
            w.draft,
        ),
        !(w.stage == RepoStage::Init && input is Done) ==> repo_step(w, input).cfg == w.cfg,
        !past_commit(w.stage) && past_commit(repo_step(w, input).stage) <==> w.stage
            == RepoStage::Init && input is Done,
        past_commit(w.stage) ==> past_commit(repo_step(w, input).stage),
        repo_step(w, input).stage == RepoStage::Abandoned ==> !past_commit(w.stage) && repo_step(
            w,
            input,
        ).cfg == w.cfg,
{
}

/// What holds of a repository dialogue from its start: once the name has
/// been accepted it is not blank, and while the dialogue asks, no
/// repository of the configuration has it.
pub open spec fn repo_sound(w: RepoWizardView) -> bool {
    &&& w.stage != RepoStage::AskName && w.stage != RepoStage::Abandoned ==> trim(
        w.draft.name,
    ).len() > 0
    &&& (asks(w.stage) && w.stage != RepoStage::AskName) || w.stage == RepoStage::Init
        ==> !taken(repo_names(w.cfg), w.draft.name)
}

/// A repository dialogue is sound at its start and stays so.
pub proof fn lemma_repo_dialogue_sound(w: RepoWizardView, input: InputView)
    requires
        repo_sound(w),
    ensures
        repo_sound(repo_step(w, input)),
        forall|cfg: ConfigView, root: Seq<char>| repo_sound(#[trigger] repo_started(cfg, root)),
{
}

/// The repository that a dialogue adds has a name that no repository of
/// the configuration had: names stay unique. The repositories that were
/// there stay, in their order; the new one comes last. Read back from the
/// configuration it has the engine binary and the mount root that were
/// entered, unless the built-in one was entered while the configuration
/// names another: then it has the configuration's.
pub proof fn lemma_new_repo_is_new(w: RepoWizardView)
    requires
        repo_sound(w),
        w.stage == RepoStage::Init,
    ensures
        !repo_names(w.cfg).contains(w.draft.name),
        repo_list(repo_step(w, InputView::Done).cfg).len() == repo_list(w.cfg).len() + 1,
        repo_list(repo_step(w, InputView::Done).cfg).last().name == w.draft.name,
        repo_list(repo_step(w, InputView::Done).cfg).last().repo == w.draft.repo,
        repo_list(repo_step(w, InputView::Done).cfg).last().borg_bin == if w.draft.borg_bin
            == "borg"@ {
            w.cfg.borg_bin
        } else {
            w.draft.borg_bin
        },
        repo_list(repo_step(w, InputView::Done).cfg).last().mount_root == if w.draft.mount_root
            == w.default_mount_root {
            w.cfg.mount_root
        } else {
            w.draft.mount_root
        },
        forall|i: int|
            0 <= i < repo_list(w.cfg).len() ==> repo_list(repo_step(w, InputView::Done).cfg)[i]
                == #[trigger] repo_list(w.cfg)[i],
{
    let after = repo_step(w, InputView::Done).cfg;
    assert(after == committed(w.cfg, w.default_mount_root, w.draft));
    assert(after.repos.len() > 0);
    assert forall|i: int| 0 <= i < repo_list(w.cfg).len() implies repo_list(after)[i]
        == #[trigger] repo_list(w.cfg)[i] by {
        assert(after.repos[i] == migrated(w.cfg).repos[i]);
    }
}

/// Presets keep different names: where no two presets of the repository
/// have the same name, none has the name of a preset that a dialogue sets
/// up, so that the names are different still once it has joined them.
pub proof fn lemma_preset_names_stay_unique(w: PresetWizardView)
    requires
        preset_sound(w),
        preset_result(w) is Some,
        w.names.no_duplicates(),
    ensures
        w.names.push(preset_result(w)->0.name).no_duplicates(),
{
    let name = preset_result(w)->0.name;
    let all = w.names.push(name);
    assert forall|i: int, j: int| 0 <= i < all.len() && 0 <= j < all.len() && i != j implies all[i]
        != all[j] by {
        if i < w.names.len() && j < w.names.len() {
        } else if i < w.names.len() {
            assert(w.names.contains(w.names[i]));
        } else {
            assert(w.names.contains(w.names[j]));
        }
    }
}

/// Repositories keep different names: where no two repositories of the
/// configuration have the same name, they have different names still once
/// a dialogue has added its repository.
pub proof fn lemma_repo_names_stay_unique(w: RepoWizardView)
    requires
        repo_sound(w),
        w.stage == RepoStage::Init,
        repo_names(w.cfg).no_duplicates(),
    ensures
        repo_names(repo_step(w, InputView::Done).cfg).no_duplicates(),
{
    lemma_new_repo_is_new(w);
    let before = repo_names(w.cfg);
    let after = repo_names(repo_step(w, InputView::Done).cfg);
    assert(after =~= before.push(w.draft.name)) by {
        assert(after.len() == before.len() + 1);
        assert forall|i: int| 0 <= i < before.len() implies after[i] == before[i] by {
            assert(repo_list(repo_step(w, InputView::Done).cfg)[i] == repo_list(w.cfg)[i]);
        }
    }
    assert forall|i: int, j: int|
        0 <= i < after.len() && 0 <= j < after.len() && i != j implies after[i] != after[j] by {
        if i < before.len() && j < before.len() {
        } else if i < before.len() {
            assert(before.contains(before[i]));
        } else {
            assert(before.contains(before[j]));
        }
    }
}

} // verus!
