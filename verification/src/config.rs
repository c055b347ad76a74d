//! The persisted configuration and the repository contexts resolved from it.

use crate::error::{ErrorKind, ToolError, ToolErrorView};
use crate::paths::{join, join_path};
use crate::text::{same_text, text2, text4};
use vstd::prelude::*;

verus! {

/// How far a repository could be reached when it was last probed.
#[derive(Clone, Copy, Debug, PartialEq, Eq, Structural)]
pub enum RepoStatus {
    /// A local path that exists.
    Reachable,
    /// A local path that does not exist.
    MissingLocal,
    /// A remote host that answered.
    RemoteOk,
    /// A remote host that refused the login it was offered.
    RemoteAuthNeeded,
    /// Not probed, or the probe told nothing.
    Unknown,
}

/// A named, reusable description of one kind of backup.
#[derive(Debug)]
pub struct BackupConfig {
    /// The name the operator calls it by.
    pub name: String,
    /// Paths or patterns to include.
    pub includes: Vec<String>,
    /// Paths or patterns to exclude.
    pub excludes: Vec<String>,
    /// Compression mode, such as `lz4` or `zstd,5`.
    pub compression: Option<String>,
    /// Stay on the file system the includes start on.
    pub one_file_system: bool,
    /// Leave out directories marked as caches.
    pub exclude_caches: bool,
    /// What archive names begin with, in place of the repository's name.
    pub archive_prefix: Option<String>,
}

/// What a [`BackupConfig`] holds.
pub struct BackupConfigView {
    pub name: Seq<char>,
    pub includes: Seq<Seq<char>>,
    pub excludes: Seq<Seq<char>>,
    pub compression: Option<Seq<char>>,
    pub one_file_system: bool,
    pub exclude_caches: bool,
    pub archive_prefix: Option<Seq<char>>,
}

impl View for BackupConfig {
    type V = BackupConfigView;

    open spec fn view(&self) -> BackupConfigView {
        BackupConfigView {
            name: self.name@,
            includes: self.includes.deep_view(),
            excludes: self.excludes.deep_view(),
            compression: self.compression.deep_view(),
            one_file_system: self.one_file_system,
            exclude_caches: self.exclude_caches,
            archive_prefix: self.archive_prefix.deep_view(),
        }
    }
}

impl DeepView for BackupConfig {
    type V = BackupConfigView;

    open spec fn deep_view(&self) -> BackupConfigView {
        self@
    }
}

impl Clone for BackupConfig {
    fn clone(&self) -> (r: Self)
        ensures
            r@ == self@,
    {
        let r = BackupConfig {
            name: self.name.clone(),
            includes: self.includes.clone(),
            excludes: self.excludes.clone(),
            compression: self.compression.clone(),
            one_file_system: self.one_file_system,
            exclude_caches: self.exclude_caches,
            archive_prefix: self.archive_prefix.clone(),
        };
        r
    }
}

/// One repository as the configuration file describes it.
#[derive(Debug)]
pub struct RepoConfig {
    /// The name the operator calls it by.
    pub name: String,
    /// Path or URL of the repository.
    pub repo: String,
    /// The engine binary for this repository, where it differs.
    pub borg_bin: Option<String>,
    /// The mount root for this repository, where it differs.
    pub mount_root: Option<String>,
    /// The backup presets of this repository.
    pub backups: Vec<BackupConfig>,
}

/// What a [`RepoConfig`] holds.
pub struct RepoConfigView {
    pub name: Seq<char>,
    pub repo: Seq<char>,
    pub borg_bin: Option<Seq<char>>,
    pub mount_root: Option<Seq<char>>,
    pub backups: Seq<BackupConfigView>,
}

impl View for RepoConfig {
    type V = RepoConfigView;

    open spec fn view(&self) -> RepoConfigView {
        RepoConfigView {
            name: self.name@,
            repo: self.repo@,
            borg_bin: self.borg_bin.deep_view(),
            mount_root: self.mount_root.deep_view(),
            backups: self.backups.deep_view(),
        }
    }
}

impl DeepView for RepoConfig {
    type V = RepoConfigView;

    open spec fn deep_view(&self) -> RepoConfigView {
        self@
    }
}

/// A copy of `v`, preset by preset.
pub fn clone_backups(v: &Vec<BackupConfig>) -> (r: Vec<BackupConfig>)
    ensures
        r.deep_view() == v.deep_view(),
{
    let mut r: Vec<BackupConfig> = Vec::new();
    let mut i: usize = 0;
    while i < v.len()
        invariant
            i <= v.len(),
            r.deep_view() == v.deep_view().take(i as int),
        decreases v.len() - i,
    {
        let item = v[i].clone();
        let ghost before = r.deep_view();
        let ghost added = item@;
        r.push(item);
        assert(r.deep_view() =~= before.push(added));
        i += 1;
    }
    r
}

impl Clone for RepoConfig {
    fn clone(&self) -> (r: Self)
        ensures
            r@ == self@,
    {
        RepoConfig {
            name: self.name.clone(),
            repo: self.repo.clone(),
            borg_bin: self.borg_bin.clone(),
            mount_root: self.mount_root.clone(),
            backups: clone_backups(&self.backups),
        }
    }
}

/// The configuration as it is persisted.
#[derive(Debug)]
pub struct Config {
    /// The repositories, where more than one can be named.
    pub repos: Vec<RepoConfig>,
    /// A single repository in the older form, used where `repos` is empty.
    pub repo: Option<String>,
    /// The engine binary, unless a repository names its own.
    pub borg_bin: String,
    /// The directory below which archives are mounted, unless a repository
    /// names its own.
    pub mount_root: String,
    /// Whether remote repositories are probed when the console starts.
    pub probe_ssh: bool,
}

/// What a [`Config`] holds.
pub struct ConfigView {
    pub repos: Seq<RepoConfigView>,
    pub repo: Option<Seq<char>>,
    pub borg_bin: Seq<char>,
    pub mount_root: Seq<char>,
    pub probe_ssh: bool,
}

impl View for Config {
    type V = ConfigView;

    open spec fn view(&self) -> ConfigView {
        ConfigView {
            repos: self.repos.deep_view(),
            repo: self.repo.deep_view(),
            borg_bin: self.borg_bin@,
            mount_root: self.mount_root@,
            probe_ssh: self.probe_ssh,
        }
    }
}

/// A repository with every setting resolved, as the console works on it.
#[derive(Debug)]
pub struct RepoCtx {
    /// The name the operator calls it by.
    pub name: String,
    /// Path or URL of the repository.
    pub repo: String,
    /// The engine binary to run for it.
    pub borg_bin: String,
    /// The directory below which its archives are mounted by default.
    pub mount_root: String,
    /// Its backup presets.
    pub backups: Vec<BackupConfig>,
    /// What the probe found.
    pub status: RepoStatus,
}

/// What a [`RepoCtx`] holds.
pub struct RepoCtxView {
    pub name: Seq<char>,
    pub repo: Seq<char>,
    pub borg_bin: Seq<char>,
    pub mount_root: Seq<char>,
    pub backups: Seq<BackupConfigView>,
    pub status: RepoStatus,
}

impl View for RepoCtx {
    type V = RepoCtxView;

    open spec fn view(&self) -> RepoCtxView {
        RepoCtxView {
            name: self.name@,
            repo: self.repo@,
            borg_bin: self.borg_bin@,
            mount_root: self.mount_root@,
            backups: self.backups.deep_view(),
            status: self.status,
        }
    }
}

impl DeepView for RepoCtx {
    type V = RepoCtxView;

    open spec fn deep_view(&self) -> RepoCtxView {
        self@
    }
}

impl Clone for RepoCtx {
    fn clone(&self) -> (r: Self)
        ensures
            r@ == self@,
    {
        RepoCtx {
            name: self.name.clone(),
            repo: self.repo.clone(),
            borg_bin: self.borg_bin.clone(),
            mount_root: self.mount_root.clone(),
            backups: clone_backups(&self.backups),
            status: self.status,
        }
    }
}

/// The label a status is shown with.
pub open spec fn status_text(status: RepoStatus) -> Seq<char> {
    match status {
        RepoStatus::Reachable => "ok"@,
        RepoStatus::MissingLocal => "missing"@,
        RepoStatus::RemoteOk => "remote-ok"@,
        RepoStatus::RemoteAuthNeeded => "remote-auth?"@,
        RepoStatus::Unknown => "remote?"@,
    }
}

/// The label a status is shown with.
pub fn status_label(status: RepoStatus) -> (r: &'static str)
    ensures
        r@ == status_text(status),
{
    match status {
        RepoStatus::Reachable => "ok",
        RepoStatus::MissingLocal => "missing",
        RepoStatus::RemoteOk => "remote-ok",
        RepoStatus::RemoteAuthNeeded => "remote-auth?",
        RepoStatus::Unknown => "remote?",
    }
}

/// The engine binary where the configuration names none.
pub fn default_borg_bin() -> (r: String)
    ensures
        r@ == "borg"@,
{
    "borg".to_owned()
}

/// Whether remote repositories are probed where the configuration does not
/// say.
pub fn default_probe_ssh() -> (r: bool)
    ensures
        r,
{
    true
}

/// The mount root where the configuration names none: a directory of the
/// console's own below the system's directory for temporary files.
pub fn default_mount_root(temp_dir: &str) -> (r: String)
    ensures
        r@ == join(temp_dir@, "borg-tool-mounts"@),
{
    join_path(temp_dir, "borg-tool-mounts")
}

/// Where the configuration file is looked for, given the directory for
/// configuration files and the home directory as the environment names
/// them.
pub open spec fn config_path(xdg: Option<Seq<char>>, home: Option<Seq<char>>) -> Seq<char> {
    match xdg {
        Some(dir) => join(join(dir, "borg-tool"@), "config.toml"@),
        None => match home {
            Some(dir) => join(join(join(dir, ".config"@), "borg-tool"@), "config.toml"@),
            None => "config.toml"@,
        },
    }
}

/// Where the configuration file is looked for when the command line names
/// no file: below the directory for configuration files, else below
/// `.config` in the home directory, else in the current directory.
pub fn default_config_path(xdg: Option<&str>, home: Option<&str>) -> (r: String)
    ensures
        r@ == config_path(xdg.deep_view(), home.deep_view()),
{
    match xdg {
        Some(dir) => {
            let d = join_path(dir, "borg-tool");
            join_path(d.as_str(), "config.toml")
        },
        None => match home {
            Some(dir) => {
                let c = join_path(dir, ".config");
                let d = join_path(c.as_str(), "borg-tool");
                join_path(d.as_str(), "config.toml")
            },
            None => "config.toml".to_owned(),
        },
    }
}

/// A repository of the configuration with the global settings filled in
/// where it has none of its own.
pub open spec fn resolved(cfg: ConfigView, r: RepoConfigView) -> RepoCtxView {
    RepoCtxView {
        name: r.name,
        repo: r.repo,
        borg_bin: match r.borg_bin {
            Some(b) => b,
            None => cfg.borg_bin,
        },
        mount_root: match r.mount_root {
            Some(m) => m,
            None => cfg.mount_root,
        },
        backups: r.backups,
        status: RepoStatus::Unknown,
    }
}

/// The single repository of the older form, under the name `default`.
pub open spec fn legacy_ctx(cfg: ConfigView, locator: Seq<char>) -> RepoCtxView {
    RepoCtxView {
        name: "default"@,
        repo: locator,
        borg_bin: cfg.borg_bin,
        mount_root: cfg.mount_root,
        backups: Seq::empty(),
        status: RepoStatus::Unknown,
    }
}

/// The repository contexts of a configuration, in its order: its
/// repositories where it lists any, else the one of the older form, else
/// none. None has been probed yet.
pub open spec fn repo_list(cfg: ConfigView) -> Seq<RepoCtxView> {
    if cfg.repos.len() > 0 {
        Seq::new(cfg.repos.len(), |i: int| resolved(cfg, cfg.repos[i]))
    } else {
        match cfg.repo {
            Some(locator) => seq![legacy_ctx(cfg, locator)],
            None => Seq::empty(),
        }
    }
}

/// The repository contexts of a configuration, not yet probed.
pub fn build_repo_list(cfg: &Config) -> (repos: Vec<RepoCtx>)
    ensures
        repos.deep_view() == repo_list(cfg@),
{
    let mut repos: Vec<RepoCtx> = Vec::new();
    if cfg.repos.len() > 0 {
        let mut i: usize = 0;
        while i < cfg.repos.len()
            invariant
                i <= cfg.repos.len(),
                cfg.repos.len() > 0,
                repos.deep_view() == repo_list(cfg@).take(i as int),
            decreases cfg.repos.len() - i,
        {
            let r = &cfg.repos[i];
            let ctx = RepoCtx {
                name: r.name.clone(),
                repo: r.repo.clone(),
                borg_bin: match &r.borg_bin {
                    Some(b) => b.clone(),
                    None => cfg.borg_bin.clone(),
                },
                mount_root: match &r.mount_root {
                    Some(m) => m.clone(),
                    None => cfg.mount_root.clone(),
                },
                backups: clone_backups(&r.backups),
                status: RepoStatus::Unknown,
            };
            let ghost before = repos.deep_view();
            let ghost added = ctx@;
            repos.push(ctx);
            assert(repos.deep_view() =~= before.push(added));
            i += 1;
        }
    } else {
        match &cfg.repo {
            Some(locator) => {
                let ctx = RepoCtx {
                    name: "default".to_owned(),
                    repo: locator.clone(),
                    borg_bin: cfg.borg_bin.clone(),
                    mount_root: cfg.mount_root.clone(),
                    backups: Vec::new(),
                    status: RepoStatus::Unknown,
                };
                assert(ctx.backups.deep_view() =~= Seq::empty());
                repos.push(ctx);
            },
            None => {
            },
        }
    }
    repos
}

/// The configuration with a repository of the older form moved into the
/// list, under the name `default`; unchanged where the list holds a
/// repository already or there is no older form.
pub open spec fn migrated(cfg: ConfigView) -> ConfigView {
    if cfg.repos.len() == 0 && cfg.repo is Some {
        ConfigView {
            repos: seq![
                RepoConfigView {
                    name: "default"@,
                    repo: cfg.repo->0,
                    borg_bin: None,
                    mount_root: None,
                    backups: Seq::empty(),
                },
            ],
            repo: None,
            ..cfg
        }
    } else {
        cfg
    }
}

/// Moves a repository of the older form into the list.
pub fn migrate_legacy_repo(cfg: &mut Config)
    ensures
        final(cfg)@ == migrated(old(cfg)@),
{
    if cfg.repos.len() == 0 {
        let legacy = cfg.repo.take();
        match legacy {
            Some(locator) => {
                let entry = RepoConfig {
                    name: "default".to_owned(),
                    repo: locator,
                    borg_bin: None,
                    mount_root: None,
                    backups: Vec::new(),
                };
                assert(entry.backups.deep_view() =~= Seq::empty());
                cfg.repos.push(entry);
                assert(cfg.repos.deep_view() =~= migrated(old(cfg)@).repos);
            },
            None => {
            },
        }
    }
}

/// Moving the older form into the list changes no repository context.
pub proof fn lemma_migration_keeps_repo_list(cfg: ConfigView)
    ensures
        repo_list(migrated(cfg)) == repo_list(cfg),
{
    assert(repo_list(migrated(cfg)) =~= repo_list(cfg));
}

/// The position of the first repository called `name`; the number of
/// repositories if none is.
pub open spec fn repo_index(repos: Seq<RepoConfigView>, name: Seq<char>) -> int
    decreases repos.len(),
{
    if repos.len() == 0 {
        0
    } else if repo_index(repos.drop_last(), name) < repos.len() - 1 {
        repo_index(repos.drop_last(), name)
    } else if repos.last().name == name {
        repos.len() - 1
    } else {
        repos.len() as int
    }
}

/// The configuration with `preset` added at the end of the presets of the
/// first repository called `repo_name`; unchanged where none is called so.
pub open spec fn with_preset(
    cfg: ConfigView,
    repo_name: Seq<char>,
    preset: BackupConfigView,
) -> ConfigView {
    let i = repo_index(cfg.repos, repo_name);
    if 0 <= i < cfg.repos.len() {
        ConfigView {
            repos: cfg.repos.update(
                i,
                RepoConfigView { backups: cfg.repos[i].backups.push(preset), ..cfg.repos[i] },
            ),
            ..cfg
        }
    } else {
        cfg
    }
}

proof fn lemma_repo_index(repos: Seq<RepoConfigView>, name: Seq<char>, p: int)
    requires
        0 <= p <= repos.len(),
        forall|j: int| 0 <= j < p ==> repos[j].name != name,
        p < repos.len() ==> repos[p].name == name,
    ensures
        repo_index(repos, name) == p,
    decreases repos.len(),
{
    if repos.len() > 0 {
        let head = repos.drop_last();
        if p < repos.len() - 1 {
            lemma_repo_index(head, name, p);
        } else {
            lemma_repo_index(head, name, repos.len() - 1);
        }
    }
}

/// Adds `preset` to the repository called `repo_name`, if the list holds
/// one.
pub fn add_preset_to_config(cfg: &mut Config, repo_name: &str, preset: BackupConfig)
    ensures
        final(cfg)@ == with_preset(old(cfg)@, repo_name@, preset@),
{
    let mut i: usize = 0;
    while i < cfg.repos.len()
        invariant
            i <= cfg.repos.len(),
            *cfg == *old(cfg),
            forall|j: int| 0 <= j < i ==> cfg.repos.deep_view()[j].name != repo_name@,
        decreases cfg.repos.len() - i,
    {
        if same_text(cfg.repos[i].name.as_str(), repo_name) {
            proof {
                lemma_repo_index(cfg.repos.deep_view(), repo_name@, i as int);
            }
            let mut entry = cfg.repos.remove(i);
            let ghost pushed = entry.backups.deep_view().push(preset@);
            entry.backups.push(preset);
            assert(entry.backups.deep_view() =~= pushed);
            cfg.repos.insert(i, entry);
            assert(cfg.repos.deep_view() =~= with_preset(old(cfg)@, repo_name@, preset@).repos);
            return ;
        }
        i += 1;
    }
    proof {
        lemma_repo_index(cfg.repos.deep_view(), repo_name@, i as int);
    }
}

/// What came of reading the configuration from one file.
#[derive(Clone, Copy, Debug, PartialEq, Eq, Structural)]
pub enum LoadOutcome {
    /// The file was read and understood.
    Loaded,
    /// There is no such file.
    NotFound,
    /// The file is there and could not be read.
    Unreadable,
    /// The file was read and is no valid configuration.
    Invalid,
}

/// What to do next in order to get at the configuration.
#[derive(Debug)]
pub enum ConfigStep {
    /// Read this file; it is the candidate with this number.
    Try { attempt: usize, path: String },
    /// The configuration is what was read from this file.
    Use { path: String },
    /// There is no configuration to be had.
    Fail(ToolError),
}

/// What a [`ConfigStep`] holds.
pub enum ConfigStepView {
    Try { attempt: usize, path: Seq<char> },
    Use { path: Seq<char> },
    Fail(ToolErrorView),
}

impl View for ConfigStep {
    type V = ConfigStepView;

    open spec fn view(&self) -> ConfigStepView {
        match *self {
            ConfigStep::Try { attempt, path } => ConfigStepView::Try { attempt, path: path@ },
            ConfigStep::Use { path } => ConfigStepView::Use { path: path@ },
            ConfigStep::Fail(e) => ConfigStepView::Fail(e@),
        }
    }
}

/// The files the configuration is looked for in, in order: the one the
/// command line names and no other, or else the default one and then
/// `config.toml` in the current directory.
pub open spec fn candidates(cli_path: Option<Seq<char>>, default_path: Seq<char>) -> Seq<
    Seq<char>,
> {
    match cli_path {
        Some(p) => seq![p],
        None => seq![default_path, "config.toml"@],
    }
}

/// What is said of a file that yields no configuration.
pub open spec fn load_failure(path: Seq<char>, outcome: LoadOutcome) -> Seq<char> {
    if outcome == LoadOutcome::Invalid {
        "Invalid TOML in "@ + path
    } else {
        "Cannot read config file "@ + path
    }
}

/// What is said where no file was found.
pub open spec fn none_found(default_path: Seq<char>) -> Seq<char> {
    "No config file found. Tried: "@ + default_path + ", "@ + "config.toml"@
}

/// The first step towards the configuration: to read the first candidate.
pub open spec fn first_step(cli_path: Option<Seq<char>>, default_path: Seq<char>) -> ConfigStepView {
    ConfigStepView::Try { attempt: 0, path: candidates(cli_path, default_path)[0] }
}

/// The step that follows the reading of the candidate numbered `attempt`.
/// A file that was understood is the configuration. A file that is
/// missing sends the search on to the next candidate, if the command line
/// named none and a candidate is left; when none is left, none was found.
/// Any other failure ends the search with what went wrong.
pub open spec fn next_step(
    cli_path: Option<Seq<char>>,
    default_path: Seq<char>,
    attempt: usize,
    outcome: LoadOutcome,
) -> ConfigStepView {
    let files = candidates(cli_path, default_path);
    if attempt >= files.len() {
        ConfigStepView::Fail(
            ToolErrorView { kind: ErrorKind::Configuration, message: none_found(default_path) },
        )
    } else if outcome == LoadOutcome::Loaded {
        ConfigStepView::Use { path: files[attempt as int] }
    } else if outcome == LoadOutcome::NotFound && cli_path is None {
        if attempt + 1 < files.len() {
            ConfigStepView::Try { attempt: (attempt + 1) as usize, path: files[attempt + 1] }
        } else {
            ConfigStepView::Fail(
                ToolErrorView {
                    kind: ErrorKind::Configuration,
                    message: none_found(default_path),
                },
            )
        }
    } else {
        ConfigStepView::Fail(
            ToolErrorView {
                kind: ErrorKind::Configuration,
                message: load_failure(files[attempt as int], outcome),
            },
        )
    }
}

/// The first step towards the configuration.
pub fn locate_config(cli_path: Option<&str>, default_path: &str) -> (step: ConfigStep)
    ensures
        step@ == first_step(cli_path.deep_view(), default_path@),
{
    match cli_path {
        Some(p) => ConfigStep::Try { attempt: 0, path: p.to_owned() },
        None => ConfigStep::Try { attempt: 0, path: default_path.to_owned() },
    }
}

fn none_found_error(default_path: &str) -> (e: ToolError)
    ensures
        e@ == (ToolErrorView { kind: ErrorKind::Configuration, message: none_found(default_path@) }),
{
    ToolError::new(
        ErrorKind::Configuration,
        text4("No config file found. Tried: ", default_path, ", ", "config.toml"),
    )
}

/// The step that follows the reading of the candidate numbered `attempt`,
/// which ended as `outcome` says.
pub fn load_config_resolved(
    cli_path: Option<&str>,
    default_path: &str,
    attempt: usize,
    outcome: LoadOutcome,
) -> (step: ConfigStep)
    ensures
        step@ == next_step(cli_path.deep_view(), default_path@, attempt, outcome),
{
    let count: usize = match cli_path {
        Some(_) => 1,
        None => 2,
    };
    if attempt >= count {
        return ConfigStep::Fail(none_found_error(default_path));
    }
    let path = match cli_path {
        Some(p) => p.to_owned(),
        None => if attempt == 0 {
            default_path.to_owned()
        } else {
            "config.toml".to_owned()
        },
    };
    match outcome {
        LoadOutcome::Loaded => ConfigStep::Use { path },
        LoadOutcome::NotFound => match cli_path {
            None => if attempt + 1 < count {
                ConfigStep::Try { attempt: attempt + 1, path: "config.toml".to_owned() }
            } else {
                ConfigStep::Fail(none_found_error(default_path))
            },
            Some(_) => ConfigStep::Fail(
                ToolError::new(
                    ErrorKind::Configuration,
                    text2("Cannot read config file ", path.as_str()),
                ),
            ),
        },
        LoadOutcome::Unreadable => ConfigStep::Fail(
            ToolError::new(
                ErrorKind::Configuration,
                text2("Cannot read config file ", path.as_str()),
            ),
        ),
        LoadOutcome::Invalid => ConfigStep::Fail(
            ToolError::new(ErrorKind::Configuration, text2("Invalid TOML in ", path.as_str())),
        ),
    }
}

/// The search for the configuration ends: each step reads a later
/// candidate than the one before, a file that was understood is used at
/// once, and a file the command line names is the only one read.
pub proof fn lemma_config_search(
    cli_path: Option<Seq<char>>,
    default_path: Seq<char>,
    attempt: usize,
    outcome: LoadOutcome,
)
    requires
        attempt < candidates(cli_path, default_path).len(),
    ensures
        next_step(cli_path, default_path, attempt, outcome) matches ConfigStepView::Try {
            attempt: next,
            ..
        } ==> next == attempt + 1 && next < candidates(cli_path, default_path).len(),
        outcome == LoadOutcome::Loaded ==> next_step(cli_path, default_path, attempt, outcome)
            == (ConfigStepView::Use { path: candidates(cli_path, default_path)[attempt as int] }),
        cli_path is Some ==> !(next_step(cli_path, default_path, attempt, outcome) is Try),
        outcome != LoadOutcome::Loaded ==> !(next_step(cli_path, default_path, attempt, outcome)
            is Use),
{
}

} // verus!
