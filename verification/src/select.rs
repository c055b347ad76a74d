//! Which repository a run of the console works on: the one the
//! configuration has, the one the command line names, or the one the
//! operator picks.

use crate::config::{repo_list, ConfigView, RepoCtx, RepoCtxView, RepoStatus};
use crate::error::{ErrorKind, ToolError, ToolErrorView};
use crate::text::{
    find_name, join, join_with, lemma_name_pos, name_pos, same_text, text2, text3, text4, text5,
};
use vstd::prelude::*;

verus! {

/// What the console is asked to do.
#[derive(Debug)]
#[allow(inconsistent_fields)]
pub enum Commands {
    /// List the archives of the repository.
    List,
    /// List the entries of an archive; the operator picks it where none is
    /// named.
    Files { archive: Option<String> },
    /// Navigate interactively.
    Interactive,
    /// Mount an archive, below the mount root where no target is named.
    Mount { archive: String, target: Option<String> },
    /// Unmount what is mounted at a mountpoint.
    Umount { mountpoint: String },
    /// Run a backup; the operator picks the preset where none is named.
    Backup { backup: Option<String> },
}

/// The command line.
#[derive(Debug)]
pub struct Cli {
    /// The configuration file to read.
    pub config: Option<String>,
    /// The name of the repository to work on.
    pub repo: Option<String>,
    /// What to do; to navigate interactively where nothing is said.
    pub command: Option<Commands>,
}

/// How a command deals with the operator.
#[derive(Clone, Copy, Debug, PartialEq, Eq, Structural)]
pub enum Mode {
    /// The command converses: it warns and goes on.
    Interactive,
    /// The command runs once, but lets the operator pick a repository.
    Choosing,
    /// The command runs once and asks nothing about repositories.
    SingleShot,
}

/// How a command deals with the operator. No command at all is the
/// interactive one.
pub open spec fn mode_of(cmd: Option<&Commands>) -> Mode {
    match cmd {
        None => Mode::Interactive,
        Some(c) => match c {
            Commands::Interactive => Mode::Interactive,
            Commands::Backup { .. } => Mode::Choosing,
            _ => Mode::SingleShot,
        },
    }
}

/// How a command deals with the operator.
pub fn mode(cmd: Option<&Commands>) -> (m: Mode)
    ensures
        m == mode_of(cmd),
{
    match cmd {
        None => Mode::Interactive,
        Some(c) => match c {
            Commands::Interactive => Mode::Interactive,
            Commands::Backup { .. } => Mode::Choosing,
            _ => Mode::SingleShot,
        },
    }
}

/// A repository to work on, with the warning the operator is to see
/// first, if there is one.
#[derive(Debug)]
pub struct Selected {
    pub repo: RepoCtx,
    pub warning: Option<String>,
}

/// What a [`Selected`] holds.
pub struct SelectedView {
    pub repo: RepoCtxView,
    pub warning: Option<Seq<char>>,
}

impl View for Selected {
    type V = SelectedView;

    open spec fn view(&self) -> SelectedView {
        SelectedView { repo: self.repo@, warning: self.warning.deep_view() }
    }
}

/// How the repository is found.
#[derive(Debug)]
pub enum Selection {
    /// It is this one.
    Use(Selected),
    /// The operator picks one.
    Choose,
}

/// What a [`Selection`] holds.
pub enum SelectionView {
    Use(SelectedView),
    Choose,
}

impl View for Selection {
    type V = SelectionView;

    open spec fn view(&self) -> SelectionView {
        match *self {
            Selection::Use(s) => SelectionView::Use(s@),
            Selection::Choose => SelectionView::Choose,
        }
    }
}

/// What the operator picked.
#[derive(Debug)]
pub enum Chosen {
    /// This repository.
    Use(Selected),
    /// To set up a new repository.
    SetUp,
    /// To leave.
    Quit,
}

/// What a [`Chosen`] holds.
pub enum ChosenView {
    Use(SelectedView),
    SetUp,
    Quit,
}

impl View for Chosen {
    type V = ChosenView;

    open spec fn view(&self) -> ChosenView {
        match *self {
            Chosen::Use(s) => ChosenView::Use(s@),
            Chosen::SetUp => ChosenView::SetUp,
            Chosen::Quit => ChosenView::Quit,
        }
    }
}

/// A failure of the configuration with this message.
pub open spec fn refusal(message: Seq<char>) -> ToolErrorView {
    ToolErrorView { kind: ErrorKind::Configuration, message }
}

/// What is said of a local repository whose path does not exist.
pub open spec fn missing_text(repo: RepoCtxView) -> Seq<char> {
    "Repo '"@ + repo.name + "' path '"@ + repo.repo + "' not found."@
}

/// What is said of a remote repository that refused the login it was
/// offered.
pub open spec fn auth_text(repo: RepoCtxView) -> Seq<char> {
    "Repo '"@ + repo.name + "' seems to require SSH auth (no key?)."@
}

/// Whether a repository can be worked on, going by its status. One whose
/// path is missing, or whose host refused the login, is worked on with a
/// warning by a command that converses, and refused to any other. Every
/// other repository is worked on without a word.
pub open spec fn availability(repo: RepoCtxView, mode: Mode) -> Result<
    Option<Seq<char>>,
    ToolErrorView,
> {
    match repo.status {
        RepoStatus::MissingLocal => if mode == Mode::Interactive {
            Ok(Some("Warning: "@ + missing_text(repo)))
        } else {
            Err(refusal(missing_text(repo)))
        },
        RepoStatus::RemoteAuthNeeded => if mode == Mode::Interactive {
            Ok(Some("Warning: "@ + auth_text(repo)))
        } else {
            Err(refusal(auth_text(repo)))
        },
        _ => Ok(None),
    }
}

/// `availability`, with the repository in its result.
pub open spec fn available(repo: RepoCtxView, mode: Mode) -> Result<SelectedView, ToolErrorView> {
    match availability(repo, mode) {
        Ok(warning) => Ok(SelectedView { repo, warning }),
        Err(e) => Err(e),
    }
}

fn missing_message(repo: &RepoCtx) -> (r: String)
    ensures
        r@ == missing_text(repo@),
{
    text5("Repo '", repo.name.as_str(), "' path '", repo.repo.as_str(), "' not found.")
}

fn auth_message(repo: &RepoCtx) -> (r: String)
    ensures
        r@ == auth_text(repo@),
{
    text3("Repo '", repo.name.as_str(), "' seems to require SSH auth (no key?).")
}

/// Whether `repo` can be worked on by `cmd`, and with which warning.
pub fn ensure_repo_available(repo: RepoCtx, cmd: Option<&Commands>) -> (r: Result<
    Selected,
    ToolError,
>)
    ensures
        match r {
            Ok(s) => available(repo@, mode_of(cmd)) == Ok::<SelectedView, ToolErrorView>(s@),
            Err(e) => available(repo@, mode_of(cmd)) == Err::<SelectedView, ToolErrorView>(e@),
        },
{
    let interactive = match mode(cmd) {
        Mode::Interactive => true,
        _ => false,
    };
    match repo.status {
        RepoStatus::MissingLocal => {
            let m = missing_message(&repo);
            if interactive {
                Ok(Selected { repo, warning: Some(text2("Warning: ", m.as_str())) })
            } else {
                Err(ToolError::new(ErrorKind::Configuration, m))
            }
        },
        RepoStatus::RemoteAuthNeeded => {
            let m = auth_message(&repo);
            if interactive {
                Ok(Selected { repo, warning: Some(text2("Warning: ", m.as_str())) })
            } else {
                Err(ToolError::new(ErrorKind::Configuration, m))
            }
        },
        _ => Ok(Selected { repo, warning: None }),
    }
}

/// The names of repositories.
pub open spec fn ctx_names(repos: Seq<RepoCtxView>) -> Seq<Seq<char>> {
    Seq::new(repos.len(), |i: int| repos[i].name)
}

/// The names of repositories.
pub fn names_of(repos: &Vec<RepoCtx>) -> (names: Vec<String>)
    ensures
        names.deep_view() == ctx_names(repos.deep_view()),
{
    let mut names: Vec<String> = Vec::new();
    let mut i: usize = 0;
    while i < repos.len()
        invariant
            i <= repos.len(),
            names.deep_view() == ctx_names(repos.deep_view()).take(i as int),
        decreases repos.len() - i,
    {
        let name = repos[i].name.clone();
        let ghost before = names.deep_view();
        let ghost added = name@;
        names.push(name);
        assert(names.deep_view() =~= before.push(added));
        i += 1;
    }
    assert(ctx_names(repos.deep_view()).take(repos.len() as int) =~= ctx_names(
        repos.deep_view(),
    ));
    names
}

/// What is said where the one repository there is goes by another name.
pub open spec fn only_text(wanted: Seq<char>, only: Seq<char>) -> Seq<char> {
    "Repo '"@ + wanted + "' not found. Only available repo: "@ + only
}

/// What is said where none of several repositories goes by the name.
pub open spec fn not_found_text(wanted: Seq<char>, names: Seq<Seq<char>>) -> Seq<char> {
    "Repo '"@ + wanted + "' not found. Available: "@ + join(names, ", "@)
}

/// What is said where a repository has to be named and none was.
pub open spec fn ambiguous_text(names: Seq<Seq<char>>) -> Seq<char> {
    "Multiple repos configured. Please choose with --repo <name>. Available: "@ + join(
        names,
        ", "@,
    )
}

/// How the repository of a run is found among `repos`.
///
/// With no repository there is nothing to work on. A single repository is
/// the one, unless another is asked for by name. Of several, the one named
/// is taken, if it is there; with none named the operator picks, where the
/// command lets the operator pick. A repository that is found without the
/// operator is taken only if it can be worked on.
pub open spec fn selection(
    repos: Seq<RepoCtxView>,
    wanted: Option<Seq<char>>,
    mode: Mode,
) -> Result<SelectionView, ToolErrorView> {
    if repos.len() == 0 {
        Err(refusal("No repositories configured in config file"@))
    } else if repos.len() == 1 {
        if wanted is Some && wanted->0 != repos[0].name {
            Err(refusal(only_text(wanted->0, repos[0].name)))
        } else {
            match available(repos[0], mode) {
                Ok(s) => Ok(SelectionView::Use(s)),
                Err(e) => Err(e),
            }
        }
    } else {
        match wanted {
            Some(name) => {
                let i = name_pos(ctx_names(repos), name);
                if i < repos.len() {
                    match available(repos[i], mode) {
                        Ok(s) => Ok(SelectionView::Use(s)),
                        Err(e) => Err(e),
                    }
                } else {
                    Err(refusal(not_found_text(name, ctx_names(repos))))
                }
            },
            None => if mode == Mode::SingleShot {
                Err(refusal(ambiguous_text(ctx_names(repos))))
            } else {
                Ok(SelectionView::Choose)
            },
        }
    }
}

/// How the repository of a run is found among `repos`, given the name on
/// the command line and the command.
pub fn select_repo_ctx(repos: &Vec<RepoCtx>, cli_repo: Option<&str>, cmd: Option<&Commands>) -> (r:
    Result<Selection, ToolError>)
    ensures
        match r {
            Ok(s) => selection(repos.deep_view(), cli_repo.deep_view(), mode_of(cmd)) == Ok::<
                SelectionView,
                ToolErrorView,
            >(s@),
            Err(e) => selection(repos.deep_view(), cli_repo.deep_view(), mode_of(cmd)) == Err::<
                SelectionView,
                ToolErrorView,
            >(e@),
        },
{
    if repos.len() == 0 {
        return Err(
            ToolError::new(
                ErrorKind::Configuration,
                "No repositories configured in config file".to_owned(),
            ),
        );
    }
    if repos.len() == 1 {
        if let Some(name) = cli_repo {
            if !same_text(name, repos[0].name.as_str()) {
                return Err(
                    ToolError::new(
                        ErrorKind::Configuration,
                        text4(
                            "Repo '",
                            name,
                            "' not found. Only available repo: ",
                            repos[0].name.as_str(),
                        ),
                    ),
                );
            }
        }
        return match ensure_repo_available(repos[0].clone(), cmd) {
            Ok(s) => Ok(Selection::Use(s)),
            Err(e) => Err(e),
        };
    }
    let names = names_of(repos);
    match cli_repo {
        Some(name) => {
            let i = find_name(&names, name);
            if i < repos.len() {
                match ensure_repo_available(repos[i].clone(), cmd) {
                    Ok(s) => Ok(Selection::Use(s)),
                    Err(e) => Err(e),
                }
            } else {
                let list = join_with(&names, ", ");
                Err(
                    ToolError::new(
                        ErrorKind::Configuration,
                        text4("Repo '", name, "' not found. Available: ", list.as_str()),
                    ),
                )
            }
        },
        None => match mode(cmd) {
            Mode::SingleShot => {
                let list = join_with(&names, ", ");
                Err(
                    ToolError::new(
                        ErrorKind::Configuration,
                        text2(
                            "Multiple repos configured. Please choose with --repo <name>. Available: ",
                            list.as_str(),
                        ),
                    ),
                )
            },
            _ => Ok(Selection::Choose),
        },
    }
}

/// What a pick in the list of repositories means. The list shows the
/// repositories, then the entry that sets up a new one, then the entry
/// that leaves. A repository is taken if it can be worked on; to leave, or
/// to press Escape, ends a command that converses quietly and fails any
/// other.
pub open spec fn chosen(repos: Seq<RepoCtxView>, choice: Option<usize>, mode: Mode) -> Result<
    ChosenView,
    ToolErrorView,
> {
    match choice {
        Some(i) => if i < repos.len() {
            match available(repos[i as int], mode) {
                Ok(s) => Ok(ChosenView::Use(s)),
                Err(e) => Err(e),
            }
        } else if i == repos.len() {
            Ok(ChosenView::SetUp)
        } else {
            left(mode)
        },
        None => left(mode),
    }
}

/// What it means to leave the list of repositories without a pick.
pub open spec fn left(mode: Mode) -> Result<ChosenView, ToolErrorView> {
    if mode == Mode::Interactive {
        Ok(ChosenView::Quit)
    } else {
        Err(
            ToolErrorView {
                kind: ErrorKind::SelectionAbandoned,
                message: "No repository selected"@,
            },
        )
    }
}

fn leave(cmd: Option<&Commands>) -> (r: Result<Chosen, ToolError>)
    ensures
        match r {
            Ok(c) => left(mode_of(cmd)) == Ok::<ChosenView, ToolErrorView>(c@),
            Err(e) => left(mode_of(cmd)) == Err::<ChosenView, ToolErrorView>(e@),
        },
{
    match mode(cmd) {
        Mode::Interactive => Ok(Chosen::Quit),
        _ => Err(
            ToolError::new(ErrorKind::SelectionAbandoned, "No repository selected".to_owned()),
        ),
    }
}

/// What the operator's pick in the list of repositories means.
pub fn choose_repo(repos: &Vec<RepoCtx>, choice: Option<usize>, cmd: Option<&Commands>) -> (r:
    Result<Chosen, ToolError>)
    ensures
        match r {
            Ok(c) => chosen(repos.deep_view(), choice, mode_of(cmd)) == Ok::<
                ChosenView,
                ToolErrorView,
            >(c@),
            Err(e) => chosen(repos.deep_view(), choice, mode_of(cmd)) == Err::<
                ChosenView,
                ToolErrorView,
            >(e@),
        },
{
    match choice {
        Some(i) => if i < repos.len() {
            match ensure_repo_available(repos[i].clone(), cmd) {
                Ok(s) => Ok(Chosen::Use(s)),
                Err(e) => Err(e),
            }
        } else if i == repos.len() {
            Ok(Chosen::SetUp)
        } else {
            leave(cmd)
        },
        None => leave(cmd),
    }
}

/// A run gets past the selection only with a repository of the list: the
/// list is not empty then, the repository is one of it, and it is the one
/// that was named, where one was named.
pub proof fn lemma_selected_is_listed(
    repos: Seq<RepoCtxView>,
    wanted: Option<Seq<char>>,
    mode: Mode,
)
    requires
        selection(repos, wanted, mode) is Ok,
    ensures
        repos.len() > 0,
        selection(repos, wanted, mode)->Ok_0 matches SelectionView::Use(s) ==> repos.contains(
            s.repo,
        ) && (wanted is Some ==> s.repo.name == wanted->0),
{
    lemma_name_pos(ctx_names(repos), wanted->0);
    if repos.len() == 1 {
        assert(repos[0] == repos[0]);
    }
    match selection(repos, wanted, mode)->Ok_0 {
        SelectionView::Use(s) => {
            if repos.len() > 1 {
                let i = name_pos(ctx_names(repos), wanted->0);
                assert(repos[i] == s.repo);
            }
        },
        _ => {},
    }
}

/// With no repository in the configuration, in the one form or the other,
/// there is no selection; and a single repository is not taken in place of
/// another that was asked for by name.
pub proof fn lemma_no_silent_fallback(
    cfg: ConfigView,
    repos: Seq<RepoCtxView>,
    wanted: Option<Seq<char>>,
    mode: Mode,
)
    ensures
        cfg.repos.len() == 0 && cfg.repo is None <==> repo_list(cfg).len() == 0,
        repos.len() == 0 ==> selection(repos, wanted, mode) is Err,
        repos.len() == 1 && wanted is Some && wanted->0 != repos[0].name ==> selection(
            repos,
            wanted,
            mode,
        ) is Err,
{
}

/// A repository whose path is missing, or whose host refused the login,
/// is refused to every command that runs once, and worked on with a
/// warning by a command that converses.
pub proof fn lemma_unreachable_repository(repo: RepoCtxView, mode: Mode)
    requires
        repo.status == RepoStatus::MissingLocal || repo.status == RepoStatus::RemoteAuthNeeded,
    ensures
        mode != Mode::Interactive ==> available(repo, mode) is Err,
        mode == Mode::Interactive ==> available(repo, mode) is Ok && available(
            repo,
            mode,
        )->Ok_0.warning is Some && available(repo, mode)->Ok_0.repo == repo,
{
}

} // verus!
