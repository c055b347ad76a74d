//! Backups: the name of a new archive, the exclusion that keeps a backup
//! from swallowing the repository it goes to, the call that creates the
//! archive, and what its outcome tells.

use crate::config::{BackupConfig, BackupConfigView, RepoCtx, RepoCtxView};
use crate::engine::{
    archive_locator, failure_text, EngineCall, EngineCallView, RunResult, RunResultView,
};
use crate::error::{ErrorKind, ToolError, ToolErrorView};
use crate::paths::{is_absolute, is_absolute_path};
use crate::probe::{is_remote, is_remote_locator};
use crate::text::{
    contains, contains_sub, find_name, from_chars, join, join_with, lowercase, name_pos,
    no_texts, push_text, push_texts, text2, text3, text5, text6, text7, to_chars, to_lowercase,
    trimmed,
};
use vstd::prelude::*;

verus! {

/// The characters that join the parts of an archive's name.
pub open spec fn is_joint(c: char) -> bool {
    c == '-' || c == '_'
}

/// `p` is where the joints at the end of `s` begin.
pub open spec fn joints_at(s: Seq<char>, p: int) -> bool {
    &&& 0 <= p <= s.len()
    &&& forall|j: int| p <= j < s.len() ==> is_joint(s[j])
    &&& 0 < p ==> !is_joint(s[p - 1])
}

/// `s` without the joints at its end.
pub open spec fn without_joints(s: Seq<char>) -> Seq<char> {
    s.take(choose|p: int| joints_at(s, p))
}

/// The joints at the end begin in one place only.
pub proof fn lemma_joints(s: Seq<char>, p: int)
    requires
        joints_at(s, p),
    ensures
        without_joints(s) == s.take(p),
{
    let q = choose|q: int| joints_at(s, q);
    assert(joints_at(s, q));
    if q < p {
        assert(is_joint(s[p - 1]));
    } else if p < q {
        assert(is_joint(s[q - 1]));
    }
}

/// `s` without the joints at its end.
pub fn strip_joints(s: &str) -> (r: String)
    ensures
        r@ == without_joints(s@),
{
    let v = to_chars(s);
    let mut b: usize = v.len();
    while b > 0 && (v[b - 1] == '-' || v[b - 1] == '_')
        invariant
            b <= v.len(),
            forall|j: int| b <= j < v.len() ==> is_joint(v@[j]),
        decreases b,
    {
        b -= 1;
    }
    proof {
        lemma_joints(v@, b as int);
    }
    from_chars(&v, 0, b)
}

/// What the names of a preset's archives begin with: the preset's prefix
/// without the joints at its end, or the repository's name where the
/// preset has no prefix or an empty one.
pub open spec fn name_head(preset: BackupConfigView, repo_name: Seq<char>) -> Seq<char> {
    match preset.archive_prefix {
        Some(prefix) => if prefix.len() > 0 {
            without_joints(prefix)
        } else {
            repo_name
        },
        None => repo_name,
    }
}

/// The name of an archive made from `preset` at the time that `stamp`
/// writes out: head, preset, time, with a hyphen between each two.
pub open spec fn archive_name(
    preset: BackupConfigView,
    repo_name: Seq<char>,
    stamp: Seq<char>,
) -> Seq<char> {
    name_head(preset, repo_name) + "-"@ + preset.name + "-"@ + stamp
}

/// The name of an archive made from `preset` at the time that `stamp`
/// writes out.
pub fn archive_name_at(preset: &BackupConfig, repo_name: &str, stamp: &str) -> (name: String)
    ensures
        name@ == archive_name(preset@, repo_name@, stamp@),
{
    let head = match &preset.archive_prefix {
        Some(prefix) => if prefix.as_str().unicode_len() > 0 {
            strip_joints(prefix.as_str())
        } else {
            repo_name.to_owned()
        },
        None => repo_name.to_owned(),
    };
    text5(head.as_str(), "-", preset.name.as_str(), "-", stamp)
}

/// How the time is written in the name of an archive: year, month, day,
/// hour, minute and second, down to the second.
pub open spec fn stamp_format() -> Seq<char> {
    "%Y-%m-%d_%H-%M-%S"@
}

/// Whether `c` is a decimal digit.
pub open spec fn is_digit(c: char) -> bool {
    '0' <= c && c <= '9'
}

/// Whether `s` has the shape of a time written as [`stamp_format`] says:
/// a year of four characters or more, then month, day, hour, minute and
/// second in two digits each, with `-`, `-`, `_`, `-` and `-` before them.
pub open spec fn is_stamp(s: Seq<char>) -> bool {
    let t = s.skip(s.len() - 15);
    &&& s.len() >= 19
    &&& t[0] == '-' && is_digit(t[1]) && is_digit(t[2])
    &&& t[3] == '-' && is_digit(t[4]) && is_digit(t[5])
    &&& t[6] == '_' && is_digit(t[7]) && is_digit(t[8])
    &&& t[9] == '-' && is_digit(t[10]) && is_digit(t[11])
    &&& t[12] == '-' && is_digit(t[13]) && is_digit(t[14])
}

/// `chrono::Local::now` and `DateTime::format`: the local time of the
/// moment of the call, written out as `format` says. Which time that is,
/// is the clock's and the time zone's to say; claimed is only the shape
/// that `chrono` documents for the parts of the one format that is let
/// through: `%Y` gives four characters or more, and `%m`, `%d`, `%H`, `%M`
/// and `%S` give two digits each. All of these parts are known to
/// `chrono`, so that writing the time out does not fail.
#[verifier::external_body]
fn local_time_text(format: &str) -> (stamp: String)
    requires
        format@ == stamp_format(),
    ensures
        is_stamp(stamp@),
{
    chrono::Local::now().format(format).to_string()
}

/// The name of an archive made from `preset` now. It ends in the local
/// time, to the second: two archives of one preset get different names
/// unless they are made within the same second.
pub fn build_archive_name(preset: &BackupConfig, repo_name: &str) -> (name: String)
    ensures
        exists|stamp: Seq<char>|
            is_stamp(stamp) && name@ == #[trigger] archive_name(preset@, repo_name@, stamp),
        (name_head(preset@, repo_name@) + "-"@ + preset.name@ + "-"@).is_prefix_of(name@),
{
    let stamp = local_time_text("%Y-%m-%d_%H-%M-%S");
    let name = archive_name_at(preset, repo_name, stamp.as_str());
    proof {
        lemma_archive_name_start(preset@, repo_name@, stamp@);
    }
    name
}

/// Every name of an archive begins with the head, the preset's name and
/// the hyphens behind them: with the preset's prefix, less the joints at
/// its end, where it has one that is not empty, and with the repository's
/// name where it has none.
pub proof fn lemma_archive_name_start(
    preset: BackupConfigView,
    repo_name: Seq<char>,
    stamp: Seq<char>,
)
    ensures
        (name_head(preset, repo_name) + "-"@ + preset.name + "-"@).is_prefix_of(
            archive_name(preset, repo_name, stamp),
        ),
        preset.archive_prefix is Some && preset.archive_prefix->0.len() > 0 ==> (without_joints(
            preset.archive_prefix->0,
        ) + "-"@ + preset.name + "-"@).is_prefix_of(archive_name(preset, repo_name, stamp)),
        preset.archive_prefix is None ==> (repo_name + "-"@ + preset.name + "-"@).is_prefix_of(
            archive_name(preset, repo_name, stamp),
        ),
{
    let start = name_head(preset, repo_name) + "-"@ + preset.name + "-"@;
    let name = archive_name(preset, repo_name, stamp);
    assert(name =~= start + stamp);
    assert(start =~= name.subrange(0, start.len() as int));
}

/// Archives of one preset that are made at different times get different
/// names: the name tells the time it was made from.
pub proof fn lemma_names_differ_with_time(
    preset: BackupConfigView,
    repo_name: Seq<char>,
    first: Seq<char>,
    second: Seq<char>,
)
    requires
        first != second,
    ensures
        archive_name(preset, repo_name, first) != archive_name(preset, repo_name, second),
{
    let start = name_head(preset, repo_name) + "-"@ + preset.name + "-"@;
    let a = archive_name(preset, repo_name, first);
    let b = archive_name(preset, repo_name, second);
    assert(a =~= start + first);
    assert(b =~= start + second);
    if a == b {
        assert(a.skip(start.len() as int) =~= first);
        assert(b.skip(start.len() as int) =~= second);
    }
}

/// What became of the attempt to resolve a path to its canonical form.
#[derive(Debug)]
pub enum Canonical {
    /// This is the canonical form.
    Resolved(String),
    /// The path could not be resolved.
    Unresolved,
    /// The canonical form cannot be written as text.
    NotText,
}

/// What a [`Canonical`] holds.
pub enum CanonicalView {
    Resolved(Seq<char>),
    Unresolved,
    NotText,
}

impl View for Canonical {
    type V = CanonicalView;

    open spec fn view(&self) -> CanonicalView {
        match *self {
            Canonical::Resolved(p) => CanonicalView::Resolved(p@),
            Canonical::Unresolved => CanonicalView::Unresolved,
            Canonical::NotText => CanonicalView::NotText,
        }
    }
}

/// What the file system tells of a repository's locator, taken as a path.
#[derive(Debug)]
pub struct LocalFacts {
    /// Whether the path exists.
    pub exists: bool,
    /// Its canonical form.
    pub canonical: Canonical,
}

/// What a [`LocalFacts`] holds.
pub struct LocalFactsView {
    pub exists: bool,
    pub canonical: CanonicalView,
}

impl View for LocalFacts {
    type V = LocalFactsView;

    open spec fn view(&self) -> LocalFactsView {
        LocalFactsView { exists: self.exists, canonical: self.canonical@ }
    }
}

/// The path that stands for the repository itself, if the repository is
/// an absolute local path that exists: its canonical form, or the locator
/// as it is where that cannot be resolved. A relative path and a remote
/// repository have none.
pub open spec fn repo_path(locator: Seq<char>, facts: LocalFactsView) -> Option<Seq<char>> {
    if is_remote(locator) || !is_absolute(locator) || !facts.exists {
        None
    } else {
        match facts.canonical {
            CanonicalView::Resolved(p) => Some(p),
            CanonicalView::Unresolved => Some(locator),
            CanonicalView::NotText => None,
        }
    }
}

/// The path that stands for the repository itself, to be kept out of its
/// own backups.
pub fn repo_exclude_pattern(ctx: &RepoCtx, facts: &LocalFacts) -> (r: Option<String>)
    ensures
        r.deep_view() == repo_path(ctx.repo@, facts@),
{
    if is_remote_locator(ctx.repo.as_str()) || !is_absolute_path(ctx.repo.as_str())
        || !facts.exists {
        None
    } else {
        match &facts.canonical {
            Canonical::Resolved(p) => Some(p.clone()),
            Canonical::Unresolved => Some(ctx.repo.clone()),
            Canonical::NotText => None,
        }
    }
}

/// The exclusion that is added to those of the preset: the repository's
/// own path, unless the preset excludes exactly that already.
pub open spec fn auto_exclusion(
    locator: Seq<char>,
    excludes: Seq<Seq<char>>,
    facts: LocalFactsView,
) -> Option<Seq<char>> {
    match repo_path(locator, facts) {
        Some(p) => if excludes.contains(p) {
            None
        } else {
            Some(p)
        },
        None => None,
    }
}

/// All that a backup excludes: what the preset excludes, in its order,
/// then the exclusion that was added.
pub open spec fn exclusions(excludes: Seq<Seq<char>>, added: Option<Seq<char>>) -> Seq<Seq<char>> {
    match added {
        Some(p) => excludes.push(p),
        None => excludes,
    }
}

/// The exclusion that is added to those of the preset.
pub fn auto_exclude(ctx: &RepoCtx, preset: &BackupConfig, facts: &LocalFacts) -> (r: Option<String>)
    ensures
        r.deep_view() == auto_exclusion(ctx.repo@, preset@.excludes, facts@),
{
    match repo_exclude_pattern(ctx, facts) {
        Some(p) => {
            let at = find_name(&preset.excludes, p.as_str());
            if at < preset.excludes.len() {
                None
            } else {
                Some(p)
            }
        },
        None => None,
    }
}

/// A backup of a repository that is an absolute local path that exists
/// excludes the repository's canonical path once: it is added where the
/// preset does not exclude it, and not added again where it does. A
/// relative path and a remote repository add nothing.
pub proof fn lemma_auto_exclusion(
    locator: Seq<char>,
    excludes: Seq<Seq<char>>,
    exists: bool,
    canonical: Seq<char>,
    other: LocalFactsView,
)
    ensures
        ({
            let facts = LocalFactsView { exists, canonical: CanonicalView::Resolved(canonical) };
            let all = exclusions(excludes, auto_exclusion(locator, excludes, facts));
            &&& !is_remote(locator) && is_absolute(locator) && exists && !excludes.contains(
                canonical,
            ) ==> all == excludes.push(canonical)
            &&& !is_remote(locator) && is_absolute(locator) && exists && excludes.contains(
                canonical,
            ) ==> all == excludes
        }),
        is_remote(locator) || !is_absolute(locator) ==> exclusions(
            excludes,
            auto_exclusion(locator, excludes, other),
        ) == excludes,
{
}

/// The arguments that exclude `patterns`: for each, the flag and the
/// pattern.
pub open spec fn exclude_flags(patterns: Seq<Seq<char>>) -> Seq<Seq<char>>
    decreases patterns.len(),
{
    if patterns.len() == 0 {
        Seq::empty()
    } else {
        exclude_flags(patterns.drop_last()) + seq!["--exclude"@, patterns.last()]
    }
}

/// Each exclusion makes two arguments, and one exclusion more makes its
/// two arguments more, behind the others.
pub proof fn lemma_exclude_flags(patterns: Seq<Seq<char>>, p: Seq<char>)
    ensures
        exclude_flags(patterns).len() == 2 * patterns.len(),
        exclude_flags(patterns.push(p)) == exclude_flags(patterns) + seq!["--exclude"@, p],
    decreases patterns.len(),
{
    if patterns.len() > 0 {
        lemma_exclude_flags(patterns.drop_last(), patterns.last());
        assert(patterns.drop_last().push(patterns.last()) =~= patterns);
    }
    assert(patterns.push(p).drop_last() =~= patterns);
}

/// The options of the call that creates an archive, as the preset sets
/// them.
pub open spec fn create_options(preset: BackupConfigView) -> Seq<Seq<char>> {
    (match preset.compression {
        Some(c) => seq!["--compression"@, c],
        None => Seq::empty(),
    }) + (if preset.one_file_system {
        seq!["--one-file-system"@]
    } else {
        Seq::empty()
    }) + (if preset.exclude_caches {
        seq!["--exclude-caches"@]
    } else {
        Seq::empty()
    })
}

/// The arguments of the call that creates an archive: the options, the
/// exclusions, the archive, then the includes in their order.
pub open spec fn create_args(
    repo: Seq<char>,
    preset: BackupConfigView,
    added: Option<Seq<char>>,
    name: Seq<char>,
) -> Seq<Seq<char>> {
    seq!["create"@] + create_options(preset) + exclude_flags(exclusions(preset.excludes, added))
        + seq![archive_locator(repo, name)] + preset.includes
}

/// The call that creates the archive `name` from `preset`.
pub open spec fn create_call(
    ctx: RepoCtxView,
    preset: BackupConfigView,
    added: Option<Seq<char>>,
    name: Seq<char>,
    passphrase: Option<Seq<char>>,
) -> EngineCallView {
    EngineCallView {
        caption: "Creating "@ + name,
        program: ctx.borg_bin,
        args: create_args(ctx.repo, preset, added, name),
        passphrase,
        working_dir: None,
    }
}

fn put_excludes(args: &mut Vec<String>, patterns: &Vec<String>)
    ensures
        final(args).deep_view() == old(args).deep_view() + exclude_flags(patterns.deep_view()),
{
    let mut i: usize = 0;
    assert(args.deep_view() =~= old(args).deep_view() + exclude_flags(
        patterns.deep_view().take(0),
    ));
    while i < patterns.len()
        invariant
            i <= patterns.len(),
            args.deep_view() == old(args).deep_view() + exclude_flags(
                patterns.deep_view().take(i as int),
            ),
        decreases patterns.len() - i,
    {
        let ghost now = patterns.deep_view().take(i + 1);
        proof {
            assert(now.drop_last() =~= patterns.deep_view().take(i as int));
        }
        push_text(args, "--exclude");
        push_text(args, patterns[i].as_str());
        i += 1;
    }
    assert(patterns.deep_view().take(patterns.len() as int) =~= patterns.deep_view());
}

/// The call that creates the archive `name` from `preset`, with `added`
/// excluded beside what the preset excludes.
pub fn create_archive(
    ctx: &RepoCtx,
    preset: &BackupConfig,
    added: Option<&str>,
    name: &str,
    passphrase: Option<&str>,
) -> (c: EngineCall)
    ensures
        c@ == create_call(ctx@, preset@, added.deep_view(), name@, passphrase.deep_view()),
{
    let mut args = no_texts();
    push_text(&mut args, "create");
    if let Some(c) = &preset.compression {
        push_text(&mut args, "--compression");
        push_text(&mut args, c.as_str());
    }
    if preset.one_file_system {
        push_text(&mut args, "--one-file-system");
    }
    if preset.exclude_caches {
        push_text(&mut args, "--exclude-caches");
    }
    put_excludes(&mut args, &preset.excludes);
    if let Some(p) = added {
        push_text(&mut args, "--exclude");
        push_text(&mut args, p);
        assert(preset@.excludes.push(p@).drop_last() =~= preset@.excludes);
    }
    assert(args.deep_view() =~= seq!["create"@] + create_options(preset@) + exclude_flags(
        exclusions(preset@.excludes, added.deep_view()),
    ));
    push_text(&mut args, text3(ctx.repo.as_str(), "::", name).as_str());
    push_texts(&mut args, &preset.includes);
    assert(args.deep_view() =~= create_args(ctx.repo@, preset@, added.deep_view(), name@));
    EngineCall {
        caption: text2("Creating ", name),
        program: ctx.borg_bin.clone(),
        args,
        passphrase: match passphrase {
            Some(p) => Some(p.to_owned()),
            None => None,
        },
        working_dir: None,
    }
}

/// The passphrase of a backup goes where it was given and nowhere else:
/// the call carries it as its passphrase, and has the same arguments
/// whatever the passphrase is.
pub proof fn lemma_passphrase_stays_out_of_create(
    ctx: RepoCtxView,
    preset: BackupConfigView,
    added: Option<Seq<char>>,
    name: Seq<char>,
    p: Option<Seq<char>>,
    q: Option<Seq<char>>,
)
    ensures
        create_call(ctx, preset, added, name, p).passphrase == p,
        create_call(ctx, preset, added, name, p).args == create_call(
            ctx,
            preset,
            added,
            name,
            q,
        ).args,
{
}

/// A backup that is ready to run.
#[derive(Debug)]
pub struct BackupRun {
    /// The name of the archive it creates.
    pub archive_name: String,
    /// The call that creates it.
    pub call: EngineCall,
}

/// What is said of a preset without includes.
pub open spec fn no_includes(preset: Seq<char>) -> ToolErrorView {
    ToolErrorView {
        kind: ErrorKind::Configuration,
        message: "Backup '"@ + preset + "' has no includes configured"@,
    }
}

/// The backup of `preset` into the repository of `ctx`, ready to run. A
/// preset without includes is refused, and only that. The archive is named
/// after the moment of the call; the repository's own path is excluded as
/// `facts` has it.
pub fn run_backup(
    ctx: &RepoCtx,
    preset: &BackupConfig,
    facts: &LocalFacts,
    passphrase: Option<&str>,
) -> (r: Result<BackupRun, ToolError>)
    ensures
        preset.includes.len() == 0 <==> r is Err,
        r is Err ==> r->Err_0@ == no_includes(preset.name@),
        r is Ok ==> {
            let run = r->Ok_0;
            &&& exists|stamp: Seq<char>|
                is_stamp(stamp) && run.archive_name@ == #[trigger] archive_name(
                    preset@,
                    ctx.name@,
                    stamp,
                )
            &&& run.call@ == create_call(
                ctx@,
                preset@,
                auto_exclusion(ctx.repo@, preset@.excludes, facts@),
                run.archive_name@,
                passphrase.deep_view(),
            )
        },
{
    if preset.includes.len() == 0 {
        return Err(
            ToolError::new(
                ErrorKind::Configuration,
                text3("Backup '", preset.name.as_str(), "' has no includes configured"),
            ),
        );
    }
    let added = auto_exclude(ctx, preset, facts);
    let archive_name = build_archive_name(preset, ctx.name.as_str());
    let call = match &added {
        Some(p) => create_archive(
            ctx,
            preset,
            Some(p.as_str()),
            archive_name.as_str(),
            passphrase,
        ),
        None => create_archive(ctx, preset, None, archive_name.as_str(), passphrase),
    };
    Ok(BackupRun { archive_name, call })
}

/// What is added to a complaint, given in lowercase, that tells of access
/// denied: the hint to run with more privileges. Nothing is added to any
/// other.
pub open spec fn hint_for(lowered: Seq<char>) -> Seq<char> {
    if contains_sub(lowered, "permission denied"@) {
        " (hint: run with sudo for system paths)"@
    } else {
        Seq::empty()
    }
}

/// What is added to a complaint, given in lowercase.
pub fn hint(lowered: &str) -> (r: &'static str)
    ensures
        r@ == hint_for(lowered@),
{
    if contains(lowered, "permission denied") {
        " (hint: run with sudo for system paths)"
    } else {
        proof {
            reveal_strlit("");
        }
        ""
    }
}

/// What is added to the complaint where the engine was denied access, in
/// whatever case of letters it says so.
pub open spec fn permission_hint(stderr: Seq<char>) -> Seq<char> {
    hint_for(lowercase(stderr))
}

/// The failure to create an archive, with a hint where the engine was
/// denied access.
pub open spec fn create_failed(r: RunResultView) -> ToolErrorView {
    ToolErrorView {
        kind: ErrorKind::OperationFailed,
        message: failure_text("create"@, r.status, r.stderr) + permission_hint(r.stderr),
    }
}

/// What is said of a backup that is done.
pub open spec fn completed_text(archive_name: Seq<char>) -> Seq<char> {
    "Backup '"@ + archive_name + "' completed"@
}

/// What came of the call that creates an archive: the word that it is
/// done, exactly if the engine reported success, and else the failure.
pub fn backup_outcome(archive_name: &str, result: &RunResult) -> (r: Result<String, ToolError>)
    ensures
        result.success ==> r is Ok && r->Ok_0@ == completed_text(archive_name@),
        !result.success ==> r is Err && r->Err_0@ == create_failed(result@),
{
    if result.success {
        return Ok(text3("Backup '", archive_name, "' completed"));
    }
    let lowered = to_lowercase(result.stderr.as_str());
    let hint = hint(lowered.as_str());
    let complaint = trimmed(result.stderr.as_str());
    Err(
        ToolError::new(
            ErrorKind::OperationFailed,
            text7(
                "borg ",
                "create",
                " failed with status ",
                result.status.as_str(),
                ": ",
                complaint.as_str(),
                hint,
            ),
        ),
    )
}

/// The names of presets.
pub open spec fn backup_names(presets: Seq<BackupConfigView>) -> Seq<Seq<char>> {
    Seq::new(presets.len(), |i: int| presets[i].name)
}

/// How the preset of a backup is found.
#[derive(Debug)]
pub enum PresetPick {
    /// It is this one.
    Use(BackupConfig),
    /// The operator picks one.
    Choose,
}

/// What a [`PresetPick`] holds.
pub enum PresetPickView {
    Use(BackupConfigView),
    Choose,
}

impl View for PresetPick {
    type V = PresetPickView;

    open spec fn view(&self) -> PresetPickView {
        match *self {
            PresetPick::Use(p) => PresetPickView::Use(p@),
            PresetPick::Choose => PresetPickView::Choose,
        }
    }
}

/// How the preset of a backup is found among those of a repository: none
/// can be found where there is none; the one that is named is taken, if it
/// is there; with none named the operator picks.
pub open spec fn preset_pick(ctx: RepoCtxView, wanted: Option<Seq<char>>) -> Result<
    PresetPickView,
    ToolErrorView,
> {
    if ctx.backups.len() == 0 {
        Err(
            ToolErrorView {
                kind: ErrorKind::Configuration,
                message: "No backups configured for repo '"@ + ctx.name + "'"@,
            },
        )
    } else {
        match wanted {
            Some(name) => {
                let i = name_pos(backup_names(ctx.backups), name);
                if i < ctx.backups.len() {
                    Ok(PresetPickView::Use(ctx.backups[i]))
                } else {
                    Err(
                        ToolErrorView {
                            kind: ErrorKind::Configuration,
                            message: "Backup '"@ + name + "' not found for repo '"@ + ctx.name
                                + "'. Available: "@ + join(backup_names(ctx.backups), ", "@),
                        },
                    )
                }
            },
            None => Ok(PresetPickView::Choose),
        }
    }
}

/// How the preset of a backup is found, given the name on the command
/// line.
pub fn select_preset(ctx: &RepoCtx, backup_name: Option<&str>) -> (r: Result<
    PresetPick,
    ToolError,
>)
    ensures
        match r {
            Ok(p) => preset_pick(ctx@, backup_name.deep_view()) == Ok::<
                PresetPickView,
                ToolErrorView,
            >(p@),
            Err(e) => preset_pick(ctx@, backup_name.deep_view()) == Err::<
                PresetPickView,
                ToolErrorView,
            >(e@),
        },
{
    if ctx.backups.len() == 0 {
        return Err(
            ToolError::new(
                ErrorKind::Configuration,
                text3("No backups configured for repo '", ctx.name.as_str(), "'"),
            ),
        );
    }
    match backup_name {
        Some(name) => {
            let mut names: Vec<String> = Vec::new();
            let mut i: usize = 0;
            while i < ctx.backups.len()
                invariant
                    i <= ctx.backups.len(),
                    names.deep_view() == backup_names(ctx@.backups).take(i as int),
                decreases ctx.backups.len() - i,
            {
                let n = ctx.backups[i].name.clone();
                let ghost before = names.deep_view();
                let ghost added = n@;
                names.push(n);
                assert(names.deep_view() =~= before.push(added));
                i += 1;
            }
            assert(backup_names(ctx@.backups).take(ctx.backups.len() as int) =~= backup_names(
                ctx@.backups,
            ));
            let at = find_name(&names, name);
            if at < ctx.backups.len() {
                Ok(PresetPick::Use(ctx.backups[at].clone()))
            } else {
                let list = join_with(&names, ", ");
                Err(
                    ToolError::new(
                        ErrorKind::Configuration,
                        text6(
                            "Backup '",
                            name,
                            "' not found for repo '",
                            ctx.name.as_str(),
                            "'. Available: ",
                            list.as_str(),
                        ),
                    ),
                )
            }
        },
        None => Ok(PresetPick::Choose),
    }
}

} // verus!
