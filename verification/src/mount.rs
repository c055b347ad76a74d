//! Mounting: the one archive a session has mounted, whether a directory
//! can be mounted on, the calls that mount and unmount, and whether the
//! engine can mount at all.

use crate::config::{RepoCtx, RepoCtxView};
use crate::engine::{
    archive_locator, call, engine_call, locator, EngineCall, EngineCallView, RunResult,
    RunResultView,
};
use crate::error::{ErrorKind, ToolError, ToolErrorView};
use crate::paths::{join, join_path};
use crate::text::{
    contains, contains_sub, lowercase, no_texts, push_text, text2, text3, text4, to_lowercase,
};
use vstd::prelude::*;

verus! {

/// The one archive that is mounted in a session.
#[derive(Debug)]
pub struct MountInfo {
    /// The archive's name.
    pub archive: String,
    /// Where it is mounted.
    pub mountpoint: String,
}

/// What a [`MountInfo`] holds.
pub struct MountInfoView {
    pub archive: Seq<char>,
    pub mountpoint: Seq<char>,
}

impl View for MountInfo {
    type V = MountInfoView;

    open spec fn view(&self) -> MountInfoView {
        MountInfoView { archive: self.archive@, mountpoint: self.mountpoint@ }
    }
}

impl DeepView for MountInfo {
    type V = MountInfoView;

    open spec fn deep_view(&self) -> MountInfoView {
        self@
    }
}

impl Clone for MountInfo {
    fn clone(&self) -> (r: Self)
        ensures
            r@ == self@,
    {
        MountInfo { archive: self.archive.clone(), mountpoint: self.mountpoint.clone() }
    }
}

/// What the file system tells of a path that is to be a mountpoint.
#[derive(Clone, Copy, Debug, PartialEq, Eq, Structural)]
pub struct PathFacts {
    /// Whether anything is there.
    pub exists: bool,
    /// Whether what is there is a directory.
    pub is_dir: bool,
    /// Whether the directory could be read.
    pub readable: bool,
    /// Whether the directory holds an entry.
    pub has_entries: bool,
}

/// What is left to do before a directory can be mounted on.
#[derive(Clone, Copy, Debug, PartialEq, Eq, Structural)]
pub enum MountpointPlan {
    /// The directory is there and empty.
    UseAsIs,
    /// The directory has to be made.
    Create,
}

/// A failure of the mountpoint with this message.
pub open spec fn mount_refusal(message: Seq<char>) -> ToolErrorView {
    ToolErrorView { kind: ErrorKind::MountState, message }
}

/// Whether a path can be mounted on, and what has to be done first. A
/// path with nothing at it is made a directory. A path that exists must be
/// a directory, readable and empty; anything else is refused.
pub open spec fn mountpoint_plan(path: Seq<char>, facts: PathFacts) -> Result<
    MountpointPlan,
    ToolErrorView,
> {
    if !facts.exists {
        Ok(MountpointPlan::Create)
    } else if !facts.is_dir {
        Err(mount_refusal("Mountpoint "@ + path + " exists and is not a directory"@))
    } else if !facts.readable {
        Err(mount_refusal("Reading mountpoint "@ + path))
    } else if facts.has_entries {
        Err(mount_refusal("Mountpoint "@ + path + " is not empty; choose an empty directory"@))
    } else {
        Ok(MountpointPlan::UseAsIs)
    }
}

/// Whether `path` can be mounted on, going by what the file system tells
/// of it.
pub fn ensure_mountpoint_ready(path: &str, facts: PathFacts) -> (r: Result<
    MountpointPlan,
    ToolError,
>)
    ensures
        match r {
            Ok(plan) => mountpoint_plan(path@, facts) == Ok::<MountpointPlan, ToolErrorView>(plan),
            Err(e) => mountpoint_plan(path@, facts) == Err::<MountpointPlan, ToolErrorView>(e@),
        },
{
    if !facts.exists {
        Ok(MountpointPlan::Create)
    } else if !facts.is_dir {
        Err(
            ToolError::new(
                ErrorKind::MountState,
                text3("Mountpoint ", path, " exists and is not a directory"),
            ),
        )
    } else if !facts.readable {
        Err(ToolError::new(ErrorKind::MountState, text2("Reading mountpoint ", path)))
    } else if facts.has_entries {
        Err(
            ToolError::new(
                ErrorKind::MountState,
                text3("Mountpoint ", path, " is not empty; choose an empty directory"),
            ),
        )
    } else {
        Ok(MountpointPlan::UseAsIs)
    }
}

/// A directory that holds something is never mounted on, and a path with
/// nothing at it always can be, once the directory has been made.
pub proof fn lemma_mountpoint_rules(path: Seq<char>, facts: PathFacts)
    ensures
        facts.exists && facts.is_dir && facts.readable && facts.has_entries ==> mountpoint_plan(
            path,
            facts,
        ) is Err,
        !facts.exists ==> mountpoint_plan(path, facts) == Ok::<MountpointPlan, ToolErrorView>(
            MountpointPlan::Create,
        ),
        mountpoint_plan(path, facts) is Err ==> mountpoint_plan(path, facts)->Err_0.kind
            == ErrorKind::MountState,
{
}

/// The call that mounts an archive.
pub open spec fn mount_call(
    ctx: RepoCtxView,
    archive: Seq<char>,
    mountpoint: Seq<char>,
    passphrase: Option<Seq<char>>,
) -> EngineCallView {
    engine_call(
        ctx,
        "Mounting "@ + archive + " to "@ + mountpoint,
        seq!["mount"@, archive_locator(ctx.repo, archive), mountpoint],
        passphrase,
    )
}

/// The call that mounts `archive` at `mountpoint`, a directory that has
/// been found ready.
pub fn mount_archive(ctx: &RepoCtx, archive: &str, mountpoint: &str, passphrase: Option<&str>) -> (c:
    EngineCall)
    ensures
        c@ == mount_call(ctx@, archive@, mountpoint@, passphrase.deep_view()),
{
    let mut args = no_texts();
    push_text(&mut args, "mount");
    push_text(&mut args, locator(ctx.repo.as_str(), archive).as_str());
    push_text(&mut args, mountpoint);
    assert(args.deep_view() =~= seq![
        "mount"@,
        archive_locator(ctx.repo@, archive@),
        mountpoint@,
    ]);
    call(ctx, text4("Mounting ", archive, " to ", mountpoint), args, passphrase)
}

/// The call that unmounts what is mounted at a mountpoint.
pub open spec fn umount_call(
    ctx: RepoCtxView,
    mountpoint: Seq<char>,
    passphrase: Option<Seq<char>>,
) -> EngineCallView {
    engine_call(ctx, "Unmounting "@ + mountpoint, seq!["umount"@, mountpoint], passphrase)
}

/// The call that unmounts what is mounted at `mountpoint`. The directory
/// itself stays.
pub fn umount_archive(ctx: &RepoCtx, mountpoint: &str, passphrase: Option<&str>) -> (c: EngineCall)
    ensures
        c@ == umount_call(ctx@, mountpoint@, passphrase.deep_view()),
{
    let mut args = no_texts();
    push_text(&mut args, "umount");
    push_text(&mut args, mountpoint);
    assert(args.deep_view() =~= seq!["umount"@, mountpoint@]);
    call(ctx, text2("Unmounting ", mountpoint), args, passphrase)
}

/// Where an archive is mounted unless the operator says otherwise: below
/// the mount root of the repository, under the archive's name.
pub fn default_mountpoint(ctx: &RepoCtx, archive: &str) -> (r: String)
    ensures
        r@ == join(ctx.mount_root@, archive@),
{
    join_path(ctx.mount_root.as_str(), archive)
}

/// The call that asks the engine about mounting.
pub open spec fn mount_help_call(ctx: RepoCtxView) -> EngineCallView {
    engine_call(ctx, "Checking mount support"@, seq!["mount"@, "--help"@], None)
}

/// The call that asks the engine about mounting. It needs no passphrase
/// and changes nothing.
pub fn mount_support_probe(ctx: &RepoCtx) -> (c: EngineCall)
    ensures
        c@ == mount_help_call(ctx@),
{
    let mut args = no_texts();
    push_text(&mut args, "mount");
    push_text(&mut args, "--help");
    assert(args.deep_view() =~= seq!["mount"@, "--help"@]);
    call(ctx, "Checking mount support".to_owned(), args, None)
}

/// Whether an answer, in lowercase, says that the engine has no FUSE
/// support.
pub open spec fn denies_fuse(lowered: Seq<char>) -> bool {
    contains_sub(lowered, "no fuse support"@)
}

/// Whether an answer, in lowercase, says that the engine has no FUSE
/// support.
pub fn says_no_fuse(lowered: &str) -> (r: bool)
    ensures
        r == denies_fuse(lowered@),
{
    contains(lowered, "no fuse support")
}

/// Whether the engine can mount, going by what it answered when asked:
/// it can unless it says, in whatever case of letters, that it has no
/// FUSE support. How it exited does not matter.
pub open spec fn mount_supported(r: RunResultView) -> bool {
    !denies_fuse(lowercase(r.stdout + "\n"@ + r.stderr))
}

/// Whether the engine can mount, going by what it answered to
/// [`mount_support_probe`].
pub fn ensure_mount_available(result: &RunResult) -> (r: bool)
    ensures
        r == mount_supported(result@),
{
    let combined = text3(result.stdout.as_str(), "\n", result.stderr.as_str());
    let lowered = to_lowercase(combined.as_str());
    !says_no_fuse(lowered.as_str())
}

/// The passphrase goes where it was given and nowhere else: the calls
/// that mount and unmount carry it as their passphrase, and have the same
/// arguments whatever the passphrase is. The question about mounting is
/// asked without a passphrase.
pub proof fn lemma_passphrase_stays_out_of_mounting(
    ctx: RepoCtxView,
    archive: Seq<char>,
    place: Seq<char>,
    p: Option<Seq<char>>,
    q: Option<Seq<char>>,
)
    ensures
        mount_call(ctx, archive, place, p).passphrase == p,
        mount_call(ctx, archive, place, p).args == mount_call(ctx, archive, place, q).args,
        umount_call(ctx, place, p).passphrase == p,
        umount_call(ctx, place, p).args == umount_call(ctx, place, q).args,
        mount_help_call(ctx).passphrase is None,
{
}

} // verus!
