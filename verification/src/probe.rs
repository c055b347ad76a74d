//! Reachability of a repository: whether its locator names a local path
//! or a remote host, which host that is, what to try in order to reach it,
//! and what the attempt tells. Probing reads and never changes anything;
//! what it finds is advice.

use crate::config::{RepoCtx, RepoCtxView, RepoStatus};
use crate::engine::{EngineCall, EngineCallView, RunResult, RunResultView};
use crate::text::{
    after, after_last, before, contains, contains_sub, find_char, find_last_char, find_sub,
    first_at, first_pos, from_chars, lemma_first_is_first, lemma_first_pos, lemma_last_pos,
    lemma_sub_pos, lowercase, matches_at, no_texts, occurs_at, push_text, sub_chars, sub_pos,
    text2, to_chars, to_lowercase,
};
use vstd::prelude::*;

verus! {

/// What separates the scheme of a URL from the rest.
pub open spec fn scheme_mark() -> Seq<char> {
    seq![':', '/', '/']
}

/// A locator is remote if it holds the mark of a URL's scheme, or both an
/// `@` and a `:` as `user@host:path` does; otherwise it is a local path.
pub open spec fn is_remote(locator: Seq<char>) -> bool {
    contains_sub(locator, scheme_mark()) || (locator.contains('@') && locator.contains(':'))
}

/// The host a URL names: what follows the scheme, up to the first `/`,
/// behind the last `@`, up to the first `:`.
pub open spec fn url_host(locator: Seq<char>) -> Seq<char> {
    let rest = locator.skip(sub_pos(locator, scheme_mark()) + 3);
    let authority = before(rest, '/');
    let host_port = after_last(authority, '@');
    before(host_port, ':')
}

/// The host a locator of the form `user@host:path` names: what stands
/// between the first `@` and the next, up to the first `:`.
pub open spec fn scp_host(locator: Seq<char>) -> Seq<char> {
    before(before(after(locator, '@'), '@'), ':')
}

/// The host a locator names, if it is remote.
pub open spec fn host_of(locator: Seq<char>) -> Option<Seq<char>> {
    if contains_sub(locator, scheme_mark()) {
        Some(url_host(locator))
    } else if locator.contains('@') && locator.contains(':') {
        Some(scp_host(locator))
    } else {
        None
    }
}

fn mark() -> (m: Vec<char>)
    ensures
        m@ == scheme_mark(),
{
    let mut m: Vec<char> = Vec::new();
    m.push(':');
    m.push('/');
    m.push('/');
    m
}

fn has_char(v: &Vec<char>, c: char) -> (r: bool)
    ensures
        r == v@.contains(c),
{
    let p = find_char(v, c);
    proof {
        lemma_first_is_first(v@, c);
    }
    p < v.len()
}

fn cut_before(v: &Vec<char>, c: char) -> (r: Vec<char>)
    ensures
        r@ == before(v@, c),
{
    let p = find_char(v, c);
    proof {
        lemma_first_is_first(v@, c);
    }
    sub_chars(v, 0, p)
}

/// Whether a locator is remote.
pub fn is_remote_locator(repo: &str) -> (r: bool)
    ensures
        r == is_remote(repo@),
{
    let v = to_chars(repo);
    let m = mark();
    let at = find_sub(&v, &m);
    if matches_at(&v, &m, at) {
        return true;
    }
    has_char(&v, '@') && has_char(&v, ':')
}

/// The host a locator names, if it is remote.
pub fn extract_ssh_host(repo: &str) -> (r: Option<String>)
    ensures
        r.deep_view() == host_of(repo@),
{
    let v = to_chars(repo);
    let m = mark();
    let at = find_sub(&v, &m);
    if matches_at(&v, &m, at) {
        let rest = sub_chars(&v, at + 3, v.len());
        let authority = cut_before(&rest, '/');
        let last = find_last_char(&authority, '@');
        let host_port = sub_chars(&authority, last, authority.len());
        let host = cut_before(&host_port, ':');
        return Some(from_chars(&host, 0, host.len()));
    }
    if has_char(&v, '@') && has_char(&v, ':') {
        let first = find_char(&v, '@');
        proof {
            lemma_first_is_first(v@, '@');
            if first == v.len() {
                let k = choose|k: int| 0 <= k < v@.len() && v@[k] == '@';
                assert(v@[k] != '@');
            }
        }
        let behind = sub_chars(&v, first + 1, v.len());
        let segment = cut_before(&behind, '@');
        let host = cut_before(&segment, ':');
        return Some(from_chars(&host, 0, host.len()));
    }
    None
}

/// A locator names a host exactly if it is remote; a local path names
/// none.
pub proof fn lemma_host_iff_remote(locator: Seq<char>)
    ensures
        host_of(locator) is Some <==> is_remote(locator),
        !is_remote(locator) ==> host_of(locator) is None,
{
}

proof fn lemma_first_in_concat(head: Seq<char>, c: char, tail: Seq<char>)
    requires
        !head.contains(c),
    ensures
        first_pos(head + seq![c] + tail, c) == head.len(),
        before(head + seq![c] + tail, c) == head,
        after(head + seq![c] + tail, c) == tail,
{
    let s = head + seq![c] + tail;
    assert forall|j: int| 0 <= j < head.len() implies s[j] != c by {
        assert(s[j] == head[j]);
        assert(head.contains(head[j]));
    }
    assert(s[head.len() as int] == c);
    lemma_first_pos(s, c, head.len() as int);
    assert(s.take(head.len() as int) =~= head);
    assert(s.skip(head.len() as int + 1) =~= tail);
}

proof fn lemma_before_without(s: Seq<char>, c: char)
    requires
        !s.contains(c),
    ensures
        before(s, c) == s,
        after_last(s, c) == s,
{
    assert forall|j: int| 0 <= j < s.len() implies s[j] != c by {
        assert(s.contains(s[j]));
    }
    lemma_first_pos(s, c, s.len() as int);
    lemma_last_pos(s, c, -1);
    assert(s.take(s.len() as int) =~= s);
    assert(s.skip(0) =~= s);
}

proof fn lemma_after_last_in_concat(head: Seq<char>, c: char, tail: Seq<char>)
    requires
        !tail.contains(c),
    ensures
        after_last(head + seq![c] + tail, c) == tail,
{
    let s = head + seq![c] + tail;
    assert forall|j: int| head.len() < j < s.len() implies s[j] != c by {
        assert(s[j] == tail[j - head.len() - 1]);
        assert(tail.contains(tail[j - head.len() - 1]));
    }
    assert(s[head.len() as int] == c);
    lemma_last_pos(s, c, head.len() as int);
    assert(s.skip(head.len() as int + 1) =~= tail);
}

proof fn lemma_mark_after_scheme(scheme: Seq<char>, rest: Seq<char>)
    requires
        !scheme.contains(':'),
    ensures
        contains_sub(scheme + scheme_mark() + rest, scheme_mark()),
        sub_pos(scheme + scheme_mark() + rest, scheme_mark()) == scheme.len(),
        (scheme + scheme_mark() + rest).skip(scheme.len() as int + 3) == rest,
{
    let s = scheme + scheme_mark() + rest;
    let n = scheme.len() as int;
    assert(s.subrange(n, n + 3) =~= scheme_mark());
    assert(occurs_at(s, scheme_mark(), n));
    assert forall|j: int| 0 <= j < n implies !occurs_at(s, scheme_mark(), j) by {
        assert(s[j] == scheme[j]);
        assert(scheme.contains(scheme[j]));
        if occurs_at(s, scheme_mark(), j) {
            assert(s.subrange(j, j + 3)[0] == ':');
        }
    }
    lemma_sub_pos(s, scheme_mark(), n);
    assert(s.skip(n + 3) =~= rest);
}

/// Of a locator of the form `scheme://user@host:port/path` the host is
/// exactly `host`.
pub proof fn lemma_host_of_full_url(
    scheme: Seq<char>,
    user: Seq<char>,
    host: Seq<char>,
    port: Seq<char>,
    path: Seq<char>,
)
    requires
        !scheme.contains(':'),
        !user.contains('/'),
        !host.contains('/') && !host.contains('@') && !host.contains(':'),
        !port.contains('/') && !port.contains('@'),
    ensures
        host_of(
            scheme + scheme_mark() + user + seq!['@'] + host + seq![':'] + port + seq!['/'] + path,
        ) == Some(host),
{
    let authority = user + seq!['@'] + host + seq![':'] + port;
    let rest = authority + seq!['/'] + path;
    let locator = scheme + scheme_mark() + user + seq!['@'] + host + seq![':'] + port + seq!['/']
        + path;
    assert(locator =~= scheme + scheme_mark() + rest);
    lemma_mark_after_scheme(scheme, rest);
    assert(!authority.contains('/')) by {
        if authority.contains('/') {
            let k = choose|k: int| 0 <= k < authority.len() && authority[k] == '/';
            if k < user.len() {
                assert(user.contains(user[k]));
            } else if k == user.len() {
            } else if k < user.len() + 1 + host.len() {
                assert(host.contains(host[k - user.len() - 1]));
            } else if k == user.len() + 1 + host.len() {
            } else {
                assert(port.contains(port[k - user.len() - host.len() - 2]));
            }
        }
    }
    lemma_first_in_concat(authority, '/', path);
    let host_port = host + seq![':'] + port;
    assert(authority =~= user + seq!['@'] + host_port);
    assert(!host_port.contains('@')) by {
        if host_port.contains('@') {
            let k = choose|k: int| 0 <= k < host_port.len() && host_port[k] == '@';
            if k < host.len() {
                assert(host.contains(host[k]));
            } else if k == host.len() {
            } else {
                assert(port.contains(port[k - host.len() - 1]));
            }
        }
    }
    lemma_after_last_in_concat(user, '@', host_port);
    lemma_first_in_concat(host, ':', port);
}

/// Of a locator of the form `scheme://host/path` the host is exactly
/// `host`.
pub proof fn lemma_host_of_plain_url(scheme: Seq<char>, host: Seq<char>, path: Seq<char>)
    requires
        !scheme.contains(':'),
        !host.contains('/') && !host.contains('@') && !host.contains(':'),
    ensures
        host_of(scheme + scheme_mark() + host + seq!['/'] + path) == Some(host),
{
    let rest = host + seq!['/'] + path;
    let locator = scheme + scheme_mark() + host + seq!['/'] + path;
    assert(locator =~= scheme + scheme_mark() + rest);
    lemma_mark_after_scheme(scheme, rest);
    lemma_first_in_concat(host, '/', path);
    lemma_before_without(host, '@');
    lemma_before_without(host, ':');
}

/// Of a locator of the form `user@host:path` the host is exactly `host`.
pub proof fn lemma_host_of_scp(user: Seq<char>, host: Seq<char>, path: Seq<char>)
    requires
        !user.contains('@'),
        !host.contains('@') && !host.contains(':'),
        !contains_sub(user + seq!['@'] + host + seq![':'] + path, scheme_mark()),
    ensures
        host_of(user + seq!['@'] + host + seq![':'] + path) == Some(host),
{
    let locator = user + seq!['@'] + host + seq![':'] + path;
    let behind = host + seq![':'] + path;
    assert(locator =~= user + seq!['@'] + behind);
    assert(locator[user.len() as int] == '@');
    assert(locator[user.len() as int + 1 + host.len()] == ':');
    lemma_first_in_concat(user, '@', behind);
    let segment = before(behind, '@');
    lemma_first_is_first(behind, '@');
    let p = first_pos(behind, '@');
    assert(p > host.len()) by {
        if p <= host.len() {
            if p < host.len() {
                assert(behind[p] == host[p]);
                assert(host.contains(host[p]));
            } else {
                assert(behind[p] == ':');
            }
        }
    }
    assert(first_at(segment, ':', host.len() as int)) by {
        assert(segment =~= behind.take(p));
        assert forall|j: int| 0 <= j < host.len() implies segment[j] != ':' by {
            assert(segment[j] == host[j]);
            assert(host.contains(host[j]));
        }
        assert(segment[host.len() as int] == ':');
    }
    lemma_first_pos(segment, ':', host.len() as int);
    assert(segment.take(host.len() as int) =~= host);
}

/// The call that tries a remote host: a login that asks nothing, gives up
/// after five seconds and runs a command that does nothing.
pub open spec fn ssh_call(host: Seq<char>) -> EngineCallView {
    EngineCallView {
        caption: "Probing "@ + host,
        program: "ssh"@,
        args: seq![
            "-o"@,
            "BatchMode=yes"@,
            "-o"@,
            "StrictHostKeyChecking=no"@,
            "-o"@,
            "UserKnownHostsFile=/dev/null"@,
            "-o"@,
            "ConnectTimeout=5"@,
            host,
            "true"@,
        ],
        passphrase: None,
        working_dir: None,
    }
}

/// The call that tries a remote host.
pub fn ssh_probe(host: &str) -> (c: EngineCall)
    ensures
        c@ == ssh_call(host@),
{
    let mut args = no_texts();
    push_text(&mut args, "-o");
    push_text(&mut args, "BatchMode=yes");
    push_text(&mut args, "-o");
    push_text(&mut args, "StrictHostKeyChecking=no");
    push_text(&mut args, "-o");
    push_text(&mut args, "UserKnownHostsFile=/dev/null");
    push_text(&mut args, "-o");
    push_text(&mut args, "ConnectTimeout=5");
    push_text(&mut args, host);
    push_text(&mut args, "true");
    assert(args.deep_view() =~= ssh_call(host@).args);
    EngineCall {
        caption: text2("Probing ", host),
        program: "ssh".to_owned(),
        args,
        passphrase: None,
        working_dir: None,
    }
}

/// What there is to try in order to probe a repository.
#[derive(Debug)]
pub enum ProbePlan {
    /// See whether the path exists.
    Local,
    /// Nothing: the repository is remote and remote ones are not probed,
    /// or it names no host.
    Skip,
    /// Make this call.
    Remote(EngineCall),
}

/// What a [`ProbePlan`] holds.
pub enum ProbePlanView {
    Local,
    Skip,
    Remote(EngineCallView),
}

impl View for ProbePlan {
    type V = ProbePlanView;

    open spec fn view(&self) -> ProbePlanView {
        match *self {
            ProbePlan::Local => ProbePlanView::Local,
            ProbePlan::Skip => ProbePlanView::Skip,
            ProbePlan::Remote(c) => ProbePlanView::Remote(c@),
        }
    }
}

/// What there is to try in order to probe a repository.
pub open spec fn plan_of(locator: Seq<char>, probe_ssh: bool) -> ProbePlanView {
    if !is_remote(locator) {
        ProbePlanView::Local
    } else if !probe_ssh {
        ProbePlanView::Skip
    } else {
        match host_of(locator) {
            Some(host) => ProbePlanView::Remote(ssh_call(host)),
            None => ProbePlanView::Skip,
        }
    }
}

/// What there is to try in order to probe the repository at `repo`.
pub fn probe_plan(repo: &str, probe_ssh: bool) -> (plan: ProbePlan)
    ensures
        plan@ == plan_of(repo@, probe_ssh),
{
    if !is_remote_locator(repo) {
        ProbePlan::Local
    } else if !probe_ssh {
        ProbePlan::Skip
    } else {
        match extract_ssh_host(repo) {
            Some(host) => ProbePlan::Remote(ssh_probe(host.as_str())),
            None => ProbePlan::Skip,
        }
    }
}

/// What an attempt to reach a repository gave.
#[derive(Debug)]
pub enum Evidence {
    /// Nothing was tried.
    Nothing,
    /// Whether the local path exists.
    Path { exists: bool },
    /// The call to the remote host could not be made.
    NotStarted,
    /// The call to the remote host ended like this.
    Remote(RunResult),
}

/// What an [`Evidence`] holds.
pub enum EvidenceView {
    Nothing,
    Path { exists: bool },
    NotStarted,
    Remote(RunResultView),
}

impl View for Evidence {
    type V = EvidenceView;

    open spec fn view(&self) -> EvidenceView {
        match *self {
            Evidence::Nothing => EvidenceView::Nothing,
            Evidence::Path { exists } => EvidenceView::Path { exists },
            Evidence::NotStarted => EvidenceView::NotStarted,
            Evidence::Remote(r) => EvidenceView::Remote(r@),
        }
    }
}

impl DeepView for Evidence {
    type V = EvidenceView;

    open spec fn deep_view(&self) -> EvidenceView {
        self@
    }
}

/// Whether a complaint, in lowercase, speaks of a refused login.
pub open spec fn speaks_of_login(lowered: Seq<char>) -> bool {
    ||| contains_sub(lowered, "permission denied"@)
    ||| contains_sub(lowered, "publickey"@)
    ||| contains_sub(lowered, "password"@)
}

/// What the call to a remote host tells: it answered, or it refused the
/// login, or nothing can be said.
pub open spec fn remote_status(r: RunResultView) -> RepoStatus {
    if r.success {
        RepoStatus::RemoteOk
    } else if speaks_of_login(lowercase(r.stderr)) {
        RepoStatus::RemoteAuthNeeded
    } else {
        RepoStatus::Unknown
    }
}

/// Whether a complaint, in lowercase, speaks of a refused login.
pub fn mentions_login(lowered: &str) -> (r: bool)
    ensures
        r == speaks_of_login(lowered@),
{
    contains(lowered, "permission denied") || contains(lowered, "publickey") || contains(
        lowered,
        "password",
    )
}

/// What the call to a remote host tells.
pub fn probe_remote(result: &RunResult) -> (status: RepoStatus)
    ensures
        status == remote_status(result@),
{
    if result.success {
        RepoStatus::RemoteOk
    } else {
        let lowered = to_lowercase(result.stderr.as_str());
        if mentions_login(lowered.as_str()) {
            RepoStatus::RemoteAuthNeeded
        } else {
            RepoStatus::Unknown
        }
    }
}

/// The status of a repository, going by what was found. A local path is
/// reachable if it exists and missing if not. A remote repository that is
/// not probed is unknown, and so is anything of which nothing fitting was
/// found.
pub open spec fn status_of(locator: Seq<char>, probe_ssh: bool, evidence: EvidenceView) -> RepoStatus {
    match plan_of(locator, probe_ssh) {
        ProbePlanView::Local => match evidence {
            EvidenceView::Path { exists } => if exists {
                RepoStatus::Reachable
            } else {
                RepoStatus::MissingLocal
            },
            _ => RepoStatus::Unknown,
        },
        ProbePlanView::Skip => RepoStatus::Unknown,
        ProbePlanView::Remote(_) => match evidence {
            EvidenceView::Remote(r) => remote_status(r),
            _ => RepoStatus::Unknown,
        },
    }
}

/// The status of the repository at `repo`, going by what was found when
/// its [`probe_plan`] was carried out.
pub fn repo_status(repo: &str, probe_ssh: bool, evidence: &Evidence) -> (status: RepoStatus)
    ensures
        status == status_of(repo@, probe_ssh, evidence@),
{
    match probe_plan(repo, probe_ssh) {
        ProbePlan::Local => match evidence {
            Evidence::Path { exists } => if *exists {
                RepoStatus::Reachable
            } else {
                RepoStatus::MissingLocal
            },
            _ => RepoStatus::Unknown,
        },
        ProbePlan::Skip => RepoStatus::Unknown,
        ProbePlan::Remote(_) => match evidence {
            Evidence::Remote(r) => probe_remote(r),
            _ => RepoStatus::Unknown,
        },
    }
}

/// What was found for the repository at position `i`; nothing where the
/// findings do not reach so far.
pub open spec fn found_at(found: Seq<EvidenceView>, i: int) -> EvidenceView {
    if 0 <= i < found.len() {
        found[i]
    } else {
        EvidenceView::Nothing
    }
}

/// The repositories once they have been probed: each as it was, but for
/// its status, which is what was found for it tells.
pub open spec fn probed(
    repos: Seq<RepoCtxView>,
    probe_ssh: bool,
    found: Seq<EvidenceView>,
) -> Seq<RepoCtxView> {
    Seq::new(
        repos.len(),
        |i: int|
            RepoCtxView { status: status_of(repos[i].repo, probe_ssh, found_at(found, i)), ..repos[i] },
    )
}

/// The repositories with the status of each set from what was found when
/// its [`probe_plan`] was carried out; `found` holds the findings in the
/// order of the repositories.
pub fn assign_statuses(repos: &Vec<RepoCtx>, probe_ssh: bool, found: &Vec<Evidence>) -> (r: Vec<
    RepoCtx,
>)
    ensures
        r.deep_view() == probed(repos.deep_view(), probe_ssh, found.deep_view()),
{
    let mut r: Vec<RepoCtx> = Vec::new();
    let ghost all = probed(repos.deep_view(), probe_ssh, found.deep_view());
    let mut i: usize = 0;
    assert(r.deep_view() =~= all.take(0));
    while i < repos.len()
        invariant
            i <= repos.len(),
            all == probed(repos.deep_view(), probe_ssh, found.deep_view()),
            r.deep_view() == all.take(i as int),
        decreases repos.len() - i,
    {
        let mut ctx = repos[i].clone();
        ctx.status = if i < found.len() {
            repo_status(ctx.repo.as_str(), probe_ssh, &found[i])
        } else {
            repo_status(ctx.repo.as_str(), probe_ssh, &Evidence::Nothing)
        };
        let ghost before = r.deep_view();
        let ghost added = ctx@;
        r.push(ctx);
        assert(r.deep_view() =~= before.push(added));
        i += 1;
        assert(r.deep_view() =~= all.take(i as int));
    }
    assert(all.take(repos.len() as int) =~= all);
    r
}

/// Probing a local path tells the same every time the path is found the
/// same: reachable where it exists, missing where it does not, whether or
/// not remote repositories are probed. A remote repository that is not
/// probed stays unknown.
pub proof fn lemma_probe_is_stable(
    locator: Seq<char>,
    exists: bool,
    first: bool,
    second: bool,
    evidence: EvidenceView,
)
    ensures
        !is_remote(locator) ==> status_of(locator, first, EvidenceView::Path { exists })
            == status_of(locator, second, EvidenceView::Path { exists }),
        !is_remote(locator) && exists ==> status_of(locator, first, EvidenceView::Path { exists })
            == RepoStatus::Reachable,
        !is_remote(locator) && !exists ==> status_of(
            locator,
            first,
            EvidenceView::Path { exists },
        ) == RepoStatus::MissingLocal,
        is_remote(locator) ==> status_of(locator, false, evidence) == RepoStatus::Unknown,
{
}

} // verus!
