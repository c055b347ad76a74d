//! The archive engine as the console sees it: the calls it is started
//! with, what it answers, and how its outcome is read.

use crate::config::{RepoCtx, RepoCtxView};
use crate::error::{ErrorKind, ToolError, ToolErrorView};
use crate::paths::{component_count, count_components};
use crate::text::{
    decimal, decimal_string, find_name, name_pos, no_texts, push_text, split, split_on, text2,
    text3, text4, text6, trim, trimmed,
};
use vstd::prelude::*;

verus! {

/// One archive of a repository, as the engine lists it.
#[derive(Debug)]
pub struct BorgArchive {
    /// The archive's name.
    pub name: String,
    /// When it was made, as the engine writes it.
    pub time_utc: Option<String>,
}

/// What a [`BorgArchive`] holds.
pub struct BorgArchiveView {
    pub name: Seq<char>,
    pub time_utc: Option<Seq<char>>,
}

impl View for BorgArchive {
    type V = BorgArchiveView;

    open spec fn view(&self) -> BorgArchiveView {
        BorgArchiveView { name: self.name@, time_utc: self.time_utc.deep_view() }
    }
}

impl DeepView for BorgArchive {
    type V = BorgArchiveView;

    open spec fn deep_view(&self) -> BorgArchiveView {
        self@
    }
}

impl Clone for BorgArchive {
    fn clone(&self) -> (r: Self)
        ensures
            r@ == self@,
    {
        BorgArchive { name: self.name.clone(), time_utc: self.time_utc.clone() }
    }
}

/// The engine's answer to a request for the archives of a repository.
#[derive(Debug)]
pub struct BorgListResponse {
    pub archives: Vec<BorgArchive>,
}

/// One entry of an archive, as the engine lists it.
#[derive(Debug)]
pub struct BorgItem {
    /// Its path inside the archive.
    pub path: String,
    /// The kind of entry, as the engine writes it.
    pub item_type: Option<String>,
    /// Its size in bytes.
    pub size: Option<u64>,
}

/// What a [`BorgItem`] holds.
pub struct BorgItemView {
    pub path: Seq<char>,
    pub item_type: Option<Seq<char>>,
    pub size: Option<u64>,
}

impl View for BorgItem {
    type V = BorgItemView;

    open spec fn view(&self) -> BorgItemView {
        BorgItemView {
            path: self.path@,
            item_type: self.item_type.deep_view(),
            size: self.size,
        }
    }
}

impl DeepView for BorgItem {
    type V = BorgItemView;

    open spec fn deep_view(&self) -> BorgItemView {
        self@
    }
}

impl Clone for BorgItem {
    fn clone(&self) -> (r: Self)
        ensures
            r@ == self@,
    {
        BorgItem {
            path: self.path.clone(),
            item_type: self.item_type.clone(),
            size: self.size,
        }
    }
}

/// One start of a program: the engine, or a helper such as `ssh`.
#[derive(Debug)]
pub struct EngineCall {
    /// What the operator is told while it runs.
    pub caption: String,
    /// The program to start.
    pub program: String,
    /// Its arguments, in order.
    pub args: Vec<String>,
    /// The passphrase, which is handed over in the environment of the
    /// program only and never among its arguments.
    pub passphrase: Option<String>,
    /// The directory to start it in, where that matters.
    pub working_dir: Option<String>,
}

/// What an [`EngineCall`] holds.
pub struct EngineCallView {
    pub caption: Seq<char>,
    pub program: Seq<char>,
    pub args: Seq<Seq<char>>,
    pub passphrase: Option<Seq<char>>,
    pub working_dir: Option<Seq<char>>,
}

impl View for EngineCall {
    type V = EngineCallView;

    open spec fn view(&self) -> EngineCallView {
        EngineCallView {
            caption: self.caption@,
            program: self.program@,
            args: self.args.deep_view(),
            passphrase: self.passphrase.deep_view(),
            working_dir: self.working_dir.deep_view(),
        }
    }
}

/// What came of a program that was started and has ended.
#[derive(Debug)]
pub struct RunResult {
    /// Whether it reported success.
    pub success: bool,
    /// Its exit status, as it is shown.
    pub status: String,
    /// What it wrote to its output.
    pub stdout: String,
    /// What it wrote to its error stream.
    pub stderr: String,
}

/// What a [`RunResult`] holds.
pub struct RunResultView {
    pub success: bool,
    pub status: Seq<char>,
    pub stdout: Seq<char>,
    pub stderr: Seq<char>,
}

impl View for RunResult {
    type V = RunResultView;

    open spec fn view(&self) -> RunResultView {
        RunResultView {
            success: self.success,
            status: self.status@,
            stdout: self.stdout@,
            stderr: self.stderr@,
        }
    }
}

impl DeepView for RunResult {
    type V = RunResultView;

    open spec fn deep_view(&self) -> RunResultView {
        self@
    }
}

/// An archive as the engine is told of it: the repository, two colons, the
/// archive's name.
pub open spec fn archive_locator(repo: Seq<char>, archive: Seq<char>) -> Seq<char> {
    repo + "::"@ + archive
}

pub(crate) fn locator(repo: &str, archive: &str) -> (r: String)
    ensures
        r@ == archive_locator(repo@, archive@),
{
    text3(repo, "::", archive)
}

fn owned(o: Option<&str>) -> (r: Option<String>)
    ensures
        r.deep_view() == o.deep_view(),
{
    match o {
        Some(s) => Some(s.to_owned()),
        None => None,
    }
}

/// A call of the engine of `ctx`.
pub open spec fn engine_call(
    ctx: RepoCtxView,
    caption: Seq<char>,
    args: Seq<Seq<char>>,
    passphrase: Option<Seq<char>>,
) -> EngineCallView {
    EngineCallView { caption, program: ctx.borg_bin, args, passphrase, working_dir: None }
}

pub(crate) fn call(ctx: &RepoCtx, caption: String, args: Vec<String>, passphrase: Option<&str>) -> (c:
    EngineCall)
    ensures
        c@ == engine_call(ctx@, caption@, args.deep_view(), passphrase.deep_view()),
{
    EngineCall {
        caption,
        program: ctx.borg_bin.clone(),
        args,
        passphrase: owned(passphrase),
        working_dir: None,
    }
}

/// The failure to start a program at all.
pub open spec fn not_started(program: Seq<char>) -> ToolErrorView {
    ToolErrorView {
        kind: ErrorKind::EngineInvocationFailed,
        message: "Failed to invoke "@ + program + " binary"@,
    }
}

/// The failure to start the program of `c` at all.
pub fn invocation_failed(c: &EngineCall) -> (e: ToolError)
    ensures
        e@ == not_started(c@.program),
{
    ToolError::new(
        ErrorKind::EngineInvocationFailed,
        text3("Failed to invoke ", c.program.as_str(), " binary"),
    )
}

/// What is said of an engine action that ended in failure: the action, the
/// exit status, and what the engine wrote to its error stream, without the
/// whitespace around it.
pub open spec fn failure_text(action: Seq<char>, status: Seq<char>, stderr: Seq<char>) -> Seq<
    char,
> {
    "borg "@ + action + " failed with status "@ + status + ": "@ + trim(stderr)
}

/// The failure of an engine action.
pub open spec fn operation_failed(action: Seq<char>, r: RunResultView) -> ToolErrorView {
    ToolErrorView {
        kind: ErrorKind::OperationFailed,
        message: failure_text(action, r.status, r.stderr),
    }
}

/// Whether the engine action succeeded: it did exactly if the engine
/// reported success. Where it did not, the failure names the action, the
/// status and what the engine complained of.
pub fn ensure_success(action: &str, result: &RunResult) -> (r: Result<(), ToolError>)
    ensures
        result.success ==> r is Ok,
        !result.success ==> r is Err && r->Err_0@ == operation_failed(action@, result@),
{
    if result.success {
        return Ok(());
    }
    let complaint = trimmed(result.stderr.as_str());
    Err(
        ToolError::new(
            ErrorKind::OperationFailed,
            text6(
                "borg ",
                action,
                " failed with status ",
                result.status.as_str(),
                ": ",
                complaint.as_str(),
            ),
        ),
    )
}

/// The call that lists the archives of a repository.
pub open spec fn list_archives_call(ctx: RepoCtxView, passphrase: Option<Seq<char>>) -> EngineCallView {
    engine_call(ctx, "Listing archives"@, seq!["list"@, "--json"@, ctx.repo], passphrase)
}

/// The call that lists the archives of the repository. Its output is one
/// JSON object.
pub fn list_archives(ctx: &RepoCtx, passphrase: Option<&str>) -> (c: EngineCall)
    ensures
        c@ == list_archives_call(ctx@, passphrase.deep_view()),
{
    let mut args = no_texts();
    push_text(&mut args, "list");
    push_text(&mut args, "--json");
    push_text(&mut args, ctx.repo.as_str());
    assert(args.deep_view() =~= seq!["list"@, "--json"@, ctx.repo@]);
    call(ctx, "Listing archives".to_owned(), args, passphrase)
}

/// The failure to read the engine's list of archives.
pub open spec fn malformed_list() -> ToolErrorView {
    ToolErrorView {
        kind: ErrorKind::MalformedEngineOutput,
        message: "Failed to parse borg JSON output"@,
    }
}

/// The failure to read the engine's list of archives.
pub fn malformed_archive_list() -> (e: ToolError)
    ensures
        e@ == malformed_list(),
{
    ToolError::new(
        ErrorKind::MalformedEngineOutput,
        "Failed to parse borg JSON output".to_owned(),
    )
}

/// The call that lists the entries of an archive.
pub open spec fn list_items_call(
    ctx: RepoCtxView,
    archive: Seq<char>,
    passphrase: Option<Seq<char>>,
) -> EngineCallView {
    engine_call(
        ctx,
        "Listing items in "@ + archive,
        seq!["list"@, "--json-lines"@, archive_locator(ctx.repo, archive)],
        passphrase,
    )
}

/// The call that lists the entries of an archive. Its output is one JSON
/// object to the line.
pub fn list_items(ctx: &RepoCtx, archive: &str, passphrase: Option<&str>) -> (c: EngineCall)
    ensures
        c@ == list_items_call(ctx@, archive@, passphrase.deep_view()),
{
    let mut args = no_texts();
    push_text(&mut args, "list");
    push_text(&mut args, "--json-lines");
    push_text(&mut args, locator(ctx.repo.as_str(), archive).as_str());
    assert(args.deep_view() =~= seq![
        "list"@,
        "--json-lines"@,
        archive_locator(ctx.repo@, archive@),
    ]);
    call(ctx, text2("Listing items in ", archive), args, passphrase)
}

/// One line of the engine's output that holds something.
#[derive(Debug)]
pub struct OutputLine {
    /// Which line of the output it is, counted from one.
    pub number: usize,
    /// The line without the whitespace around it.
    pub text: String,
}

/// What an [`OutputLine`] holds.
pub struct OutputLineView {
    pub number: nat,
    pub text: Seq<char>,
}

impl View for OutputLine {
    type V = OutputLineView;

    open spec fn view(&self) -> OutputLineView {
        OutputLineView { number: self.number as nat, text: self.text@ }
    }
}

impl DeepView for OutputLine {
    type V = OutputLineView;

    open spec fn deep_view(&self) -> OutputLineView {
        self@
    }
}

/// The lines among `lines` that hold more than whitespace, each trimmed
/// and with its number among all the lines.
pub open spec fn filled(lines: Seq<Seq<char>>) -> Seq<OutputLineView>
    decreases lines.len(),
{
    if lines.len() == 0 {
        Seq::empty()
    } else if trim(lines.last()).len() > 0 {
        filled(lines.drop_last()).push(
            OutputLineView { number: lines.len(), text: trim(lines.last()) },
        )
    } else {
        filled(lines.drop_last())
    }
}

/// The lines of an output that hold more than whitespace.
pub open spec fn output_lines(stdout: Seq<char>) -> Seq<OutputLineView> {
    filled(split(stdout, '\n'))
}

/// The filled lines come in the order of the output: each has a number
/// among the lines there are, a later one a higher number, and none is
/// empty.
pub proof fn lemma_filled_in_order(lines: Seq<Seq<char>>, i: int, j: int)
    requires
        0 <= i <= j < filled(lines).len(),
    ensures
        1 <= filled(lines)[i].number <= lines.len(),
        i < j ==> filled(lines)[i].number < filled(lines)[j].number,
        filled(lines)[i].text == trim(lines[filled(lines)[i].number - 1]),
        filled(lines)[i].text.len() > 0,
    decreases lines.len(),
{
    let head = lines.drop_last();
    if trim(lines.last()).len() > 0 {
        if j < filled(head).len() {
            lemma_filled_in_order(head, i, j);
        } else if i < filled(head).len() {
            lemma_filled_in_order(head, i, i);
        }
    } else {
        lemma_filled_in_order(head, i, j);
    }
    if i < filled(head).len() {
        assert(lines[filled(lines)[i].number - 1] == head[filled(head)[i].number - 1]);
    }
}

/// The lines of the engine's output that hold an entry each: those with
/// more than whitespace in them, trimmed, and numbered as they stand in
/// the output.
pub fn item_lines(stdout: &str) -> (r: Vec<OutputLine>)
    ensures
        r.deep_view() == output_lines(stdout@),
{
    let lines = split_on(stdout, '\n');
    let mut r: Vec<OutputLine> = Vec::new();
    let mut i: usize = 0;
    while i < lines.len()
        invariant
            i <= lines.len(),
            r.deep_view() == filled(lines.deep_view().take(i as int)),
        decreases lines.len() - i,
    {
        let ghost now = lines.deep_view().take(i + 1);
        proof {
            assert(now.drop_last() =~= lines.deep_view().take(i as int));
        }
        let text = trimmed(lines[i].as_str());
        if text.as_str().unicode_len() > 0 {
            let line = OutputLine { number: i + 1, text };
            r.push(line);
        }
        i += 1;
    }
    assert(lines.deep_view().take(lines.len() as int) =~= lines.deep_view());
    r
}

/// The failure to read one line of the engine's list of entries.
pub open spec fn malformed_line(number: nat) -> ToolErrorView {
    ToolErrorView {
        kind: ErrorKind::MalformedEngineOutput,
        message: "Failed to parse JSON line "@ + decimal(number) + " from borg output"@,
    }
}

/// The failure to read the line with this number of the engine's list of
/// entries.
pub fn malformed_item_line(number: usize) -> (e: ToolError)
    ensures
        e@ == malformed_line(number as nat),
{
    let n = decimal_string(number);
    ToolError::new(
        ErrorKind::MalformedEngineOutput,
        text3("Failed to parse JSON line ", n.as_str(), " from borg output"),
    )
}

/// Whether the line at position `k` has no entry decoded from it: there is
/// no decoding for it at all, or the decoding gave nothing.
pub open spec fn undecoded(decoded: Seq<Option<BorgItemView>>, k: int) -> bool {
    k < 0 || k >= decoded.len() || decoded[k] is None
}

/// The position of the first of the first `n` lines that has no entry
/// decoded from it; `n` if each of them has one.
pub open spec fn first_gap(decoded: Seq<Option<BorgItemView>>, n: int) -> int
    decreases n,
{
    if n <= 0 {
        0
    } else if first_gap(decoded, n - 1) < n - 1 {
        first_gap(decoded, n - 1)
    } else if undecoded(decoded, n - 1) {
        n - 1
    } else {
        n
    }
}

/// `first_gap` is the first position without an entry: every line before
/// it has one, and it is among the lines exactly if one of them has none.
pub proof fn lemma_first_gap(decoded: Seq<Option<BorgItemView>>, n: int, k: int)
    requires
        0 <= k <= n,
        forall|j: int| 0 <= j < k ==> !undecoded(decoded, j),
        k < n ==> undecoded(decoded, k),
    ensures
        first_gap(decoded, n) == k,
    decreases n,
{
    if n > 0 {
        if k < n - 1 {
            lemma_first_gap(decoded, n - 1, k);
        } else {
            lemma_first_gap(decoded, n - 1, n - 1);
        }
    }
}

/// The entries of an archive, going by the filled lines of the engine's
/// output and what was decoded from each: the entries in the order of the
/// lines, one for each line and no other, if every line gave an entry;
/// and else the failure to read the first line that gave none, with no
/// entry at all.
pub open spec fn collected(
    lines: Seq<OutputLineView>,
    decoded: Seq<Option<BorgItemView>>,
) -> Result<Seq<BorgItemView>, ToolErrorView> {
    let k = first_gap(decoded, lines.len() as int);
    if k < lines.len() {
        Err(malformed_line(lines[k].number))
    } else {
        Ok(Seq::new(lines.len(), |i: int| decoded[i]->0))
    }
}

/// The entries of an archive, going by the filled lines of the engine's
/// output and what was decoded from each of them, line by line.
pub fn collect_items(lines: &Vec<OutputLine>, decoded: &Vec<Option<BorgItem>>) -> (r: Result<
    Vec<BorgItem>,
    ToolError,
>)
    ensures
        match r {
            Ok(items) => collected(lines.deep_view(), decoded.deep_view()) == Ok::<
                Seq<BorgItemView>,
                ToolErrorView,
            >(items.deep_view()),
            Err(e) => collected(lines.deep_view(), decoded.deep_view()) == Err::<
                Seq<BorgItemView>,
                ToolErrorView,
            >(e@),
        },
{
    let mut items: Vec<BorgItem> = Vec::new();
    let mut i: usize = 0;
    while i < lines.len()
        invariant
            i <= lines.len(),
            forall|j: int| 0 <= j < i ==> !undecoded(decoded.deep_view(), j),
            items.deep_view() == Seq::new(i as nat, |j: int| decoded.deep_view()[j]->0),
        decreases lines.len() - i,
    {
        let found = if i < decoded.len() {
            match &decoded[i] {
                Some(item) => Some(item.clone()),
                None => None,
            }
        } else {
            None
        };
        match found {
            Some(item) => {
                let ghost before = items.deep_view();
                let ghost added = item@;
                items.push(item);
                assert(items.deep_view() =~= before.push(added));
                assert(items.deep_view() =~= Seq::new(
                    (i + 1) as nat,
                    |j: int| decoded.deep_view()[j]->0,
                ));
            },
            None => {
                proof {
                    lemma_first_gap(decoded.deep_view(), lines.len() as int, i as int);
                }
                return Err(malformed_item_line(lines[i].number));
            },
        }
        i += 1;
    }
    proof {
        lemma_first_gap(decoded.deep_view(), lines.len() as int, lines.len() as int);
    }
    Ok(items)
}

/// The entries are there exactly if every line gave one. Then there are as
/// many as lines, each the entry of its line, in the order of the lines.
/// Otherwise the failure names the first line that gave none, by its
/// number in the engine's output.
pub proof fn lemma_collected(
    lines: Seq<OutputLineView>,
    decoded: Seq<Option<BorgItemView>>,
    k: int,
)
    requires
        decoded.len() == lines.len(),
    ensures
        collected(lines, decoded) is Ok <==> (forall|i: int|
            0 <= i < decoded.len() ==> decoded[i] is Some),
        collected(lines, decoded) is Ok ==> collected(lines, decoded)->Ok_0.len() == lines.len()
            && (forall|i: int|
            0 <= i < lines.len() ==> #[trigger] collected(lines, decoded)->Ok_0[i]
                == decoded[i]->0),
        0 <= k < decoded.len() && decoded[k] is None && (forall|j: int|
            0 <= j < k ==> decoded[j] is Some) ==> collected(lines, decoded) == Err::<
            Seq<BorgItemView>,
            ToolErrorView,
        >(malformed_line(lines[k].number)),
{
    let n = lines.len() as int;
    if forall|i: int| 0 <= i < decoded.len() ==> decoded[i] is Some {
        lemma_first_gap(decoded, n, n);
    } else {
        let bad = choose|i: int| 0 <= i < decoded.len() && decoded[i] is None;
        lemma_gap_within(decoded, n, bad);
    }
    if 0 <= k < decoded.len() && decoded[k] is None && (forall|j: int|
        0 <= j < k ==> decoded[j] is Some) {
        lemma_first_gap(decoded, n, k);
    }
}

proof fn lemma_gap_within(decoded: Seq<Option<BorgItemView>>, n: int, bad: int)
    requires
        0 <= bad < n,
        undecoded(decoded, bad),
    ensures
        0 <= first_gap(decoded, n) <= bad,
        undecoded(decoded, first_gap(decoded, n)),
    decreases n,
{
    if bad < n - 1 {
        lemma_gap_within(decoded, n - 1, bad);
    } else {
        lemma_gap_bounds(decoded, n - 1);
    }
}

proof fn lemma_gap_bounds(decoded: Seq<Option<BorgItemView>>, n: int)
    requires
        0 <= n,
    ensures
        0 <= first_gap(decoded, n) <= n,
        first_gap(decoded, n) < n ==> undecoded(decoded, first_gap(decoded, n)),
    decreases n,
{
    if n > 0 {
        lemma_gap_bounds(decoded, n - 1);
    }
}

/// The archives of a repository, going by what was decoded from the
/// engine's answer: the archives it lists, in its order, if the answer
/// could be decoded, and else the failure to read it.
pub fn collect_archives(decoded: Option<BorgListResponse>) -> (r: Result<
    Vec<BorgArchive>,
    ToolError,
>)
    ensures
        match r {
            Ok(archives) => decoded is Some && archives.deep_view()
                == decoded->0.archives.deep_view(),
            Err(e) => decoded is None && e@ == malformed_list(),
        },
{
    match decoded {
        Some(response) => Ok(response.archives),
        None => Err(malformed_archive_list()),
    }
}

/// How many leading components the engine strips from the paths it
/// extracts, so that only the chosen entry is written: all but the last.
pub open spec fn stripped(path: Seq<char>) -> nat {
    if component_count(path) > 0 {
        (component_count(path) - 1) as nat
    } else {
        0
    }
}

/// The arguments of the call that extracts one entry.
pub open spec fn extract_args(repo: Seq<char>, archive: Seq<char>, path: Seq<char>) -> Seq<
    Seq<char>,
> {
    seq!["extract"@] + (if stripped(path) > 0 {
        seq!["--strip-components"@, decimal(stripped(path))]
    } else {
        Seq::empty()
    }) + seq![archive_locator(repo, archive), path]
}

/// The call that extracts one entry of an archive into a directory.
pub open spec fn extract_call(
    ctx: RepoCtxView,
    archive: Seq<char>,
    path: Seq<char>,
    dest: Seq<char>,
    passphrase: Option<Seq<char>>,
) -> EngineCallView {
    EngineCallView {
        caption: "Extracting '"@ + path + "' from "@ + archive,
        program: ctx.borg_bin,
        args: extract_args(ctx.repo, archive, path),
        passphrase,
        working_dir: Some(dest),
    }
}

/// The call that extracts the entry `path_in_archive` of an archive into
/// `dest_dir`. The engine runs in that directory, which has to exist by
/// then.
pub fn extract_file(
    ctx: &RepoCtx,
    archive: &str,
    path_in_archive: &str,
    dest_dir: &str,
    passphrase: Option<&str>,
) -> (c: EngineCall)
    ensures
        c@ == extract_call(ctx@, archive@, path_in_archive@, dest_dir@, passphrase.deep_view()),
{
    let mut args = no_texts();
    push_text(&mut args, "extract");
    let components = count_components(path_in_archive);
    if components > 1 {
        push_text(&mut args, "--strip-components");
        push_text(&mut args, decimal_string(components - 1).as_str());
    }
    push_text(&mut args, locator(ctx.repo.as_str(), archive).as_str());
    push_text(&mut args, path_in_archive);
    assert(args.deep_view() =~= extract_args(ctx.repo@, archive@, path_in_archive@));
    EngineCall {
        caption: text4("Extracting '", path_in_archive, "' from ", archive),
        program: ctx.borg_bin.clone(),
        args,
        passphrase: owned(passphrase),
        working_dir: Some(dest_dir.to_owned()),
    }
}

/// The call that initialises a repository.
pub open spec fn init_call(
    ctx: RepoCtxView,
    encryption: Seq<char>,
    passphrase: Option<Seq<char>>,
) -> EngineCallView {
    engine_call(
        ctx,
        "Initializing repository"@,
        seq!["init"@, "--encryption"@, encryption, ctx.repo],
        passphrase,
    )
}

/// The call that initialises the repository of `ctx` with the given mode
/// of encryption.
pub fn init_repo(ctx: &RepoCtx, encryption: &str, passphrase: Option<&str>) -> (c: EngineCall)
    ensures
        c@ == init_call(ctx@, encryption@, passphrase.deep_view()),
{
    let mut args = no_texts();
    push_text(&mut args, "init");
    push_text(&mut args, "--encryption");
    push_text(&mut args, encryption);
    push_text(&mut args, ctx.repo.as_str());
    assert(args.deep_view() =~= seq!["init"@, "--encryption"@, encryption@, ctx.repo@]);
    call(ctx, "Initializing repository".to_owned(), args, passphrase)
}

/// The passphrase goes where it was given and nowhere else: each call
/// carries it as its passphrase, and has the same arguments whatever the
/// passphrase is.
pub proof fn lemma_passphrase_stays_out_of_arguments(
    ctx: RepoCtxView,
    archive: Seq<char>,
    path: Seq<char>,
    place: Seq<char>,
    encryption: Seq<char>,
    p: Option<Seq<char>>,
    q: Option<Seq<char>>,
)
    ensures
        list_archives_call(ctx, p).passphrase == p,
        list_archives_call(ctx, p).args == list_archives_call(ctx, q).args,
        list_items_call(ctx, archive, p).passphrase == p,
        list_items_call(ctx, archive, p).args == list_items_call(ctx, archive, q).args,
        extract_call(ctx, archive, path, place, p).passphrase == p,
        extract_call(ctx, archive, path, place, p).args == extract_call(
            ctx,
            archive,
            path,
            place,
            q,
        ).args,
        init_call(ctx, encryption, p).passphrase == p,
        init_call(ctx, encryption, p).args == init_call(ctx, encryption, q).args,
{
}

/// The names of archives.
pub open spec fn archive_names(archives: Seq<BorgArchiveView>) -> Seq<Seq<char>> {
    Seq::new(archives.len(), |i: int| archives[i].name)
}

/// What is said where no archive goes by the name.
pub open spec fn no_archive(name: Seq<char>) -> ToolErrorView {
    ToolErrorView {
        kind: ErrorKind::Configuration,
        message: "Archive '"@ + name + "' not found"@,
    }
}

/// The first archive called `name`.
pub fn find_archive(archives: &Vec<BorgArchive>, name: &str) -> (r: Result<BorgArchive, ToolError>)
    ensures
        match r {
            Ok(a) => {
                let i = name_pos(archive_names(archives.deep_view()), name@);
                i < archives.len() && a@ == archives.deep_view()[i]
            },
            Err(e) => !archive_names(archives.deep_view()).contains(name@) && e@ == no_archive(
                name@,
            ),
        },
{
    let mut names: Vec<String> = Vec::new();
    let mut i: usize = 0;
    while i < archives.len()
        invariant
            i <= archives.len(),
            names.deep_view() == archive_names(archives.deep_view()).take(i as int),
        decreases archives.len() - i,
    {
        let name = archives[i].name.clone();
        let ghost before = names.deep_view();
        let ghost added = name@;
        names.push(name);
        assert(names.deep_view() =~= before.push(added));
        i += 1;
    }
    assert(archive_names(archives.deep_view()).take(archives.len() as int) =~= archive_names(
        archives.deep_view(),
    ));
    let at = find_name(&names, name);
    if at < archives.len() {
        Ok(archives[at].clone())
    } else {
        Err(ToolError::new(ErrorKind::Configuration, text3("Archive '", name, "' not found")))
    }
}

} // verus!
