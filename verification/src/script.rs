//! Setup scripts and the machine that runs them.
//!
//! A setup is a list of [`Op`]s, decided in advance from what is known when it
//! starts. A [`Runner`] goes through the list: at each step it is told what
//! came of the last thing it asked for (an [`Event`]) and answers with the
//! next thing to do (an [`Action`]): print a line, run a command, look at a
//! file, and finally finish with the result of the whole setup. All the
//! decisions (what to run, what an outcome means, the error texts) are made
//! here; the caller only performs the actions.
use vstd::prelude::*;
use crate::app_core::command_manager::{
    fill_placeholder_spec, install_invocation, list_invocation_spec, CommandManager,
};
use crate::app_core::package_manager::{
    listed_in, vendor_command, vendor_command_spec, CommandKind, PackageManager,
};
use crate::process::{copy_all, invocation, owned, texts, Invocation, InvocationView};
use crate::services::dnsmasq::{stub_listener_update_spec, DnsMasq};
use crate::services::nginx::{
    backup_path_spec, nginx_config_path, nginx_unit_path, pid_directive_spec,
    render_config_spec, Nginx,
};
use crate::setup::dns::{systemd_version_spec, Dns};
use crate::text::decimal;
use crate::util::{
    mkdir_failure, mkdir_failure_message, mkdir_invocation, mkdir_invocation_spec,
    mkdir_spawn_error, mkdir_spawn_message, tee_failure, tee_failure_message, tee_invocation,
    tee_invocation_spec, tee_spawn_error, tee_spawn_message, tee_stdin_error,
    tee_stdin_message, tee_wait_error, tee_wait_message, tee_write_error, tee_write_message,
};

verus! {

// ---------------------------------------------------------------------------
// Operations
// ---------------------------------------------------------------------------

/// How an error starting a command reads.
pub enum SpawnFailure {
    /// The operating system's error text as it is.
    Passthrough,
    /// Only this text.
    Context(String),
    /// This text, `": "` and the operating system's error text.
    Describe(String),
}

/// What to do when a path does not exist.
pub enum Missing {
    /// Skip the next so many operations.
    Skip(usize),
    /// End the setup with this error.
    Fail(String),
    /// Abort the program with this message.
    Panic(String),
}

/// One operation of a setup script.
pub enum Op {
    /// Print a line.
    Say(String),
    /// Print text without a line break.
    Print(String),
    /// Print a line on standard error.
    Warn(String),
    /// End the setup with this error.
    Fail(String),
    /// Abort the program with this message.
    Abort(String),
    /// `sudo mkdir -p <dir>`, with the error texts of [`crate::util`].
    RootDir(String),
    /// `sudo tee <path>` fed `content`, with the error texts of [`crate::util`].
    RootWrite(String, String),
    /// Write `content` to `path` with the program's own rights.
    WriteFile(String, String),
    /// Run a command; an error starting it reads as the [`SpawnFailure`] says;
    /// an unsuccessful exit is an error with the given text, or is ignored.
    Exec(Invocation, SpawnFailure, Option<String>),
    /// Run a command fed `input`; a command without a standard input is
    /// handled as the [`Missing`] says; with an error text for an
    /// unsuccessful exit the command is waited for, without one it is left
    /// running.
    Pipe(Invocation, String, SpawnFailure, Missing, Option<String>),
    /// Run a command, capturing its output when the last flag is set (its
    /// output goes to the terminal otherwise); when its success equals the
    /// first flag, skip the next so many operations.
    Probe(Invocation, bool, usize, bool),
    /// Install a package with the package manager (its exit status is not
    /// looked at).
    Install(String),
    /// Install a package unless the package manager lists it, announcing the
    /// install with the optional text; when not strict, a listing that cannot
    /// be run counts as installed.
    EnsurePackage(String, Option<String>, bool),
    /// Look whether a path exists and act on its absence.
    IfMissing(String, Missing),
    /// Read the systemd version; below 258, warn and skip the next `n`
    /// operations; stop the setup when the version cannot be read.
    VersionGate(usize),
    /// Copy a file, as root, to a backup named after the current time.
    Backup(String),
    /// Write the nginx configuration from a template and the application
    /// directory.
    NginxConfig(String, String),
    /// Make sure a resolved configuration file turns the stub listener off.
    StubListener(String),
}

/// The content of a [`SpawnFailure`].
pub enum SpawnFailureView {
    Passthrough,
    Context(Seq<char>),
    Describe(Seq<char>),
}

/// The content of a [`Missing`].
pub enum MissingView {
    Skip(nat),
    Fail(Seq<char>),
    Panic(Seq<char>),
}

/// The content of an [`Op`].
pub enum OpView {
    Say(Seq<char>),
    Print(Seq<char>),
    Warn(Seq<char>),
    Fail(Seq<char>),
    Abort(Seq<char>),
    RootDir(Seq<char>),
    RootWrite(Seq<char>, Seq<char>),
    WriteFile(Seq<char>, Seq<char>),
    Exec(InvocationView, SpawnFailureView, Option<Seq<char>>),
    Pipe(InvocationView, Seq<char>, SpawnFailureView, MissingView, Option<Seq<char>>),
    Probe(InvocationView, bool, nat, bool),
    Install(Seq<char>),
    EnsurePackage(Seq<char>, Option<Seq<char>>, bool),
    IfMissing(Seq<char>, MissingView),
    VersionGate(nat),
    Backup(Seq<char>),
    NginxConfig(Seq<char>, Seq<char>),
    StubListener(Seq<char>),
}

/// The view of an optional string.
pub open spec fn opt_view(o: Option<String>) -> Option<Seq<char>> {
    match o {
        Some(s) => Some(s@),
        None => None,
    }
}

impl View for SpawnFailure {
    type V = SpawnFailureView;

    open spec fn view(&self) -> SpawnFailureView {
        match self {
            SpawnFailure::Passthrough => SpawnFailureView::Passthrough,
            SpawnFailure::Context(c) => SpawnFailureView::Context(c@),
            SpawnFailure::Describe(d) => SpawnFailureView::Describe(d@),
        }
    }
}

impl View for Missing {
    type V = MissingView;

    open spec fn view(&self) -> MissingView {
        match self {
            Missing::Skip(n) => MissingView::Skip(*n as nat),
            Missing::Fail(m) => MissingView::Fail(m@),
            Missing::Panic(m) => MissingView::Panic(m@),
        }
    }
}

impl View for Op {
    type V = OpView;

    open spec fn view(&self) -> OpView {
        match self {
            Op::Say(s) => OpView::Say(s@),
            Op::Print(s) => OpView::Print(s@),
            Op::Warn(s) => OpView::Warn(s@),
            Op::Fail(s) => OpView::Fail(s@),
            Op::Abort(s) => OpView::Abort(s@),
            Op::RootDir(d) => OpView::RootDir(d@),
            Op::RootWrite(p, c) => OpView::RootWrite(p@, c@),
            Op::WriteFile(p, c) => OpView::WriteFile(p@, c@),
            Op::Exec(i, s, f) => OpView::Exec(i@, s@, opt_view(*f)),
            Op::Pipe(i, c, s, m, f) => OpView::Pipe(i@, c@, s@, m@, opt_view(*f)),
            Op::Probe(i, b, n, c) => OpView::Probe(i@, *b, *n as nat, *c),
            Op::Install(p) => OpView::Install(p@),
            Op::EnsurePackage(p, n, s) => OpView::EnsurePackage(p@, opt_view(*n), *s),
            Op::IfMissing(p, m) => OpView::IfMissing(p@, m@),
            Op::VersionGate(n) => OpView::VersionGate(*n as nat),
            Op::Backup(p) => OpView::Backup(p@),
            Op::NginxConfig(t, d) => OpView::NginxConfig(t@, d@),
            Op::StubListener(p) => OpView::StubListener(p@),
        }
    }
}

/// The contents of a list of operations.
pub open spec fn ops_view(ops: Seq<Op>) -> Seq<OpView> {
    ops.map_values(|o: Op| o@)
}

// ---------------------------------------------------------------------------
// Building scripts
// ---------------------------------------------------------------------------

/// Appends an operation to a script.
pub fn push_op(ops: &mut Vec<Op>, op: Op)
    ensures
        ops_view(final(ops)@) == ops_view(old(ops)@).push(op@),
{
    let ghost before = ops@;
    ops.push(op);
    assert(ops_view(ops@) =~= ops_view(before).push(op@));
}

/// Appends a script to a script.
pub fn append_ops(ops: &mut Vec<Op>, more: Vec<Op>)
    ensures
        ops_view(final(ops)@) == ops_view(old(ops)@) + ops_view(more@),
{
    let ghost before = ops@;
    let ghost tail = more@;
    let mut more = more;
    ops.append(&mut more);
    assert(ops_view(ops@) =~= ops_view(before) + ops_view(tail));
}

/// A script of one operation.
pub fn single(op: Op) -> (ops: Vec<Op>)
    ensures
        ops_view(ops@) == seq![op@],
{
    let mut ops: Vec<Op> = Vec::new();
    push_op(&mut ops, op);
    assert(ops_view(ops@) =~= seq![op@]);
    ops
}

/// Prints `text` as a line.
pub fn say(text: &str) -> (op: Op)
    ensures
        op@ == OpView::Say(text@),
{
    Op::Say(owned(text))
}

/// `sudo systemctl <args>`, an error `failure` when it exits unsuccessfully.
pub open spec fn systemctl_op(args: Seq<Seq<char>>, failure: Seq<char>) -> OpView {
    OpView::Exec(
        InvocationView { program: "sudo"@, args: seq!["systemctl"@] + args },
        SpawnFailureView::Passthrough,
        Some(failure),
    )
}

/// Builds [`systemctl_op`].
pub fn systemctl(args: &[&str], failure: &str) -> (op: Op)
    ensures
        op@ == systemctl_op(crate::process::str_texts(args@), failure@),
{
    let mut all: Vec<&str> = Vec::new();
    all.push("systemctl");
    let mut i: usize = 0;
    while i < args.len()
        invariant
            i <= args.len(),
            all@ == seq!["systemctl"].add(args@.take(i as int)),
        decreases args.len() - i,
    {
        all.push(args[i]);
        i = i + 1;
        assert(all@ =~= seq!["systemctl"].add(args@.take(i as int)));
    }
    assert(args@.take(args.len() as int) =~= args@);
    let inv = invocation("sudo", all.as_slice());
    assert(inv@.args =~= seq!["systemctl"@] + crate::process::str_texts(args@));
    Op::Exec(inv, SpawnFailure::Passthrough, Some(owned(failure)))
}

// ---------------------------------------------------------------------------
// Actions and events
// ---------------------------------------------------------------------------

/// A question about the running system.
pub enum Query {
    /// The program that gives elevated rights (`doas` or `sudo`), if any.
    Elevated,
    /// The current user's name.
    User,
    /// The current user's group name.
    Group,
    /// The canonical form of a path.
    Canonical(String),
}

/// What the runner asks its caller to do next.
pub enum Action {
    /// Print a line; answer with [`Event::Done`].
    Say(String),
    /// Print without a line break; answer with [`Event::Done`].
    Print(String),
    /// Print a line on standard error; answer with [`Event::Done`].
    Warn(String),
    /// Run a command, its output going to the terminal; answer with
    /// [`Event::Exited`] or [`Event::Failed`].
    Run(Invocation),
    /// Run a command and capture its output; answer as for `Run`.
    Capture(Invocation),
    /// Start a command, write the text to its standard input, and, when the
    /// first flag is set, wait for it; answer with [`Event::Exited`] (or
    /// [`Event::Done`] when not waiting), [`Event::Failed`] (start),
    /// [`Event::NoStdin`], [`Event::WriteFailed`] or [`Event::WaitFailed`].
    /// When the command has no standard input and the second flag is set,
    /// nothing is written and the command is handled as if it had been;
    /// without the second flag the answer is then [`Event::NoStdin`].
    Feed(Invocation, String, bool, bool),
    /// Whether a path exists; answer with [`Event::Exists`].
    Exists(String),
    /// Read a file; answer with [`Event::Text`] or [`Event::Failed`].
    Read(String),
    /// Write a file; answer with [`Event::Done`] or [`Event::Failed`].
    Write(String, String),
    /// The current Unix time; answer with [`Event::Clock`] or [`Event::Failed`].
    Clock,
    /// Answer a question with [`Event::Answer`] (or [`Event::Failed`]).
    Ask(Query),
    /// Abort the program with this message.
    Panic(String),
    /// The setup is over, with this result.
    Finish(Result<(), String>),
}

/// What came of the last action.
pub enum Event {
    /// Nothing to report (also the first event).
    Done,
    /// A command ran to its end; `stdout_utf8` tells whether its captured
    /// output was valid UTF-8 (`stdout` is then exact, otherwise lossy).
    Exited { success: bool, stdout: String, stdout_utf8: bool, stderr: String },
    /// The action failed with this error text.
    Failed(String),
    /// The started command had no standard input.
    NoStdin,
    /// Writing to the command's standard input failed.
    WriteFailed(String),
    /// Waiting for the command failed.
    WaitFailed(String),
    /// Whether the path exists.
    Exists(bool),
    /// The text of a file.
    Text(String),
    /// The current Unix time in seconds.
    Clock(u64),
    /// The answer to a question.
    Answer(Option<String>),
}

/// The content of a [`Query`].
pub enum QueryView {
    Elevated,
    User,
    Group,
    Canonical(Seq<char>),
}

/// The content of an [`Action`].
pub enum ActionView {
    Say(Seq<char>),
    Print(Seq<char>),
    Warn(Seq<char>),
    Run(InvocationView),
    Capture(InvocationView),
    Feed(InvocationView, Seq<char>, bool, bool),
    Exists(Seq<char>),
    Read(Seq<char>),
    Write(Seq<char>, Seq<char>),
    Clock,
    Ask(QueryView),
    Panic(Seq<char>),
    Finish(Result<(), Seq<char>>),
}

/// The content of an [`Event`].
pub enum EventView {
    Done,
    Exited { success: bool, stdout: Seq<char>, stdout_utf8: bool, stderr: Seq<char> },
    Failed(Seq<char>),
    NoStdin,
    WriteFailed(Seq<char>),
    WaitFailed(Seq<char>),
    Exists(bool),
    Text(Seq<char>),
    Clock(u64),
    Answer(Option<Seq<char>>),
}

impl View for Query {
    type V = QueryView;

    open spec fn view(&self) -> QueryView {
        match self {
            Query::Elevated => QueryView::Elevated,
            Query::User => QueryView::User,
            Query::Group => QueryView::Group,
            Query::Canonical(p) => QueryView::Canonical(p@),
        }
    }
}

/// The view of a setup result.
pub open spec fn result_view(r: Result<(), String>) -> Result<(), Seq<char>> {
    match r {
        Ok(()) => Ok(()),
        Err(e) => Err(e@),
    }
}

impl View for Action {
    type V = ActionView;

    open spec fn view(&self) -> ActionView {
        match self {
            Action::Say(s) => ActionView::Say(s@),
            Action::Print(s) => ActionView::Print(s@),
            Action::Warn(s) => ActionView::Warn(s@),
            Action::Run(i) => ActionView::Run(i@),
            Action::Capture(i) => ActionView::Capture(i@),
            Action::Feed(i, c, w, o) => ActionView::Feed(i@, c@, *w, *o),
            Action::Exists(p) => ActionView::Exists(p@),
            Action::Read(p) => ActionView::Read(p@),
            Action::Write(p, c) => ActionView::Write(p@, c@),
            Action::Clock => ActionView::Clock,
            Action::Ask(q) => ActionView::Ask(q@),
            Action::Panic(m) => ActionView::Panic(m@),
            Action::Finish(r) => ActionView::Finish(result_view(*r)),
        }
    }
}

impl View for Event {
    type V = EventView;

    open spec fn view(&self) -> EventView {
        match self {
            Event::Done => EventView::Done,
            Event::Exited { success, stdout, stdout_utf8, stderr } => EventView::Exited {
                success: *success,
                stdout: stdout@,
                stdout_utf8: *stdout_utf8,
                stderr: stderr@,
            },
            Event::Failed(e) => EventView::Failed(e@),
            Event::NoStdin => EventView::NoStdin,
            Event::WriteFailed(e) => EventView::WriteFailed(e@),
            Event::WaitFailed(e) => EventView::WaitFailed(e@),
            Event::Exists(b) => EventView::Exists(*b),
            Event::Text(t) => EventView::Text(t@),
            Event::Clock(t) => EventView::Clock(*t),
            Event::Answer(a) => EventView::Answer(opt_view(*a)),
        }
    }
}


// ---------------------------------------------------------------------------
// The runner
// ---------------------------------------------------------------------------

/// Where the runner is within the operation at hand.
pub enum Stage {
    /// About to start the operation.
    Ready,
    /// Waiting for the outcome of the operation's (last) action.
    Await,
    /// Waiting for the package listing.
    Listing,
    /// The install notice was printed.
    Noticed,
    /// Waiting for the elevated program, to install.
    Elevating,
    /// Waiting for the install command.
    Installing,
    /// Waiting for `systemctl --version`.
    Versioned,
    /// The systemd version was announced.
    Announced(u32),
    /// The unsupported version was reported.
    Warned,
    /// Waiting for the time, to name a backup.
    Timing,
    /// Waiting for the elevated program, to copy to this backup.
    BackupElevating(String),
    /// Waiting for the copy to this backup.
    Copying(String),
    /// Waiting for the nginx unit file.
    Unit,
    /// Waiting for the user name; the pid line is known.
    AskUser(String),
    /// Waiting for the group name; the pid line and user are known.
    AskGroup(String, String),
    /// Waiting for the canonical home; pid line, user and group are known.
    AskHome(String, String, String),
    /// Waiting for the elevated program, to write this configuration.
    TeeElevating(String),
    /// Waiting for the elevated `tee`.
    Teeing,
    /// Waiting to learn whether the resolved configuration exists.
    Probing,
    /// Waiting for its text.
    Reading,
    /// Waiting for its new text to be written.
    Storing,
}

/// The content of a [`Stage`].
pub enum StageView {
    Ready,
    Await,
    Listing,
    Noticed,
    Elevating,
    Installing,
    Versioned,
    Announced(u32),
    Warned,
    Timing,
    BackupElevating(Seq<char>),
    Copying(Seq<char>),
    Unit,
    AskUser(Seq<char>),
    AskGroup(Seq<char>, Seq<char>),
    AskHome(Seq<char>, Seq<char>, Seq<char>),
    TeeElevating(Seq<char>),
    Teeing,
    Probing,
    Reading,
    Storing,
}

impl View for Stage {
    type V = StageView;

    open spec fn view(&self) -> StageView {
        match self {
            Stage::Ready => StageView::Ready,
            Stage::Await => StageView::Await,
            Stage::Listing => StageView::Listing,
            Stage::Noticed => StageView::Noticed,
            Stage::Elevating => StageView::Elevating,
            Stage::Installing => StageView::Installing,
            Stage::Versioned => StageView::Versioned,
            Stage::Announced(v) => StageView::Announced(*v),
            Stage::Warned => StageView::Warned,
            Stage::Timing => StageView::Timing,
            Stage::BackupElevating(b) => StageView::BackupElevating(b@),
            Stage::Copying(b) => StageView::Copying(b@),
            Stage::Unit => StageView::Unit,
            Stage::AskUser(p) => StageView::AskUser(p@),
            Stage::AskGroup(p, u) => StageView::AskGroup(p@, u@),
            Stage::AskHome(p, u, g) => StageView::AskHome(p@, u@, g@),
            Stage::TeeElevating(c) => StageView::TeeElevating(c@),
            Stage::Teeing => StageView::Teeing,
            Stage::Probing => StageView::Probing,
            Stage::Reading => StageView::Reading,
            Stage::Storing => StageView::Storing,
        }
    }
}

/// How a run ended.
pub enum End {
    Finished(Result<(), String>),
    Panicked(String),
}

/// The content of an [`End`].
pub enum EndView {
    Finished(Result<(), Seq<char>>),
    Panicked(Seq<char>),
}

impl View for End {
    type V = EndView;

    open spec fn view(&self) -> EndView {
        match self {
            End::Finished(r) => EndView::Finished(result_view(*r)),
            End::Panicked(m) => EndView::Panicked(m@),
        }
    }
}

/// Runs a setup script one action at a time.
pub struct Runner {
    ops: Vec<Op>,
    pos: usize,
    stage: Stage,
    package_manager: PackageManager,
    end: Option<End>,
}

/// The content of a [`Runner`].
pub struct RunnerView {
    pub ops: Seq<OpView>,
    pub pos: int,
    pub stage: StageView,
    pub pm: PackageManager,
    pub end: Option<EndView>,
}

/// The view of an optional end.
pub open spec fn end_view(e: Option<End>) -> Option<EndView> {
    match e {
        Some(x) => Some(x@),
        None => None,
    }
}

impl View for Runner {
    type V = RunnerView;

    closed spec fn view(&self) -> RunnerView {
        RunnerView {
            ops: ops_view(self.ops@),
            pos: self.pos as int,
            stage: self.stage@,
            pm: self.package_manager,
            end: end_view(self.end),
        }
    }
}

/// The error text of a command that could not be started.
pub open spec fn spawn_message(f: SpawnFailureView, e: Seq<char>) -> Seq<char> {
    match f {
        SpawnFailureView::Passthrough => e,
        SpawnFailureView::Context(c) => c,
        SpawnFailureView::Describe(d) => d + ": "@ + e,
    }
}

/// `systemctl --version`.
pub open spec fn systemctl_version_spec() -> InvocationView {
    InvocationView { program: "systemctl"@, args: seq!["--version"@] }
}

/// `cat` of the nginx unit file.
pub open spec fn cat_unit_spec() -> InvocationView {
    InvocationView { program: "cat"@, args: seq![nginx_unit_path()] }
}

/// The oldest systemd release that supports DNS delegation.
pub open spec fn min_systemd() -> u32 {
    258
}

/// The action that ends a finished run again.
pub open spec fn end_action(e: EndView) -> ActionView {
    match e {
        EndView::Finished(r) => ActionView::Finish(r),
        EndView::Panicked(m) => ActionView::Panic(m),
    }
}

/// Moves to `stage` and asks for `action`.
pub open spec fn goto(r: RunnerView, stage: StageView, action: ActionView) -> (RunnerView, ActionView) {
    (RunnerView { stage, ..r }, action)
}

/// Ends the run with `res`.
pub open spec fn finish(r: RunnerView, res: Result<(), Seq<char>>) -> (RunnerView, ActionView) {
    (RunnerView { end: Some(EndView::Finished(res)), ..r }, ActionView::Finish(res))
}

/// Aborts the run with `msg`.
pub open spec fn abort(r: RunnerView, msg: Seq<char>) -> (RunnerView, ActionView) {
    (RunnerView { end: Some(EndView::Panicked(msg)), ..r }, ActionView::Panic(msg))
}

/// Starts operation `i`, or finishes successfully past the last one.
pub open spec fn start(r: RunnerView, i: int) -> (RunnerView, ActionView) {
    if i >= r.ops.len() {
        finish(RunnerView { pos: r.ops.len() as int, stage: StageView::Ready, ..r }, Ok(()))
    } else {
        let r = RunnerView { pos: i, ..r };
        match r.ops[i] {
            OpView::Say(s) => goto(r, StageView::Await, ActionView::Say(s)),
            OpView::Print(s) => goto(r, StageView::Await, ActionView::Print(s)),
            OpView::Warn(s) => goto(r, StageView::Await, ActionView::Warn(s)),
            OpView::Fail(m) => finish(RunnerView { stage: StageView::Ready, ..r }, Err(m)),
            OpView::Abort(m) => abort(RunnerView { stage: StageView::Ready, ..r }, m),
            OpView::RootDir(d) => goto(r, StageView::Await, ActionView::Run(mkdir_invocation_spec(d))),
            OpView::RootWrite(p, c) => goto(
                r,
                StageView::Await,
                ActionView::Feed(tee_invocation_spec(p), c, true, false),
            ),
            OpView::WriteFile(p, c) => goto(r, StageView::Await, ActionView::Write(p, c)),
            OpView::Exec(inv, _, _) => goto(r, StageView::Await, ActionView::Run(inv)),
            OpView::Pipe(inv, input, _, _, f) => goto(
                r,
                StageView::Await,
                ActionView::Feed(inv, input, f is Some, false),
            ),
            OpView::Probe(inv, _, _, captured) => goto(
                r,
                StageView::Await,
                if captured {
                    ActionView::Capture(inv)
                } else {
                    ActionView::Run(inv)
                },
            ),
            OpView::Install(_) => goto(r, StageView::Elevating, ActionView::Ask(QueryView::Elevated)),
            OpView::EnsurePackage(p, _, _) => {
                let (prog, args) = list_invocation_spec(r.pm, p);
                goto(
                    r,
                    StageView::Listing,
                    ActionView::Capture(InvocationView { program: prog, args }),
                )
            },
            OpView::IfMissing(p, _) => goto(r, StageView::Await, ActionView::Exists(p)),
            OpView::VersionGate(_) => goto(
                r,
                StageView::Versioned,
                ActionView::Capture(systemctl_version_spec()),
            ),
            OpView::Backup(_) => goto(r, StageView::Timing, ActionView::Clock),
            OpView::NginxConfig(_, _) => goto(r, StageView::Unit, ActionView::Capture(cat_unit_spec())),
            OpView::StubListener(p) => goto(r, StageView::Probing, ActionView::Exists(p)),
        }
    }
}

/// Moves on to the next operation.
pub open spec fn advance(r: RunnerView) -> (RunnerView, ActionView) {
    start(r, r.pos + 1)
}

/// Moves on past the next `n` operations.
pub open spec fn skip(r: RunnerView, n: nat) -> (RunnerView, ActionView) {
    start(r, r.pos + 1 + n)
}

/// What is done when something is missing.
pub open spec fn on_missing(r: RunnerView, m: MissingView) -> (RunnerView, ActionView) {
    match m {
        MissingView::Skip(n) => skip(r, n),
        MissingView::Fail(t) => finish(r, Err(t)),
        MissingView::Panic(t) => abort(r, t),
    }
}

/// The outcome of the single action of the operation at hand.
pub open spec fn await_outcome(r: RunnerView, e: EventView) -> (RunnerView, ActionView) {
    match r.ops[r.pos] {
        OpView::RootDir(d) => match e {
            EventView::Failed(m) => finish(r, Err(mkdir_spawn_message(d, m))),
            EventView::Exited { success: false, .. } => finish(r, Err(mkdir_failure_message(d))),
            _ => advance(r),
        },
        OpView::RootWrite(p, _) => match e {
            EventView::Failed(m) => finish(r, Err(tee_spawn_message(p, m))),
            EventView::NoStdin => finish(r, Err(tee_stdin_message(p))),
            EventView::WriteFailed(m) => finish(r, Err(tee_write_message(p, m))),
            EventView::WaitFailed(m) => finish(r, Err(tee_wait_message(p, m))),
            EventView::Exited { success: false, stderr, .. } => finish(
                r,
                Err(tee_failure_message(p, stderr)),
            ),
            _ => advance(r),
        },
        OpView::WriteFile(_, _) => match e {
            EventView::Failed(m) => finish(r, Err(m)),
            _ => advance(r),
        },
        OpView::Exec(_, sf, f) => match e {
            EventView::Failed(m) => finish(r, Err(spawn_message(sf, m))),
            EventView::Exited { success: false, .. } => match f {
                Some(t) => finish(r, Err(t)),
                None => advance(r),
            },
            _ => advance(r),
        },
        OpView::Pipe(_, _, sf, ns, f) => match e {
            EventView::Failed(m) => finish(r, Err(spawn_message(sf, m))),
            EventView::NoStdin => on_missing(r, ns),
            EventView::WriteFailed(m) => finish(r, Err(m)),
            EventView::WaitFailed(m) => finish(r, Err(m)),
            EventView::Exited { success: false, .. } => match f {
                Some(t) => finish(r, Err(t)),
                None => advance(r),
            },
            _ => advance(r),
        },
        OpView::Probe(_, when, n, _) => match e {
            EventView::Failed(m) => finish(r, Err(m)),
            EventView::Exited { success, .. } => if success == when {
                skip(r, n)
            } else {
                advance(r)
            },
            _ => advance(r),
        },
        OpView::IfMissing(_, m) => match e {
            EventView::Exists(false) => on_missing(r, m),
            _ => advance(r),
        },
        _ => advance(r),
    }
}

/// The package of an install operation.
pub open spec fn op_package(op: OpView) -> Seq<char> {
    match op {
        OpView::Install(p) => p,
        OpView::EnsurePackage(p, _, _) => p,
        _ => Seq::empty(),
    }
}

/// The resolved configuration, once its text `c` is known.
pub open spec fn decide_stub(r: RunnerView, path: Seq<char>, c: Seq<char>) -> (RunnerView, ActionView) {
    match stub_listener_update_spec(c) {
        Some(n) => goto(r, StageView::Storing, ActionView::Write(path, n)),
        None => goto(
            r,
            StageView::Await,
            ActionView::Say("DNSStubListener=no already configured"@),
        ),
    }
}

/// One step of the runner: what the last event means, and the next action.
/// Events that do not answer the pending action count as success.
pub open spec fn step_spec(r: RunnerView, e: EventView) -> (RunnerView, ActionView) {
    match r.end {
        Some(end) => (r, end_action(end)),
        None => if r.pos < 0 || r.pos >= r.ops.len() {
            start(r, r.ops.len() as int)
        } else {
            let op = r.ops[r.pos];
            match r.stage {
                StageView::Ready => start(r, r.pos),
                StageView::Await => await_outcome(r, e),
                StageView::Listing => match op {
                    OpView::EnsurePackage(p, notice, strict) => match e {
                        EventView::Failed(m) => if strict {
                            finish(r, Err(m))
                        } else {
                            advance(r)
                        },
                        EventView::Exited { stdout, .. } => if listed_in(r.pm, stdout, p) {
                            advance(r)
                        } else {
                            match notice {
                                Some(n) => goto(r, StageView::Noticed, ActionView::Say(n)),
                                None => goto(
                                    r,
                                    StageView::Elevating,
                                    ActionView::Ask(QueryView::Elevated),
                                ),
                            }
                        },
                        _ => advance(r),
                    },
                    _ => advance(r),
                },
                StageView::Noticed => goto(r, StageView::Elevating, ActionView::Ask(QueryView::Elevated)),
                StageView::Elevating => match e {
                    EventView::Answer(Some(prog)) => goto(
                        r,
                        StageView::Installing,
                        ActionView::Run(
                            InvocationView {
                                program: prog,
                                args: fill_placeholder_spec(
                                    vendor_command_spec(r.pm, CommandKind::Install),
                                    op_package(op),
                                ).push("-y"@),
                            },
                        ),
                    ),
                    _ => abort(r, "Elevated command not available"@),
                },
                StageView::Installing => match e {
                    EventView::Failed(m) => finish(r, Err(m)),
                    _ => advance(r),
                },
                StageView::Versioned => {
                    let v = match e {
                        EventView::Exited { stdout, stdout_utf8: true, .. } => systemd_version_spec(stdout),
                        _ => None,
                    };
                    match v {
                        None => finish(r, Err("Systemd version can't be determined! Aborting!!"@)),
                        Some(v) => goto(
                            r,
                            StageView::Announced(v),
                            ActionView::Say("Systemd version detected : "@ + decimal(v as nat)),
                        ),
                    }
                },
                StageView::Announced(v) => if v < min_systemd() {
                    goto(
                        r,
                        StageView::Warned,
                        ActionView::Warn("Not supported systemd version less than 258."@),
                    )
                } else {
                    advance(r)
                },
                StageView::Warned => match op {
                    OpView::VersionGate(n) => skip(r, n),
                    _ => advance(r),
                },
                StageView::Timing => match op {
                    OpView::Backup(path) => match e {
                        EventView::Failed(m) => finish(r, Err(m)),
                        EventView::Clock(t) => goto(
                            r,
                            StageView::BackupElevating(backup_path_spec(path, t)),
                            ActionView::Ask(QueryView::Elevated),
                        ),
                        _ => advance(r),
                    },
                    _ => advance(r),
                },
                StageView::BackupElevating(b) => match op {
                    OpView::Backup(path) => match e {
                        EventView::Answer(Some(prog)) => goto(
                            r,
                            StageView::Copying(b),
                            ActionView::Run(
                                InvocationView { program: prog, args: seq!["cp"@, path, b] },
                            ),
                        ),
                        _ => finish(r, Err("Elevated command not available"@)),
                    },
                    _ => advance(r),
                },
                StageView::Copying(b) => match e {
                    EventView::Failed(m) => finish(r, Err(m)),
                    EventView::Exited { success: false, .. } => finish(
                        r,
                        Err("Failed to backup nginx config"@),
                    ),
                    _ => goto(
                        r,
                        StageView::Await,
                        ActionView::Say("Backed up nginx config to "@ + b),
                    ),
                },
                StageView::Unit => match e {
                    EventView::Failed(m) => finish(r, Err(m)),
                    EventView::Exited { stdout, .. } => goto(
                        r,
                        StageView::AskUser(pid_directive_spec(stdout)),
                        ActionView::Ask(QueryView::User),
                    ),
                    _ => advance(r),
                },
                StageView::AskUser(pid) => match e {
                    EventView::Answer(Some(u)) => goto(
                        r,
                        StageView::AskGroup(pid, u),
                        ActionView::Ask(QueryView::Group),
                    ),
                    _ => advance(r),
                },
                StageView::AskGroup(pid, u) => match op {
                    OpView::NginxConfig(_, dir) => match e {
                        EventView::Answer(Some(g)) => goto(
                            r,
                            StageView::AskHome(pid, u, g),
                            ActionView::Ask(QueryView::Canonical(dir)),
                        ),
                        _ => advance(r),
                    },
                    _ => advance(r),
                },
                StageView::AskHome(pid, u, g) => match op {
                    OpView::NginxConfig(template, _) => match e {
                        EventView::Failed(m) => finish(r, Err(m)),
                        EventView::Answer(Some(h)) => goto(
                            r,
                            StageView::TeeElevating(render_config_spec(template, u, g, pid, h)),
                            ActionView::Ask(QueryView::Elevated),
                        ),
                        _ => advance(r),
                    },
                    _ => advance(r),
                },
                StageView::TeeElevating(c) => match e {
                    EventView::Answer(Some(prog)) => goto(
                        r,
                        StageView::Teeing,
                        ActionView::Feed(
                            InvocationView { program: prog, args: seq!["tee"@, nginx_config_path()] },
                            c,
                            true,
                            true,
                        ),
                    ),
                    _ => finish(r, Err("Elevated command not available"@)),
                },
                StageView::Teeing => match e {
                    EventView::Failed(m) => finish(r, Err("Failed to spawn elevated tee: "@ + m)),
                    EventView::WriteFailed(m) => finish(r, Err(m)),
                    EventView::WaitFailed(m) => finish(r, Err(m)),
                    EventView::Exited { success: false, .. } => finish(
                        r,
                        Err("Failed to write config via sudo tee"@),
                    ),
                    EventView::NoStdin => finish(r, Err("Failed to write config via sudo tee"@)),
                    _ => goto(
                        r,
                        StageView::Await,
                        ActionView::Say("Nginx config updated sucessfully."@),
                    ),
                },
                StageView::Probing => match op {
                    OpView::StubListener(path) => match e {
                        EventView::Exists(true) => goto(r, StageView::Reading, ActionView::Read(path)),
                        EventView::Exists(false) => decide_stub(r, path, Seq::empty()),
                        _ => advance(r),
                    },
                    _ => advance(r),
                },
                StageView::Reading => match op {
                    OpView::StubListener(path) => match e {
                        EventView::Failed(m) => finish(r, Err(m)),
                        EventView::Text(c) => decide_stub(r, path, c),
                        _ => advance(r),
                    },
                    _ => advance(r),
                },
                StageView::Storing => match e {
                    EventView::Failed(m) => finish(r, Err(m)),
                    _ => goto(
                        r,
                        StageView::Await,
                        ActionView::Say("Added DNSStubListener=no to resolved.conf"@),
                    ),
                },
            }
        },
    }
}


// ---------------------------------------------------------------------------
// Laws of the runner
// ---------------------------------------------------------------------------

/// The runner's position is within its script, and past the last operation
/// only once the run is over.
pub open spec fn runner_wf(r: RunnerView) -> bool {
    &&& 0 <= r.pos <= r.ops.len()
    &&& (r.end is None && r.pos == r.ops.len() ==> r.stage == StageView::Ready)
}

/// A run that is over stays over: every further step changes nothing and
/// repeats the run's last action (its result, or its abort).
pub proof fn lemma_end_is_final(r: RunnerView, e: EventView)
    requires
        r.end is Some,
    ensures
        step_spec(r, e).0 == r,
        step_spec(r, e).1 == end_action(r.end->0),
{
}

/// Starting an operation at or after the current one keeps the runner
/// well formed and never moves it back.
proof fn lemma_start_forward(r: RunnerView, i: int)
    requires
        runner_wf(r),
        r.pos <= i,
    ensures
        runner_wf(start(r, i).0),
        start(r, i).0.pos >= r.pos,
        start(r, i).0.ops == r.ops,
        start(r, i).0.pm == r.pm,
{
}

/// Operations run in the order of the script: a step never moves the runner
/// back to an earlier operation, never changes the script, and keeps it well
/// formed.
pub proof fn lemma_step_forward(r: RunnerView, e: EventView)
    requires
        runner_wf(r),
    ensures
        runner_wf(step_spec(r, e).0),
        step_spec(r, e).0.pos >= r.pos,
        step_spec(r, e).0.ops == r.ops,
        step_spec(r, e).0.pm == r.pm,
{
    lemma_start_forward(r, r.pos);
    lemma_start_forward(r, r.pos + 1);
    if r.end is None && 0 <= r.pos < r.ops.len() {
        match r.ops[r.pos] {
            OpView::Probe(_, _, n, _) => lemma_start_forward(r, r.pos + 1 + n),
            OpView::IfMissing(_, MissingView::Skip(n)) => lemma_start_forward(r, r.pos + 1 + n),
            _ => {},
        }
    }
    lemma_start_forward(r, r.ops.len() as int);
}

/// An operation that could not be carried out ends the setup with an error:
/// nothing after it runs.
pub proof fn lemma_failure_ends_run(r: RunnerView, m: Seq<char>)
    requires
        r.end is None,
        0 <= r.pos < r.ops.len(),
        r.stage == StageView::Await,
        r.ops[r.pos] is RootDir || r.ops[r.pos] is RootWrite || r.ops[r.pos] is WriteFile
            || r.ops[r.pos] is Exec || r.ops[r.pos] is Pipe || r.ops[r.pos] is Probe,
    ensures
        step_spec(r, EventView::Failed(m)).0.end matches Some(EndView::Finished(Err(_))),
        step_spec(r, EventView::Failed(m)).1 matches ActionView::Finish(Err(_)),
{
}

/// A command that exits unsuccessfully ends the setup with its error text
/// when the operation gives one.
pub proof fn lemma_unsuccessful_exit_ends_run(
    r: RunnerView,
    stdout: Seq<char>,
    utf8: bool,
    stderr: Seq<char>,
)
    requires
        r.end is None,
        0 <= r.pos < r.ops.len(),
        r.stage == StageView::Await,
        r.ops[r.pos] matches OpView::Exec(_, _, Some(_)) || r.ops[r.pos] matches OpView::Pipe(
            _,
            _,
            _,
            _,
            Some(_),
        ) || r.ops[r.pos] is RootDir || r.ops[r.pos] is RootWrite,
    ensures
        step_spec(
            r,
            EventView::Exited { success: false, stdout, stdout_utf8: utf8, stderr },
        ).1 matches ActionView::Finish(Err(_)),
{
}

/// An operation whose action succeeded moves the runner on to the next
/// operation: a command that exited successfully, or an action answered with
/// [`EventView::Done`] (a line printed, a file written, a command fed its
/// input without being waited for). Probes are the exception: their success
/// decides what is skipped.
pub proof fn lemma_success_moves_on(r: RunnerView, e: EventView)
    requires
        r.end is None,
        0 <= r.pos < r.ops.len(),
        r.stage == StageView::Await,
        !(r.ops[r.pos] is Probe),
        e == EventView::Done || e matches EventView::Exited { success: true, .. },
    ensures
        step_spec(r, e) == start(r, r.pos + 1),
{
}

/// A run ends successfully only past its last operation: no step of a run
/// that is not over finishes it with success while operations remain.
pub proof fn lemma_success_only_at_end(r: RunnerView, e: EventView)
    requires
        runner_wf(r),
        r.end is None,
    ensures
        step_spec(r, e).0.end == Some(EndView::Finished(Ok(()))) ==> step_spec(r, e).0.pos
            == r.ops.len(),
        step_spec(r, e).1 == ActionView::Finish(Ok(())) ==> step_spec(r, e).0.pos == r.ops.len(),
{
    assert forall|i: int| r.pos <= i implies {
        &&& (start(r, i).0.end == Some(EndView::Finished(Ok(()))) ==> start(r, i).0.pos == r.ops.len())
        &&& (start(r, i).1 == ActionView::Finish(Ok(())) ==> start(r, i).0.pos == r.ops.len())
    } by {
        if i < r.ops.len() {
            match r.ops[i] {
                OpView::Fail(m) => {},
                _ => {},
            }
        }
    }
}

/// Starting a file write asks to write exactly the operation's content to
/// exactly its path.
pub proof fn lemma_write_file_writes_its_content(r: RunnerView, i: int, p: Seq<char>, c: Seq<char>)
    requires
        0 <= i < r.ops.len(),
        r.ops[i] == OpView::WriteFile(p, c),
    ensures
        start(r, i).1 == ActionView::Write(p, c),
        start(r, i).0.pos == i,
        start(r, i).0.end == r.end,
{
}

/// The install command run for an operation that installs `p` is the
/// vendor's install command with `p` itself as its last argument, then `-y`,
/// run through the elevated program that was found.
pub proof fn lemma_install_names_the_package(r: RunnerView, p: Seq<char>, prog: Seq<char>)
    requires
        r.end is None,
        0 <= r.pos < r.ops.len(),
        r.stage == StageView::Elevating,
        r.ops[r.pos] == OpView::Install(p) || (r.ops[r.pos] is EnsurePackage && op_package(
            r.ops[r.pos],
        ) == p),
    ensures
        step_spec(r, EventView::Answer(Some(prog))) == (
            RunnerView { stage: StageView::Installing, ..r },
            ActionView::Run(
                InvocationView {
                    program: prog,
                    args: vendor_command_spec(r.pm, CommandKind::Install).drop_last().push(p).push(
                        "-y"@,
                    ),
                },
            ),
        ),
{
    crate::app_core::command_manager::lemma_install_template(r.pm, p);
}

/// A probe decides by its command's success: the operations it covers are
/// skipped exactly when the command's success is the one it looks for.
pub proof fn lemma_probe_decides(
    r: RunnerView,
    inv: InvocationView,
    when: bool,
    n: nat,
    captured: bool,
    success: bool,
    stdout: Seq<char>,
    utf8: bool,
    stderr: Seq<char>,
)
    requires
        r.end is None,
        0 <= r.pos < r.ops.len(),
        r.stage == StageView::Await,
        r.ops[r.pos] == OpView::Probe(inv, when, n, captured),
    ensures
        step_spec(r, EventView::Exited { success, stdout, stdout_utf8: utf8, stderr }) == (if success
            == when {
            skip(r, n)
        } else {
            advance(r)
        }),
{
}

/// A package that the package manager already lists is not installed again:
/// the runner moves on to the next operation.
pub proof fn lemma_listed_package_not_reinstalled(
    r: RunnerView,
    package: Seq<char>,
    notice: Option<Seq<char>>,
    strict: bool,
    success: bool,
    stdout: Seq<char>,
    utf8: bool,
    stderr: Seq<char>,
)
    requires
        r.end is None,
        0 <= r.pos < r.ops.len(),
        r.stage == StageView::Listing,
        r.ops[r.pos] == OpView::EnsurePackage(package, notice, strict),
        listed_in(r.pm, stdout, package),
    ensures
        step_spec(r, EventView::Exited { success, stdout, stdout_utf8: utf8, stderr }) == advance(
            r,
        ),
{
}

/// A systemd older than 258 is warned about, and then exactly the operations
/// that the version gate covers are skipped: the setup goes on after them.
pub proof fn lemma_old_systemd_skips_gated_ops(
    r: RunnerView,
    n: nat,
    v: u32,
    e1: EventView,
    e2: EventView,
)
    requires
        r.end is None,
        0 <= r.pos < r.ops.len(),
        r.ops[r.pos] == OpView::VersionGate(n),
        r.stage == StageView::Announced(v),
        v < min_systemd(),
    ensures
        step_spec(r, e1) == (
            RunnerView { stage: StageView::Warned, ..r },
            ActionView::Warn("Not supported systemd version less than 258."@),
        ),
        step_spec(step_spec(r, e1).0, e2) == start(
            RunnerView { stage: StageView::Warned, ..r },
            r.pos + 1 + n,
        ),
{
}

// ---------------------------------------------------------------------------
// The runner, executable
// ---------------------------------------------------------------------------

/// What a step decides, before the runner moves.
enum Next {
    Start(usize),
    Goto(Stage, Action),
    Finish(Result<(), String>),
    Abort(String),
    Repeat,
}

enum NextView {
    Start(int),
    Goto(StageView, ActionView),
    Finish(Result<(), Seq<char>>),
    Abort(Seq<char>),
    Repeat,
}

impl View for Next {
    type V = NextView;

    closed spec fn view(&self) -> NextView {
        match self {
            Next::Start(i) => NextView::Start(*i as int),
            Next::Goto(s, a) => NextView::Goto(s@, a@),
            Next::Finish(r) => NextView::Finish(result_view(*r)),
            Next::Abort(m) => NextView::Abort(m@),
            Next::Repeat => NextView::Repeat,
        }
    }
}

/// The effect of a decision.
spec fn apply(r: RunnerView, n: NextView) -> (RunnerView, ActionView) {
    match n {
        NextView::Start(i) => start(r, i),
        NextView::Goto(s, a) => goto(r, s, a),
        NextView::Finish(res) => finish(r, res),
        NextView::Abort(m) => abort(r, m),
        NextView::Repeat => match r.end {
            Some(end) => (r, end_action(end)),
            None => (r, ActionView::Finish(Ok(()))),
        },
    }
}

fn copy_text(s: &String) -> (r: String)
    ensures
        r@ == s@,
{
    owned(s.as_str())
}

fn copy_invocation(i: &Invocation) -> (r: Invocation)
    ensures
        r@ == i@,
{
    Invocation { program: copy_text(&i.program), args: copy_all(&i.args) }
}

fn copy_result(r: &Result<(), String>) -> (c: Result<(), String>)
    ensures
        result_view(c) == result_view(*r),
{
    match r {
        Ok(()) => Ok(()),
        Err(e) => Err(copy_text(e)),
    }
}

/// The error text of a command that could not be started.
fn spawn_error(f: &SpawnFailure, e: String) -> (m: String)
    ensures
        m@ == spawn_message(f@, e@),
{
    match f {
        SpawnFailure::Passthrough => e,
        SpawnFailure::Context(c) => copy_text(c),
        SpawnFailure::Describe(d) => {
            let mut m = copy_text(d);
            m.append(": ");
            m.append(e.as_str());
            m
        },
    }
}

impl Runner {
    /// A runner at the start of `ops`, installing with `package_manager`.
    pub fn new(ops: Vec<Op>, package_manager: PackageManager) -> (r: Runner)
        ensures
            r@ == (RunnerView {
                ops: ops_view(ops@),
                pos: 0,
                stage: StageView::Ready,
                pm: package_manager,
                end: None,
            }),
    {
        Runner { ops, pos: 0, stage: Stage::Ready, package_manager, end: None }
    }

    /// Whether the run is over (finished or aborted).
    pub fn is_over(&self) -> (b: bool)
        ensures
            b == (self@.end is Some),
    {
        self.end.is_some()
    }

    /// The action and stage that open operation `i`.
    fn opening(&self, i: usize) -> (n: Next)
        requires
            i < self.ops.len(),
        ensures
            apply(
                RunnerView {
                    pos: i as int,
                    stage: if n is Finish || n is Abort {
                        StageView::Ready
                    } else {
                        self@.stage
                    },
                    ..self@
                },
                n@,
            ) == start(self@, i as int),
            n is Goto || n is Finish || n is Abort,
    {
        assert(self@.ops[i as int] == self.ops@[i as int]@);
        match &self.ops[i] {
            Op::Say(s) => Next::Goto(Stage::Await, Action::Say(copy_text(s))),
            Op::Print(s) => Next::Goto(Stage::Await, Action::Print(copy_text(s))),
            Op::Warn(s) => Next::Goto(Stage::Await, Action::Warn(copy_text(s))),
            Op::Fail(m) => Next::Finish(Err(copy_text(m))),
            Op::Abort(m) => Next::Abort(copy_text(m)),
            Op::RootDir(d) => Next::Goto(Stage::Await, Action::Run(mkdir_invocation(d.as_str()))),
            Op::RootWrite(p, c) => Next::Goto(
                Stage::Await,
                Action::Feed(tee_invocation(p.as_str()), copy_text(c), true, false),
            ),
            Op::WriteFile(p, c) => Next::Goto(Stage::Await, Action::Write(copy_text(p), copy_text(c))),
            Op::Exec(inv, _, _) => Next::Goto(Stage::Await, Action::Run(copy_invocation(inv))),
            Op::Pipe(inv, input, _, _, f) => Next::Goto(
                Stage::Await,
                Action::Feed(copy_invocation(inv), copy_text(input), f.is_some(), false),
            ),
            Op::Probe(inv, _, _, captured) => if *captured {
                Next::Goto(Stage::Await, Action::Capture(copy_invocation(inv)))
            } else {
                Next::Goto(Stage::Await, Action::Run(copy_invocation(inv)))
            },
            Op::Install(_) => Next::Goto(Stage::Elevating, Action::Ask(Query::Elevated)),
            Op::EnsurePackage(p, _, _) => {
                let cm = CommandManager { package_manager: self.package_manager };
                match cm.list_invocation(p.as_str()) {
                    Ok(inv) => Next::Goto(Stage::Listing, Action::Capture(inv)),
                    Err(_) => Next::Finish(Ok(())),
                }
            },
            Op::IfMissing(p, _) => Next::Goto(Stage::Await, Action::Exists(copy_text(p))),
            Op::VersionGate(_) => {
                let inv = invocation("systemctl", &["--version"]);
                assert(inv@.args =~= systemctl_version_spec().args);
                Next::Goto(Stage::Versioned, Action::Capture(inv))
            },
            Op::Backup(_) => Next::Goto(Stage::Timing, Action::Clock),
            Op::NginxConfig(_, _) => {
                let unit = Nginx::unit_path();
                let inv = invocation("cat", &[unit.as_str()]);
                assert(inv@.args =~= cat_unit_spec().args);
                Next::Goto(Stage::Unit, Action::Capture(inv))
            },
            Op::StubListener(p) => Next::Goto(Stage::Probing, Action::Exists(copy_text(p))),
        }
    }

    /// Applies a decision.
    fn apply(&mut self, n: Next) -> (a: Action)
        requires
            n matches Next::Start(i) ==> i <= old(self).ops.len(),
            n matches Next::Goto(_, _) ==> old(self).pos < old(self).ops.len(),
        ensures
            (final(self)@, a@) == apply(old(self)@, n@),
    {
        match n {
            Next::Start(i) => {
                if i >= self.ops.len() {
                    self.pos = self.ops.len();
                    self.stage = Stage::Ready;
                    self.end = Some(End::Finished(Ok(())));
                    Action::Finish(Ok(()))
                } else {
                    let opened = self.opening(i);
                    self.pos = i;
                    match opened {
                        Next::Finish(res) => {
                            self.stage = Stage::Ready;
                            self.end = Some(End::Finished(copy_result(&res)));
                            Action::Finish(res)
                        },
                        Next::Goto(s, a) => {
                            self.stage = s;
                            a
                        },
                        Next::Abort(m) => {
                            self.stage = Stage::Ready;
                            self.end = Some(End::Panicked(copy_text(&m)));
                            Action::Panic(m)
                        },
                        _ => {
                            // `opening` only opens, finishes or aborts an operation.
                            Action::Finish(Ok(()))
                        },
                    }
                }
            },
            Next::Goto(s, a) => {
                self.stage = s;
                a
            },
            Next::Finish(res) => {
                self.end = Some(End::Finished(copy_result(&res)));
                Action::Finish(res)
            },
            Next::Abort(m) => {
                self.end = Some(End::Panicked(copy_text(&m)));
                Action::Panic(m)
            },
            Next::Repeat => match &self.end {
                Some(End::Finished(r)) => Action::Finish(copy_result(r)),
                Some(End::Panicked(m)) => Action::Panic(copy_text(m)),
                None => Action::Finish(Ok(())),
            },
        }
    }

    /// Past the next `n` operations.
    fn skip_to(&self, n: usize) -> (nx: Next)
        requires
            self.pos < self.ops.len(),
        ensures
            apply(self@, nx@) == skip(self@, n as nat),
            nx matches Next::Start(i) && i <= self.ops.len(),
    {
        if n < self.ops.len() - self.pos - 1 {
            Next::Start(self.pos + 1 + n)
        } else {
            Next::Start(self.ops.len())
        }
    }

    /// One step: `event` is what came of the last action; the result is the
    /// next action.
    pub fn step(&mut self, event: Event) -> (a: Action)
        ensures
            (final(self)@, a@) == step_spec(old(self)@, event@),
    {
        let n = self.decide(event);
        self.apply(n)
    }

    fn decide(&self, e: Event) -> (n: Next)
        ensures
            apply(self@, n@) == step_spec(self@, e@),
            n matches Next::Start(i) ==> i <= self.ops.len(),
            n matches Next::Goto(_, _) ==> self.pos < self.ops.len(),
    {
        if self.end.is_some() {
            return Next::Repeat;
        }
        if self.pos >= self.ops.len() {
            return Next::Start(self.ops.len());
        }
        match &self.stage {
            Stage::Ready => Next::Start(self.pos),
            Stage::Await => self.await_next(e),
            _ => self.later_next(e),
        }
    }

    fn await_next(&self, e: Event) -> (n: Next)
        requires
            self@.end is None,
            0 <= self.pos < self.ops.len(),
            self@.stage == StageView::Await,
        ensures
            apply(self@, n@) == step_spec(self@, e@),
            n matches Next::Start(i) ==> i <= self.ops.len(),
            n matches Next::Goto(_, _) ==> self.pos < self.ops.len(),
    {
        let adv = Next::Start(self.pos + 1);
        assert(self@.ops[self.pos as int] == self.ops@[self.pos as int]@);
        match &self.ops[self.pos] {
            Op::RootDir(d) => match e {
                Event::Failed(m) => Next::Finish(Err(mkdir_spawn_error(d.as_str(), m.as_str()))),
                Event::Exited { success: false, .. } => Next::Finish(Err(mkdir_failure(d.as_str()))),
                _ => adv,
            },
            Op::RootWrite(p, _) => match e {
                Event::Failed(m) => Next::Finish(Err(tee_spawn_error(p.as_str(), m.as_str()))),
                Event::NoStdin => Next::Finish(Err(tee_stdin_error(p.as_str()))),
                Event::WriteFailed(m) => Next::Finish(Err(tee_write_error(p.as_str(), m.as_str()))),
                Event::WaitFailed(m) => Next::Finish(Err(tee_wait_error(p.as_str(), m.as_str()))),
                Event::Exited { success: false, stderr, .. } => Next::Finish(
                    Err(tee_failure(p.as_str(), stderr.as_str())),
                ),
                _ => adv,
            },
            Op::WriteFile(_, _) => match e {
                Event::Failed(m) => Next::Finish(Err(m)),
                _ => adv,
            },
            Op::Exec(_, sf, f) => match e {
                Event::Failed(m) => Next::Finish(Err(spawn_error(sf, m))),
                Event::Exited { success: false, .. } => match f {
                    Some(t) => Next::Finish(Err(copy_text(t))),
                    None => adv,
                },
                _ => adv,
            },
            Op::Pipe(_, _, sf, ns, f) => match e {
                Event::Failed(m) => Next::Finish(Err(spawn_error(sf, m))),
                Event::NoStdin => self.missing_next(ns),
                Event::WriteFailed(m) => Next::Finish(Err(m)),
                Event::WaitFailed(m) => Next::Finish(Err(m)),
                Event::Exited { success: false, .. } => match f {
                    Some(t) => Next::Finish(Err(copy_text(t))),
                    None => adv,
                },
                _ => adv,
            },
            Op::Probe(_, when, k, _) => match e {
                Event::Failed(m) => Next::Finish(Err(m)),
                Event::Exited { success, .. } => if success == *when {
                    self.skip_to(*k)
                } else {
                    adv
                },
                _ => adv,
            },
            Op::IfMissing(_, m) => match e {
                Event::Exists(false) => self.missing_next(m),
                _ => adv,
            },
            _ => adv,
        }
    }

    fn missing_next(&self, m: &Missing) -> (n: Next)
        requires
            self.pos < self.ops.len(),
        ensures
            apply(self@, n@) == on_missing(self@, m@),
            n matches Next::Start(i) ==> i <= self.ops.len(),
    {
        match m {
            Missing::Skip(k) => self.skip_to(*k),
            Missing::Fail(t) => Next::Finish(Err(copy_text(t))),
            Missing::Panic(t) => Next::Abort(copy_text(t)),
        }
    }

    fn later_next(&self, e: Event) -> (n: Next)
        requires
            self@.end is None,
            0 <= self.pos < self.ops.len(),
            self@.stage != StageView::Await,
            self@.stage != StageView::Ready,
        ensures
            apply(self@, n@) == step_spec(self@, e@),
            n matches Next::Start(i) ==> i <= self.ops.len(),
            n matches Next::Goto(_, _) ==> self.pos < self.ops.len(),
    {
        let adv = Next::Start(self.pos + 1);
        let op = &self.ops[self.pos];
        assert(self@.ops[self.pos as int] == self.ops@[self.pos as int]@);
        match &self.stage {
            Stage::Listing | Stage::Noticed | Stage::Elevating | Stage::Installing => self.package_next(e),
            Stage::Versioned | Stage::Announced(..) | Stage::Warned => self.version_next(e),
            Stage::Timing | Stage::BackupElevating(..) | Stage::Copying(..) => self.backup_next(e),
            Stage::Unit | Stage::AskUser(..) | Stage::AskGroup(..) | Stage::AskHome(..) | Stage::TeeElevating(..) | Stage::Teeing => self.nginx_next(e),
            Stage::Probing | Stage::Reading | Stage::Storing => self.stub_next(e),
            _ => adv,
        }
    }

    fn package_next(&self, e: Event) -> (n: Next)
        requires
            self@.end is None,
            0 <= self.pos < self.ops.len(),
            self@.stage is Listing || self@.stage is Noticed || self@.stage is Elevating || self@.stage is Installing,
        ensures
            apply(self@, n@) == step_spec(self@, e@),
            n matches Next::Start(i) ==> i <= self.ops.len(),
            n matches Next::Goto(_, _) ==> self.pos < self.ops.len(),
    {
        let adv = Next::Start(self.pos + 1);
        let op = &self.ops[self.pos];
        assert(self@.ops[self.pos as int] == self.ops@[self.pos as int]@);
        match &self.stage {
            Stage::Listing => match op {
                Op::EnsurePackage(p, notice, strict) => match e {
                    Event::Failed(m) => if *strict {
                        Next::Finish(Err(m))
                    } else {
                        adv
                    },
                    Event::Exited { stdout, .. } => {
                        let cm = CommandManager { package_manager: self.package_manager };
                        if cm.is_listed(stdout.as_str(), p.as_str()) {
                            adv
                        } else {
                            match notice {
                                Some(t) => Next::Goto(Stage::Noticed, Action::Say(copy_text(t))),
                                None => Next::Goto(Stage::Elevating, Action::Ask(Query::Elevated)),
                            }
                        }
                    },
                    _ => adv,
                },
                _ => adv,
            },
            Stage::Noticed => Next::Goto(Stage::Elevating, Action::Ask(Query::Elevated)),
            Stage::Elevating => match e {
                Event::Answer(Some(prog)) => {
                    let package = match op {
                        Op::Install(p) => copy_text(p),
                        Op::EnsurePackage(p, _, _) => copy_text(p),
                        _ => owned(""),
                    };
                    proof {
                        reveal_strlit("");
                        assert(package@ == op_package(self@.ops[self.pos as int]));
                    }
                    match vendor_command(self.package_manager, CommandKind::Install) {
                        Some(template) => Next::Goto(
                            Stage::Installing,
                            Action::Run(install_invocation(template, package.as_str(), prog)),
                        ),
                        None => Next::Abort(owned("Elevated command not available")),
                    }
                },
                _ => Next::Abort(owned("Elevated command not available")),
            },
            Stage::Installing => match e {
                Event::Failed(m) => Next::Finish(Err(m)),
                _ => adv,
            },
            _ => adv,
        }
    }

    fn version_next(&self, e: Event) -> (n: Next)
        requires
            self@.end is None,
            0 <= self.pos < self.ops.len(),
            self@.stage is Versioned || self@.stage is Announced || self@.stage is Warned,
        ensures
            apply(self@, n@) == step_spec(self@, e@),
            n matches Next::Start(i) ==> i <= self.ops.len(),
            n matches Next::Goto(_, _) ==> self.pos < self.ops.len(),
    {
        let adv = Next::Start(self.pos + 1);
        let op = &self.ops[self.pos];
        assert(self@.ops[self.pos as int] == self.ops@[self.pos as int]@);
        match &self.stage {
            Stage::Versioned => {
                let v = match e {
                    Event::Exited { stdout, stdout_utf8: true, .. } => Dns::parse_systemd_version(
                        stdout.as_str(),
                    ),
                    _ => None,
                };
                match v {
                    None => Next::Finish(Err(owned("Systemd version can't be determined! Aborting!!"))),
                    Some(v) => {
                        let mut msg = owned("Systemd version detected : ");
                        let n = crate::text::u64_to_string(v as u64);
                        msg.append(n.as_str());
                        Next::Goto(Stage::Announced(v), Action::Say(msg))
                    },
                }
            },
            Stage::Announced(v) => if *v < 258 {
                Next::Goto(Stage::Warned, Action::Warn(owned("Not supported systemd version less than 258.")))
            } else {
                adv
            },
            Stage::Warned => match op {
                Op::VersionGate(n) => self.skip_to(*n),
                _ => adv,
            },
            _ => adv,
        }
    }

    fn backup_next(&self, e: Event) -> (n: Next)
        requires
            self@.end is None,
            0 <= self.pos < self.ops.len(),
            self@.stage is Timing || self@.stage is BackupElevating || self@.stage is Copying,
        ensures
            apply(self@, n@) == step_spec(self@, e@),
            n matches Next::Start(i) ==> i <= self.ops.len(),
            n matches Next::Goto(_, _) ==> self.pos < self.ops.len(),
    {
        let adv = Next::Start(self.pos + 1);
        let op = &self.ops[self.pos];
        assert(self@.ops[self.pos as int] == self.ops@[self.pos as int]@);
        match &self.stage {
            Stage::Timing => match op {
                Op::Backup(path) => match e {
                    Event::Failed(m) => Next::Finish(Err(m)),
                    Event::Clock(t) => Next::Goto(
                        Stage::BackupElevating(Nginx::backup_path(path.as_str(), t)),
                        Action::Ask(Query::Elevated),
                    ),
                    _ => adv,
                },
                _ => adv,
            },
            Stage::BackupElevating(b) => match op {
                Op::Backup(path) => match e {
                    Event::Answer(Some(prog)) => {
                        let inv = invocation(prog.as_str(), &["cp", path.as_str(), b.as_str()]);
                        assert(inv@.args =~= seq!["cp"@, path@, b@]);
                        Next::Goto(Stage::Copying(copy_text(b)), Action::Run(inv))
                    },
                    _ => Next::Finish(Err(owned("Elevated command not available"))),
                },
                _ => adv,
            },
            Stage::Copying(b) => match e {
                Event::Failed(m) => Next::Finish(Err(m)),
                Event::Exited { success: false, .. } => Next::Finish(
                    Err(owned("Failed to backup nginx config")),
                ),
                _ => {
                    let mut msg = owned("Backed up nginx config to ");
                    msg.append(b.as_str());
                    Next::Goto(Stage::Await, Action::Say(msg))
                },
            },
            _ => adv,
        }
    }

    fn nginx_next(&self, e: Event) -> (n: Next)
        requires
            self@.end is None,
            0 <= self.pos < self.ops.len(),
            self@.stage is Unit || self@.stage is AskUser || self@.stage is AskGroup || self@.stage is AskHome || self@.stage is TeeElevating || self@.stage is Teeing,
        ensures
            apply(self@, n@) == step_spec(self@, e@),
            n matches Next::Start(i) ==> i <= self.ops.len(),
            n matches Next::Goto(_, _) ==> self.pos < self.ops.len(),
    {
        let adv = Next::Start(self.pos + 1);
        let op = &self.ops[self.pos];
        assert(self@.ops[self.pos as int] == self.ops@[self.pos as int]@);
        match &self.stage {
            Stage::Unit => match e {
                Event::Failed(m) => Next::Finish(Err(m)),
                Event::Exited { stdout, .. } => Next::Goto(
                    Stage::AskUser(Nginx::pid_directive(stdout.as_str())),
                    Action::Ask(Query::User),
                ),
                _ => adv,
            },
            Stage::AskUser(pid) => match e {
                Event::Answer(Some(u)) => Next::Goto(
                    Stage::AskGroup(copy_text(pid), u),
                    Action::Ask(Query::Group),
                ),
                _ => adv,
            },
            Stage::AskGroup(pid, u) => match op {
                Op::NginxConfig(_, dir) => match e {
                    Event::Answer(Some(g)) => Next::Goto(
                        Stage::AskHome(copy_text(pid), copy_text(u), g),
                        Action::Ask(Query::Canonical(copy_text(dir))),
                    ),
                    _ => adv,
                },
                _ => adv,
            },
            Stage::AskHome(pid, u, g) => match op {
                Op::NginxConfig(template, _) => match e {
                    Event::Failed(m) => Next::Finish(Err(m)),
                    Event::Answer(Some(h)) => Next::Goto(
                        Stage::TeeElevating(
                            Nginx::render_config(
                                template.as_str(),
                                u.as_str(),
                                g.as_str(),
                                pid.as_str(),
                                h.as_str(),
                            ),
                        ),
                        Action::Ask(Query::Elevated),
                    ),
                    _ => adv,
                },
                _ => adv,
            },
            Stage::TeeElevating(c) => match e {
                Event::Answer(Some(prog)) => {
                    let path = Nginx::config_path();
                    let inv = invocation(prog.as_str(), &["tee", path.as_str()]);
                    assert(inv@.args =~= seq!["tee"@, nginx_config_path()]);
                    Next::Goto(Stage::Teeing, Action::Feed(inv, copy_text(c), true, true))
                },
                _ => Next::Finish(Err(owned("Elevated command not available"))),
            },
            Stage::Teeing => match e {
                Event::Failed(m) => {
                    let mut msg = owned("Failed to spawn elevated tee: ");
                    msg.append(m.as_str());
                    Next::Finish(Err(msg))
                },
                Event::WriteFailed(m) => Next::Finish(Err(m)),
                Event::WaitFailed(m) => Next::Finish(Err(m)),
                Event::Exited { success: false, .. } => Next::Finish(
                    Err(owned("Failed to write config via sudo tee")),
                ),
                Event::NoStdin => Next::Finish(Err(owned("Failed to write config via sudo tee"))),
                _ => Next::Goto(Stage::Await, Action::Say(owned("Nginx config updated sucessfully."))),
            },
            _ => adv,
        }
    }

    fn stub_next(&self, e: Event) -> (n: Next)
        requires
            self@.end is None,
            0 <= self.pos < self.ops.len(),
            self@.stage is Probing || self@.stage is Reading || self@.stage is Storing,
        ensures
            apply(self@, n@) == step_spec(self@, e@),
            n matches Next::Start(i) ==> i <= self.ops.len(),
            n matches Next::Goto(_, _) ==> self.pos < self.ops.len(),
    {
        let adv = Next::Start(self.pos + 1);
        let op = &self.ops[self.pos];
        assert(self@.ops[self.pos as int] == self.ops@[self.pos as int]@);
        match &self.stage {
            Stage::Probing => match op {
                Op::StubListener(path) => match e {
                    Event::Exists(true) => Next::Goto(Stage::Reading, Action::Read(copy_text(path))),
                    Event::Exists(false) => {
                        proof {
                            reveal_strlit("");
                            assert(""@ =~= Seq::<char>::empty());
                        }
                        let n = Self::decide_stub(path, "");
                        assert(apply(self@, n@) == decide_stub(self@, path@, Seq::empty()));
                        n
                    },
                    _ => adv,
                },
                _ => adv,
            },
            Stage::Reading => match op {
                Op::StubListener(path) => match e {
                    Event::Failed(m) => Next::Finish(Err(m)),
                    Event::Text(c) => {
                        let n = Self::decide_stub(path, c.as_str());
                        assert(apply(self@, n@) == decide_stub(self@, path@, c@));
                        n
                    },
                    _ => adv,
                },
                _ => adv,
            },
            Stage::Storing => match e {
                Event::Failed(m) => Next::Finish(Err(m)),
                _ => Next::Goto(
                    Stage::Await,
                    Action::Say(owned("Added DNSStubListener=no to resolved.conf")),
                ),
            },
            _ => adv,
        }
    }

    fn decide_stub(path: &String, content: &str) -> (n: Next)
        ensures
            n matches Next::Goto(s, a) && (s@, a@) == (match stub_listener_update_spec(content@) {
                Some(x) => (StageView::Storing, ActionView::Write(path@, x)),
                None => (
                    StageView::Await,
                    ActionView::Say("DNSStubListener=no already configured"@),
                ),
            }),
    {
        match DnsMasq::stub_listener_update(content) {
            Some(x) => Next::Goto(Stage::Storing, Action::Write(copy_text(path), x)),
            None => Next::Goto(
                Stage::Await,
                Action::Say(owned("DNSStubListener=no already configured")),
            ),
        }
    }
}

} // verus!
