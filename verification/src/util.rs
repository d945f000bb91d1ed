//! Root-owned file system changes made through `sudo`: the commands and the
//! error texts of `sudo mkdir -p`, `sudo tee` and `sudo chown`.
use vstd::prelude::*;
use crate::process::{invocation, owned, str_texts, Invocation, InvocationView};
use crate::script::{ops_view, single, Op, OpView, SpawnFailure, SpawnFailureView};
use crate::text::{decimal, push_decimal, string_of};

verus! {

/// `sudo mkdir -p <dir>`.
pub open spec fn mkdir_invocation_spec(dir: Seq<char>) -> InvocationView {
    InvocationView { program: "sudo"@, args: seq!["mkdir"@, "-p"@, dir] }
}

/// `sudo tee <path>`.
pub open spec fn tee_invocation_spec(path: Seq<char>) -> InvocationView {
    InvocationView { program: "sudo"@, args: seq!["tee"@, path] }
}

/// The error when `sudo mkdir -p` could not be started.
pub open spec fn mkdir_spawn_message(dir: Seq<char>, e: Seq<char>) -> Seq<char> {
    "Failed to spawn `sudo mkdir -p "@ + dir + "`: "@ + e
}

/// The error when `sudo mkdir -p` exited unsuccessfully.
pub open spec fn mkdir_failure_message(dir: Seq<char>) -> Seq<char> {
    "Failed to create "@ + dir + " via sudo mkdir -p"@
}

/// The error when `sudo tee` could not be started.
pub open spec fn tee_spawn_message(path: Seq<char>, e: Seq<char>) -> Seq<char> {
    "Failed to spawn `sudo tee "@ + path + "`: "@ + e
}

/// The error when the standard input of `sudo tee` is not available.
pub open spec fn tee_stdin_message(path: Seq<char>) -> Seq<char> {
    "Failed to open stdin for `sudo tee "@ + path + "`"@
}

/// The error when the content could not be written to `sudo tee`.
pub open spec fn tee_write_message(path: Seq<char>, e: Seq<char>) -> Seq<char> {
    "Failed to write to `sudo tee "@ + path + "` stdin: "@ + e
}

/// The error when waiting for `sudo tee` failed.
pub open spec fn tee_wait_message(path: Seq<char>, e: Seq<char>) -> Seq<char> {
    "Failed waiting on `sudo tee "@ + path + "`: "@ + e
}

/// The error when `sudo tee` exited unsuccessfully, with what it printed on
/// standard error.
pub open spec fn tee_failure_message(path: Seq<char>, stderr: Seq<char>) -> Seq<char> {
    "Failed to write "@ + path + " via sudo tee: "@ + stderr
}

/// The owner argument of `chown` for an optional uid and gid: `uid:gid`,
/// `uid` or `:gid`; nothing to do when both are absent.
pub open spec fn chown_spec_text(uid: Option<u32>, gid: Option<u32>) -> Option<Seq<char>> {
    match (uid, gid) {
        (Some(u), Some(g)) => Some(decimal(u as nat) + ":"@ + decimal(g as nat)),
        (Some(u), None) => Some(decimal(u as nat)),
        (None, Some(g)) => Some(":"@ + decimal(g as nat)),
        (None, None) => None,
    }
}

/// `sudo chown <owner> <path>`.
pub open spec fn chown_invocation_spec(owner: Seq<char>, path: Seq<char>) -> InvocationView {
    InvocationView { program: "sudo"@, args: seq!["chown"@, owner, path] }
}

/// The context of an error starting `sudo chown`.
pub open spec fn chown_spawn_context(path: Seq<char>) -> Seq<char> {
    "Failed to spawn `sudo chown "@ + path + "`"@
}

/// The error when `sudo chown` exited unsuccessfully.
pub open spec fn chown_failure_message(path: Seq<char>) -> Seq<char> {
    "Failed to chown "@ + path + " via sudo chown"@
}

/// The command that creates `dir` and its parents as root.
pub fn mkdir_invocation(dir: &str) -> (inv: Invocation)
    ensures
        inv@ == mkdir_invocation_spec(dir@),
{
    let inv = invocation("sudo", &["mkdir", "-p", dir]);
    assert(inv@.args =~= mkdir_invocation_spec(dir@).args);
    inv
}

/// The command that writes its standard input to `path` as root.
pub fn tee_invocation(path: &str) -> (inv: Invocation)
    ensures
        inv@ == tee_invocation_spec(path@),
{
    let inv = invocation("sudo", &["tee", path]);
    assert(inv@.args =~= tee_invocation_spec(path@).args);
    inv
}

/// Text of three parts.
pub fn concat3(a: &str, b: &str, c: &str) -> (s: String)
    ensures
        s@ == a@ + b@ + c@,
{
    let mut s = owned(a);
    s.append(b);
    s.append(c);
    s
}

/// Text of four parts.
pub fn concat4(a: &str, b: &str, c: &str, d: &str) -> (s: String)
    ensures
        s@ == a@ + b@ + c@ + d@,
{
    let mut s = owned(a);
    s.append(b);
    s.append(c);
    s.append(d);
    s
}

/// See [`mkdir_spawn_message`].
pub fn mkdir_spawn_error(dir: &str, e: &str) -> (m: String)
    ensures
        m@ == mkdir_spawn_message(dir@, e@),
{
    concat4("Failed to spawn `sudo mkdir -p ", dir, "`: ", e)
}

/// See [`mkdir_failure_message`].
pub fn mkdir_failure(dir: &str) -> (m: String)
    ensures
        m@ == mkdir_failure_message(dir@),
{
    concat3("Failed to create ", dir, " via sudo mkdir -p")
}

/// See [`tee_spawn_message`].
pub fn tee_spawn_error(path: &str, e: &str) -> (m: String)
    ensures
        m@ == tee_spawn_message(path@, e@),
{
    concat4("Failed to spawn `sudo tee ", path, "`: ", e)
}

/// See [`tee_stdin_message`].
pub fn tee_stdin_error(path: &str) -> (m: String)
    ensures
        m@ == tee_stdin_message(path@),
{
    concat3("Failed to open stdin for `sudo tee ", path, "`")
}

/// See [`tee_write_message`].
pub fn tee_write_error(path: &str, e: &str) -> (m: String)
    ensures
        m@ == tee_write_message(path@, e@),
{
    concat4("Failed to write to `sudo tee ", path, "` stdin: ", e)
}

/// See [`tee_wait_message`].
pub fn tee_wait_error(path: &str, e: &str) -> (m: String)
    ensures
        m@ == tee_wait_message(path@, e@),
{
    concat4("Failed waiting on `sudo tee ", path, "`: ", e)
}

/// See [`tee_failure_message`].
pub fn tee_failure(path: &str, stderr: &str) -> (m: String)
    ensures
        m@ == tee_failure_message(path@, stderr@),
{
    concat4("Failed to write ", path, " via sudo tee: ", stderr)
}

/// The owner argument of `chown`, as `sudo_chown` formats it.
pub fn chown_spec(uid: Option<u32>, gid: Option<u32>) -> (r: Option<String>)
    ensures
        r matches Some(s) ==> chown_spec_text(uid, gid) == Some(s@),
        r is None <==> chown_spec_text(uid, gid) is None,
{
    let mut v: Vec<char> = Vec::new();
    match (uid, gid) {
        (Some(u), Some(g)) => {
            push_decimal(&mut v, u as u64);
            v.push(':');
            let ghost first = v@;
            push_decimal(&mut v, g as u64);
            assert(v@ =~= decimal(u as nat) + ":"@ + decimal(g as nat)) by {
                reveal_strlit(":");
            }
        },
        (Some(u), None) => {
            push_decimal(&mut v, u as u64);
            assert(v@ =~= decimal(u as nat));
        },
        (None, Some(g)) => {
            v.push(':');
            push_decimal(&mut v, g as u64);
            assert(v@ =~= ":"@ + decimal(g as nat)) by {
                reveal_strlit(":");
            }
        },
        (None, None) => {
            return None;
        },
    }
    Some(string_of(v.as_slice()))
}

/// The command that gives `path` the owner `owner` as root.
pub fn chown_invocation(owner: &str, path: &str) -> (inv: Invocation)
    ensures
        inv@ == chown_invocation_spec(owner@, path@),
{
    let inv = invocation("sudo", &["chown", owner, path]);
    assert(inv@.args =~= chown_invocation_spec(owner@, path@).args);
    inv
}


/// Creating `dir` and its parents as root.
pub fn sudo_create_dir_all(dir: &str) -> (op: Op)
    ensures
        op@ == OpView::RootDir(dir@),
{
    Op::RootDir(owned(dir))
}

/// Writing `content` to `path` as root.
pub fn sudo_write(path: &str, content: &str) -> (op: Op)
    ensures
        op@ == OpView::RootWrite(path@, content@),
{
    Op::RootWrite(owned(path), owned(content))
}

/// Giving `path` an owner and group as root: nothing when both are absent.
pub open spec fn chown_ops(path: Seq<char>, uid: Option<u32>, gid: Option<u32>) -> Seq<OpView> {
    match chown_spec_text(uid, gid) {
        None => seq![],
        Some(owner) => seq![
            OpView::Exec(
                chown_invocation_spec(owner, path),
                SpawnFailureView::Describe(chown_spawn_context(path)),
                Some(chown_failure_message(path)),
            ),
        ],
    }
}

/// See [`chown_ops`].
pub fn sudo_chown(path: &str, uid: Option<u32>, gid: Option<u32>) -> (ops: Vec<Op>)
    ensures
        ops_view(ops@) == chown_ops(path@, uid, gid),
{
    match chown_spec(uid, gid) {
        None => {
            let ops: Vec<Op> = Vec::new();
            assert(ops_view(ops@) =~= Seq::<OpView>::empty());
            ops
        },
        Some(owner) => single(
            Op::Exec(
                chown_invocation(owner.as_str(), path),
                SpawnFailure::Describe(concat3("Failed to spawn `sudo chown ", path, "`")),
                Some(concat3("Failed to chown ", path, " via sudo chown")),
            ),
        ),
    }
}

} // verus!
