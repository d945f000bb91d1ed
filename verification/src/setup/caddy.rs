//! Caddy installed and told to import the site files of the application.
use vstd::prelude::*;
use crate::process::{invocation, owned, str_texts, InvocationView};
use crate::script::{
    append_ops, ops_view, push_op, say, single, systemctl, systemctl_op, Missing, MissingView, Op,
    OpView, SpawnFailure, SpawnFailureView,
};
use crate::text::{join, join_path};

verus! {

/// Sets up Caddy.
pub struct Caddy;

/// Caddy's main configuration.
pub open spec fn caddyfile_path() -> Seq<char> {
    "/etc/caddy/Caddyfile"@
}

/// The line that imports the site files: `import <dir>/*.caddyfile`.
pub open spec fn import_line_spec(files_dir: Seq<char>) -> Seq<char> {
    "import "@ + join_path(files_dir, "*.caddyfile"@)
}

/// The shell command that appends `line` to the Caddyfile as root.
pub open spec fn append_command_spec(line: Seq<char>) -> Seq<char> {
    "printf '%s\n' '"@ + line + "' | sudo tee -a /etc/caddy/Caddyfile >/dev/null"@
}

/// Making the Caddyfile import the site files of `files_dir` (once).
pub open spec fn caddy_config_ops(files_dir: Seq<char>) -> Seq<OpView> {
    let line = import_line_spec(files_dir);
    seq![
        OpView::IfMissing(
            caddyfile_path(),
            MissingView::Panic("assertion failed: caddy_configuration_path.exists()"@),
        ),
        OpView::Exec(
            InvocationView { program: "mkdir"@, args: seq!["-p"@, files_dir] },
            SpawnFailureView::Passthrough,
            Some("failed to create caddy files directory"@),
        ),
        OpView::Probe(
            InvocationView { program: "grep"@, args: seq!["-qxF"@, line, caddyfile_path()] },
            true,
            1,
            false,
        ),
        OpView::Exec(
            InvocationView { program: "sh"@, args: seq!["-c"@, append_command_spec(line)] },
            SpawnFailureView::Passthrough,
            Some("failed to append import line"@),
        ),
    ]
}

/// Whether `content` has a whole line equal to `line`, as `grep -qxF` looks
/// for it: `line` stands between the start or a newline and a newline or the
/// end.
pub open spec fn has_line(content: Seq<char>, line: Seq<char>) -> bool {
    exists|i: int|
        0 <= i && i + line.len() <= content.len() && #[trigger] content.subrange(
            i,
            i + line.len(),
        ) == line && (i == 0 || content[i - 1] == '\n') && (i + line.len() == content.len()
            || content[i + line.len()] == '\n')
}

/// What the import step makes of the Caddyfile's `content`: unchanged when
/// `grep -qxF` finds the line, otherwise the line and a newline appended (the
/// `printf '%s\n'` through `tee -a` of [`append_command_spec`]).
pub open spec fn imported(content: Seq<char>, line: Seq<char>) -> Seq<char> {
    if has_line(content, line) {
        content
    } else {
        content + line.push('\n')
    }
}

/// Importing the site files is done once: the import step checks the whole
/// import line with `grep -qxF` and appends it only when it is absent. On a
/// Caddyfile that is empty or ends in a newline, and for a site directory
/// without newlines or single quotes, the Caddyfile keeps its text, then has
/// the import line, and a second import step changes nothing.
pub proof fn lemma_import_once(content: Seq<char>, files_dir: Seq<char>)
    requires
        content.len() == 0 || content.last() == '\n',
        forall|k: int| 0 <= k < files_dir.len() ==> files_dir[k] != '\n' && files_dir[k] != '\'',
    ensures
        caddy_config_ops(files_dir)[2] == OpView::Probe(
            InvocationView {
                program: "grep"@,
                args: seq!["-qxF"@, import_line_spec(files_dir), caddyfile_path()],
            },
            true,
            1,
            false,
        ),
        content.is_prefix_of(imported(content, import_line_spec(files_dir))),
        has_line(imported(content, import_line_spec(files_dir)), import_line_spec(files_dir)),
        imported(imported(content, import_line_spec(files_dir)), import_line_spec(files_dir))
            == imported(content, import_line_spec(files_dir)),
{
    let l = import_line_spec(files_dir);
    if !has_line(content, l) {
        let after = content + l.push('\n');
        let i = content.len() as int;
        assert(after.subrange(i, i + l.len()) =~= l);
        assert(after[i + l.len()] == '\n');
        assert(i == 0 || after[i - 1] == content.last());
        assert(has_line(after, l));
        assert(after.subrange(0, content.len() as int) =~= content);
    }
}

/// The Caddy setup: install, configure, restart.
pub open spec fn caddy_ops(files_dir: Seq<char>) -> Seq<OpView> {
    seq![
        OpView::Say("Installing caddy using system package manager"@),
        OpView::Install("caddy"@),
        OpView::Say("Setup caddy configuration"@),
    ] + caddy_config_ops(files_dir) + seq![
        OpView::Say("reload default caddy systemd service"@),
        systemctl_op(
            seq!["restart"@, "--now"@, "caddy"@],
            "failed to disable caddy system service"@,
        ),
    ]
}

impl Caddy {
    /// The Caddy setup script, importing the site files of `files_dir`.
    pub fn setup(files_dir: &str) -> (ops: Vec<Op>)
        ensures
            ops_view(ops@) == caddy_ops(files_dir@),
    {
        let mut ops: Vec<Op> = Vec::new();
        push_op(&mut ops, say("Installing caddy using system package manager"));
        push_op(&mut ops, Self::install_caddy());
        push_op(&mut ops, say("Setup caddy configuration"));
        append_ops(&mut ops, Self::setup_caddy_configuration(files_dir));
        push_op(&mut ops, say("reload default caddy systemd service"));
        append_ops(&mut ops, Self::reload_caddy_system_service());
        assert(ops_view(ops@) =~= caddy_ops(files_dir@));
        ops
    }

    fn install_caddy() -> (op: Op)
        ensures
            op@ == OpView::Install("caddy"@),
    {
        Op::Install(owned("caddy"))
    }

    fn reload_caddy_system_service() -> (ops: Vec<Op>)
        ensures
            ops_view(ops@) == seq![
                systemctl_op(
                    seq!["restart"@, "--now"@, "caddy"@],
                    "failed to disable caddy system service"@,
                ),
            ],
    {
        let op = systemctl(&["restart", "--now", "caddy"], "failed to disable caddy system service");
        assert(str_texts(seq!["restart", "--now", "caddy"]) =~= seq![
            "restart"@,
            "--now"@,
            "caddy"@,
        ]);
        single(op)
    }

    /// See [`import_line_spec`].
    pub fn import_line(files_dir: &str) -> (l: String)
        ensures
            l@ == import_line_spec(files_dir@),
    {
        let pattern = join(files_dir, "*.caddyfile");
        let mut l = owned("import ");
        l.append(pattern.as_str());
        l
    }

    /// See [`append_command_spec`].
    pub fn append_command(line: &str) -> (c: String)
        ensures
            c@ == append_command_spec(line@),
    {
        let mut c = owned("printf '%s\n' '");
        c.append(line);
        c.append("' | sudo tee -a /etc/caddy/Caddyfile >/dev/null");
        c
    }

    fn setup_caddy_configuration(files_dir: &str) -> (ops: Vec<Op>)
        ensures
            ops_view(ops@) == caddy_config_ops(files_dir@),
    {
        let caddyfile = "/etc/caddy/Caddyfile";
        let line = Self::import_line(files_dir);
        let mut ops: Vec<Op> = Vec::new();
        push_op(
            &mut ops,
            Op::IfMissing(
                owned(caddyfile),
                Missing::Panic(owned("assertion failed: caddy_configuration_path.exists()")),
            ),
        );
        let mkdir = invocation("mkdir", &["-p", files_dir]);
        assert(mkdir@.args =~= seq!["-p"@, files_dir@]);
        push_op(
            &mut ops,
            Op::Exec(
                mkdir,
                SpawnFailure::Passthrough,
                Some(owned("failed to create caddy files directory")),
            ),
        );
        let grep = invocation("grep", &["-qxF", line.as_str(), caddyfile]);
        assert(grep@.args =~= seq!["-qxF"@, line@, caddyfile_path()]);
        push_op(&mut ops, Op::Probe(grep, true, 1, false));
        let script = Self::append_command(line.as_str());
        let append = invocation("sh", &["-c", script.as_str()]);
        assert(append@.args =~= seq!["-c"@, append_command_spec(line@)]);
        push_op(
            &mut ops,
            Op::Exec(append, SpawnFailure::Passthrough, Some(owned("failed to append import line"))),
        );
        assert(ops_view(ops@) =~= caddy_config_ops(files_dir@));
        ops
    }
}

} // verus!
