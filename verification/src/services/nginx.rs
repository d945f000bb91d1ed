//! nginx configured from the bundled template, keeping a dated backup.
use vstd::prelude::*;
use crate::process::owned;
use crate::script::{ops_view, push_op, single, Missing, MissingView, Op, OpView};
use crate::text::{chars_of, contains, contains_text, decimal, replace_all, replace_str, u64_to_string};

verus! {

/// Sets up nginx.
#[derive(Debug)]
pub struct Nginx;

/// Where nginx reads its main configuration.
pub open spec fn nginx_config_path() -> Seq<char> {
    "/etc/nginx/nginx.conf"@
}

/// The systemd unit of nginx, read to see whether it manages the pid file.
pub open spec fn nginx_unit_path() -> Seq<char> {
    "/lib/systemd/system/nginx.service"@
}

/// The `pid` line of the configuration: commented out when the unit file
/// sets `PIDFile=` itself.
pub open spec fn pid_directive_spec(unit: Seq<char>) -> Seq<char> {
    if contains_text(unit, "PIDFile="@) {
        "# pid /run/nginx.pid"@
    } else {
        "pid /run/nginx.pid"@
    }
}

/// The backup name of a configuration file taken at Unix time `secs`.
pub open spec fn backup_path_spec(path: Seq<char>, secs: u64) -> Seq<char> {
    path + ".back."@ + decimal(secs as nat)
}

/// The configuration: the template with `VALET_USER`, `VALET_GROUP`,
/// `VALET_PID` and `VALET_HOME_PATH` replaced, in that order.
pub open spec fn render_config_spec(
    template: Seq<char>,
    user: Seq<char>,
    group: Seq<char>,
    pid: Seq<char>,
    home: Seq<char>,
) -> Seq<char> {
    replace_all(
        replace_all(
            replace_all(replace_all(template, "VALET_USER"@, user), "VALET_GROUP"@, group),
            "VALET_PID"@,
            pid,
        ),
        "VALET_HOME_PATH"@,
        home,
    )
}

/// The nginx setup: install it when the package manager does not list it
/// (a listing that cannot be run counts as installed), back up an existing
/// configuration, and write the configuration from `template`.
pub open spec fn nginx_service_ops(template: Seq<char>, app_dir: Seq<char>) -> Seq<OpView> {
    seq![
        OpView::EnsurePackage("nginx"@, None, false),
        OpView::IfMissing(nginx_config_path(), MissingView::Skip(1)),
        OpView::Backup(nginx_config_path()),
        OpView::NginxConfig(template, app_dir),
    ]
}

impl Nginx {
    /// The nginx setup script; `app_dir` is the application directory that
    /// the configuration names (in canonical form).
    pub fn setup(template: &str, app_dir: &str) -> (ops: Vec<Op>)
        ensures
            ops_view(ops@) == nginx_service_ops(template@, app_dir@),
    {
        let mut ops: Vec<Op> = Vec::new();
        push_op(&mut ops, Op::EnsurePackage(owned("nginx"), None, false));
        push_op(&mut ops, Op::IfMissing(Self::config_path(), Missing::Skip(1)));
        push_op(&mut ops, Op::Backup(Self::config_path()));
        push_op(&mut ops, Op::NginxConfig(owned(template), owned(app_dir)));
        assert(ops_view(ops@) =~= nginx_service_ops(template@, app_dir@));
        ops
    }

    /// Installing nginx.
    pub fn install() -> (ops: Vec<Op>)
        ensures
            ops_view(ops@) == seq![OpView::Install("nginx"@)],
    {
        single(Op::Install(owned("nginx")))
    }

    /// The main configuration path.
    pub fn config_path() -> (p: String)
        ensures
            p@ == nginx_config_path(),
    {
        owned("/etc/nginx/nginx.conf")
    }

    /// The unit file path.
    pub fn unit_path() -> (p: String)
        ensures
            p@ == nginx_unit_path(),
    {
        owned("/lib/systemd/system/nginx.service")
    }

    /// See [`pid_directive_spec`].
    pub fn pid_directive(unit: &str) -> (p: String)
        ensures
            p@ == pid_directive_spec(unit@),
    {
        let cs = chars_of(unit);
        let key = chars_of("PIDFile=");
        if contains(cs.as_slice(), key.as_slice()) {
            owned("# pid /run/nginx.pid")
        } else {
            owned("pid /run/nginx.pid")
        }
    }

    /// See [`backup_path_spec`].
    pub fn backup_path(path: &str, secs: u64) -> (p: String)
        ensures
            p@ == backup_path_spec(path@, secs),
    {
        let mut p = owned(path);
        p.append(".back.");
        let n = u64_to_string(secs);
        p.append(n.as_str());
        p
    }

    /// See [`render_config_spec`].
    pub fn render_config(template: &str, user: &str, group: &str, pid: &str, home: &str) -> (c:
        String)
        ensures
            c@ == render_config_spec(template@, user@, group@, pid@, home@),
    {
        proof {
            reveal_strlit("VALET_USER");
            reveal_strlit("VALET_GROUP");
            reveal_strlit("VALET_PID");
            reveal_strlit("VALET_HOME_PATH");
        }
        let a = replace_str(template, "VALET_USER", user);
        let b = replace_str(a.as_str(), "VALET_GROUP", group);
        let c = replace_str(b.as_str(), "VALET_PID", pid);
        replace_str(c.as_str(), "VALET_HOME_PATH", home)
    }
}

} // verus!
