//! nginx installed and configured to serve the sites under the application
//! directory.
use vstd::prelude::*;
use crate::process::{invocation, owned, str_texts, InvocationView};
use crate::script::{
    append_ops, ops_view, push_op, say, single, systemctl, systemctl_op, Missing, MissingView, Op,
    OpView, SpawnFailure, SpawnFailureView,
};
use crate::services::nginx::nginx_config_path;
use crate::text::{join, join_path, replace_all, replace_str};
use crate::util::{tee_invocation, tee_invocation_spec};

verus! {

/// Sets up nginx.
pub struct Nginx;

/// The nginx configuration: the template with `{{VALEX_USER}}` replaced by
/// the user and `{{VALEX_NGINX_CONFIGS_PATH}}` by the pattern of the site
/// configurations, `<nginx files>/*.conf`.
pub open spec fn load_nginx_config_spec(
    template: Seq<char>,
    username: Seq<char>,
    nginx_files_path: Seq<char>,
) -> Seq<char> {
    replace_all(
        replace_all(template, "{{VALEX_USER}}"@, username),
        "{{VALEX_NGINX_CONFIGS_PATH}}"@,
        join_path(nginx_files_path, "*.conf"@),
    )
}

/// Where SELinux is mounted when it is active.
pub open spec fn selinux_path() -> Seq<char> {
    "/sys/fs/selinux"@
}

/// Letting nginx read the users' files under SELinux, when it is active.
pub open spec fn selinux_ops() -> Seq<OpView> {
    seq![
        OpView::IfMissing(selinux_path(), MissingView::Skip(1)),
        OpView::Exec(
            InvocationView {
                program: "sudo"@,
                args: seq!["setsebool"@, "-P"@, "httpd_read_user_content"@, "1"@],
            },
            SpawnFailureView::Context("failed to execute setsebool"@),
            Some("failed to enable httpd_read_user_content"@),
        ),
    ]
}

/// The message of a panic on an absent standard input.
pub open spec fn no_stdin_panic() -> Seq<char> {
    "called `Option::unwrap()` on a `None` value"@
}

/// Writing the configuration as root, then the SELinux setting.
pub open spec fn write_config_ops(config: Seq<char>) -> Seq<OpView> {
    seq![
        OpView::Pipe(
            tee_invocation_spec(nginx_config_path()),
            config,
            SpawnFailureView::Passthrough,
            MissingView::Panic(no_stdin_panic()),
            Some("failed to write nginx.conf"@),
        ),
    ] + selinux_ops()
}

/// The nginx setup: install, write the configuration, restart.
pub open spec fn nginx_setup_ops(config: Seq<char>) -> Seq<OpView> {
    seq![OpView::Say("Setting nginx"@), OpView::Install("nginx"@)] + write_config_ops(config)
        + seq![systemctl_op(seq!["restart"@, "nginx"@], "Nginx service restart failed"@)]
}

impl Nginx {
    /// The nginx setup script for `username`, with the site configurations
    /// under `nginx_files_path`.
    pub fn setup(template: &str, username: &str, nginx_files_path: &str) -> (ops: Vec<Op>)
        ensures
            ops_view(ops@) == nginx_setup_ops(
                load_nginx_config_spec(template@, username@, nginx_files_path@),
            ),
    {
        let mut ops: Vec<Op> = Vec::new();
        push_op(&mut ops, say("Setting nginx"));
        push_op(&mut ops, Op::Install(owned("nginx")));
        let config = Self::load_nginx_config(template, username, nginx_files_path);
        append_ops(&mut ops, Self::write_nginx_config(config));
        append_ops(&mut ops, Self::restart_nginx());
        assert(ops_view(ops@) =~= nginx_setup_ops(
            load_nginx_config_spec(template@, username@, nginx_files_path@),
        ));
        ops
    }

    /// See [`load_nginx_config_spec`].
    pub fn load_nginx_config(template: &str, username: &str, nginx_files_path: &str) -> (c:
        String)
        ensures
            c@ == load_nginx_config_spec(template@, username@, nginx_files_path@),
    {
        proof {
            reveal_strlit("{{VALEX_USER}}");
            reveal_strlit("{{VALEX_NGINX_CONFIGS_PATH}}");
        }
        let pattern = join(nginx_files_path, "*.conf");
        let a = replace_str(template, "{{VALEX_USER}}", username);
        replace_str(a.as_str(), "{{VALEX_NGINX_CONFIGS_PATH}}", pattern.as_str())
    }

    fn write_nginx_config(config: String) -> (ops: Vec<Op>)
        ensures
            ops_view(ops@) == write_config_ops(config@),
    {
        let path = crate::services::nginx::Nginx::config_path();
        let mut ops: Vec<Op> = Vec::new();
        push_op(
            &mut ops,
            Op::Pipe(
                tee_invocation(path.as_str()),
                config,
                SpawnFailure::Passthrough,
                Missing::Panic(owned("called `Option::unwrap()` on a `None` value")),
                Some(owned("failed to write nginx.conf")),
            ),
        );
        append_ops(&mut ops, Self::configure_selinux());
        assert(ops_view(ops@) =~= write_config_ops(config@));
        ops
    }

    fn restart_nginx() -> (ops: Vec<Op>)
        ensures
            ops_view(ops@) == seq![
                systemctl_op(seq!["restart"@, "nginx"@], "Nginx service restart failed"@),
            ],
    {
        let op = systemctl(&["restart", "nginx"], "Nginx service restart failed");
        assert(str_texts(seq!["restart", "nginx"]) =~= seq!["restart"@, "nginx"@]);
        single(op)
    }

    fn configure_selinux() -> (ops: Vec<Op>)
        ensures
            ops_view(ops@) == selinux_ops(),
    {
        let mut ops: Vec<Op> = Vec::new();
        push_op(&mut ops, Op::IfMissing(owned("/sys/fs/selinux"), Missing::Skip(1)));
        let inv = invocation("sudo", &["setsebool", "-P", "httpd_read_user_content", "1"]);
        assert(inv@.args =~= seq!["setsebool"@, "-P"@, "httpd_read_user_content"@, "1"@]);
        push_op(
            &mut ops,
            Op::Exec(
                inv,
                SpawnFailure::Context(owned("failed to execute setsebool")),
                Some(owned("failed to enable httpd_read_user_content")),
            ),
        );
        assert(ops_view(ops@) =~= selinux_ops());
        ops
    }
}

} // verus!
