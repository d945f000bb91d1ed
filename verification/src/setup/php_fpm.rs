//! One PHP-FPM pool per PHP installation, run as the user.
use vstd::prelude::*;
use crate::app_core::configuration::Configuration;
use crate::process::{owned, str_texts};
use crate::script::{
    append_ops, ops_view, push_op, systemctl, systemctl_op, Missing, MissingView, Op, OpView,
    SpawnFailure, SpawnFailureView,
};
use crate::text::{replace_all, replace_str};
use crate::util::{tee_invocation, tee_invocation_spec};

verus! {

/// Sets up PHP-FPM.
pub struct PHPFpm;

/// The pool configuration for a user: the template with `{{VALEX_USER}}`,
/// `{{VALEX_USERGROUP}}`, `{{VALEX_FPM_SOCKET_OWNER}}` and
/// `{{VALEX_FPM_SOCKET_GROUP}}` replaced, in that order.
pub open spec fn fpm_config_spec(template: Seq<char>, user: Seq<char>, group: Seq<char>) -> Seq<char> {
    replace_all(
        replace_all(
            replace_all(replace_all(template, "{{VALEX_USER}}"@, user), "{{VALEX_USERGROUP}}"@, group),
            "{{VALEX_FPM_SOCKET_OWNER}}"@,
            user,
        ),
        "{{VALEX_FPM_SOCKET_GROUP}}"@,
        group,
    )
}

/// Writing the pool of one installation (configuration path, socket path) as
/// root; `tee` is not waited for; without its standard input the setup
/// fails.
pub open spec fn pool_op(config: Seq<char>, install: (Seq<char>, Seq<char>)) -> OpView {
    OpView::Pipe(
        tee_invocation_spec(install.0),
        replace_all(config, "{{VALEX_FPM_SOCKET_PATH}}"@, install.1),
        SpawnFailureView::Context("failed to start tee"@),
        MissingView::Fail("failed to open stdin"@),
        None,
    )
}

/// The configuration and socket paths of the installations, in order.
pub open spec fn installs_view(c: Configuration) -> Seq<(Seq<char>, Seq<char>)> {
    c.php@.map_values(|e: (String, crate::app_core::configuration::PhpInstallation)| (e.1.fpm_config_path@, e.1.fpm_socket_path@))
}

/// The PHP-FPM setup: one pool per installation, then a restart of every
/// FPM service.
pub open spec fn php_fpm_ops(config: Seq<char>, installs: Seq<(Seq<char>, Seq<char>)>) -> Seq<OpView> {
    installs.map_values(|i: (Seq<char>, Seq<char>)| pool_op(config, i)) + seq![
        systemctl_op(seq!["restart"@, "php*-fpm.service"@], "Failed to restart fpm services"@),
    ]
}

impl PHPFpm {
    /// See [`fpm_config_spec`].
    pub fn fpm_config(template: &str, user: &str, group: &str) -> (c: String)
        ensures
            c@ == fpm_config_spec(template@, user@, group@),
    {
        proof {
            reveal_strlit("{{VALEX_USER}}");
            reveal_strlit("{{VALEX_USERGROUP}}");
            reveal_strlit("{{VALEX_FPM_SOCKET_OWNER}}");
            reveal_strlit("{{VALEX_FPM_SOCKET_GROUP}}");
        }
        let a = replace_str(template, "{{VALEX_USER}}", user);
        let b = replace_str(a.as_str(), "{{VALEX_USERGROUP}}", group);
        let c = replace_str(b.as_str(), "{{VALEX_FPM_SOCKET_OWNER}}", user);
        replace_str(c.as_str(), "{{VALEX_FPM_SOCKET_GROUP}}", group)
    }

    /// The PHP-FPM setup script for the installations of `config`.
    pub fn setup(template: &str, username: &str, groupname: &str, config: &Configuration) -> (ops:
        Vec<Op>)
        requires
            config.wf(),
        ensures
            ops_view(ops@) == php_fpm_ops(
                fpm_config_spec(template@, username@, groupname@),
                installs_view(*config),
            ),
    {
        proof {
            reveal_strlit("{{VALEX_FPM_SOCKET_PATH}}");
        }
        let fpm_config = Self::fpm_config(template, username, groupname);
        let ghost installs = installs_view(*config);
        let ghost pool = |i: (Seq<char>, Seq<char>)| pool_op(fpm_config@, i);
        let mut ops: Vec<Op> = Vec::new();
        let mut k: usize = 0;
        while k < config.php.len()
            invariant
                k <= config.php@.len(),
                installs == installs_view(*config),
                pool == (|i: (Seq<char>, Seq<char>)| pool_op(fpm_config@, i)),
                ops_view(ops@) == installs.take(k as int).map_values(pool),
            decreases config.php.len() - k,
        {
            let install = &config.php[k].1;
            proof {
                reveal_strlit("{{VALEX_FPM_SOCKET_PATH}}");
            }
            let text = replace_str(
                fpm_config.as_str(),
                "{{VALEX_FPM_SOCKET_PATH}}",
                install.fpm_socket_path.as_str(),
            );
            let op = Op::Pipe(
                tee_invocation(install.fpm_config_path.as_str()),
                text,
                SpawnFailure::Context(owned("failed to start tee")),
                Missing::Fail(owned("failed to open stdin")),
                None,
            );
            assert(installs[k as int] == (install.fpm_config_path@, install.fpm_socket_path@));
            assert(op@ == pool(installs[k as int]));
            push_op(&mut ops, op);
            k = k + 1;
            assert(installs.take(k as int).map_values(pool) =~= installs.take(k - 1).map_values(
                pool,
            ).push(pool(installs[k - 1])));
        }
        assert(installs.take(k as int) =~= installs);
        let restart = systemctl(&["restart", "php*-fpm.service"], "Failed to restart fpm services");
        assert(str_texts(seq!["restart", "php*-fpm.service"]) =~= seq![
            "restart"@,
            "php*-fpm.service"@,
        ]);
        push_op(&mut ops, restart);
        assert(ops_view(ops@) =~= php_fpm_ops(fpm_config@, installs));
        ops
    }
}

} // verus!
