//! `.test` names resolved locally: systemd-resolved delegates them to dnsmasq.
use vstd::prelude::*;
use crate::process::owned;
use crate::script::{append_ops, push_op, say, single, systemctl, systemctl_op, ops_view, Op, OpView};
use crate::text::{chars_of, lines, lines_of, parse_u32, parse_u32_spec, words, words_of};
use crate::util::concat3;

verus! {

/// Sets up local name resolution.
#[derive(Debug)]
pub struct Dns;

/// The systemd version in the output of `systemctl --version`: the second
/// whitespace-separated word of the first line, read as a `u32`.
pub open spec fn systemd_version_spec(stdout: Seq<char>) -> Option<u32> {
    let ls = lines(stdout);
    if ls.len() == 0 {
        None
    } else {
        let ws = words(ls[0]);
        if ws.len() < 2 {
            None
        } else {
            parse_u32_spec(ws[1])
        }
    }
}

impl Dns {
    /// Reads the systemd version from the output of `systemctl --version`.
    pub fn parse_systemd_version(stdout: &str) -> (r: Option<u32>)
        ensures
            r == systemd_version_spec(stdout@),
    {
        let cs = chars_of(stdout);
        let ls = lines_of(cs.as_slice());
        let ghost lv = ls@.map_values(|x: Vec<char>| x@);
        if ls.len() == 0 {
            assert(lv.len() == 0);
            return None;
        }
        assert(lv[0] == ls@[0]@);
        let ws = words_of(ls[0].as_slice());
        let ghost wv = ws@.map_values(|x: Vec<char>| x@);
        if ws.len() < 2 {
            assert(wv.len() == ws.len());
            return None;
        }
        assert(wv[1] == ws@[1]@);
        parse_u32(ws[1].as_slice())
    }
}


/// The drop-in directory for DNS delegation.
pub open spec fn delegate_dir() -> Seq<char> {
    "/etc/systemd/dns-delegate.d"@
}

/// The delegation of `.test` names to the local resolver.
pub open spec fn delegate_path() -> Seq<char> {
    "/etc/systemd/dns-delegate.d/valet-rust.dns-delegate"@
}

/// Its content.
pub open spec fn delegate_content() -> Seq<char> {
    "[Delegate]\nDNS=127.0.0.1\nDomains=~test\nDNSSECMode=no\n"@
}

/// The drop-in directory of systemd-resolved.
pub open spec fn resolved_dropin_dir() -> Seq<char> {
    "/etc/systemd/resolved.conf.d"@
}

/// The drop-in that turns resolved's stub listener off.
pub open spec fn no_stub_path() -> Seq<char> {
    "/etc/systemd/resolved.conf.d/no-stub-listener.conf"@
}

/// Its content.
pub open spec fn no_stub_content() -> Seq<char> {
    "[Resolve]\nDNSStubListener=no\n"@
}

/// The main dnsmasq configuration.
pub open spec fn dnsmasq_conf_path() -> Seq<char> {
    "/etc/dnsmasq.conf"@
}

/// The dnsmasq drop-in directory.
pub open spec fn dnsmasq_dropin_dir() -> Seq<char> {
    "/etc/dnsmasq.d"@
}

/// The dnsmasq drop-in that answers `.test` names with 127.0.0.1.
pub open spec fn dnsmasq_valet_path() -> Seq<char> {
    "/etc/dnsmasq.d/valet-rust.conf"@
}

/// Its content.
pub open spec fn dnsmasq_valet_content() -> Seq<char> {
    "listen-address=127.0.0.1\nbind-interfaces\nno-resolv\naddress=/.test/127.0.0.1\n"@
}

/// Writing the delegation drop-in.
pub open spec fn delegate_ops() -> Seq<OpView> {
    seq![
        OpView::RootDir(delegate_dir()),
        OpView::RootWrite(delegate_path(), delegate_content()),
        OpView::Say("DNS delegate config written to "@ + delegate_path()),
    ]
}

/// Writing the drop-in that turns resolved's stub listener off.
pub open spec fn no_stub_ops() -> Seq<OpView> {
    seq![
        OpView::RootDir(resolved_dropin_dir()),
        OpView::RootWrite(no_stub_path(), no_stub_content()),
        OpView::Say("DNSStubListener disabled via drop-in at "@ + no_stub_path()),
    ]
}

/// Writing the dnsmasq configuration (`stub` is the bundled main file).
pub open spec fn dnsmasq_config_ops(stub: Seq<char>) -> Seq<OpView> {
    seq![
        OpView::RootWrite(dnsmasq_conf_path(), stub),
        OpView::RootDir(dnsmasq_dropin_dir()),
        OpView::RootWrite(dnsmasq_valet_path(), dnsmasq_valet_content()),
        OpView::Say("dnsmasq config written to "@ + dnsmasq_valet_path()),
    ]
}

/// What the DNS setup does on a supported systemd: delegate `.test` to
/// dnsmasq, free port 53 from resolved, install and configure dnsmasq, and
/// restart the services.
pub open spec fn dns_body_ops(stub: Seq<char>) -> Seq<OpView> {
    seq![OpView::Say("Setting up systemd resolved dns delegate config ..."@)]
        + delegate_ops() + seq![OpView::Say("Disable systemd resolved DNSStubListener"@)]
        + no_stub_ops() + seq![
        OpView::EnsurePackage("dnsmasq"@, Some("Installing dnsmasq ..."@), true),
        OpView::Say("Setting up dnsmasq configuration ..."@),
    ] + dnsmasq_config_ops(stub) + seq![
        OpView::Say("Restarting dnsmasq"@),
        systemctl_op(seq!["restart"@, "dnsmasq"@], "failed to restart dnsmasq"@),
        OpView::Say("Enable dnsmasq systemd service ..."@),
        systemctl_op(
            seq!["enable"@, "--now"@, "dnsmasq"@],
            "failed to enable and start dnsmasq"@,
        ),
        OpView::Say("Restarting systemd-resolved"@),
        systemctl_op(
            seq!["restart"@, "systemd-resolved"@],
            "Error restarting systemd-resolved"@,
        ),
    ]
}

/// The whole DNS setup: check the systemd version, which must be known; on
/// one older than 258 nothing more of the DNS setup is done.
pub open spec fn dns_ops(stub: Seq<char>) -> Seq<OpView> {
    seq![OpView::VersionGate(dns_body_ops(stub).len())] + dns_body_ops(stub)
}

impl Dns {
    /// The DNS setup script; `dnsmasq_stub` is the main dnsmasq
    /// configuration that ships with the program.
    pub fn setup(dnsmasq_stub: &str) -> (ops: Vec<Op>)
        ensures
            ops_view(ops@) == dns_ops(dnsmasq_stub@),
    {
        let mut ops: Vec<Op> = Vec::new();
        push_op(&mut ops, say("Setting up systemd resolved dns delegate config ..."));
        append_ops(&mut ops, Self::setup_dns_delegate_config());
        push_op(&mut ops, say("Disable systemd resolved DNSStubListener"));
        append_ops(&mut ops, Self::disable_systemd_resolved_dns_stub_listener());
        push_op(
            &mut ops,
            Op::EnsurePackage(owned("dnsmasq"), Some(owned("Installing dnsmasq ...")), true),
        );
        push_op(&mut ops, say("Setting up dnsmasq configuration ..."));
        append_ops(&mut ops, Self::setup_dnsmasq_configuration(dnsmasq_stub));
        push_op(&mut ops, say("Restarting dnsmasq"));
        append_ops(&mut ops, Self::restart_dnsmasq());
        push_op(&mut ops, say("Enable dnsmasq systemd service ..."));
        append_ops(&mut ops, Self::enable_dnsmasq_systemd_service());
        push_op(&mut ops, say("Restarting systemd-resolved"));
        append_ops(&mut ops, Self::restart_systemd_resolved());
        assert(ops_view(ops@) =~= dns_body_ops(dnsmasq_stub@));
        let mut all: Vec<Op> = Vec::new();
        push_op(&mut all, Op::VersionGate(ops.len()));
        append_ops(&mut all, ops);
        assert(ops_view(all@) =~= dns_ops(dnsmasq_stub@));
        all
    }

    /// `sudo mkdir -p <dir>`.
    fn sudo_mkdir_p(dir: &str) -> (op: Op)
        ensures
            op@ == OpView::RootDir(dir@),
    {
        Op::RootDir(owned(dir))
    }

    /// `sudo tee <path>` fed `content`.
    fn sudo_write_file(path: &str, content: &str) -> (op: Op)
        ensures
            op@ == OpView::RootWrite(path@, content@),
    {
        Op::RootWrite(owned(path), owned(content))
    }

    fn setup_dns_delegate_config() -> (ops: Vec<Op>)
        ensures
            ops_view(ops@) == delegate_ops(),
    {
        let dir = "/etc/systemd/dns-delegate.d";
        let path = "/etc/systemd/dns-delegate.d/valet-rust.dns-delegate";
        let content = "[Delegate]\nDNS=127.0.0.1\nDomains=~test\nDNSSECMode=no\n";
        let mut ops: Vec<Op> = Vec::new();
        push_op(&mut ops, Self::sudo_mkdir_p(dir));
        push_op(&mut ops, Self::sudo_write_file(path, content));
        push_op(&mut ops, Op::Say(concat3("DNS delegate config written to ", path, "")));
        proof {
            reveal_strlit("");
        }
        assert(ops_view(ops@) =~= delegate_ops());
        ops
    }

    fn disable_systemd_resolved_dns_stub_listener() -> (ops: Vec<Op>)
        ensures
            ops_view(ops@) == no_stub_ops(),
    {
        let dir = "/etc/systemd/resolved.conf.d";
        let path = "/etc/systemd/resolved.conf.d/no-stub-listener.conf";
        let content = "[Resolve]\nDNSStubListener=no\n";
        let mut ops: Vec<Op> = Vec::new();
        push_op(&mut ops, Self::sudo_mkdir_p(dir));
        push_op(&mut ops, Self::sudo_write_file(path, content));
        push_op(
            &mut ops,
            Op::Say(concat3("DNSStubListener disabled via drop-in at ", path, "")),
        );
        proof {
            reveal_strlit("");
        }
        assert(ops_view(ops@) =~= no_stub_ops());
        ops
    }

    fn setup_dnsmasq_configuration(stub: &str) -> (ops: Vec<Op>)
        ensures
            ops_view(ops@) == dnsmasq_config_ops(stub@),
    {
        let path = "/etc/dnsmasq.d/valet-rust.conf";
        let config = "listen-address=127.0.0.1\nbind-interfaces\nno-resolv\naddress=/.test/127.0.0.1\n";
        let mut ops: Vec<Op> = Vec::new();
        push_op(&mut ops, Self::sudo_write_file("/etc/dnsmasq.conf", stub));
        push_op(&mut ops, Self::sudo_mkdir_p("/etc/dnsmasq.d"));
        push_op(&mut ops, Self::sudo_write_file(path, config));
        push_op(&mut ops, Op::Say(concat3("dnsmasq config written to ", path, "")));
        proof {
            reveal_strlit("");
        }
        assert(ops_view(ops@) =~= dnsmasq_config_ops(stub@));
        ops
    }

    fn restart_dnsmasq() -> (ops: Vec<Op>)
        ensures
            ops_view(ops@) == seq![systemctl_op(seq!["restart"@, "dnsmasq"@], "failed to restart dnsmasq"@)],
    {
        let op = systemctl(&["restart", "dnsmasq"], "failed to restart dnsmasq");
        assert(crate::process::str_texts(seq!["restart", "dnsmasq"]) =~= seq!["restart"@, "dnsmasq"@]);
        single(op)
    }

    fn enable_dnsmasq_systemd_service() -> (ops: Vec<Op>)
        ensures
            ops_view(ops@) == seq![
                systemctl_op(
                    seq!["enable"@, "--now"@, "dnsmasq"@],
                    "failed to enable and start dnsmasq"@,
                ),
            ],
    {
        let op = systemctl(&["enable", "--now", "dnsmasq"], "failed to enable and start dnsmasq");
        assert(crate::process::str_texts(seq!["enable", "--now", "dnsmasq"]) =~= seq![
            "enable"@,
            "--now"@,
            "dnsmasq"@,
        ]);
        single(op)
    }

    fn restart_systemd_resolved() -> (ops: Vec<Op>)
        ensures
            ops_view(ops@) == seq![
                systemctl_op(
                    seq!["restart"@, "systemd-resolved"@],
                    "Error restarting systemd-resolved"@,
                ),
            ],
    {
        let op = systemctl(&["restart", "systemd-resolved"], "Error restarting systemd-resolved");
        assert(crate::process::str_texts(seq!["restart", "systemd-resolved"]) =~= seq![
            "restart"@,
            "systemd-resolved"@,
        ]);
        single(op)
    }
}

} // verus!
