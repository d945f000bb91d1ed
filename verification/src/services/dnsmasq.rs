//! dnsmasq as the resolver of `.test` names, next to systemd-resolved.
use vstd::prelude::*;
use crate::process::{invocation, owned, InvocationView};
use crate::script::{ops_view, push_op, say, Op, OpView};
use crate::text::{chars_of, contains, contains_text, ends_with, occurs_at, push_all, string_of};

verus! {

/// Sets up dnsmasq.
#[derive(Debug)]
pub struct DnsMasq;

/// The resolved configuration file that gets `DNSStubListener=no`.
pub open spec fn resolved_conf_path() -> Seq<char> {
    "/etc/systemd/resolved.conf"@
}

/// The new content of `resolved.conf` that turns the stub listener off, or
/// `None` when `DNSStubListener=no` is already there. The line is added on a
/// line of its own, after a newline if the text does not end in one (also
/// when the text is empty).
pub open spec fn stub_listener_update_spec(content: Seq<char>) -> Option<Seq<char>> {
    if contains_text(content, "DNSStubListener=no"@) {
        None
    } else {
        let base = if "\n"@.is_suffix_of(content) {
            content
        } else {
            content.push('\n')
        };
        Some(base + "DNSStubListener=no\n"@)
    }
}

/// The dnsmasq setup: install it, and when systemd-resolved is active, turn
/// resolved's stub listener off and restart it.
pub open spec fn dnsmasq_ops() -> Seq<OpView> {
    seq![
        OpView::Say("Setting up dnsmasq"@),
        OpView::EnsurePackage("dnsmasq"@, None, true),
        OpView::Probe(
            InvocationView {
                program: "systemctl"@,
                args: seq!["is-active"@, "systemd-resolved"@, "--quiet"@],
            },
            false,
            3,
            true,
        ),
        OpView::Say("Uses systemd resolved, configuring it to prevent conflict with dnsmasq."@),
        OpView::StubListener(resolved_conf_path()),
        OpView::Probe(
            InvocationView { program: "systemctl"@, args: seq!["restart"@, "systemd-resolved"@] },
            true,
            0,
            true,
        ),
    ]
}

impl DnsMasq {
    /// The dnsmasq setup script.
    pub fn setup() -> (ops: Vec<Op>)
        ensures
            ops_view(ops@) == dnsmasq_ops(),
    {
        let mut ops: Vec<Op> = Vec::new();
        push_op(&mut ops, say("Setting up dnsmasq"));
        push_op(&mut ops, Op::EnsurePackage(owned("dnsmasq"), None, true));
        let active = invocation("systemctl", &["is-active", "systemd-resolved", "--quiet"]);
        assert(active@.args =~= seq!["is-active"@, "systemd-resolved"@, "--quiet"@]);
        push_op(&mut ops, Op::Probe(active, false, 3, true));
        push_op(
            &mut ops,
            say("Uses systemd resolved, configuring it to prevent conflict with dnsmasq."),
        );
        push_op(&mut ops, Op::StubListener(owned("/etc/systemd/resolved.conf")));
        let restart = invocation("systemctl", &["restart", "systemd-resolved"]);
        assert(restart@.args =~= seq!["restart"@, "systemd-resolved"@]);
        push_op(&mut ops, Op::Probe(restart, true, 0, true));
        assert(ops_view(ops@) =~= dnsmasq_ops());
        ops
    }

    /// Computes [`stub_listener_update_spec`].
    pub fn stub_listener_update(content: &str) -> (r: Option<String>)
        ensures
            r matches Some(s) ==> stub_listener_update_spec(content@) == Some(s@),
            r is None <==> stub_listener_update_spec(content@) is None,
    {
        let cs = chars_of(content);
        let marker = chars_of("DNSStubListener=no");
        if contains(cs.as_slice(), marker.as_slice()) {
            return None;
        }
        let mut out = cs;
        let nl = chars_of("\n");
        if !ends_with(out.as_slice(), nl.as_slice()) {
            out.push('\n');
            assert(out@ =~= content@.push('\n'));
        }
        let line = chars_of("DNSStubListener=no\n");
        push_all(&mut out, line.as_slice());
        Some(string_of(out.as_slice()))
    }
}

/// Turning the stub listener off is idempotent: after one update, a second
/// finds nothing to do.
pub proof fn lemma_stub_listener_idempotent(content: Seq<char>)
    ensures
        stub_listener_update_spec(content) matches Some(updated)
            ==> stub_listener_update_spec(updated) is None,
{
    if let Some(updated) = stub_listener_update_spec(content) {
        let base = if "\n"@.is_suffix_of(content) {
            content
        } else {
            content.push('\n')
        };
        let marker = "DNSStubListener=no"@;
        reveal_strlit("DNSStubListener=no");
        reveal_strlit("DNSStubListener=no\n");
        assert(updated.subrange(base.len() as int, (base.len() + marker.len()) as int) =~= marker);
        assert(occurs_at(updated, marker, base.len() as int));
    }
}

} // verus!
