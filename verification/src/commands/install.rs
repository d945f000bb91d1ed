//! `install`: everything needed to serve `.test` sites.
use vstd::prelude::*;
use crate::commands::SetupInputs;
use crate::script::{append_ops, ops_view, Op, OpView};
use crate::setup::dns::{dns_ops, Dns};
use crate::setup::nginx::{load_nginx_config_spec, nginx_setup_ops, Nginx};

verus! {

/// Installing: the DNS setup, then the nginx setup.
pub open spec fn install_ops(inputs: &SetupInputs) -> Seq<OpView> {
    dns_ops(inputs.dnsmasq_stub@) + nginx_setup_ops(
        load_nginx_config_spec(inputs.nginx_stub@, inputs.username@, inputs.nginx_files_path@),
    )
}

/// The install script.
pub fn run(inputs: &SetupInputs) -> (ops: Vec<Op>)
    ensures
        ops_view(ops@) == install_ops(inputs),
{
    let mut ops = Dns::setup(inputs.dnsmasq_stub.as_str());
    append_ops(
        &mut ops,
        Nginx::setup(
            inputs.nginx_stub.as_str(),
            inputs.username.as_str(),
            inputs.nginx_files_path.as_str(),
        ),
    );
    ops
}

} // verus!
