//! `setup`: configure DNS, nginx or PHP-FPM, or all three.
use vstd::prelude::*;
use crate::commands::SetupInputs;
use crate::script::{append_ops, ops_view, Op, OpView};
use crate::setup::dns::{dns_ops, Dns};
use crate::setup::nginx::{load_nginx_config_spec, nginx_setup_ops, Nginx};
use crate::setup::php_fpm::{fpm_config_spec, installs_view, php_fpm_ops, PHPFpm};

verus! {

/// The arguments of `setup`.
pub struct SetupArgs {
    /// The part to configure; all of them when absent.
    pub command: Option<SetupCommand>,
}

/// The parts `setup` can configure.
#[derive(Debug, Clone, Copy, PartialEq, Eq, Structural)]
pub enum SetupCommand {
    Dns,
    Nginx,
    PHPFpm,
}

/// The nginx part.
pub open spec fn nginx_part(inputs: &SetupInputs) -> Seq<OpView> {
    nginx_setup_ops(
        load_nginx_config_spec(inputs.nginx_stub@, inputs.username@, inputs.nginx_files_path@),
    )
}

/// The PHP-FPM part.
pub open spec fn fpm_part(inputs: &SetupInputs) -> Seq<OpView> {
    php_fpm_ops(
        fpm_config_spec(inputs.fpm_template@, inputs.username@, inputs.groupname@),
        installs_view(inputs.config),
    )
}

/// The script of `setup`: the part named, or DNS, nginx and PHP-FPM in turn.
pub open spec fn setup_ops(command: Option<SetupCommand>, inputs: &SetupInputs) -> Seq<OpView> {
    match command {
        Some(SetupCommand::Dns) => dns_ops(inputs.dnsmasq_stub@),
        Some(SetupCommand::Nginx) => nginx_part(inputs),
        Some(SetupCommand::PHPFpm) => fpm_part(inputs),
        None => dns_ops(inputs.dnsmasq_stub@) + nginx_part(inputs) + fpm_part(inputs),
    }
}

fn dns(inputs: &SetupInputs) -> (ops: Vec<Op>)
    ensures
        ops_view(ops@) == dns_ops(inputs.dnsmasq_stub@),
{
    Dns::setup(inputs.dnsmasq_stub.as_str())
}

fn nginx(inputs: &SetupInputs) -> (ops: Vec<Op>)
    ensures
        ops_view(ops@) == nginx_part(inputs),
{
    Nginx::setup(
        inputs.nginx_stub.as_str(),
        inputs.username.as_str(),
        inputs.nginx_files_path.as_str(),
    )
}

fn fpm(inputs: &SetupInputs) -> (ops: Vec<Op>)
    requires
        inputs.config.wf(),
    ensures
        ops_view(ops@) == fpm_part(inputs),
{
    PHPFpm::setup(
        inputs.fpm_template.as_str(),
        inputs.username.as_str(),
        inputs.groupname.as_str(),
        &inputs.config,
    )
}

/// The setup script for `args`.
pub fn run(args: SetupArgs, inputs: &SetupInputs) -> (ops: Vec<Op>)
    requires
        inputs.config.wf(),
    ensures
        ops_view(ops@) == setup_ops(args.command, inputs),
{
    match args.command {
        Some(SetupCommand::Dns) => dns(inputs),
        Some(SetupCommand::Nginx) => nginx(inputs),
        Some(SetupCommand::PHPFpm) => fpm(inputs),
        None => {
            let mut ops = dns(inputs);
            append_ops(&mut ops, nginx(inputs));
            append_ops(&mut ops, fpm(inputs));
            ops
        },
    }
}

} // verus!
