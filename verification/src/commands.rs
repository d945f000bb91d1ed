//! The commands of the program.
pub mod install;
pub mod link;
pub mod serve;
pub mod setup;

use vstd::prelude::*;
use crate::app_core::configuration::Configuration;
use crate::commands::serve::ServeArgs;
use crate::commands::setup::{setup_ops, SetupArgs, SetupCommand};
use crate::script::{ops_view, Op, OpView};

verus! {

/// The subcommands.
pub enum Commands {
    /// Serve a project directory.
    Serve(ServeArgs),
    /// Install and configure everything.
    Install,
    /// Configure one part, or all of them.
    Setup(SetupArgs),
}

/// What a setup needs from the running system.
pub struct SetupInputs {
    /// The main dnsmasq configuration that ships with the program.
    pub dnsmasq_stub: String,
    /// The nginx configuration template that ships with the program.
    pub nginx_stub: String,
    /// The PHP-FPM pool template that ships with the program.
    pub fpm_template: String,
    /// The user the services run as.
    pub username: String,
    /// That user's group.
    pub groupname: String,
    /// Where the site configurations live.
    pub nginx_files_path: String,
    /// The known PHP installations (no version twice).
    pub config: Configuration,
}

/// What a command comes down to.
pub enum Task {
    /// Serve a project.
    Serve(ServeArgs),
    /// Run this setup script.
    Setup(Vec<Op>),
}

impl Commands {
    /// The task of the command: serving is handed on; installing runs the DNS
    /// then the nginx setup; `setup` runs what its argument names.
    pub fn run(self, inputs: &SetupInputs) -> (t: Task)
        requires
            inputs.config.wf(),
        ensures
            match self {
                Commands::Serve(_) => t is Serve,
                Commands::Install => t matches Task::Setup(ops) && ops_view(ops@)
                    == install::install_ops(inputs),
                Commands::Setup(args) => t matches Task::Setup(ops) && ops_view(ops@)
                    == setup_ops(args.command, inputs),
            },
            self matches Commands::Serve(a) ==> t matches Task::Serve(b) && a == b,
    {
        match self {
            Commands::Serve(args) => Task::Serve(args),
            Commands::Install => Task::Setup(install::run(inputs)),
            Commands::Setup(args) => Task::Setup(setup::run(args, inputs)),
        }
    }
}

} // verus!
