//! Local development sites for PHP projects: `.test` domains resolved by
//! dnsmasq, served by nginx or Caddy through PHP-FPM.
pub mod app_core;
pub mod commands;
pub mod configuration;
pub mod drivers;
pub mod process;
pub mod script;
pub mod services;
pub mod setup;
pub mod text;
pub mod util;

use vstd::prelude::*;
use crate::commands::Commands;

verus! {

/// The command line: one subcommand.
pub struct Cli {
    pub commands: Commands,
}

} // verus!
