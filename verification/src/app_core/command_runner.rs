//! Elevated package installation without prompts being answered for the user.
use vstd::prelude::*;
use crate::app_core::command_manager::{fill_placeholder, fill_placeholder_spec, CommandError};
use crate::app_core::package_manager::{
    elevated_command, vendor_command, vendor_command_spec, CommandKind, PackageManager,
};
use crate::process::{texts, Invocation};

verus! {

/// Runs commands with elevated rights for one package manager.
pub struct CommandRunner {
    pub package_manager: PackageManager,
}

impl CommandRunner {
    /// A runner for the detected package manager.
    pub fn new(package_manager: PackageManager) -> (r: CommandRunner)
        ensures
            r.package_manager == package_manager,
    {
        CommandRunner { package_manager }
    }

    /// `args` run through the elevated command (`doas` or `sudo`); an error
    /// when neither can be used (always for Homebrew).
    fn run_elevated(&self, args: Vec<String>) -> (r: Result<Invocation, CommandError>)
        ensures
            r matches Ok(inv) ==> inv@.args == texts(args@) && (inv@.program == "doas"@
                || inv@.program == "sudo"@),
            r matches Err(e) ==> e == CommandError::ElevatedUnavailable,
            self.package_manager == PackageManager::Brew ==> r is Err,
    {
        match elevated_command(self.package_manager) {
            Some(program) => Ok(Invocation { program, args }),
            None => Err(CommandError::ElevatedUnavailable),
        }
    }

    /// The invocation that installs `package`: the vendor install command
    /// line with its `$` filled in, run through the elevated command.
    pub fn install_package(&self, package: &str) -> (r: Result<Invocation, CommandError>)
        ensures
            r matches Ok(inv) ==> inv@.args == fill_placeholder_spec(
                vendor_command_spec(self.package_manager, CommandKind::Install),
                package@,
            ) && (inv@.program == "doas"@ || inv@.program == "sudo"@),
            r matches Err(e) ==> e == CommandError::ElevatedUnavailable,
            self.package_manager == PackageManager::Brew ==> r is Err,
    {
        let cmd = match vendor_command(self.package_manager, CommandKind::Install) {
            Some(c) => c,
            None => return Err(CommandError::InstallUnavailable),
        };
        let filled = fill_placeholder(cmd, package);
        self.run_elevated(filled)
    }
}

} // verus!
