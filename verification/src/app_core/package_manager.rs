//! The system package managers, and what the `system_env` crate knows of them.
use vstd::prelude::*;
use crate::process::texts;
use system_env::CommandType;
use system_env::SystemPackageManager as Vendor;

verus! {

/// A system package manager (the vendors that `system_env` configures).
#[derive(Clone, Copy, Debug, PartialEq, Eq, Structural)]
pub enum PackageManager {
    Pkg,
    Pkgin,
    Apk,
    Apt,
    Dnf,
    Pacman,
    Yum,
    Brew,
    Choco,
    Scoop,
}

/// The package-manager operations the library uses.
#[derive(Clone, Copy, Debug, PartialEq, Eq, Structural)]
pub enum CommandKind {
    /// Install a package; the argument `$` stands for the package name.
    Install,
    /// List the installed packages.
    List,
}

/// The command line that `system_env`'s vendor configuration gives for an
/// operation of a package manager (`pm_vendor.rs` of `system_env`).
pub open spec fn vendor_command_spec(pm: PackageManager, kind: CommandKind) -> Seq<Seq<char>> {
    match kind {
        CommandKind::Install => match pm {
            PackageManager::Apk => seq!["apk"@, "add"@, "$"@],
            PackageManager::Apt => seq!["apt"@, "install"@, "--install-recommends"@, "$"@],
            PackageManager::Brew => seq!["brew"@, "install"@, "$"@],
            PackageManager::Choco => seq!["choco"@, "install"@, "$"@],
            PackageManager::Dnf => seq!["dnf"@, "install"@, "$"@],
            PackageManager::Pacman => seq!["pacman"@, "-S"@, "$"@],
            PackageManager::Pkg => seq!["pkg"@, "install"@, "$"@],
            PackageManager::Pkgin => seq!["pkgin"@, "install"@, "$"@],
            PackageManager::Scoop => seq!["scoop"@, "install"@, "$"@],
            PackageManager::Yum => seq!["yum"@, "install"@, "$"@],
        },
        CommandKind::List => match pm {
            PackageManager::Apk => seq!["apk"@, "list"@, "--installed"@],
            PackageManager::Apt => seq!["apt"@, "list"@, "--installed"@],
            PackageManager::Brew => seq!["brew"@, "list"@, "--formula"@, "--versions"@],
            PackageManager::Choco => seq!["choco"@, "list"@],
            PackageManager::Dnf => seq!["dnf"@, "list"@, "installed"@],
            PackageManager::Pacman => seq!["pacman"@, "-Q"@],
            PackageManager::Pkg => seq!["pkg"@, "info"@, "--all"@],
            PackageManager::Pkgin => seq!["pkgin"@, "list"@],
            PackageManager::Scoop => seq!["scoop"@, "list"@],
            PackageManager::Yum => seq!["yum"@, "list"@, "installed"@],
        },
    }
}

/// Whether `system_env`'s list parser for `pm` finds `package` among the
/// packages named in `output` (the printout of the list command).
pub uninterp spec fn listed_in(pm: PackageManager, output: Seq<char>, package: Seq<char>) -> bool;

/// `SystemPackageManager::get_config().commands.get(kind)`: the vendor
/// command line for an operation. Trusted: it is the table of
/// `vendor_command_spec`, which `system_env`'s `pm_vendor.rs` writes out.
#[verifier::external_body]
pub(crate) fn vendor_command(pm: PackageManager, kind: CommandKind) -> (r: Option<Vec<String>>)
    ensures
        r is Some,
        r matches Some(v) ==> texts(v@) == vendor_command_spec(pm, kind),
{
    let vendor = match pm {
        PackageManager::Pkg => Vendor::Pkg, PackageManager::Pkgin => Vendor::Pkgin,
        PackageManager::Apk => Vendor::Apk, PackageManager::Apt => Vendor::Apt,
        PackageManager::Dnf => Vendor::Dnf, PackageManager::Pacman => Vendor::Pacman,
        PackageManager::Yum => Vendor::Yum, PackageManager::Brew => Vendor::Brew,
        PackageManager::Choco => Vendor::Choco, PackageManager::Scoop => Vendor::Scoop,
    };
    let kind = match kind {
        CommandKind::Install => CommandType::InstallPackage,
        CommandKind::List => CommandType::ListPackages,
    };
    vendor.get_config().commands.get(&kind).cloned()
}

/// `ListParser::parse(output).contains_key(package)` with `pm`'s vendor
/// parser. Trusted: the answer is `listed_in(pm, output, package)`, a
/// function of the three values alone (the parser is a fixed regular
/// expression per vendor); nothing more of it is stated.
#[verifier::external_body]
pub(crate) fn lists_package(pm: PackageManager, output: &str, package: &str) -> (r: bool)
    ensures
        r == listed_in(pm, output@, package@),
{
    let vendor = match pm {
        PackageManager::Pkg => Vendor::Pkg, PackageManager::Pkgin => Vendor::Pkgin,
        PackageManager::Apk => Vendor::Apk, PackageManager::Apt => Vendor::Apt,
        PackageManager::Dnf => Vendor::Dnf, PackageManager::Pacman => Vendor::Pacman,
        PackageManager::Yum => Vendor::Yum, PackageManager::Brew => Vendor::Brew,
        PackageManager::Choco => Vendor::Choco, PackageManager::Scoop => Vendor::Scoop,
    };
    vendor.get_config().list_parser.parse(output).contains_key(package)
}

/// `SystemPackageManager::get_elevated_command`: the program that gives
/// elevated access. Trusted: Homebrew never gets one; otherwise the answer
/// depends on which of `doas` and `sudo` is on the `PATH`, so only its
/// possible values are stated.
#[verifier::external_body]
pub(crate) fn elevated_command(pm: PackageManager) -> (r: Option<String>)
    ensures
        pm == PackageManager::Brew ==> r is None,
        r matches Some(p) ==> p@ == "doas"@ || p@ == "sudo"@,
{
    let vendor = match pm {
        PackageManager::Pkg => Vendor::Pkg, PackageManager::Pkgin => Vendor::Pkgin,
        PackageManager::Apk => Vendor::Apk, PackageManager::Apt => Vendor::Apt,
        PackageManager::Dnf => Vendor::Dnf, PackageManager::Pacman => Vendor::Pacman,
        PackageManager::Yum => Vendor::Yum, PackageManager::Brew => Vendor::Brew,
        PackageManager::Choco => Vendor::Choco, PackageManager::Scoop => Vendor::Scoop,
    };
    vendor.get_elevated_command().map(|p| p.to_string())
}

/// The package manager to use: the detected one, or Pacman when detection
/// failed (some distributions are not recognised).
pub fn choose_package_manager(detected: Option<PackageManager>) -> (pm: PackageManager)
    ensures
        pm == (match detected {
            Some(d) => d,
            None => PackageManager::Pacman,
        }),
{
    match detected {
        Some(d) => d,
        None => PackageManager::Pacman,
    }
}

} // verus!
