use valex::app_core::command_manager::{
    fill_placeholder, install_invocation, read_id, resolve_name, CommandError, CommandManager,
};
use valex::app_core::command_runner::CommandRunner;
use valex::app_core::package_manager::{choose_package_manager, PackageManager};

fn owned(v: &[&str]) -> Vec<String> {
    v.iter().map(|s| s.to_string()).collect()
}

#[test]
fn detection_falls_back_to_pacman() {
    assert_eq!(choose_package_manager(None), PackageManager::Pacman);
    assert_eq!(choose_package_manager(Some(PackageManager::Apt)), PackageManager::Apt);
    assert_eq!(CommandManager::new(None).package_manager, PackageManager::Pacman);
}

#[test]
fn placeholder_is_replaced_once() {
    assert_eq!(fill_placeholder(owned(&["pacman", "-S", "$"]), "nginx"), owned(&["pacman", "-S", "nginx"]));
    assert_eq!(fill_placeholder(owned(&["a", "b"]), "nginx"), owned(&["a", "b"]));
    assert_eq!(fill_placeholder(owned(&["$", "$"]), "x"), owned(&["x", "$"]));
}

#[test]
fn install_invocation_adds_the_yes_flag() {
    let inv = install_invocation(owned(&["apt", "install", "--install-recommends", "$"]), "nginx", "sudo".to_string());
    assert_eq!(inv.program, "sudo");
    assert_eq!(inv.args, owned(&["apt", "install", "--install-recommends", "nginx", "-y"]));
}

#[test]
fn install_package_uses_the_vendor_command() {
    let cm = CommandManager::new(Some(PackageManager::Apt));
    match cm.install_package("nginx") {
        Ok(inv) => {
            assert!(inv.program == "sudo" || inv.program == "doas");
            assert_eq!(inv.args, owned(&["apt", "install", "--install-recommends", "nginx", "-y"]));
        }
        Err(e) => assert_eq!(e, CommandError::ElevatedUnavailable),
    }
}

#[test]
fn homebrew_has_no_elevated_command() {
    let cm = CommandManager::new(Some(PackageManager::Brew));
    assert_eq!(cm.install_package("nginx").err(), Some(CommandError::ElevatedUnavailable));
    let runner = CommandRunner::new(PackageManager::Brew);
    assert_eq!(runner.install_package("nginx").err(), Some(CommandError::ElevatedUnavailable));
    assert_eq!(cm.elevated_program(), None);
    let apt = CommandManager::new(Some(PackageManager::Apt));
    if let Some(p) = apt.elevated_program() {
        assert!(p == "doas" || p == "sudo");
    }
}

#[test]
fn runner_install_has_no_yes_flag() {
    let runner = CommandRunner::new(PackageManager::Pacman);
    if let Ok(inv) = runner.install_package("caddy") {
        assert_eq!(inv.args, owned(&["pacman", "-S", "caddy"]));
    }
}

#[test]
fn list_invocation_names_the_package() {
    let cm = CommandManager::new(Some(PackageManager::Apt));
    let inv = cm.list_invocation("nginx").unwrap();
    assert_eq!(inv.program, "apt");
    assert_eq!(inv.args, owned(&["list", "--installed", "nginx"]));
    let cm = CommandManager::new(Some(PackageManager::Pacman));
    let inv = cm.list_invocation("dnsmasq").unwrap();
    assert_eq!(inv.program, "pacman");
    assert_eq!(inv.args, owned(&["-Q", "dnsmasq"]));
}

#[test]
fn listing_is_read_with_the_vendor_parser() {
    let cm = CommandManager::new(Some(PackageManager::Pacman));
    assert!(cm.is_listed("nginx 1.24.0-1\ndnsmasq 2.90-1\n", "nginx"));
    assert!(cm.is_listed("nginx 1.24.0-1\ndnsmasq 2.90-1\n", "dnsmasq"));
    assert!(!cm.is_listed("nginx 1.24.0-1\n", "caddy"));
    assert!(!cm.is_listed("error: package 'caddy' was not found\n", "caddy"));
}

#[test]
fn error_messages() {
    assert_eq!(CommandError::InstallUnavailable.message(), "Install command not available");
    assert_eq!(CommandError::ListUnavailable.message(), "List command not available");
    assert_eq!(CommandError::ElevatedUnavailable.message(), "Elevated command not available");
}

const STATUS: &str = "Name:\tbash\nUmask:\t0022\nUid:\t1000\t1000\t1000\t1000\nGid:\t100\t100\t100\t100\n";
const PASSWD: &str = "root:x:0:0:root:/root:/bin/bash\nbroken:x\nalice:x:1000:1000::/home/alice:/bin/sh\n";

#[test]
fn ids_are_read_from_proc_status() {
    assert_eq!(read_id(STATUS, "Uid"), Some(1000));
    assert_eq!(read_id(STATUS, "Gid"), Some(100));
    assert_eq!(read_id(STATUS, "Groups"), None);
    assert_eq!(read_id("Uidx:\t5\nUid:\t7\n", "Uid"), None);
    assert_eq!(read_id("Uid:\n", "Uid"), None);
    assert_eq!(read_id("Uid:\tabc\n", "Uid"), None);
}

#[test]
fn names_are_resolved_from_account_files() {
    assert_eq!(resolve_name(PASSWD, 1000), Some("alice".to_string()));
    assert_eq!(resolve_name(PASSWD, 0), Some("root".to_string()));
    assert_eq!(resolve_name(PASSWD, 5), None);
    assert_eq!(resolve_name("", 0), None);
}

#[test]
fn user_and_group_fall_back() {
    let cm = CommandManager::new(None);
    assert_eq!(cm.user(Some("bob"), None, None), "bob");
    assert_eq!(cm.user(None, Some(STATUS), Some(PASSWD)), "alice");
    assert_eq!(cm.user(None, None, Some("nobody:x:65534:65534::/:/bin/false\n")), "nobody");
    assert_eq!(cm.user(None, Some(STATUS), None), "nobody");
    assert_eq!(cm.user(None, Some(STATUS), Some("root:x:0:0\n")), "nobody");
    assert_eq!(cm.group(Some(STATUS), Some("wheel:x:10:\nusers:x:100:\n")), "users");
    assert_eq!(cm.group(None, None), "nogroup");
}
