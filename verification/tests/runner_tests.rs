use valex::app_core::package_manager::PackageManager;
use valex::commands::serve::{context, run as serve_run, uses_current_dir, ServeArgs};
use valex::commands::setup::{run as setup_run, SetupArgs, SetupCommand};
use valex::commands::{Commands, SetupInputs, Task};
use valex::app_core::configuration::Configuration;
use valex::script::{Action, Event, Missing, Op, Query, Runner, SpawnFailure};
use valex::process::Invocation;
use valex::setup::dns::Dns;

fn exited(success: bool, stdout: &str) -> Event {
    Event::Exited { success, stdout: stdout.to_string(), stdout_utf8: true, stderr: String::new() }
}

fn inv(program: &str, args: &[&str]) -> Invocation {
    Invocation { program: program.to_string(), args: args.iter().map(|s| s.to_string()).collect() }
}

fn script_of(t: Task) -> Vec<Op> {
    match t {
        Task::Setup(ops) => ops,
        Task::Serve(_) => panic!("a setup was expected"),
    }
}

fn line(i: &Invocation) -> String {
    std::iter::once(i.program.clone()).chain(i.args.iter().cloned()).collect::<Vec<_>>().join(" ")
}

#[test]
fn old_systemd_skips_the_dns_setup() {
    let mut r = Runner::new(Dns::setup("STUB"), PackageManager::Pacman);
    match r.step(Event::Done) {
        Action::Capture(i) => assert_eq!(line(&i), "systemctl --version"),
        _ => panic!("version probe"),
    }
    match r.step(exited(true, "systemd 255 (255.4)\n")) {
        Action::Say(s) => assert_eq!(s, "Systemd version detected : 255"),
        _ => panic!("announce"),
    }
    match r.step(Event::Done) {
        Action::Warn(s) => assert_eq!(s, "Not supported systemd version less than 258."),
        _ => panic!("warn"),
    }
    assert!(matches!(r.step(Event::Done), Action::Finish(Ok(()))));
    assert!(r.is_over());
    assert!(matches!(r.step(Event::Done), Action::Finish(Ok(()))));
}

#[test]
fn old_systemd_does_not_stop_the_install() {
    let mut r = Runner::new(script_of(Commands::Install.run(&inputs())), PackageManager::Pacman);
    r.step(Event::Done);
    r.step(exited(true, "systemd 255 (255.4)\n"));
    r.step(Event::Done);
    match r.step(Event::Done) {
        Action::Say(s) => assert_eq!(s, "Setting nginx"),
        _ => panic!("nginx comes next"),
    }
    assert!(!r.is_over());
}

#[test]
fn unknown_systemd_version_fails() {
    let mut r = Runner::new(Dns::setup("STUB"), PackageManager::Pacman);
    r.step(Event::Done);
    match r.step(Event::Failed("No such file or directory (os error 2)".to_string())) {
        Action::Finish(Err(e)) => assert_eq!(e, "Systemd version can't be determined! Aborting!!"),
        _ => panic!("fail"),
    }
    let mut r = Runner::new(Dns::setup("STUB"), PackageManager::Pacman);
    r.step(Event::Done);
    let bad = Event::Exited { success: true, stdout: "systemd 260".to_string(), stdout_utf8: false, stderr: String::new() };
    assert!(matches!(r.step(bad), Action::Finish(Err(_))));
}

#[test]
fn new_systemd_runs_the_dns_setup_and_stops_at_a_failure() {
    let mut r = Runner::new(Dns::setup("STUB"), PackageManager::Pacman);
    r.step(Event::Done);
    r.step(exited(true, "systemd 258 (258.1)\n"));
    match r.step(Event::Done) {
        Action::Say(s) => assert_eq!(s, "Setting up systemd resolved dns delegate config ..."),
        _ => panic!("next say"),
    }
    match r.step(Event::Done) {
        Action::Run(i) => assert_eq!(line(&i), "sudo mkdir -p /etc/systemd/dns-delegate.d"),
        _ => panic!("mkdir"),
    }
    match r.step(exited(false, "")) {
        Action::Finish(Err(e)) => assert_eq!(e, "Failed to create /etc/systemd/dns-delegate.d via sudo mkdir -p"),
        _ => panic!("mkdir failure"),
    }
    assert!(r.is_over());
}

#[test]
fn tee_errors_name_the_path() {
    let ops = vec![Op::RootWrite("/etc/x".to_string(), "c".to_string())];
    let mut r = Runner::new(ops, PackageManager::Apt);
    match r.step(Event::Done) {
        Action::Feed(i, c, wait, stdin_optional) => {
            assert_eq!(line(&i), "sudo tee /etc/x");
            assert_eq!(c, "c");
            assert!(wait);
            assert!(!stdin_optional);
        }
        _ => panic!("feed"),
    }
    let failed = Event::Exited { success: false, stdout: String::new(), stdout_utf8: true, stderr: "denied".to_string() };
    match r.step(failed) {
        Action::Finish(Err(e)) => assert_eq!(e, "Failed to write /etc/x via sudo tee: denied"),
        _ => panic!("tee failure"),
    }
    for (ev, msg) in [
        (Event::Failed("boom".to_string()), "Failed to spawn `sudo tee /etc/x`: boom"),
        (Event::NoStdin, "Failed to open stdin for `sudo tee /etc/x`"),
        (Event::WriteFailed("pipe".to_string()), "Failed to write to `sudo tee /etc/x` stdin: pipe"),
        (Event::WaitFailed("w".to_string()), "Failed waiting on `sudo tee /etc/x`: w"),
    ] {
        let mut r = Runner::new(vec![Op::RootWrite("/etc/x".to_string(), "c".to_string())], PackageManager::Apt);
        r.step(Event::Done);
        match r.step(ev) {
            Action::Finish(Err(e)) => assert_eq!(e, msg),
            _ => panic!("error"),
        }
    }
}

#[test]
fn spawn_errors_read_as_configured() {
    for (sf, expected) in [
        (SpawnFailure::Passthrough, "os error"),
        (SpawnFailure::Context("failed to execute setsebool".to_string()), "failed to execute setsebool"),
        (SpawnFailure::Describe("Failed to spawn `x`".to_string()), "Failed to spawn `x`: os error"),
    ] {
        let mut r = Runner::new(vec![Op::Exec(inv("x", &[]), sf, Some("bad".to_string()))], PackageManager::Apt);
        r.step(Event::Done);
        match r.step(Event::Failed("os error".to_string())) {
            Action::Finish(Err(e)) => assert_eq!(e, expected),
            _ => panic!("spawn"),
        }
    }
}

#[test]
fn piped_commands_without_stdin() {
    let pipe = |m: Missing, wait: Option<String>| {
        Op::Pipe(inv("sudo", &["tee", "/etc/x"]), "text".to_string(), SpawnFailure::Passthrough, m, wait)
    };
    let mut r = Runner::new(vec![pipe(Missing::Fail("failed to open stdin".to_string()), None)], PackageManager::Apt);
    match r.step(Event::Done) {
        Action::Feed(i, input, wait, stdin_optional) => {
            assert_eq!(line(&i), "sudo tee /etc/x");
            assert_eq!(input, "text");
            assert!(!wait);
            assert!(!stdin_optional);
        }
        _ => panic!("feed"),
    }
    match r.step(Event::NoStdin) {
        Action::Finish(Err(e)) => assert_eq!(e, "failed to open stdin"),
        _ => panic!("no stdin"),
    }
    let mut r = Runner::new(vec![pipe(Missing::Panic("unwrap".to_string()), Some("bad".to_string()))], PackageManager::Apt);
    assert!(matches!(r.step(Event::Done), Action::Feed(_, _, true, false)));
    assert!(matches!(r.step(Event::NoStdin), Action::Panic(m) if m == "unwrap"));
    assert!(r.is_over());
}

#[test]
fn missing_paths_skip_fail_or_abort() {
    let ops = vec![
        Op::IfMissing("/sys/fs/selinux".to_string(), Missing::Skip(1)),
        Op::Say("selinux".to_string()),
        Op::Say("after".to_string()),
    ];
    let mut r = Runner::new(ops, PackageManager::Apt);
    assert!(matches!(r.step(Event::Done), Action::Exists(_)));
    match r.step(Event::Exists(false)) {
        Action::Say(s) => assert_eq!(s, "after"),
        _ => panic!("skip"),
    }
    assert!(matches!(r.step(Event::Done), Action::Finish(Ok(()))));
    let mut r = Runner::new(vec![Op::IfMissing("/a".to_string(), Missing::Fail("No matching driver found".to_string()))], PackageManager::Apt);
    r.step(Event::Done);
    match r.step(Event::Exists(false)) {
        Action::Finish(Err(e)) => assert_eq!(e, "No matching driver found"),
        _ => panic!("fail"),
    }
    let mut r = Runner::new(vec![Op::IfMissing("/a".to_string(), Missing::Panic("assertion failed".to_string()))], PackageManager::Apt);
    r.step(Event::Done);
    assert!(matches!(r.step(Event::Exists(false)), Action::Panic(_)));
    assert!(matches!(r.step(Event::Done), Action::Panic(_)));
}

#[test]
fn listed_packages_are_not_reinstalled() {
    let ops = vec![Op::EnsurePackage("dnsmasq".to_string(), Some("Installing dnsmasq ...".to_string()), true)];
    let mut r = Runner::new(ops, PackageManager::Pacman);
    match r.step(Event::Done) {
        Action::Capture(i) => assert_eq!(line(&i), "pacman -Q dnsmasq"),
        _ => panic!("listing"),
    }
    assert!(matches!(r.step(exited(true, "dnsmasq 2.90-1\n")), Action::Finish(Ok(()))));
}

#[test]
fn missing_packages_are_installed_after_the_notice() {
    let ops = vec![Op::EnsurePackage("dnsmasq".to_string(), Some("Installing dnsmasq ...".to_string()), true)];
    let mut r = Runner::new(ops, PackageManager::Pacman);
    r.step(Event::Done);
    match r.step(exited(false, "error: package 'dnsmasq' was not found\n")) {
        Action::Say(s) => assert_eq!(s, "Installing dnsmasq ..."),
        _ => panic!("notice"),
    }
    assert!(matches!(r.step(Event::Done), Action::Ask(Query::Elevated)));
    match r.step(Event::Answer(Some("sudo".to_string()))) {
        Action::Run(i) => assert_eq!(line(&i), "sudo pacman -S dnsmasq -y"),
        _ => panic!("install"),
    }
    assert!(matches!(r.step(exited(false, "")), Action::Finish(Ok(()))));
    let ops = vec![Op::Install("nginx".to_string())];
    let mut r = Runner::new(ops, PackageManager::Pacman);
    r.step(Event::Done);
    match r.step(Event::Answer(None)) {
        Action::Panic(m) => assert_eq!(m, "Elevated command not available"),
        _ => panic!("no elevated"),
    }
}

#[test]
fn lenient_listing_failure_counts_as_installed() {
    let ops = vec![Op::EnsurePackage("nginx".to_string(), None, false)];
    let mut r = Runner::new(ops, PackageManager::Apt);
    r.step(Event::Done);
    assert!(matches!(r.step(Event::Failed("x".to_string())), Action::Finish(Ok(()))));
    let ops = vec![Op::EnsurePackage("nginx".to_string(), None, true)];
    let mut r = Runner::new(ops, PackageManager::Apt);
    r.step(Event::Done);
    assert!(matches!(r.step(Event::Failed("x".to_string())), Action::Finish(Err(_))));
}

#[test]
fn nginx_configuration_is_backed_up_and_rendered() {
    let ops = valex::services::nginx::Nginx::setup("user VALET_USER VALET_GROUP; VALET_PID; VALET_HOME_PATH", "/home/a/.config/valex");
    let mut r = Runner::new(ops, PackageManager::Apt);
    r.step(Event::Done);
    assert!(matches!(r.step(exited(true, "nginx/now 1.24 amd64\n")), Action::Exists(_)));
    assert!(matches!(r.step(Event::Exists(true)), Action::Clock));
    assert!(matches!(r.step(Event::Clock(1700000000)), Action::Ask(Query::Elevated)));
    match r.step(Event::Answer(Some("sudo".to_string()))) {
        Action::Run(i) => assert_eq!(line(&i), "sudo cp /etc/nginx/nginx.conf /etc/nginx/nginx.conf.back.1700000000"),
        _ => panic!("copy"),
    }
    match r.step(exited(true, "")) {
        Action::Say(s) => assert_eq!(s, "Backed up nginx config to /etc/nginx/nginx.conf.back.1700000000"),
        _ => panic!("backed up"),
    }
    match r.step(Event::Done) {
        Action::Capture(i) => assert_eq!(line(&i), "cat /lib/systemd/system/nginx.service"),
        _ => panic!("unit"),
    }
    assert!(matches!(r.step(exited(true, "PIDFile=/run/nginx.pid")), Action::Ask(Query::User)));
    assert!(matches!(r.step(Event::Answer(Some("alice".to_string()))), Action::Ask(Query::Group)));
    match r.step(Event::Answer(Some("users".to_string()))) {
        Action::Ask(Query::Canonical(p)) => assert_eq!(p, "/home/a/.config/valex"),
        _ => panic!("canonical"),
    }
    assert!(matches!(r.step(Event::Answer(Some("/home/a/.config/valex".to_string()))), Action::Ask(Query::Elevated)));
    match r.step(Event::Answer(Some("doas".to_string()))) {
        Action::Feed(i, c, true, true) => {
            assert_eq!(line(&i), "doas tee /etc/nginx/nginx.conf");
            assert_eq!(c, "user alice users; # pid /run/nginx.pid; /home/a/.config/valex");
        }
        _ => panic!("tee"),
    }
    match r.step(exited(true, "")) {
        Action::Say(s) => assert_eq!(s, "Nginx config updated sucessfully."),
        _ => panic!("updated"),
    }
    assert!(matches!(r.step(Event::Done), Action::Finish(Ok(()))));
}

#[test]
fn stub_listener_read_modify_write() {
    let mut r = Runner::new(vec![Op::StubListener("/etc/systemd/resolved.conf".to_string())], PackageManager::Apt);
    r.step(Event::Done);
    assert!(matches!(r.step(Event::Exists(true)), Action::Read(_)));
    match r.step(Event::Text("[Resolve]".to_string())) {
        Action::Write(p, c) => {
            assert_eq!(p, "/etc/systemd/resolved.conf");
            assert_eq!(c, "[Resolve]\nDNSStubListener=no\n");
        }
        _ => panic!("write"),
    }
    match r.step(Event::Done) {
        Action::Say(s) => assert_eq!(s, "Added DNSStubListener=no to resolved.conf"),
        _ => panic!("added"),
    }
    let mut r = Runner::new(vec![Op::StubListener("/etc/r".to_string())], PackageManager::Apt);
    r.step(Event::Done);
    r.step(Event::Exists(true));
    match r.step(Event::Text("DNSStubListener=no\n".to_string())) {
        Action::Say(s) => assert_eq!(s, "DNSStubListener=no already configured"),
        _ => panic!("already"),
    }
}

fn inputs() -> SetupInputs {
    SetupInputs {
        dnsmasq_stub: "D".to_string(),
        nginx_stub: "N".to_string(),
        fpm_template: "F".to_string(),
        username: "alice".to_string(),
        groupname: "users".to_string(),
        nginx_files_path: "/n".to_string(),
        config: Configuration::default(),
    }
}

#[test]
fn commands_become_tasks() {
    let i = inputs();
    match Commands::Install.run(&i) {
        Task::Setup(ops) => assert_eq!(ops.len(), Dns::setup("D").len() + 6),
        _ => panic!("install"),
    }
    match Commands::Setup(SetupArgs { command: Some(SetupCommand::Nginx) }).run(&i) {
        Task::Setup(ops) => assert_eq!(ops.len(), 6),
        _ => panic!("setup nginx"),
    }
    assert_eq!(setup_run(SetupArgs { command: None }, &i).len(), Dns::setup("D").len() + 6 + 1);
    assert_eq!(setup_run(SetupArgs { command: Some(SetupCommand::PHPFpm) }, &i).len(), 1);
    let args = ServeArgs { path: ".".to_string(), domain: None, php_version: None };
    assert!(matches!(Commands::Serve(args).run(&i), Task::Serve(_)));
}

#[test]
fn serve_resolution() {
    assert!(uses_current_dir("."));
    assert!(uses_current_dir("  "));
    assert!(uses_current_dir(""));
    assert!(!uses_current_dir("./"));
    assert!(!uses_current_dir("/srv/shop"));
    let args = ServeArgs { path: "/srv/shop".to_string(), domain: Some("shop".to_string()), php_version: Some("8.3".to_string()) };
    let ctx = context(args, "/srv/shop".to_string(), &Configuration::default());
    assert_eq!(ctx.php_fpm, None);
    let ops = serve_run(&ctx, "/n");
    assert_eq!(ops.len(), 5);
    let mut r = Runner::new(ops, PackageManager::Apt);
    match r.step(Event::Done) {
        Action::Exists(p) => assert_eq!(p, "/srv/shop/artisan"),
        _ => panic!("artisan"),
    }
    match r.step(Event::Exists(true)) {
        Action::Exists(p) => assert_eq!(p, "/srv/shop/public/index.php"),
        _ => panic!("index"),
    }
    match r.step(Event::Exists(true)) {
        Action::Print(s) => assert_eq!(s, "Using Laravel driver."),
        _ => panic!("driver"),
    }
}

#[test]
fn nginx_tee_is_always_waited_for() {
    for (outcome, expected) in [
        (exited(false, ""), Some("Failed to write config via sudo tee")),
        (Event::NoStdin, Some("Failed to write config via sudo tee")),
        (exited(true, ""), None),
    ] {
        let ops = valex::services::nginx::Nginx::setup("T", "/h");
        let mut r = Runner::new(ops, PackageManager::Apt);
        r.step(Event::Done);
        r.step(exited(true, "nginx/now 1.24 amd64\n"));
        r.step(Event::Exists(false));
        r.step(exited(true, ""));
        r.step(Event::Answer(Some("alice".to_string())));
        r.step(Event::Answer(Some("users".to_string())));
        r.step(Event::Answer(Some("/h".to_string())));
        assert!(matches!(r.step(Event::Answer(Some("sudo".to_string()))), Action::Feed(_, _, true, true)));
        match (r.step(outcome), expected) {
            (Action::Finish(Err(e)), Some(m)) => assert_eq!(e, m),
            (Action::Say(s), None) => assert_eq!(s, "Nginx config updated sucessfully."),
            _ => panic!("tee outcome"),
        }
    }
}

#[test]
fn caddy_import_line_is_appended_only_when_absent() {
    for (found, appended) in [(true, false), (false, true)] {
        let mut r = Runner::new(valex::setup::caddy::Caddy::setup("/x"), PackageManager::Apt);
        r.step(Event::Done);
        r.step(Event::Done);
        r.step(Event::Answer(Some("sudo".to_string())));
        r.step(exited(true, ""));
        assert!(matches!(r.step(Event::Done), Action::Exists(_)));
        assert!(matches!(r.step(Event::Exists(true)), Action::Run(_)));
        match r.step(exited(true, "")) {
            Action::Run(i) => assert_eq!(line(&i), "grep -qxF import /x/*.caddyfile /etc/caddy/Caddyfile"),
            _ => panic!("grep"),
        }
        match r.step(exited(found, "")) {
            Action::Run(i) => {
                assert!(appended);
                assert_eq!(i.program, "sh");
            }
            Action::Say(s) => {
                assert!(!appended);
                assert_eq!(s, "reload default caddy systemd service");
            }
            _ => panic!("after grep"),
        }
    }
}

#[test]
fn serving_an_unnamed_directory() {
    let ctx = valex::drivers::ServeContext {
        domain: None,
        path: "..".to_string(),
        php_version: Some("8.3".to_string()),
        php_fpm: Some("/run/php83.sock".to_string()),
    };
    let mut r = Runner::new(serve_run(&ctx, "/n"), PackageManager::Apt);
    assert!(matches!(r.step(Event::Done), Action::Exists(p) if p == "../artisan"));
    match r.step(Event::Exists(false)) {
        Action::Finish(Err(e)) => assert_eq!(e, "No matching driver found"),
        _ => panic!("no driver"),
    }
    let mut r = Runner::new(serve_run(&ctx, "/n"), PackageManager::Apt);
    r.step(Event::Done);
    r.step(Event::Exists(true));
    assert!(matches!(r.step(Event::Exists(true)), Action::Print(_)));
    assert!(matches!(r.step(Event::Done), Action::Say(_)));
    match r.step(Event::Done) {
        Action::Panic(m) => assert_eq!(m, "called `Option::unwrap()` on a `None` value"),
        _ => panic!("abort"),
    }
    assert!(r.is_over());
}
