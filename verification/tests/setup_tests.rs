use valex::app_core::app::{App, DirStep};
use valex::app_core::configuration::{Configuration, PhpInstallation};
use valex::configuration::Config;
use valex::drivers::laravel::Laravel;
use valex::drivers::{drivers, Driver, DriverKind, ServeContext};
use valex::process::Invocation;
use valex::script::{Missing, Op, SpawnFailure};
use valex::services::dnsmasq::DnsMasq;
use valex::services::nginx::Nginx as NginxService;
use valex::setup::caddy::Caddy;
use valex::setup::dns::Dns;
use valex::setup::nginx::Nginx;
use valex::setup::php_fpm::PHPFpm;
use valex::util::{chown_spec, sudo_chown};

fn describe(op: &Op) -> String {
    match op {
        Op::Say(s) => format!("say {s}"),
        Op::Print(s) => format!("print {s}"),
        Op::Warn(s) => format!("warn {s}"),
        Op::Fail(s) => format!("fail {s}"),
        Op::Abort(s) => format!("abort {s}"),
        Op::RootDir(d) => format!("rootdir {d}"),
        Op::RootWrite(p, _) => format!("rootwrite {p}"),
        Op::WriteFile(p, _) => format!("write {p}"),
        Op::Exec(i, _, _) => format!("exec {}", line(i)),
        Op::Pipe(i, _, _, _, _) => format!("pipe {}", line(i)),
        Op::Probe(i, b, n, c) => format!("probe {} {b} {n} {c}", line(i)),
        Op::Install(p) => format!("install {p}"),
        Op::EnsurePackage(p, _, strict) => format!("ensure {p} {strict}"),
        Op::IfMissing(p, _) => format!("ifmissing {p}"),
        Op::VersionGate(n) => format!("versiongate {n}"),
        Op::Backup(p) => format!("backup {p}"),
        Op::NginxConfig(_, d) => format!("nginxconfig {d}"),
        Op::StubListener(p) => format!("stublistener {p}"),
    }
}

fn line(i: &Invocation) -> String {
    let mut s = i.program.clone();
    for a in &i.args {
        s.push(' ');
        s.push_str(a);
    }
    s
}

#[test]
fn systemd_version_is_the_second_word() {
    assert_eq!(Dns::parse_systemd_version("systemd 258 (258.1-1-arch)\n+PAM +AUDIT\n"), Some(258));
    assert_eq!(Dns::parse_systemd_version("systemd 255 (255.4-1ubuntu8)"), Some(255));
    assert_eq!(Dns::parse_systemd_version(""), None);
    assert_eq!(Dns::parse_systemd_version("systemd\n258"), None);
    assert_eq!(Dns::parse_systemd_version("systemd v258"), None);
}

#[test]
fn dns_setup_script() {
    let ops = Dns::setup("STUB");
    let d: Vec<String> = ops.iter().map(describe).collect();
    assert_eq!(
        d,
        vec![
            "versiongate 20",
            "say Setting up systemd resolved dns delegate config ...",
            "rootdir /etc/systemd/dns-delegate.d",
            "rootwrite /etc/systemd/dns-delegate.d/valet-rust.dns-delegate",
            "say DNS delegate config written to /etc/systemd/dns-delegate.d/valet-rust.dns-delegate",
            "say Disable systemd resolved DNSStubListener",
            "rootdir /etc/systemd/resolved.conf.d",
            "rootwrite /etc/systemd/resolved.conf.d/no-stub-listener.conf",
            "say DNSStubListener disabled via drop-in at /etc/systemd/resolved.conf.d/no-stub-listener.conf",
            "ensure dnsmasq true",
            "say Setting up dnsmasq configuration ...",
            "rootwrite /etc/dnsmasq.conf",
            "rootdir /etc/dnsmasq.d",
            "rootwrite /etc/dnsmasq.d/valet-rust.conf",
            "say dnsmasq config written to /etc/dnsmasq.d/valet-rust.conf",
            "say Restarting dnsmasq",
            "exec sudo systemctl restart dnsmasq",
            "say Enable dnsmasq systemd service ...",
            "exec sudo systemctl enable --now dnsmasq",
            "say Restarting systemd-resolved",
            "exec sudo systemctl restart systemd-resolved",
        ]
    );
    match &ops[11] {
        Op::RootWrite(_, c) => assert_eq!(c, "STUB"),
        _ => panic!("dnsmasq.conf"),
    }
    match &ops[3] {
        Op::RootWrite(_, c) => assert_eq!(c, "[Delegate]\nDNS=127.0.0.1\nDomains=~test\nDNSSECMode=no\n"),
        _ => panic!("delegate"),
    }
}

#[test]
fn nginx_config_from_template() {
    let c = Nginx::load_nginx_config("user {{VALEX_USER}};\ninclude {{VALEX_NGINX_CONFIGS_PATH}};\n", "alice", "/home/alice/.config/valex/nginx");
    assert_eq!(c, "user alice;\ninclude /home/alice/.config/valex/nginx/*.conf;\n");
}

#[test]
fn nginx_setup_script_checks_selinux() {
    let ops = Nginx::setup("user {{VALEX_USER}};", "alice", "/n");
    let d: Vec<String> = ops.iter().map(describe).collect();
    assert_eq!(
        d,
        vec![
            "say Setting nginx",
            "install nginx",
            "pipe sudo tee /etc/nginx/nginx.conf",
            "ifmissing /sys/fs/selinux",
            "exec sudo setsebool -P httpd_read_user_content 1",
            "exec sudo systemctl restart nginx",
        ]
    );
    match &ops[2] {
        Op::Pipe(_, c, SpawnFailure::Passthrough, Missing::Panic(p), Some(f)) => {
            assert_eq!(p, "called `Option::unwrap()` on a `None` value");
            assert_eq!(c, "user alice;");
            assert_eq!(f, "failed to write nginx.conf");
        }
        _ => panic!("tee"),
    }
    assert!(matches!(&ops[3], Op::IfMissing(_, Missing::Skip(1))));
}

fn config() -> Configuration {
    Configuration {
        php: vec![
            (
                "8.3".to_string(),
                PhpInstallation {
                    fpm_config_path: "/etc/php83/php-fpm.d/valex.conf".to_string(),
                    fpm_socket_path: "/run/php83.sock".to_string(),
                    fpm_binary_path: None,
                    cli_binary_path: None,
                },
            ),
            (
                "8.4".to_string(),
                PhpInstallation {
                    fpm_config_path: "/etc/php84/php-fpm.d/valex.conf".to_string(),
                    fpm_socket_path: "/run/php84.sock".to_string(),
                    fpm_binary_path: Some("/usr/sbin/php-fpm84".to_string()),
                    cli_binary_path: None,
                },
            ),
        ],
    }
}

#[test]
fn php_fpm_pools_per_installation() {
    let t = "user={{VALEX_USER}} group={{VALEX_USERGROUP}} owner={{VALEX_FPM_SOCKET_OWNER}} sgroup={{VALEX_FPM_SOCKET_GROUP}} listen={{VALEX_FPM_SOCKET_PATH}}";
    assert_eq!(
        PHPFpm::fpm_config(t, "alice", "users"),
        "user=alice group=users owner=alice sgroup=users listen={{VALEX_FPM_SOCKET_PATH}}"
    );
    let ops = PHPFpm::setup(t, "alice", "users", &config());
    let d: Vec<String> = ops.iter().map(describe).collect();
    assert_eq!(
        d,
        vec![
            "pipe sudo tee /etc/php83/php-fpm.d/valex.conf",
            "pipe sudo tee /etc/php84/php-fpm.d/valex.conf",
            "exec sudo systemctl restart php*-fpm.service",
        ]
    );
    match &ops[1] {
        Op::Pipe(_, c, SpawnFailure::Context(ctx), Missing::Fail(m), None) => {
            assert_eq!(m, "failed to open stdin");
            assert!(c.ends_with("listen=/run/php84.sock"));
            assert_eq!(ctx, "failed to start tee");
        }
        _ => panic!("pool"),
    }
    assert_eq!(PHPFpm::setup(t, "a", "b", &Configuration::default()).len(), 1);
}

#[test]
fn caddy_imports_site_files() {
    assert_eq!(Caddy::import_line("/home/u/.config/valex/nginx"), "import /home/u/.config/valex/nginx/*.caddyfile");
    assert_eq!(
        Caddy::append_command("import /x/*.caddyfile"),
        "printf '%s\n' 'import /x/*.caddyfile' | sudo tee -a /etc/caddy/Caddyfile >/dev/null"
    );
    let d: Vec<String> = Caddy::setup("/x").iter().map(describe).collect();
    assert_eq!(
        d,
        vec![
            "say Installing caddy using system package manager",
            "install caddy",
            "say Setup caddy configuration",
            "ifmissing /etc/caddy/Caddyfile",
            "exec mkdir -p /x",
            "probe grep -qxF import /x/*.caddyfile /etc/caddy/Caddyfile true 1 false",
            "exec sh -c printf '%s\n' 'import /x/*.caddyfile' | sudo tee -a /etc/caddy/Caddyfile >/dev/null",
            "say reload default caddy systemd service",
            "exec sudo systemctl restart --now caddy",
        ]
    );
}

#[test]
fn stub_listener_is_added_once() {
    assert_eq!(DnsMasq::stub_listener_update(""), Some("\nDNSStubListener=no\n".to_string()));
    assert_eq!(DnsMasq::stub_listener_update("[Resolve]"), Some("[Resolve]\nDNSStubListener=no\n".to_string()));
    assert_eq!(DnsMasq::stub_listener_update("[Resolve]\n"), Some("[Resolve]\nDNSStubListener=no\n".to_string()));
    assert_eq!(DnsMasq::stub_listener_update("[Resolve]\nDNSStubListener=no\n"), None);
    let once = DnsMasq::stub_listener_update("[Resolve]\nDNS=1.1.1.1").unwrap();
    assert_eq!(DnsMasq::stub_listener_update(&once), None);
}

#[test]
fn dnsmasq_setup_script() {
    let d: Vec<String> = DnsMasq::setup().iter().map(describe).collect();
    assert_eq!(
        d,
        vec![
            "say Setting up dnsmasq",
            "ensure dnsmasq true",
            "probe systemctl is-active systemd-resolved --quiet false 3 true",
            "say Uses systemd resolved, configuring it to prevent conflict with dnsmasq.",
            "stublistener /etc/systemd/resolved.conf",
            "probe systemctl restart systemd-resolved true 0 true",
        ]
    );
}

#[test]
fn nginx_service_pieces() {
    assert_eq!(NginxService::pid_directive("[Service]\nPIDFile=/run/nginx.pid\n"), "# pid /run/nginx.pid");
    assert_eq!(NginxService::pid_directive("[Service]\n"), "pid /run/nginx.pid");
    assert_eq!(NginxService::backup_path("/etc/nginx/nginx.conf", 1700000000), "/etc/nginx/nginx.conf.back.1700000000");
    assert_eq!(
        NginxService::render_config("user VALET_USER VALET_GROUP;\nVALET_PID;\nroot VALET_HOME_PATH;", "alice", "users", "pid /run/nginx.pid", "/home/alice/.config/valex"),
        "user alice users;\npid /run/nginx.pid;\nroot /home/alice/.config/valex;"
    );
    let d: Vec<String> = NginxService::setup("T", "/app").iter().map(describe).collect();
    assert_eq!(d, vec!["ensure nginx false", "ifmissing /etc/nginx/nginx.conf", "backup /etc/nginx/nginx.conf", "nginxconfig /app"]);
    let d: Vec<String> = NginxService::install().iter().map(describe).collect();
    assert_eq!(d, vec!["install nginx"]);
}

#[test]
fn chown_owner_argument() {
    assert_eq!(chown_spec(Some(1000), Some(100)), Some("1000:100".to_string()));
    assert_eq!(chown_spec(Some(1000), None), Some("1000".to_string()));
    assert_eq!(chown_spec(None, Some(100)), Some(":100".to_string()));
    assert_eq!(chown_spec(None, None), None);
    assert!(sudo_chown("/x", None, None).is_empty());
    let ops = sudo_chown("/x", Some(1), Some(2));
    assert_eq!(ops.iter().map(describe).collect::<Vec<_>>(), vec!["exec sudo chown 1:2 /x"]);
    match &ops[0] {
        Op::Exec(_, SpawnFailure::Describe(c), Some(f)) => {
            assert_eq!(c, "Failed to spawn `sudo chown /x`");
            assert_eq!(f, "Failed to chown /x via sudo chown");
        }
        _ => panic!("chown"),
    }
}

#[test]
fn laravel_domains() {
    assert_eq!(Laravel::test_domain("shop"), "shop.test");
    assert_eq!(Laravel::test_domain("shop.test"), "shop.test");
    assert_eq!(Laravel::test_domain(&Laravel::test_domain("a.b")), "a.b.test");
    assert_eq!(Laravel::site_domain(Some("blog"), "/x"), "blog.test");
    assert_eq!(Laravel::site_domain(None, "/home/u/My Project"), "my-project.test");
    assert_eq!(Laravel::site_domain(None, "/home/u/Æúű--cool?/"), "aeuu-cool.test");
}

#[test]
fn laravel_caddyfile() {
    assert_eq!(
        Laravel::caddyfile("shop.test", "/srv/shop/public", "unix//run/php.sock"),
        "shop.test {\n    tls internal\n    root * /srv/shop/public\n    encode zstd gzip\n\n    php_fastcgi unix//run/php.sock\n    file_server\n}\n"
    );
}

#[test]
fn laravel_serve_script() {
    let ctx = ServeContext { domain: None, path: "/srv/My Shop".to_string(), php_version: Some("8.3".to_string()), php_fpm: Some("unix//run/php83.sock".to_string()) };
    let ops = Laravel.serve(&ctx, "/n");
    let d: Vec<String> = ops.iter().map(describe).collect();
    assert_eq!(
        d,
        vec![
            "say → Configuring Laravel site...",
            "say ✓ Using domain: my-shop.test",
            "say ✓ Using PHP-FPM: unix//run/php83.sock",
            "say → Writing Caddyfile to /n/my-shop.test.caddyfile",
            "write /n/my-shop.test.caddyfile",
            "say ✓ Caddyfile created successfully",
        ]
    );
    let ctx = ServeContext { domain: Some("x".to_string()), path: "/".to_string(), php_version: None, php_fpm: None };
    let d: Vec<String> = Laravel.serve(&ctx, "/n").iter().map(describe).collect();
    assert_eq!(d, vec!["say → Configuring Laravel site...", "fail Please provide php-fpm path."]);
    for path in ["/", "/srv/..", ".."] {
        let ctx = ServeContext { domain: None, path: path.to_string(), php_version: None, php_fpm: Some("s".to_string()) };
        let d: Vec<String> = Laravel.serve(&ctx, "/n").iter().map(describe).collect();
        assert_eq!(
            d,
            vec!["say → Configuring Laravel site...", "abort called `Option::unwrap()` on a `None` value"]
        );
    }
}

#[test]
fn drivers_and_layout() {
    assert_eq!(drivers(), vec![DriverKind::Laravel]);
    let l = App::layout("/home/alice");
    assert_eq!(l.app_dir, "/home/alice/.config/valex");
    assert_eq!(l.config_file, "/home/alice/.config/valex/config.json5");
    assert_eq!(l.nginx_files_path, "/home/alice/.config/valex/nginx");
    let app = App::new(Configuration::default(), "alice".into(), "users".into(), "/home/alice".into(), 1000, 100);
    assert_eq!(app.nginx_files_path, "/home/alice/.config/valex/nginx");
    assert!(App::needs_chown(Some("alice")));
    assert!(!App::needs_chown(None));
}

fn step(s: &DirStep) -> String {
    match s {
        DirStep::Create(d) => format!("create {d}"),
        DirStep::Chown(d, u, g) => format!("chown {u}:{g} {d}"),
    }
}

#[test]
fn directories_are_prepared_in_order() {
    let plain: Vec<String> = App::dir_steps("/home/alice", false, 1000, 100).iter().map(step).collect();
    assert_eq!(plain, vec!["create /home/alice/.config/valex", "create /home/alice/.config/valex/nginx"]);
    let sudo: Vec<String> = App::dir_steps("/home/alice", true, 1000, 100).iter().map(step).collect();
    assert_eq!(
        sudo,
        vec![
            "create /home/alice/.config/valex",
            "chown 1000:100 /home/alice/.config/valex",
            "create /home/alice/.config/valex/nginx",
        ]
    );
}

#[test]
fn defaults() {
    assert_eq!(Config::default().default_php, "8.5");
    assert!(Configuration::default().php.is_empty());
    let c = config();
    assert_eq!(c.fpm_socket_for("8.4"), Some("/run/php84.sock".to_string()));
    assert_eq!(c.fpm_socket_for("7.4"), None);
}

#[test]
fn inserting_an_installation_replaces_its_version() {
    let install = |socket: &str| PhpInstallation {
        fpm_config_path: "/etc/x.conf".to_string(),
        fpm_socket_path: socket.to_string(),
        fpm_binary_path: None,
        cli_binary_path: None,
    };
    let mut c = config();
    c.insert("8.3".to_string(), install("/run/new83.sock"));
    assert_eq!(c.php.len(), 2);
    assert_eq!(c.php[0].0, "8.3");
    assert_eq!(c.fpm_socket_for("8.3"), Some("/run/new83.sock".to_string()));
    c.insert("8.5".to_string(), install("/run/php85.sock"));
    assert_eq!(c.php.len(), 3);
    assert_eq!(c.php[2].0, "8.5");
    assert_eq!(c.fpm_socket_for("8.4"), Some("/run/php84.sock".to_string()));
}

#[test]
fn laravel_driver_names_and_markers() {
    let d = Laravel;
    assert_eq!(d.name(), "Laravel");
    assert_eq!(d.markers("/srv/shop"), vec!["/srv/shop/artisan", "/srv/shop/public/index.php"]);
    assert_eq!(d.markers("/srv/shop/"), vec!["/srv/shop/artisan", "/srv/shop/public/index.php"]);
}
