use opencode_desktop::launch::{user_shell, Launcher};
use opencode_desktop::port::{choose_port, PortChoice};
use opencode_desktop::readiness::{
    Action, Coordinator, Event, Phase, POLL_INTERVAL_MS, STARTUP_TIMEOUT_MS, WARMUP_MS,
};
use opencode_desktop::shutdown::ShutdownGuard;
use opencode_desktop::startup::{copy_logs_button, dialog_closed, initialization_script};
use opencode_desktop::text::{parse_port, push_decimal};

#[test]
fn terminate_twice_kills_once() {
    let mut guard = ShutdownGuard::new();
    guard.install(42u32);
    assert_eq!(guard.terminate(), Some(42));
    assert_eq!(guard.terminate(), None);
}

#[test]
fn terminate_without_child_is_a_no_op() {
    let mut guard: ShutdownGuard<u32> = ShutdownGuard::new();
    assert_eq!(guard.terminate(), None);
    assert_eq!(guard.terminate(), None);
}

#[test]
fn live_port_skips_spawn() {
    let mut c = Coordinator::new();
    assert_eq!(c.phase(), Phase::Start);
    assert_eq!(c.step(Event::Begin), Action::Probe);
    assert_eq!(c.step(Event::Probed { live: true, elapsed_ms: 0 }), Action::OpenWindow);
    assert_eq!(c.phase(), Phase::AlreadyRunning);
    assert_eq!(c.step(Event::Spawned), Action::Idle);
    assert_eq!(c.step(Event::Slept), Action::Idle);
    assert_eq!(c.phase(), Phase::AlreadyRunning);
}

#[test]
fn spawned_server_becomes_ready() {
    let mut c = Coordinator::new();
    assert_eq!(c.step(Event::Begin), Action::Probe);
    assert_eq!(c.step(Event::Probed { live: false, elapsed_ms: 0 }), Action::Spawn);
    assert_eq!(c.step(Event::Spawned), Action::Sleep { ms: POLL_INTERVAL_MS });
    assert_eq!(c.step(Event::Slept), Action::Probe);
    assert_eq!(
        c.step(Event::Probed { live: false, elapsed_ms: 10 }),
        Action::Sleep { ms: POLL_INTERVAL_MS }
    );
    assert_eq!(c.step(Event::Slept), Action::Probe);
    assert_eq!(c.step(Event::Probed { live: true, elapsed_ms: 20 }), Action::Sleep { ms: WARMUP_MS });
    assert_eq!(c.phase(), Phase::WarmingUp);
    assert_eq!(c.step(Event::Slept), Action::OpenWindow);
    assert_eq!(c.phase(), Phase::Ready);
}

#[test]
fn silent_server_times_out_once() {
    assert_eq!(STARTUP_TIMEOUT_MS, 7000);
    let mut c = Coordinator::new();
    c.step(Event::Begin);
    c.step(Event::Probed { live: false, elapsed_ms: 0 });
    c.step(Event::Spawned);
    let mut escalations = 0;
    let mut elapsed: u64 = 0;
    for _ in 0..2000 {
        elapsed += 10;
        let a = c.step(Event::Slept);
        if a == Action::ShowFailureDialog {
            escalations += 1;
        }
        let b = c.step(Event::Probed { live: false, elapsed_ms: elapsed });
        if b == Action::ShowFailureDialog {
            escalations += 1;
            assert_eq!(elapsed, 7010);
        }
    }
    assert_eq!(escalations, 1);
    assert_eq!(c.phase(), Phase::TimedOut);
    assert_eq!(c.step(Event::DialogClosed { copy_logs: true }), Action::CopyLogsAndExit);
    assert_eq!(c.phase(), Phase::Exited);
    assert_eq!(c.step(Event::DialogClosed { copy_logs: false }), Action::Idle);
}

#[test]
fn deadline_is_exclusive() {
    let mut c = Coordinator::new();
    c.step(Event::Begin);
    c.step(Event::Probed { live: false, elapsed_ms: 0 });
    c.step(Event::Spawned);
    c.step(Event::Slept);
    assert_eq!(
        c.step(Event::Probed { live: false, elapsed_ms: 7000 }),
        Action::Sleep { ms: POLL_INTERVAL_MS }
    );
    c.step(Event::Slept);
    assert_eq!(c.step(Event::Probed { live: false, elapsed_ms: 7001 }), Action::ShowFailureDialog);
}

#[test]
fn exit_without_copying_logs() {
    let mut c = Coordinator::new();
    c.step(Event::Begin);
    c.step(Event::Probed { live: false, elapsed_ms: 0 });
    c.step(Event::Spawned);
    c.step(Event::Slept);
    c.step(Event::Probed { live: false, elapsed_ms: 8000 });
    assert_eq!(c.step(Event::DialogClosed { copy_logs: false }), Action::Exit);
}

#[test]
fn dialog_choice_follows_button_label() {
    let copy = copy_logs_button();
    assert_eq!(copy, "Copy Logs And Exit");
    assert_eq!(dialog_closed(Some(&copy)), Event::DialogClosed { copy_logs: true });
    assert_eq!(dialog_closed(Some(&"Exit".to_string())), Event::DialogClosed { copy_logs: false });
    assert_eq!(dialog_closed(None), Event::DialogClosed { copy_logs: false });
}

#[test]
fn port_overrides_take_precedence() {
    assert_eq!(choose_port(Some("4096"), Some("5000")), PortChoice::Fixed(4096));
    assert_eq!(choose_port(None, Some("5000")), PortChoice::Fixed(5000));
    assert_eq!(choose_port(None, None), PortChoice::Ephemeral);
}

#[test]
fn unusable_build_override_does_not_fall_back_to_runtime() {
    assert_eq!(choose_port(Some("not a port"), Some("5000")), PortChoice::Ephemeral);
    assert_eq!(choose_port(None, Some("99999")), PortChoice::Ephemeral);
}

#[test]
fn port_parsing() {
    assert_eq!(parse_port("0"), Some(0));
    assert_eq!(parse_port("+80"), Some(80));
    assert_eq!(parse_port("65535"), Some(65535));
    assert_eq!(parse_port("0008080"), Some(8080));
    assert_eq!(parse_port("65536"), None);
    assert_eq!(parse_port("123456789012345678901234567890"), None);
    assert_eq!(parse_port(""), None);
    assert_eq!(parse_port("+"), None);
    assert_eq!(parse_port("-1"), None);
    assert_eq!(parse_port("80a"), None);
    assert_eq!(parse_port(" 80"), None);
}

#[test]
fn decimal_formatting() {
    let mut s = "port=".to_string();
    push_decimal(&mut s, 0);
    assert_eq!(s, "port=0");
    let mut t = String::new();
    push_decimal(&mut t, 4294967295);
    assert_eq!(t, "4294967295");
}

#[test]
fn sidecar_command_line() {
    let c = Launcher::Sidecar.command(4096, "/data/state");
    assert_eq!(c.program, "opencode-cli");
    assert_eq!(c.args, vec!["serve".to_string(), "--port=4096".to_string()]);
    assert_eq!(
        c.env,
        vec![
            ("OPENCODE_EXPERIMENTAL_ICON_DISCOVERY".to_string(), "true".to_string()),
            ("OPENCODE_CLIENT".to_string(), "desktop".to_string()),
            ("XDG_STATE_HOME".to_string(), "/data/state".to_string()),
        ]
    );
}

#[test]
fn login_shell_command_line() {
    let launcher = Launcher::LoginShell {
        shell: "/bin/zsh".to_string(),
        sidecar_path: "/opt/app/opencode-cli".to_string(),
    };
    let c = launcher.command(51234, "/home/u/.local/share/app");
    assert_eq!(c.program, "/bin/zsh");
    assert_eq!(
        c.args,
        vec![
            "-il".to_string(),
            "-c".to_string(),
            "/opt/app/opencode-cli serve --port=51234".to_string(),
        ]
    );
    assert_eq!(c.env[2].1, "/home/u/.local/share/app");
}

#[test]
fn shell_falls_back_to_posix_default() {
    assert_eq!(user_shell(None), "/bin/sh");
    assert_eq!(user_shell(Some("/usr/bin/fish".to_string())), "/usr/bin/fish");
}

#[test]
fn startup_payload_script() {
    assert_eq!(
        initialization_script(true, 4096),
        "window.__OPENCODE__ ??= {};\nwindow.__OPENCODE__.updaterEnabled = true;\nwindow.__OPENCODE__.port = 4096;\n"
    );
    assert_eq!(
        initialization_script(false, 7),
        "window.__OPENCODE__ ??= {};\nwindow.__OPENCODE__.updaterEnabled = false;\nwindow.__OPENCODE__.port = 7;\n"
    );
}
