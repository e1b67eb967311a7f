use harnex::config::AppConfig;
use harnex::launch::{
    command_override, dsh_command_line, native_command_line, package_spec,
    process_group_argument, version_command_line, windows_shell_argument,
};

fn cfg() -> AppConfig {
    AppConfig::with_home("/h".into())
}

#[test]
fn launch_command_lines() {
    let c = cfg();
    assert_eq!(dsh_command_line(&c, true), "dsh web --port 3080");
    assert_eq!(dsh_command_line(&c, false), "npx -y @deepseek-ai/dsh web --port 3080");
    let mut c = cfg();
    c.dsh_version = Some(" 0.1.0-rc.6 ".into());
    c.port = 4000;
    assert_eq!(dsh_command_line(&c, false), "npx -y @deepseek-ai/dsh@0.1.0-rc.6 web --port 4000");
    assert_eq!(package_spec(&c), "@deepseek-ai/dsh@0.1.0-rc.6");
    c.dsh_version = Some("   ".into());
    assert_eq!(package_spec(&c), "@deepseek-ai/dsh");
}

#[test]
fn override_wins_when_not_blank() {
    let mut c = cfg();
    c.dsh_command = Some("  node server.js  ".into());
    assert_eq!(command_override(&c).as_deref(), Some("node server.js"));
    assert_eq!(dsh_command_line(&c, false), "node server.js");
    c.dsh_command = Some(" ".into());
    assert_eq!(command_override(&c), None);
    assert_eq!(dsh_command_line(&c, true), "dsh web --port 3080");
}

#[test]
fn version_command_lines() {
    let mut c = cfg();
    assert_eq!(version_command_line(&c, true), "dsh --version");
    c.dsh_version = Some("1.2.3".into());
    assert_eq!(version_command_line(&c, false), "npx -y @deepseek-ai/dsh@1.2.3 --version");
}

#[test]
fn shell_arguments() {
    assert_eq!(windows_shell_argument("npx -y x"), "chcp 65001 >nul & npx -y x");
    assert_eq!(process_group_argument(1234), "-1234");
    assert_eq!(native_command_line(Some("  pnpm i ".into())).as_deref(), Some("pnpm i"));
    assert_eq!(native_command_line(Some("".into())), None);
    assert_eq!(native_command_line(None), None);
}

#[test]
fn version_pin_only_matters_for_npx() {
    let mut a = cfg();
    let mut b = cfg();
    a.dsh_version = Some("1.0.0".into());
    b.dsh_version = None;
    assert_eq!(dsh_command_line(&a, true), dsh_command_line(&b, true));
    assert_eq!(version_command_line(&a, true), version_command_line(&b, true));
    assert_ne!(dsh_command_line(&a, false), dsh_command_line(&b, false));
    a.dsh_command = Some("my-dsh".into());
    assert_eq!(dsh_command_line(&a, true), dsh_command_line(&a, false));
}

use harnex::launch::{native_console_args, terminal_emulators};

#[test]
fn native_console_arguments() {
    assert_eq!(native_console_args(Some("dir".into())), vec!["/K".to_string(), "dir".to_string()]);
    assert_eq!(native_console_args(None), vec!["/K".to_string()]);
    assert_eq!(terminal_emulators()[0], "x-terminal-emulator");
    assert_eq!(terminal_emulators().len(), 5);
}
