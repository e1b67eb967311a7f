//! The command lines that launch the service, ask its version, and run commands
//! through the system shell.

use vstd::prelude::*;
use crate::config::AppConfig;
use crate::number::{decimal, decimal_string};
use crate::text::{chars_of, ends_with, opt_view, starts_with, trim, trim_range, Strip};

verus! {

/// The text of an optional setting when it is not blank, trimmed.
pub open spec fn nonblank(o: Option<Seq<char>>) -> Option<Seq<char>> {
    match o {
        Some(s) => if trim(s).len() > 0 {
            Some(trim(s))
        } else {
            None
        },
        None => None,
    }
}

/// An optional setting, trimmed, when it is not blank.
pub fn nonblank_setting(o: &Option<String>) -> (res: Option<String>)
    ensures
        opt_view(res) == nonblank(opt_view(*o)),
{
    match o {
        Some(s) => {
            let v = chars_of(s.as_str());
            let (a, b) = trim_range(&v, 0, v.len(), Strip::Whitespace);
            assert(v@.subrange(0, v@.len() as int) =~= s@);
            if a == b {
                None
            } else {
                Some(String::from_str(s.as_str().substring_char(a, b)))
            }
        },
        None => None,
    }
}

/// The package that `npx` runs: pinned to the configured version when there is one.
pub open spec fn package_text(version: Option<Seq<char>>) -> Seq<char> {
    match nonblank(version) {
        Some(v) => "@deepseek-ai/dsh@"@ + v,
        None => "@deepseek-ai/dsh"@,
    }
}

/// The package that `npx` runs for the settings `cfg`.
pub fn package_spec(cfg: &AppConfig) -> (res: String)
    ensures
        res@ == package_text(opt_view(cfg.dsh_version)),
{
    match nonblank_setting(&cfg.dsh_version) {
        Some(v) => {
            let mut s = String::from_str("@deepseek-ai/dsh@");
            s.append(v.as_str());
            s
        },
        None => String::from_str("@deepseek-ai/dsh"),
    }
}

/// The command that launches the service: the configured override when it is not
/// blank; else the global `dsh` when `global_dsh` (it is installed), else `npx`.
pub open spec fn launch_text(
    command: Option<Seq<char>>,
    version: Option<Seq<char>>,
    port: u16,
    global_dsh: bool,
) -> Seq<char> {
    match nonblank(command) {
        Some(c) => c,
        None => if global_dsh {
            "dsh web --port "@ + decimal(port as nat)
        } else {
            "npx -y "@ + package_text(version) + " web --port "@ + decimal(port as nat)
        },
    }
}

/// The configured override of the launch command, trimmed, when it is not blank.
pub fn command_override(cfg: &AppConfig) -> (res: Option<String>)
    ensures
        opt_view(res) == nonblank(opt_view(cfg.dsh_command)),
{
    nonblank_setting(&cfg.dsh_command)
}

/// The command that launches the service for the settings `cfg`; `global_dsh` tells
/// whether a global `dsh` is installed (only asked when there is no override).
pub fn dsh_command_line(cfg: &AppConfig, global_dsh: bool) -> (res: String)
    ensures
        res@ == launch_text(opt_view(cfg.dsh_command), opt_view(cfg.dsh_version), cfg.port, global_dsh),
{
    match command_override(cfg) {
        Some(c) => c,
        None => {
            if global_dsh {
                let mut s = String::from_str("dsh web --port ");
                s.append(decimal_string(cfg.port as u64).as_str());
                s
            } else {
                let mut s = String::from_str("npx -y ");
                s.append(package_spec(cfg).as_str());
                s.append(" web --port ");
                s.append(decimal_string(cfg.port as u64).as_str());
                s
            }
        },
    }
}

/// The command that asks the service's version.
pub open spec fn version_text(version: Option<Seq<char>>, global_dsh: bool) -> Seq<char> {
    if global_dsh {
        "dsh --version"@
    } else {
        "npx -y "@ + package_text(version) + " --version"@
    }
}

/// The command that asks the service's version for the settings `cfg`.
pub fn version_command_line(cfg: &AppConfig, global_dsh: bool) -> (res: String)
    ensures
        res@ == version_text(opt_view(cfg.dsh_version), global_dsh),
{
    if global_dsh {
        String::from_str("dsh --version")
    } else {
        let mut s = String::from_str("npx -y ");
        s.append(package_spec(cfg).as_str());
        s.append(" --version");
        s
    }
}

/// The argument of `cmd /D /C` that runs `command_line` with UTF-8 output.
pub fn windows_shell_argument(command_line: &str) -> (res: String)
    ensures
        res@ == "chcp 65001 >nul & "@ + command_line@,
{
    let mut s = String::from_str("chcp 65001 >nul & ");
    s.append(command_line);
    s
}

/// The argument of `kill` that names the process group led by `pid`.
pub fn process_group_argument(pid: u32) -> (res: String)
    ensures
        res@ == "-"@ + decimal(pid as nat),
{
    let mut s = String::from_str("-");
    s.append(decimal_string(pid as u64).as_str());
    s
}

/// The command line of a native console: the command given, trimmed, unless blank.
pub fn native_command_line(command: Option<String>) -> (res: Option<String>)
    ensures
        opt_view(res) == nonblank(opt_view(command)),
{
    nonblank_setting(&command)
}

/// The terminal emulators tried, in order, for a native console outside Windows.
pub fn terminal_emulators() -> (res: Vec<&'static str>)
    ensures
        res@.len() == 5,
        res@[0]@ == "x-terminal-emulator"@,
        res@[1]@ == "gnome-terminal"@,
        res@[2]@ == "konsole"@,
        res@[3]@ == "xfce4-terminal"@,
        res@[4]@ == "xterm"@,
{
    vec!["x-terminal-emulator", "gnome-terminal", "konsole", "xfce4-terminal", "xterm"]
}

/// The arguments of `cmd` for a native console on Windows: `/K`, then the command
/// line when one is given.
pub fn native_console_args(command_line: Option<String>) -> (res: Vec<String>)
    ensures
        res@.len() == (if command_line is Some {
            2int
        } else {
            1int
        }),
        res@[0]@ == "/K"@,
        command_line matches Some(c) ==> res@[1]@ == c@,
{
    let mut args: Vec<String> = Vec::new();
    args.push(String::from_str("/K"));
    match command_line {
        Some(c) => args.push(c),
        None => {},
    }
    args
}

/// The pinned version only matters for `npx`: with a global `dsh`, or with an override,
/// the launch command is the same whatever the version. A non-blank override is used
/// as it stands, trimmed, whether or not a global `dsh` exists.
pub proof fn law_version_only_for_npx(
    command: Option<Seq<char>>,
    v1: Option<Seq<char>>,
    v2: Option<Seq<char>>,
    port: u16,
    global_dsh: bool,
)
    ensures
        launch_text(command, v1, port, true) == launch_text(command, v2, port, true),
        version_text(v1, true) == version_text(v2, true),
        nonblank(command) is Some ==> launch_text(command, v1, port, global_dsh) == launch_text(
            command,
            v2,
            port,
            !global_dsh,
        ),
        nonblank(command) is Some ==> launch_text(command, v1, port, global_dsh) == nonblank(
            command,
        )->0,
{
}

/// Without an override, the launch command runs the global `dsh` (when there is one) or
/// the package through `npx`, and ends in ` --port ` and the configured port, whether
/// or not a global `dsh` exists; with an override, it is the override, trimmed.
pub proof fn law_launch_on_configured_port(
    command: Option<Seq<char>>,
    version: Option<Seq<char>>,
    port: u16,
    global_dsh: bool,
)
    ensures
        nonblank(command) is None ==> ends_with(
            launch_text(command, version, port, global_dsh),
            " --port "@ + decimal(port as nat),
        ),
        nonblank(command) is None && global_dsh ==> starts_with(
            launch_text(command, version, port, global_dsh),
            "dsh web"@,
        ),
        nonblank(command) is None && !global_dsh ==> starts_with(
            launch_text(command, version, port, global_dsh),
            "npx -y "@ + package_text(version) + " web"@,
        ),
        nonblank(command) matches Some(c) ==> launch_text(command, version, port, global_dsh) == c,
{
    reveal_strlit("dsh web --port ");
    reveal_strlit("dsh web");
    reveal_strlit(" web --port ");
    reveal_strlit(" web");
    reveal_strlit(" --port ");
    let d = decimal(port as nat);
    let tail = " --port "@ + d;
    assert("dsh web --port "@ =~= "dsh web"@ + " --port "@);
    assert(" web --port "@ =~= " web"@ + " --port "@);
    if nonblank(command) is None {
        let res = launch_text(command, version, port, global_dsh);
        let head = if global_dsh {
            "dsh web"@
        } else {
            "npx -y "@ + package_text(version) + " web"@
        };
        assert(res =~= head + tail);
        assert(res.skip(res.len() - tail.len()) =~= tail);
        assert(res.take(head.len() as int) =~= head);
    }
}

} // verus!
