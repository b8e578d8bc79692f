//! The privilege gate: whether a mode needs a credential on a platform,
//! and what the stored credential resolves to.

use crate::effect::{CoreError, CoreErrorView, Platform};
use crate::session::ProxyMode;
use crate::text::{lines_of, same_text, text_of, trim_text, trimmed};
use vstd::prelude::*;
use vstd::string::StringExecFns;

verus! {

/// Whether starting in `mode` on `platform` takes a stored password: only
/// TUN mode does, and only where elevation goes by password.
pub open spec fn needs_password(platform: Platform, mode: ProxyMode) -> bool {
    platform.posix() && mode == ProxyMode::TunProxy
}

/// What the stored password resolves to. Where a password is needed, an
/// empty one is the missing credential and any other is the secret; where
/// none is needed the secret is empty, whatever is stored.
pub open spec fn resolved_password(platform: Platform, mode: ProxyMode, stored: Seq<char>) -> Result<
    Seq<char>,
    CoreErrorView,
> {
    if needs_password(platform, mode) {
        if stored.len() == 0 {
            Err(CoreErrorView::RequirePrivilege)
        } else {
            Ok(stored)
        }
    } else {
        Ok(Seq::empty())
    }
}

/// The view of a resolved password.
pub open spec fn password_view(resolved: Result<String, CoreError>) -> Result<
    Seq<char>,
    CoreErrorView,
> {
    match resolved {
        Ok(secret) => Ok(secret@),
        Err(error) => Err(error@),
    }
}

/// Whether starting in `mode` on `platform` takes a stored password.
pub fn requires_password(platform: Platform, mode: &ProxyMode) -> (needed: bool)
    ensures
        needed == needs_password(platform, *mode),
{
    platform.is_posix() && mode.is_tun()
}

/// Resolves the secret for a start in `mode` from the password that the
/// credential store holds, where `stored` is empty if it holds none.
pub fn get_password_for_mode(mode: &ProxyMode, platform: Platform, stored: String) -> (resolved:
    Result<String, CoreError>)
    ensures
        password_view(resolved) == resolved_password(platform, *mode, stored@),
{
    if requires_password(platform, mode) {
        if stored.as_str().is_empty() {
            Err(CoreError::RequirePrivilege)
        } else {
            Ok(stored)
        }
    } else {
        Ok(String::new())
    }
}

/// What came of a command that was run to find out about privilege.
#[derive(Clone, Debug, PartialEq, Eq)]
pub struct CommandReport {
    /// Whether the command was started, fed its input and waited for.
    pub launched: bool,
    /// Whether it exited with success.
    pub success: bool,
    /// What it printed.
    pub stdout: String,
}

/// The user whose privilege a platform asks for, where `reported` is what
/// the platform's `whoami` printed.
pub open spec fn current_user(platform: Platform, reported: Seq<char>) -> Seq<char> {
    match platform {
        Platform::Windows => Seq::empty(),
        Platform::Linux => "root"@,
        Platform::MacOs => trimmed(reported),
    }
}

/// Whether the privilege check shows that the password elevates: on Linux
/// the check, run under `sudo`, has to print that it is root; on macOS it
/// has to exit with success; on Windows no password elevates.
pub open spec fn privileged(platform: Platform, launched: bool, success: bool, stdout: Seq<char>) -> bool {
    match platform {
        Platform::Windows => false,
        Platform::Linux => launched && trimmed(stdout) == "root"@,
        Platform::MacOs => launched && success,
    }
}

/// Whether what the privilege check printed, trimmed, is the name of the
/// superuser.
pub fn prints_root(printed: &str) -> (root: bool)
    ensures
        root == (printed@ == "root"@),
{
    same_text(printed, "root")
}

/// The questions on privilege that each platform answers in its own way.
/// A helper that answers neither knows no user and finds no privilege.
pub trait PrivilegeHelper {
    /// The user whose privilege is asked for. A helper that does not say
    /// names the user `unknown`, whatever was reported.
    fn get_current_user(&self, reported: &str) -> (user: String)
        default_ensures
            user@ == "unknown"@,
    {
        String::from_str("unknown")
    }

    /// Whether the privilege check shows that the password elevates. A
    /// helper that does not say finds that it never does.
    fn is_privileged(&self, report: &CommandReport) -> (elevates: bool)
        default_ensures
            !elevates,
    {
        false
    }
}

/// The helper of the platform the supervisor runs on.
#[derive(Clone, Copy, Debug, PartialEq, Eq)]
pub struct PlatformPrivilegeHelper {
    pub platform: Platform,
}

impl PrivilegeHelper for PlatformPrivilegeHelper {
    fn get_current_user(&self, reported: &str) -> (user: String)
        ensures
            user@ == current_user(self.platform, reported@),
    {
        match self.platform {
            Platform::Windows => String::new(),
            Platform::Linux => "root".to_owned(),
            Platform::MacOs => trim_text(reported),
        }
    }

    fn is_privileged(&self, report: &CommandReport) -> (elevates: bool)
        ensures
            elevates == privileged(
                self.platform,
                report.launched,
                report.success,
                report.stdout@,
            ),
    {
        match self.platform {
            Platform::Windows => false,
            Platform::Linux => {
                if report.launched {
                    let printed = trim_text(report.stdout.as_str());
                    prints_root(printed.as_str())
                } else {
                    false
                }
            },
            Platform::MacOs => report.launched && report.success,
        }
    }
}

/// A command that finds out whether a password elevates, and what it is
/// fed on its standard input.
#[derive(Clone, Debug, PartialEq, Eq)]
pub struct PrivilegeCheck {
    pub program: String,
    pub args: Vec<String>,
    pub input: Option<String>,
}

pub struct PrivilegeCheckView {
    pub program: Seq<char>,
    pub args: Seq<Seq<char>>,
    pub input: Option<Seq<char>>,
}

impl View for PrivilegeCheck {
    type V = PrivilegeCheckView;

    open spec fn view(&self) -> PrivilegeCheckView {
        PrivilegeCheckView {
            program: self.program@,
            args: lines_of(self.args@),
            input: text_of(self.input),
        }
    }
}

/// The script that asks macOS to run a shell script as administrator.
pub open spec fn administrator_script(username: Seq<char>, password: Seq<char>) -> Seq<char> {
    "do shell script \"exit 0\" user name \""@ + username + "\" password \""@ + password
        + "\" with administrator privileges"@
}

/// The privilege check of a platform, if it has one: on Linux `whoami`
/// under `sudo`, fed the password and a line feed; on macOS a script that
/// asks for administrator privileges.
pub open spec fn privilege_check(platform: Platform, username: Seq<char>, password: Seq<char>) -> Option<
    PrivilegeCheckView,
> {
    match platform {
        Platform::Windows => None,
        Platform::Linux => Some(
            PrivilegeCheckView {
                program: "sudo"@,
                args: seq!["-S"@, "whoami"@],
                input: Some(password + "\n"@),
            },
        ),
        Platform::MacOs => Some(
            PrivilegeCheckView {
                program: "osascript"@,
                args: seq!["-e"@, administrator_script(username, password)],
                input: None,
            },
        ),
    }
}

/// The view of an optional privilege check.
pub open spec fn check_view(check: Option<PrivilegeCheck>) -> Option<PrivilegeCheckView> {
    match check {
        Some(command) => Some(command@),
        None => None,
    }
}

/// The command that finds out on `platform` whether `password` elevates
/// `username`.
pub fn privilege_check_command(platform: Platform, username: &str, password: &str) -> (check: Option<
    PrivilegeCheck,
>)
    ensures
        check_view(check) == privilege_check(platform, username@, password@),
{
    match platform {
        Platform::Windows => None,
        Platform::Linux => {
            let mut args: Vec<String> = Vec::new();
            args.push(String::from_str("-S"));
            args.push(String::from_str("whoami"));
            let input = String::from_str(password).concat("\n");
            proof {
                assert(lines_of(args@) =~= seq!["-S"@, "whoami"@]);
            }
            Some(PrivilegeCheck { program: String::from_str("sudo"), args, input: Some(input) })
        },
        Platform::MacOs => {
            let script = String::from_str("do shell script \"exit 0\" user name \"").concat(
                username,
            ).concat("\" password \"").concat(password).concat(
                "\" with administrator privileges",
            );
            let mut args: Vec<String> = Vec::new();
            args.push(String::from_str("-e"));
            args.push(script);
            proof {
                assert(lines_of(args@) =~= seq!["-e"@, administrator_script(username@, password@)]);
            }
            Some(PrivilegeCheck { program: String::from_str("osascript"), args, input: None })
        },
    }
}

/// The user whose privilege is asked for on `platform`.
pub fn get_current_username(platform: Platform, reported: &str) -> (user: String)
    ensures
        user@ == current_user(platform, reported@),
{
    let helper = PlatformPrivilegeHelper { platform };
    helper.get_current_user(reported)
}

/// Whether the privilege check on `platform` shows that the password
/// elevates.
pub fn is_privileged(platform: Platform, report: &CommandReport) -> (elevates: bool)
    ensures
        elevates == privileged(platform, report.launched, report.success, report.stdout@),
{
    let helper = PlatformPrivilegeHelper { platform };
    helper.is_privileged(report)
}

} // verus!
