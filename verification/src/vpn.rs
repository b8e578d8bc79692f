//! The platform proxy adapter's part that is computed: the proxy
//! configuration of each platform and the commands that spawn, stop and
//! signal the engine. Running the commands is left to the caller.

use crate::effect::Platform;
use crate::text::{escape_text, escaped, lines_of};
use vstd::prelude::*;
use vstd::string::StringExecFns;

verus! {

/// Where the operating system's proxy settings point, and what bypasses
/// them.
#[derive(Clone, Debug, PartialEq, Eq)]
pub struct ProxyConfig {
    pub host: String,
    pub port: u16,
    pub bypass: String,
}

pub struct ProxyConfigView {
    pub host: Seq<char>,
    pub port: u16,
    pub bypass: Seq<char>,
}

impl View for ProxyConfig {
    type V = ProxyConfigView;

    open spec fn view(&self) -> ProxyConfigView {
        ProxyConfigView { host: self.host@, port: self.port, bypass: self.bypass@ }
    }
}

/// The destinations that bypass the proxy, in the platform's own notation.
pub open spec fn default_bypass(platform: Platform) -> Seq<char> {
    if platform.posix() {
        "127.0.0.1,192.168.0.0/16,10.0.0.0/8,172.16.0.0/12,172.29.0.0/16,localhost,*.local,*.crashlytics.com,<local>"@
    } else {
        "localhost;127.*;192.168.*;10.*;172.16.*;172.17.*;172.18.*;172.19.*;172.20.*;172.21.*;172.22.*;172.23.*;172.24.*;172.25.*;172.26.*;172.27.*;172.28.*;172.29.*;172.30.*;172.31.*;<local>"@
    }
}

impl ProxyConfig {
    /// The configuration that points at the engine's listener on the
    /// loopback address.
    pub fn for_platform(platform: Platform) -> (config: ProxyConfig)
        ensures
            config@ == (ProxyConfigView {
                host: "127.0.0.1"@,
                port: 6789,
                bypass: default_bypass(platform),
            }),
    {
        let bypass = if platform.is_posix() {
            String::from_str(
                "127.0.0.1,192.168.0.0/16,10.0.0.0/8,172.16.0.0/12,172.29.0.0/16,localhost,*.local,*.crashlytics.com,<local>",
            )
        } else {
            String::from_str(
                "localhost;127.*;192.168.*;10.*;172.16.*;172.17.*;172.18.*;172.19.*;172.20.*;172.21.*;172.22.*;172.23.*;172.24.*;172.25.*;172.26.*;172.27.*;172.28.*;172.29.*;172.30.*;172.31.*;<local>",
            )
        };
        ProxyConfig { host: String::from_str("127.0.0.1"), port: 6789, bypass }
    }
}

/// The proxy settings of the operating system as they are read and
/// written: a configuration, and whether it is in force.
#[derive(Clone, Debug, PartialEq, Eq)]
pub struct ProxySettings {
    pub enable: bool,
    pub host: String,
    pub port: u16,
    pub bypass: String,
}

pub struct ProxySettingsView {
    pub enable: bool,
    pub host: Seq<char>,
    pub port: u16,
    pub bypass: Seq<char>,
}

impl View for ProxySettings {
    type V = ProxySettingsView;

    open spec fn view(&self) -> ProxySettingsView {
        ProxySettingsView {
            enable: self.enable,
            host: self.host@,
            port: self.port,
            bypass: self.bypass@,
        }
    }
}

impl ProxySettings {
    /// The settings that put `config` in force: what setting the proxy
    /// writes.
    pub fn enabled(config: ProxyConfig) -> (settings: ProxySettings)
        ensures
            settings@ == (ProxySettingsView {
                enable: true,
                host: config@.host,
                port: config@.port,
                bypass: config@.bypass,
            }),
    {
        ProxySettings { enable: true, host: config.host, port: config.port, bypass: config.bypass }
    }

    /// The same settings, out of force: what unsetting the proxy writes in
    /// place of the settings it read.
    pub fn disabled(self) -> (settings: ProxySettings)
        ensures
            settings@ == (ProxySettingsView { enable: false, ..self@ }),
    {
        ProxySettings { enable: false, host: self.host, port: self.port, bypass: self.bypass }
    }
}

/// A program and its arguments, to be spawned with a retained handle.
#[derive(Clone, Debug, PartialEq, Eq)]
pub struct SpawnDescriptor {
    pub program: String,
    pub args: Vec<String>,
}

pub struct SpawnDescriptorView {
    pub program: Seq<char>,
    pub args: Seq<Seq<char>>,
}

impl View for SpawnDescriptor {
    type V = SpawnDescriptorView;

    open spec fn view(&self) -> SpawnDescriptorView {
        SpawnDescriptorView { program: self.program@, args: lines_of(self.args@) }
    }
}

/// How a privileged command is run.
#[derive(Clone, Debug, PartialEq, Eq)]
pub enum PrivilegedCommand {
    /// Spawned through a shell that is fed the password: the handle is
    /// retained.
    Managed { descriptor: SpawnDescriptor },
    /// Run through the operating system's elevation verb, which yields no
    /// handle.
    Elevated { program: String, arguments: String },
}

pub enum PrivilegedCommandView {
    Managed { descriptor: SpawnDescriptorView },
    Elevated { program: Seq<char>, arguments: Seq<char> },
}

impl View for PrivilegedCommand {
    type V = PrivilegedCommandView;

    open spec fn view(&self) -> PrivilegedCommandView {
        match *self {
            PrivilegedCommand::Managed { descriptor } => PrivilegedCommandView::Managed {
                descriptor: descriptor@,
            },
            PrivilegedCommand::Elevated { program, arguments } => PrivilegedCommandView::Elevated {
                program: program@,
                arguments: arguments@,
            },
        }
    }
}

/// The descriptor of a command line handed to the shell.
pub open spec fn shell(line: Seq<char>) -> SpawnDescriptorView {
    SpawnDescriptorView { program: "sh"@, args: seq!["-c"@, line] }
}

/// The arguments with which the engine runs a configuration.
pub open spec fn engine_args(config_path: Seq<char>) -> Seq<Seq<char>> {
    seq!["run"@, "-c"@, config_path, "--disable-color"@]
}

/// The shell line that runs the engine under `sudo`, fed the password,
/// from parts that are escaped already.
pub open spec fn sudo_line(sidecar_path: Seq<char>, config_path: Seq<char>, password: Seq<char>) -> Seq<
    char,
> {
    "echo '"@ + password + "' | sudo -S '"@ + sidecar_path + "' run -c '"@ + config_path
        + "' --disable-color"@
}

/// The shell line that runs the engine under `sudo`, fed the password:
/// each part is escaped before it is put between quotes.
pub open spec fn privileged_line(sidecar_path: Seq<char>, config_path: Seq<char>, password: Seq<char>) -> Seq<
    char,
> {
    sudo_line(escaped(sidecar_path), escaped(config_path), escaped(password))
}

/// The arguments of the engine run through the elevation verb.
pub open spec fn elevated_arguments(config_path: Seq<char>) -> Seq<char> {
    "run -c "@ + config_path + " --disable-color"@
}

/// The shell line that kills the elevated engine.
pub open spec fn stop_tun_line(password: Seq<char>) -> Seq<char> {
    "echo '"@ + password + "' | sudo -S pkill -9 -f sing-box"@
}

/// The shell line that signals the elevated engine to reload.
pub open spec fn reload_line(password: Seq<char>) -> Seq<char> {
    "echo '"@ + password + "' | sudo -S pkill -HUP sing-box"@
}

fn shell_command(line: String) -> (descriptor: SpawnDescriptor)
    ensures
        descriptor@ == shell(line@),
{
    let mut args: Vec<String> = Vec::new();
    args.push(String::from_str("-c"));
    args.push(line);
    let descriptor = SpawnDescriptor { program: String::from_str("sh"), args };
    proof {
        assert(descriptor@.args =~= shell(line@).args);
    }
    descriptor
}

/// The descriptor that spawns the engine with the caller's privileges.
pub fn engine_command(config_path: &str) -> (descriptor: SpawnDescriptor)
    ensures
        descriptor@ == (SpawnDescriptorView {
            program: "sing-box"@,
            args: engine_args(config_path@),
        }),
{
    let mut args: Vec<String> = Vec::new();
    args.push(String::from_str("run"));
    args.push(String::from_str("-c"));
    args.push(String::from_str(config_path));
    args.push(String::from_str("--disable-color"));
    let descriptor = SpawnDescriptor { program: String::from_str("sing-box"), args };
    proof {
        assert(descriptor@.args =~= engine_args(config_path@));
    }
    descriptor
}

/// Puts the parts of the shell line that runs the engine under `sudo`
/// together; the parts are escaped already.
pub fn sudo_command_line(sidecar_path: &str, config_path: &str, password: &str) -> (line: String)
    ensures
        line@ == sudo_line(sidecar_path@, config_path@, password@),
{
    String::from_str("echo '").concat(password).concat("' | sudo -S '").concat(sidecar_path).concat(
        "' run -c '",
    ).concat(config_path).concat("' --disable-color")
}

/// The command that runs the engine with privilege. Where elevation goes
/// by password the engine is spawned through a shell and can be watched;
/// elsewhere it is run through the elevation verb and cannot.
pub fn create_privileged_command(
    platform: Platform,
    sidecar_path: &str,
    config_path: &str,
    password: &str,
) -> (command: PrivilegedCommand)
    ensures
        command@ == if platform.posix() {
            PrivilegedCommandView::Managed {
                descriptor: shell(privileged_line(sidecar_path@, config_path@, password@)),
            }
        } else {
            PrivilegedCommandView::Elevated {
                program: sidecar_path@,
                arguments: elevated_arguments(config_path@),
            }
        },
{
    if platform.is_posix() {
        let password = escape_text(password);
        let sidecar = escape_text(sidecar_path);
        let path = escape_text(config_path);
        let line = sudo_command_line(sidecar.as_str(), path.as_str(), password.as_str());
        PrivilegedCommand::Managed { descriptor: shell_command(line) }
    } else {
        let arguments = String::from_str("run -c ").concat(config_path).concat(" --disable-color");
        PrivilegedCommand::Elevated { program: String::from_str(sidecar_path), arguments }
    }
}

/// The command that kills an engine that runs with privilege.
pub fn stop_tun_command(platform: Platform, password: &str) -> (command: PrivilegedCommand)
    ensures
        command@ == if platform.posix() {
            PrivilegedCommandView::Managed { descriptor: shell(stop_tun_line(password@)) }
        } else {
            PrivilegedCommandView::Elevated {
                program: "taskkill"@,
                arguments: "/F /IM sing-box.exe"@,
            }
        },
{
    if platform.is_posix() {
        let line = String::from_str("echo '").concat(password).concat(
            "' | sudo -S pkill -9 -f sing-box",
        );
        PrivilegedCommand::Managed { descriptor: shell_command(line) }
    } else {
        PrivilegedCommand::Elevated {
            program: String::from_str("taskkill"),
            arguments: String::from_str("/F /IM sing-box.exe"),
        }
    }
}

/// The command that signals the engine to reload: through `sudo` where a
/// secret elevates it, directly where none does.
pub fn reload_signal_command(elevation: Option<&str>) -> (descriptor: SpawnDescriptor)
    ensures
        descriptor@ == match elevation {
            Some(password) => shell(reload_line(password@)),
            None => SpawnDescriptorView { program: "pkill"@, args: seq!["-HUP"@, "sing-box"@] },
        },
{
    match elevation {
        Some(password) => {
            let line = String::from_str("echo '").concat(password).concat(
                "' | sudo -S pkill -HUP sing-box",
            );
            shell_command(line)
        },
        None => {
            let mut args: Vec<String> = Vec::new();
            args.push(String::from_str("-HUP"));
            args.push(String::from_str("sing-box"));
            let descriptor = SpawnDescriptor { program: String::from_str("pkill"), args };
            proof {
                assert(descriptor@.args =~= seq!["-HUP"@, "sing-box"@]);
            }
            descriptor
        },
    }
}

/// The arguments with which the proxy helper of a platform without proxy
/// settings of its own sets the proxy to the listener, or unsets it.
pub fn proxy_helper_arguments(enable: bool) -> (args: Vec<String>)
    ensures
        lines_of(args@) == if enable {
            seq!["global"@, "127.0.0.1:6789"@, default_bypass(Platform::Windows)]
        } else {
            seq!["set"@, "1"@]
        },
{
    let mut args: Vec<String> = Vec::new();
    if enable {
        args.push(String::from_str("global"));
        args.push(String::from_str("127.0.0.1:6789"));
        args.push(ProxyConfig::for_platform(Platform::Windows).bypass);
        proof {
            assert(lines_of(args@) =~= seq![
                "global"@,
                "127.0.0.1:6789"@,
                default_bypass(Platform::Windows),
            ]);
        }
    } else {
        args.push(String::from_str("set"));
        args.push(String::from_str("1"));
        proof {
            assert(lines_of(args@) =~= seq!["set"@, "1"@]);
        }
    }
    args
}

/// The message with which a failed change of the proxy settings is
/// reported.
pub fn proxy_failure(enable: bool, detail: &str) -> (message: String)
    ensures
        message@ == if enable {
            "Failed to set proxy: "@ + detail@
        } else {
            "Failed to unset proxy: "@ + detail@
        },
{
    if enable {
        String::from_str("Failed to set proxy: ").concat(detail)
    } else {
        String::from_str("Failed to unset proxy: ").concat(detail)
    }
}

/// Whether the code that the elevation verb returned reports success: the
/// codes up to 32 are its errors.
pub fn elevation_succeeded(code: usize) -> (launched: bool)
    ensures
        launched == (code > 32),
{
    code > 32
}

} // verus!
