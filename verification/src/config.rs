//! The Windows client's configuration: its defaults, its checks, and the
//! `ssh.exe` command line it leads to.

use vstd::prelude::*;
use crate::hotkey::{Hotkey, HotkeyError, hotkey_parse};
use crate::text::{blank, decimal, decimal_text, is_blank, is_white_space};

verus! {

/// The client's configuration as its TOML file states it. Paths are kept as
/// the text the file gives.
#[derive(Clone, Debug)]
pub struct Config {
    pub server: String,
    pub user: String,
    pub ssh_key: String,
    pub known_hosts: String,
    pub toggle_hotkey: String,
    pub emergency_hotkey: String,
    pub server_alive_interval_seconds: u32,
    pub server_alive_count_max: u32,
    pub notify_on_toggle: bool,
    pub remote_command: String,
}

/// `server_alive_interval_seconds` when the file names none.
pub fn default_alive_interval() -> (v: u32)
    ensures
        v == 15,
{
    15
}

/// `server_alive_count_max` when the file names none.
pub fn default_alive_count() -> (v: u32)
    ensures
        v == 3,
{
    3
}

/// `notify_on_toggle` when the file names none.
pub fn default_true() -> (v: bool)
    ensures
        v,
{
    true
}

/// `remote_command` when the file names none.
pub fn default_remote_command() -> (s: String)
    ensures
        s@ == "remote-input-receiver"@,
{
    "remote-input-receiver".to_owned()
}

/// Why a configuration was refused.
#[derive(Clone, Copy, Debug, PartialEq, Eq, Structural)]
pub enum ConfigError {
    /// `server` or `user` is blank.
    ServerAndUserRequired,
    /// `ssh_key` names no file.
    SshKeyMissing,
    /// `known_hosts` names no file.
    KnownHostsMissing,
    /// `server_alive_interval_seconds` is outside 1..=300.
    AliveIntervalOutOfRange,
    /// `server_alive_count_max` is outside 1..=20.
    AliveCountOutOfRange,
}

/// What `Config::check` answers, in the order the checks run.
pub open spec fn config_verdict(c: Config, ssh_key_is_file: bool, known_hosts_is_file: bool) -> Result<
    (),
    ConfigError,
> {
    if is_blank(c.server@) || is_blank(c.user@) {
        Err(ConfigError::ServerAndUserRequired)
    } else if !ssh_key_is_file {
        Err(ConfigError::SshKeyMissing)
    } else if !known_hosts_is_file {
        Err(ConfigError::KnownHostsMissing)
    } else if !(1 <= c.server_alive_interval_seconds <= 300) {
        Err(ConfigError::AliveIntervalOutOfRange)
    } else if !(1 <= c.server_alive_count_max <= 20) {
        Err(ConfigError::AliveCountOutOfRange)
    } else {
        Ok(())
    }
}

/// A configuration is accepted exactly when the server and user have a
/// non-white-space character, both files exist, the keep-alive interval is
/// 1 to 300 seconds and the keep-alive count is 1 to 20; and every refusal
/// names a requirement that the configuration fails.
pub proof fn lemma_config_accepted_iff(c: Config, ssh_key_is_file: bool, known_hosts_is_file: bool)
    ensures
        config_verdict(c, ssh_key_is_file, known_hosts_is_file) is Ok <==> {
            &&& exists|i: int| 0 <= i < c.server@.len() && !is_white_space(#[trigger] c.server@[i])
            &&& exists|i: int| 0 <= i < c.user@.len() && !is_white_space(#[trigger] c.user@[i])
            &&& ssh_key_is_file
            &&& known_hosts_is_file
            &&& 1 <= c.server_alive_interval_seconds <= 300
            &&& 1 <= c.server_alive_count_max <= 20
        },
        config_verdict(c, ssh_key_is_file, known_hosts_is_file) == Err::<(), ConfigError>(
            ConfigError::AliveCountOutOfRange,
        ) ==> !(1 <= c.server_alive_count_max <= 20),
        config_verdict(c, ssh_key_is_file, known_hosts_is_file) == Err::<(), ConfigError>(
            ConfigError::AliveIntervalOutOfRange,
        ) ==> !(1 <= c.server_alive_interval_seconds <= 300),
        config_verdict(c, ssh_key_is_file, known_hosts_is_file) == Err::<(), ConfigError>(
            ConfigError::SshKeyMissing,
        ) ==> !ssh_key_is_file,
        config_verdict(c, ssh_key_is_file, known_hosts_is_file) == Err::<(), ConfigError>(
            ConfigError::KnownHostsMissing,
        ) ==> !known_hosts_is_file,
        config_verdict(c, ssh_key_is_file, known_hosts_is_file) == Err::<(), ConfigError>(
            ConfigError::ServerAndUserRequired,
        ) ==> (forall|i: int| 0 <= i < c.server@.len() ==> is_white_space(#[trigger] c.server@[i]))
            || (forall|i: int| 0 <= i < c.user@.len() ==> is_white_space(#[trigger] c.user@[i])),
{
}

/// The arguments of `ssh.exe`: no terminal, batch mode, a pinned host key,
/// no compression or forwarding, keep-alive settings, the pinned
/// `known_hosts`, the key, `user@server`, and the remote command.
pub open spec fn ssh_arg_texts(c: Config) -> Seq<Seq<char>> {
    seq![
        "-T"@, "-o"@, "BatchMode=yes"@, "-o"@, "StrictHostKeyChecking=yes"@, "-o"@,
        "Compression=no"@, "-o"@, "ClearAllForwardings=yes"@, "-o"@, "ForwardAgent=no"@, "-o"@,
        "ForwardX11=no"@, "-o"@, "ServerAliveInterval="@ + decimal_text(
            c.server_alive_interval_seconds as nat,
        ), "-o"@, "ServerAliveCountMax="@ + decimal_text(c.server_alive_count_max as nat), "-o"@,
        "UserKnownHostsFile="@ + c.known_hosts@, "-i"@, c.ssh_key@, c.user@ + "@"@ + c.server@,
        c.remote_command@,
    ]
}

pub open spec fn string_views(v: Seq<String>) -> Seq<Seq<char>> {
    v.map_values(|s: String| s@)
}

fn text(s: &str) -> (r: String)
    ensures
        r@ == s@,
{
    s.to_owned()
}

fn joined(a: &str, b: &str) -> (r: String)
    ensures
        r@ == a@ + b@,
{
    let mut r = a.to_owned();
    r.append(b);
    r
}

impl Config {
    /// Checks the configuration; the caller tells whether the two paths name
    /// existing files.
    pub fn check(&self, ssh_key_is_file: bool, known_hosts_is_file: bool) -> (r: Result<(), ConfigError>)
        ensures
            r == config_verdict(*self, ssh_key_is_file, known_hosts_is_file),
    {
        if blank(self.server.as_str()) || blank(self.user.as_str()) {
            return Err(ConfigError::ServerAndUserRequired);
        }
        if !ssh_key_is_file {
            return Err(ConfigError::SshKeyMissing);
        }
        if !known_hosts_is_file {
            return Err(ConfigError::KnownHostsMissing);
        }
        if !(1 <= self.server_alive_interval_seconds && self.server_alive_interval_seconds <= 300) {
            return Err(ConfigError::AliveIntervalOutOfRange);
        }
        if !(1 <= self.server_alive_count_max && self.server_alive_count_max <= 20) {
            return Err(ConfigError::AliveCountOutOfRange);
        }
        Ok(())
    }

    /// The command line that opens the SSH session to the receiver.
    pub fn ssh_args(&self) -> (args: Vec<String>)
        ensures
            string_views(args@) == ssh_arg_texts(*self),
    {
        let mut args: Vec<String> = Vec::new();
        args.push(text("-T"));
        args.push(text("-o"));
        args.push(text("BatchMode=yes"));
        args.push(text("-o"));
        args.push(text("StrictHostKeyChecking=yes"));
        args.push(text("-o"));
        args.push(text("Compression=no"));
        args.push(text("-o"));
        args.push(text("ClearAllForwardings=yes"));
        args.push(text("-o"));
        args.push(text("ForwardAgent=no"));
        args.push(text("-o"));
        args.push(text("ForwardX11=no"));
        args.push(text("-o"));
        let interval = decimal(self.server_alive_interval_seconds);
        args.push(joined("ServerAliveInterval=", interval.as_str()));
        args.push(text("-o"));
        let count = decimal(self.server_alive_count_max);
        args.push(joined("ServerAliveCountMax=", count.as_str()));
        args.push(text("-o"));
        args.push(joined("UserKnownHostsFile=", self.known_hosts.as_str()));
        args.push(text("-i"));
        args.push(text(self.ssh_key.as_str()));
        let mut target = joined(self.user.as_str(), "@");
        target.append(self.server.as_str());
        args.push(target);
        args.push(text(self.remote_command.as_str()));
        assert(string_views(args@) =~= ssh_arg_texts(*self));
        args
    }
}

/// Why the two hotkeys of a configuration were refused.
#[derive(Debug)]
pub enum HotkeysError {
    Toggle(HotkeyError),
    Emergency(HotkeyError),
    /// Both texts name the same hotkey.
    Same,
}

/// Parses the toggle and emergency hotkeys, which must differ.
pub fn parse_hotkeys(toggle: &str, emergency: &str) -> (r: Result<(Hotkey, Hotkey), HotkeysError>)
    ensures
        match (hotkey_parse(toggle@), hotkey_parse(emergency@)) {
            (Err(e), _) => r matches Err(HotkeysError::Toggle(x)) && x@ == e,
            (Ok(_), Err(e)) => r matches Err(HotkeysError::Emergency(x)) && x@ == e,
            (Ok(t), Ok(m)) => if t == m {
                r matches Err(HotkeysError::Same)
            } else {
                r == Ok::<(Hotkey, Hotkey), HotkeysError>((t, m))
            },
        },
{
    let t = match Hotkey::parse(toggle) {
        Ok(h) => h,
        Err(e) => return Err(HotkeysError::Toggle(e)),
    };
    let m = match Hotkey::parse(emergency) {
        Ok(h) => h,
        Err(e) => return Err(HotkeysError::Emergency(e)),
    };
    if t.modifiers == m.modifiers && t.vk == m.vk {
        return Err(HotkeysError::Same);
    }
    Ok((t, m))
}

} // verus!
