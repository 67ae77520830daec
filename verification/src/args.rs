//! Command-line arguments of the two programs, after the program name.
//!
//! Arguments arrive as text; an argument that is not valid Unicode reaches
//! these functions in lossy form, which never equals a flag. A path is
//! returned as the index of its argument so that the caller can take the
//! original, unconverted value.

use vstd::prelude::*;
use crate::text::{chars_of, is_word};

verus! {

pub open spec fn config_flag() -> Seq<char> {
    seq!['-', '-', 'c', 'o', 'n', 'f', 'i', 'g']
}

pub open spec fn version_flag() -> Seq<char> {
    seq!['-', '-', 'v', 'e', 'r', 's', 'i', 'o', 'n']
}

/// The arguments as character sequences.
pub open spec fn arg_texts(args: Seq<String>) -> Seq<Seq<char>> {
    args.map_values(|a: String| a@)
}

/// What the receiver was asked to do.
#[derive(Clone, Copy, Debug, PartialEq, Eq, Structural)]
pub enum ReceiverCommand {
    /// Serve one session, with the configuration file at this argument index
    /// if one was named (the last `--config` wins).
    Run { config_path: Option<usize> },
    /// Print the version and exit.
    Version,
}

/// Why the receiver's arguments were refused.
#[derive(Clone, Copy, Debug, PartialEq, Eq, Structural)]
pub enum ArgError {
    /// `--config` was the last argument.
    MissingConfigPath,
    /// The argument at this index is no option the receiver knows.
    Unknown(usize),
}

/// The receiver's reading of `a[i..]`, with `config` the path named so far.
pub open spec fn receiver_scan(a: Seq<Seq<char>>, i: int, config: Option<usize>) -> Result<
    ReceiverCommand,
    ArgError,
>
    decreases a.len() - i,
{
    if i < 0 || i >= a.len() {
        Ok(ReceiverCommand::Run { config_path: config })
    } else if a[i] == config_flag() {
        if i + 1 < a.len() {
            receiver_scan(a, i + 2, Some((i + 1) as usize))
        } else {
            Err(ArgError::MissingConfigPath)
        }
    } else if a[i] == version_flag() {
        Ok(ReceiverCommand::Version)
    } else {
        Err(ArgError::Unknown(i as usize))
    }
}

/// Reads the receiver's arguments: `--config PATH` names the configuration,
/// `--version` asks for the version (arguments after it are not looked at),
/// and anything else is an error.
pub fn receiver_command(args: &Vec<String>) -> (r: Result<ReceiverCommand, ArgError>)
    ensures
        r == receiver_scan(arg_texts(args@), 0, None),
{
    let ghost a = arg_texts(args@);
    let n = args.len();
    let config_word = ['-', '-', 'c', 'o', 'n', 'f', 'i', 'g'];
    let version_word = ['-', '-', 'v', 'e', 'r', 's', 'i', 'o', 'n'];
    assert(config_word@ =~= config_flag());
    assert(version_word@ =~= version_flag());
    let mut config: Option<usize> = None;
    let mut i: usize = 0;
    while i < n
        invariant
            n == args@.len(),
            a == arg_texts(args@),
            config_word@ == config_flag(),
            version_word@ == version_flag(),
            i <= n + 1,
            receiver_scan(a, 0, None) == receiver_scan(a, i as int, config),
        decreases n + 1 - i,
    {
        let arg = chars_of(args[i].as_str());
        assert(arg@ == a[i as int]);
        if is_word(&arg, &config_word) {
            if i + 1 < n {
                config = Some(i + 1);
                i = i + 2;
            } else {
                return Err(ArgError::MissingConfigPath);
            }
        } else if is_word(&arg, &version_word) {
            return Ok(ReceiverCommand::Version);
        } else {
            return Err(ArgError::Unknown(i));
        }
    }
    Ok(ReceiverCommand::Run { config_path: config })
}

/// The index of the client's configuration path: the argument after the
/// first `--config` in `a[i..]`, if that `--config` is not last.
pub open spec fn client_scan(a: Seq<Seq<char>>, i: int) -> Option<usize>
    decreases a.len() - i,
{
    if i < 0 || i >= a.len() {
        None
    } else if a[i] == config_flag() {
        if i + 1 < a.len() {
            Some((i + 1) as usize)
        } else {
            None
        }
    } else {
        client_scan(a, i + 1)
    }
}

/// Finds the client's `--config PATH`; other arguments are ignored.
pub fn client_config_arg(args: &Vec<String>) -> (r: Option<usize>)
    ensures
        r == client_scan(arg_texts(args@), 0),
{
    let ghost a = arg_texts(args@);
    let n = args.len();
    let config_word = ['-', '-', 'c', 'o', 'n', 'f', 'i', 'g'];
    assert(config_word@ =~= config_flag());
    let mut i: usize = 0;
    while i < n
        invariant
            n == args@.len(),
            a == arg_texts(args@),
            config_word@ == config_flag(),
            i <= n,
            client_scan(a, 0) == client_scan(a, i as int),
        decreases n - i,
    {
        let arg = chars_of(args[i].as_str());
        assert(arg@ == a[i as int]);
        if is_word(&arg, &config_word) {
            if i + 1 < n {
                return Some(i + 1);
            }
            return None;
        }
        i = i + 1;
    }
    None
}

pub open spec fn ssh_config_flag() -> Seq<char> {
    seq!['-', '-', 's', 's', 'h', '-', 'c', 'o', 'n', 'f', 'i', 'g']
}

pub open spec fn identity_flag() -> Seq<char> {
    seq!['-', '-', 'i', 'd', 'e', 'n', 't', 'i', 't', 'y']
}

pub open spec fn host_flag() -> Seq<char> {
    seq!['-', '-', 'h', 'o', 's', 't']
}

pub open spec fn inject_flag() -> Seq<char> {
    seq!['-', '-', 'i', 'n', 'j', 'e', 'c', 't', '-', 't', 'e', 's', 't', '-', 'k', 'e', 'y']
}

/// What the probe was asked to do; values are argument indices.
#[derive(Clone, Copy, Debug, PartialEq, Eq, Structural)]
pub struct ProbeArgs {
    pub ssh_config: Option<usize>,
    pub identity: Option<usize>,
    pub host: usize,
    pub inject_test_key: bool,
}

/// An option of the probe that takes a value.
#[derive(Clone, Copy, Debug, PartialEq, Eq, Structural)]
pub enum ProbeOption {
    SshConfig,
    Identity,
    Host,
}

/// Why the probe's arguments were refused.
#[derive(Clone, Copy, Debug, PartialEq, Eq, Structural)]
pub enum ProbeArgError {
    /// The option was the last argument.
    MissingValue(ProbeOption),
    /// The argument at this index is no option the probe knows.
    Unknown(usize),
    /// No `--host` was given.
    HostRequired,
}

/// The options read so far.
pub struct ProbeSoFar {
    pub ssh_config: Option<usize>,
    pub identity: Option<usize>,
    pub host: Option<usize>,
    pub inject: bool,
}

/// The probe's reading of `a[i..]` after the options in `s`; a later
/// occurrence of an option replaces an earlier one.
pub open spec fn probe_scan(a: Seq<Seq<char>>, i: int, s: ProbeSoFar) -> Result<ProbeArgs, ProbeArgError>
    decreases a.len() - i,
{
    if i < 0 || i >= a.len() {
        match s.host {
            None => Err(ProbeArgError::HostRequired),
            Some(h) => Ok(
                ProbeArgs {
                    ssh_config: s.ssh_config,
                    identity: s.identity,
                    host: h,
                    inject_test_key: s.inject,
                },
            ),
        }
    } else if a[i] == ssh_config_flag() || a[i] == identity_flag() || a[i] == host_flag() {
        let option = if a[i] == ssh_config_flag() {
            ProbeOption::SshConfig
        } else if a[i] == identity_flag() {
            ProbeOption::Identity
        } else {
            ProbeOption::Host
        };
        if i + 1 < a.len() {
            let v = Some((i + 1) as usize);
            probe_scan(
                a,
                i + 2,
                match option {
                    ProbeOption::SshConfig => ProbeSoFar { ssh_config: v, ..s },
                    ProbeOption::Identity => ProbeSoFar { identity: v, ..s },
                    ProbeOption::Host => ProbeSoFar { host: v, ..s },
                },
            )
        } else {
            Err(ProbeArgError::MissingValue(option))
        }
    } else if a[i] == inject_flag() {
        probe_scan(a, i + 1, ProbeSoFar { inject: true, ..s })
    } else {
        Err(ProbeArgError::Unknown(i as usize))
    }
}

/// Reads the probe's arguments: `--ssh-config FILE`, `--identity FILE`,
/// `--host HOST` (required) and `--inject-test-key`.
pub fn probe_command(args: &Vec<String>) -> (r: Result<ProbeArgs, ProbeArgError>)
    ensures
        r == probe_scan(
            arg_texts(args@),
            0,
            ProbeSoFar { ssh_config: None, identity: None, host: None, inject: false },
        ),
{
    let ghost a = arg_texts(args@);
    let n = args.len();
    let ssh_config_word = ['-', '-', 's', 's', 'h', '-', 'c', 'o', 'n', 'f', 'i', 'g'];
    let identity_word = ['-', '-', 'i', 'd', 'e', 'n', 't', 'i', 't', 'y'];
    let host_word = ['-', '-', 'h', 'o', 's', 't'];
    let inject_word = [
        '-', '-', 'i', 'n', 'j', 'e', 'c', 't', '-', 't', 'e', 's', 't', '-', 'k', 'e', 'y',
    ];
    assert(ssh_config_word@ =~= ssh_config_flag());
    assert(identity_word@ =~= identity_flag());
    assert(host_word@ =~= host_flag());
    assert(inject_word@ =~= inject_flag());
    let mut ssh_config: Option<usize> = None;
    let mut identity: Option<usize> = None;
    let mut host: Option<usize> = None;
    let mut inject = false;
    let mut i: usize = 0;
    while i < n
        invariant
            n == args@.len(),
            a == arg_texts(args@),
            ssh_config_word@ == ssh_config_flag(),
            identity_word@ == identity_flag(),
            host_word@ == host_flag(),
            inject_word@ == inject_flag(),
            i <= n + 1,
            probe_scan(
                a,
                0,
                ProbeSoFar { ssh_config: None, identity: None, host: None, inject: false },
            ) == probe_scan(a, i as int, ProbeSoFar { ssh_config, identity, host, inject }),
        decreases n + 1 - i,
    {
        let arg = chars_of(args[i].as_str());
        assert(arg@ == a[i as int]);
        let is_ssh_config = is_word(&arg, &ssh_config_word);
        let is_identity = is_word(&arg, &identity_word);
        let is_host = is_word(&arg, &host_word);
        if is_ssh_config || is_identity || is_host {
            if i + 1 >= n {
                let option = if is_ssh_config {
                    ProbeOption::SshConfig
                } else if is_identity {
                    ProbeOption::Identity
                } else {
                    ProbeOption::Host
                };
                return Err(ProbeArgError::MissingValue(option));
            }
            if is_ssh_config {
                ssh_config = Some(i + 1);
            } else if is_identity {
                identity = Some(i + 1);
            } else {
                host = Some(i + 1);
            }
            i = i + 2;
        } else if is_word(&arg, &inject_word) {
            inject = true;
            i = i + 1;
        } else {
            return Err(ProbeArgError::Unknown(i));
        }
    }
    match host {
        None => Err(ProbeArgError::HostRequired),
        Some(h) => Ok(ProbeArgs { ssh_config, identity, host: h, inject_test_key: inject }),
    }
}

} // verus!
