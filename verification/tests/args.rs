use key_tunnel::args::{
    client_config_arg, probe_command, receiver_command, ArgError, ProbeArgError, ProbeArgs,
    ProbeOption, ReceiverCommand,
};

fn v(items: &[&str]) -> Vec<String> {
    items.iter().map(|s| s.to_string()).collect()
}

#[test]
fn receiver_arguments() {
    assert_eq!(
        receiver_command(&v(&[])),
        Ok(ReceiverCommand::Run { config_path: None })
    );
    assert_eq!(
        receiver_command(&v(&["--config", "a", "--config", "b"])),
        Ok(ReceiverCommand::Run {
            config_path: Some(3)
        })
    );
    assert_eq!(
        receiver_command(&v(&["--config", "--version"])),
        Ok(ReceiverCommand::Run {
            config_path: Some(1)
        })
    );
    assert_eq!(
        receiver_command(&v(&["--version", "--bogus"])),
        Ok(ReceiverCommand::Version)
    );
    assert_eq!(
        receiver_command(&v(&["--config"])),
        Err(ArgError::MissingConfigPath)
    );
    assert_eq!(
        receiver_command(&v(&["--config", "x", "-v"])),
        Err(ArgError::Unknown(2))
    );
}

#[test]
fn client_arguments() {
    assert_eq!(client_config_arg(&v(&[])), None);
    assert_eq!(client_config_arg(&v(&["x", "--config", "c.toml"])), Some(2));
    assert_eq!(client_config_arg(&v(&["--config"])), None);
    assert_eq!(
        client_config_arg(&v(&["--config", "--config", "y"])),
        Some(1)
    );
}

#[test]
fn probe_arguments() {
    assert_eq!(
        probe_command(&v(&["--host", "h", "--inject-test-key", "--identity", "k"])),
        Ok(ProbeArgs {
            ssh_config: None,
            identity: Some(4),
            host: 1,
            inject_test_key: true
        })
    );
    assert_eq!(
        probe_command(&v(&["--ssh-config", "c", "--host", "a", "--host", "b"])),
        Ok(ProbeArgs {
            ssh_config: Some(1),
            identity: None,
            host: 5,
            inject_test_key: false
        })
    );
    assert_eq!(probe_command(&v(&[])), Err(ProbeArgError::HostRequired));
    assert_eq!(
        probe_command(&v(&["--identity"])),
        Err(ProbeArgError::MissingValue(ProbeOption::Identity))
    );
    assert_eq!(
        probe_command(&v(&["--host", "h", "--what"])),
        Err(ProbeArgError::Unknown(2))
    );
}
