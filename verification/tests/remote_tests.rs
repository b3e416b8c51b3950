use mainframer::config::Config;
use mainframer::config::Pull;
use mainframer::config::Push;
use mainframer::config::Remote;
use mainframer::duration::DurationMs;
use mainframer::remote_command::RemoteCommandErr;
use mainframer::remote_command::RemoteCommandOk;
use mainframer::remote_command::register_listeners;
use mainframer::remote_command::remote_command_outcome;
use mainframer::remote_command::remote_command_script;
use mainframer::remote_command::ssh_command_args;
use mainframer::sync::ProcessExit;
use mainframer::sync::PullMode;

fn remote_config(user: Option<&str>, port: Option<&str>) -> Config {
    Config {
        remote: Remote {
            host: "computer1".to_string(),
            user: user.map(|u| u.to_string()),
            port: port.map(|p| p.to_string()),
            path: None,
        },
        push: Push {
            compression: 3,
            user: None,
        },
        pull: Pull {
            compression: 1,
            mode: PullMode::Serial,
            user: None,
        },
    }
}

#[test]
fn remote_script_wraps_command() {
    assert_eq!(
        remote_command_script("cargo test", "~/mainframer/home/me/project"),
        "echo 'set -e && cd ~/mainframer/home/me/project && echo \"cargo test\" && echo \"\" && cargo test' | bash"
            .to_string()
    );
}

#[test]
fn ssh_args_with_user_and_port() {
    let config = remote_config(Some("admin"), Some("2222"));
    let args = ssh_command_args(&config, "make", "~/mainframer/p");
    let expected: Vec<String> = vec![
        "-p 2222".to_string(),
        "admin@computer1".to_string(),
        "echo 'set -e && cd ~/mainframer/p && echo \"make\" && echo \"\" && make' | bash"
            .to_string(),
    ];
    assert_eq!(args, expected);
}

#[test]
fn ssh_args_host_only() {
    let config = remote_config(None, None);
    let args = ssh_command_args(&config, "make", "~/mainframer/p");
    let expected: Vec<String> = vec![
        "computer1".to_string(),
        "echo 'set -e && cd ~/mainframer/p && echo \"make\" && echo \"\" && make' | bash"
            .to_string(),
    ];
    assert_eq!(args, expected);
}

#[test]
fn remote_outcome_success_only_on_exit_zero() {
    let d = DurationMs::from_millis(1500);
    assert_eq!(
        remote_command_outcome(&ProcessExit::Exited(0), d),
        Ok(RemoteCommandOk { duration: d })
    );
    assert_eq!(
        remote_command_outcome(&ProcessExit::Exited(2), d),
        Err(RemoteCommandErr { duration: d })
    );
    assert_eq!(
        remote_command_outcome(&ProcessExit::NoExitCode, d),
        Err(RemoteCommandErr { duration: d })
    );
    assert_eq!(
        remote_command_outcome(&ProcessExit::WaitFailed, d),
        Err(RemoteCommandErr { duration: d })
    );
}

#[test]
fn registered_listeners_all_receive_the_broadcast() {
    let (mut bus, mut readers) = register_listeners(2);
    assert_eq!(readers.len(), 2);
    let value = Ok(RemoteCommandOk {
        duration: DurationMs::from_millis(700),
    });
    bus.broadcast(value);
    let mut second = readers.pop().unwrap();
    let mut first = readers.pop().unwrap();
    assert_eq!(first.recv(), Ok(value));
    assert_eq!(second.recv(), Ok(value));
}

#[test]
fn register_listeners_none_is_empty() {
    let (_bus, readers) = register_listeners(0);
    assert_eq!(readers.len(), 0);
}
