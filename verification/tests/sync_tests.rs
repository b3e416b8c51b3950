use mainframer::config::Config;
use mainframer::config::Pull;
use mainframer::config::Push;
use mainframer::config::Remote;
use mainframer::duration::DurationMs;
use mainframer::ignore::Ignore;
use mainframer::sync::ProcessExit;
use mainframer::sync::PullMode;
use mainframer::sync::PullOk;
use mainframer::sync::PushOk;
use mainframer::sync::calculate_perceived_pull_duration;
use mainframer::sync::project_dir_on_remote_machine;
use mainframer::sync::pull_command_args;
use mainframer::sync::pull_outcome;
use mainframer::sync::push_command_args;
use mainframer::sync::push_outcome;
use mainframer::sync::rsync_exit_result;

fn sample_config() -> Config {
    Config {
        remote: Remote {
            host: "computer1".to_string(),
            user: Some("admin".to_string()),
            port: Some("2222".to_string()),
            path: None,
        },
        push: Push {
            compression: 5,
            user: Some("pusher".to_string()),
        },
        pull: Pull {
            compression: 2,
            mode: PullMode::Serial,
            user: None,
        },
    }
}

#[test]
fn calculate_perceived_pull_duration_equals() {
    assert_eq!(
        calculate_perceived_pull_duration(DurationMs::from_millis(10), DurationMs::from_millis(10)),
        DurationMs::from_millis(0)
    );
}

#[test]
fn calculate_perceived_pull_duration_pull_longer_than_execution() {
    assert_eq!(
        calculate_perceived_pull_duration(DurationMs::from_secs(10), DurationMs::from_secs(8)),
        DurationMs::from_secs(2)
    );
}

#[test]
fn calculate_perceived_pull_duration_pull_less_than_execution() {
    assert_eq!(
        calculate_perceived_pull_duration(DurationMs::from_secs(7), DurationMs::from_secs(9)),
        DurationMs::from_secs(0)
    );
}

#[test]
fn project_dir_uses_configured_path() {
    let mut config = sample_config();
    config.remote.path = Some("/srv/project".to_string());
    assert_eq!(
        project_dir_on_remote_machine(&config, "/home/me/project"),
        "/srv/project".to_string()
    );
}

#[test]
fn project_dir_mirrors_local_path_by_default() {
    let config = sample_config();
    assert_eq!(
        project_dir_on_remote_machine(&config, "/home/me/project"),
        "~/mainframer/home/me/project".to_string()
    );
}

#[test]
fn push_args_full_configuration() {
    let config = sample_config();
    let ignore = Some(Ignore::new(
        Some(vec!["push-only".to_string()]),
        Some(vec!["pull-only".to_string()]),
        Some(vec!["shared".to_string()]),
    ));
    let args = push_command_args(&config, "/home/me/project", &ignore, 3);
    let expected: Vec<String> = vec![
        "--archive".to_string(),
        "--delete".to_string(),
        "-e ssh -p 2222".to_string(),
        "--rsync-path=mkdir -p ~/mainframer/home/me/project && rsync".to_string(),
        "--compress-level=5".to_string(),
        "--verbose".to_string(),
        "--verbose".to_string(),
        "--exclude=push-only".to_string(),
        "--exclude=shared".to_string(),
        "./".to_string(),
        "pusher@computer1:~/mainframer/home/me/project".to_string(),
    ];
    assert_eq!(args, expected);
}

#[test]
fn push_args_minimal_configuration() {
    let mut config = sample_config();
    config.remote.port = None;
    config.push.user = None;
    let args = push_command_args(&config, "/home/me/project", &None, 0);
    let expected: Vec<String> = vec![
        "--archive".to_string(),
        "--delete".to_string(),
        "--rsync-path=mkdir -p ~/mainframer/home/me/project && rsync".to_string(),
        "--compress-level=5".to_string(),
        "./".to_string(),
        "computer1:~/mainframer/home/me/project".to_string(),
    ];
    assert_eq!(args, expected);
}

#[test]
fn pull_args_full_configuration() {
    let config = sample_config();
    let ignore = Some(Ignore::new(
        Some(vec!["push-only".to_string()]),
        Some(vec!["pull-only".to_string()]),
        Some(vec!["shared".to_string()]),
    ));
    let args = pull_command_args(&config, "/home/me/project", &ignore, 1);
    let expected: Vec<String> = vec![
        "--archive".to_string(),
        "--delete".to_string(),
        "--compress-level=2".to_string(),
        "-e ssh -p 2222".to_string(),
        "--verbose".to_string(),
        "--exclude=pull-only".to_string(),
        "--exclude=shared".to_string(),
        "computer1:~/mainframer/home/me/project/".to_string(),
        "./".to_string(),
    ];
    assert_eq!(args, expected);
}

#[test]
fn rsync_exit_zero_is_success() {
    assert_eq!(rsync_exit_result(&ProcessExit::Exited(0), "", ""), Ok(()));
}

#[test]
fn rsync_nonzero_exit_embeds_code_and_output() {
    assert_eq!(
        rsync_exit_result(&ProcessExit::Exited(23), "sent 1 file", "some error"),
        Err(
            "rsync exit code '23',\nrsync stdout 'sent 1 file',\nrsync stderr 'some error'."
                .to_string()
        )
    );
}

#[test]
fn rsync_wait_failure_is_generic_error() {
    assert_eq!(
        rsync_exit_result(&ProcessExit::WaitFailed, "out", "err"),
        Err("Generic rsync error.".to_string())
    );
}

#[test]
fn rsync_termination_without_code_is_reported() {
    assert_eq!(
        rsync_exit_result(&ProcessExit::NoExitCode, "out", "err"),
        Err("rsync was terminated.".to_string())
    );
}

#[test]
fn push_outcome_keeps_duration_and_message() {
    let ok = push_outcome(Ok(()), DurationMs::from_millis(41));
    assert_eq!(
        ok,
        Ok(PushOk {
            duration: DurationMs::from_millis(41)
        })
    );
    let err = push_outcome(Err("boom".to_string()), DurationMs::from_millis(42));
    let failure = err.unwrap_err();
    assert_eq!(failure.duration, DurationMs::from_millis(42));
    assert_eq!(failure.message, "boom".to_string());
}

#[test]
fn pull_outcome_keeps_duration_and_message() {
    let ok = pull_outcome(Ok(()), DurationMs::from_millis(7));
    assert_eq!(
        ok,
        Ok(PullOk {
            duration: DurationMs::from_millis(7)
        })
    );
    let err = pull_outcome(Err("gone".to_string()), DurationMs::from_millis(8));
    let failure = err.unwrap_err();
    assert_eq!(failure.duration, DurationMs::from_millis(8));
    assert_eq!(failure.message, "gone".to_string());
}
