//! The transfer executor's logic: the exact rsync invocations for pushes and
//! pulls, the mapping from delegate exit statuses to transfer results, and
//! the perceived-duration arithmetic of parallel pulls.

use vstd::prelude::*;
use vstd::string::*;
use crate::config::Config;
use crate::duration::DurationMs;
use crate::ignore::Ignore;
use crate::ignore::spec_opt_patterns;
use crate::text::i32_string;
use crate::text::spec_decimal_int;

verus! {

/// A successful push and the wall time it took.
#[derive(Clone, Debug, PartialEq, Eq)]
pub struct PushOk {
    pub duration: DurationMs,
}

/// A failed push: the wall time it took and a diagnostic message.
#[derive(Clone, Debug, PartialEq, Eq)]
pub struct PushErr {
    pub duration: DurationMs,
    pub message: String,
}

/// How the pull leg is scheduled against the remote command.
#[derive(Clone, Copy, Debug, PartialEq, Eq, Structural)]
pub enum PullMode {
    /// One pull, strictly after the remote command has finished.
    Serial,
    /// Repeated pulls while the remote command runs, plus one final pull.
    Parallel,
}

impl Default for PullMode {
    fn default() -> (r: Self)
        ensures
            r is Serial,
    {
        PullMode::Serial
    }
}

/// The pause between two periodic pulls in parallel mode, in milliseconds.
pub const PARALLEL_PAUSE_MILLIS: u64 = 500;

/// A successful pull and the wall time it took.
#[derive(Clone, Debug, PartialEq, Eq)]
pub struct PullOk {
    pub duration: DurationMs,
}

/// A failed pull: the wall time it took and a diagnostic message.
#[derive(Clone, Debug, PartialEq, Eq)]
pub struct PullErr {
    pub duration: DurationMs,
    pub message: String,
}

/// How a delegate process ended: the wait itself failed, the process was
/// terminated without an exit code, or it exited with a code.
#[derive(Clone, Copy, Debug, PartialEq, Eq, Structural)]
pub enum ProcessExit {
    WaitFailed,
    NoExitCode,
    Exited(i32),
}

/// Wall time spent pulling beyond the remote command's own running time,
/// never negative.
pub open spec fn spec_perceived(total: int, remote: int) -> int {
    if total - remote >= 0 {
        total - remote
    } else {
        0
    }
}

/// The pull time a user perceives in parallel mode: the total wall time of
/// the coordinator minus the remote command's own duration, clamped to zero.
pub fn calculate_perceived_pull_duration(
    total_pull_duration: DurationMs,
    remote_command_duration: DurationMs,
) -> (r: DurationMs)
    ensures
        r.millis == spec_perceived(
            total_pull_duration.millis as int,
            remote_command_duration.millis as int,
        ),
{
    total_pull_duration.saturating_sub(remote_command_duration)
}

/// The project directory on the remote machine: the configured path, or a
/// mirror of the local absolute path under `~/mainframer`.
pub open spec fn spec_project_dir(c: Config, local: Seq<char>) -> Seq<char> {
    match c.remote.path {
        Option::Some(p) => p@,
        Option::None => "~/mainframer"@ + local,
    }
}

pub fn project_dir_on_remote_machine(config: &Config, local_dir_absolute_path: &str) -> (r: String)
    ensures
        r@ == spec_project_dir(*config, local_dir_absolute_path@),
{
    match &config.remote.path {
        Option::Some(path) => path.clone(),
        Option::None => {
            let mut s: String = "~/mainframer".to_owned();
            s.append(local_dir_absolute_path);
            s
        },
    }
}

/// `user@` when a user is configured, nothing otherwise.
pub open spec fn spec_user_prefix(user: Option<String>) -> Seq<char> {
    match user {
        Option::Some(u) => u@ + "@"@,
        Option::None => seq![],
    }
}

/// The push destination: `[user@]host:remote-project-dir`.
pub open spec fn spec_push_destination(c: Config, local: Seq<char>) -> Seq<char> {
    spec_user_prefix(c.push.user) + c.remote.host@ + ":"@ + spec_project_dir(c, local)
}

/// The pull source: `[user@]host:remote-project-dir/`.
pub open spec fn spec_pull_source(c: Config, local: Seq<char>) -> Seq<char> {
    spec_user_prefix(c.pull.user) + c.remote.host@ + ":"@ + spec_project_dir(c, local) + "/"@
}

fn user_host_dir(user: &Option<String>, config: &Config, local_dir_absolute_path: &str) -> (r:
    String)
    ensures
        r@ == spec_user_prefix(*user) + config.remote.host@ + ":"@ + spec_project_dir(
            *config,
            local_dir_absolute_path@,
        ),
{
    let mut s = String::new();
    if let Option::Some(u) = user {
        s.append(u.as_str());
        s.append("@");
    }
    s.append(config.remote.host.as_str());
    s.append(":");
    let dir = project_dir_on_remote_machine(config, local_dir_absolute_path);
    s.append(dir.as_str());
    proof {
        assert(s@ =~= spec_user_prefix(*user) + config.remote.host@ + ":"@ + spec_project_dir(
            *config,
            local_dir_absolute_path@,
        ));
    }
    s
}

/// The `-e ssh -p <port>` argument, when a port is configured.
pub open spec fn spec_rsync_port_args(port: Option<String>) -> Seq<Seq<char>> {
    match port {
        Option::Some(p) => seq!["-e ssh -p "@ + p@],
        Option::None => seq![],
    }
}

/// The `--compress-level=<level>` argument.
pub open spec fn spec_compress_arg(level: int) -> Seq<char> {
    "--compress-level="@ + spec_decimal_int(level)
}

/// At most two `--verbose` flags, one per requested level.
pub open spec fn spec_verbose_args(verbose: u8) -> Seq<Seq<char>> {
    if verbose == 0 {
        seq![]
    } else if verbose == 1 {
        seq!["--verbose"@]
    } else {
        seq!["--verbose"@, "--verbose"@]
    }
}

/// One `--exclude=<pattern>` argument per pattern, in order.
pub open spec fn spec_exclude_args(patterns: Seq<Seq<char>>) -> Seq<Seq<char>>
    decreases patterns.len(),
{
    if patterns.len() == 0 {
        seq![]
    } else {
        spec_exclude_args(patterns.drop_last()).push("--exclude="@ + patterns.last())
    }
}

/// The push exclude patterns of an optional ignore list.
pub open spec fn spec_ignore_push_patterns(ignore: Option<Ignore>) -> Seq<Seq<char>> {
    match ignore {
        Option::Some(ig) => spec_opt_patterns(ig.push) + spec_opt_patterns(ig.both),
        Option::None => seq![],
    }
}

/// The pull exclude patterns of an optional ignore list.
pub open spec fn spec_ignore_pull_patterns(ignore: Option<Ignore>) -> Seq<Seq<char>> {
    match ignore {
        Option::Some(ig) => spec_opt_patterns(ig.pull) + spec_opt_patterns(ig.both),
        Option::None => seq![],
    }
}

fn append_exclude_args(args: &mut Vec<String>, patterns: &Vec<String>)
    ensures
        final(args).deep_view() == old(args).deep_view() + spec_exclude_args(patterns.deep_view()),
{
    let mut i: usize = 0;
    proof {
        assert(spec_exclude_args(patterns.deep_view().take(0)) =~~= Seq::<Seq<char>>::empty());
        assert(args.deep_view() =~~= old(args).deep_view() + spec_exclude_args(
            patterns.deep_view().take(0),
        ));
    }
    while i < patterns.len()
        invariant
            i <= patterns.len(),
            args.deep_view() == old(args).deep_view() + spec_exclude_args(
                patterns.deep_view().take(i as int),
            ),
        decreases patterns.len() - i,
    {
        let ghost pre = args.deep_view();
        let mut s: String = "--exclude=".to_owned();
        s.append(patterns[i].as_str());
        args.push(s);
        proof {
            let dv = patterns.deep_view();
            assert(dv.take(i + 1).drop_last() =~= dv.take(i as int));
            assert(dv.take(i + 1).last() == dv[i as int]);
            assert(args.deep_view() =~~= pre.push("--exclude="@ + dv[i as int]));
        }
        i = i + 1;
    }
    proof {
        assert(patterns.deep_view().take(patterns.len() as int) =~= patterns.deep_view());
    }
}

/// The full rsync argument list for the one-shot push.
pub open spec fn spec_push_args(
    c: Config,
    local: Seq<char>,
    ignore: Option<Ignore>,
    verbose: u8,
) -> Seq<Seq<char>> {
    seq!["--archive"@, "--delete"@] + spec_rsync_port_args(c.remote.port) + seq![
        "--rsync-path=mkdir -p "@ + spec_project_dir(c, local) + " && rsync"@,
        spec_compress_arg(c.push.compression as int),
    ] + spec_verbose_args(verbose) + spec_exclude_args(spec_ignore_push_patterns(ignore)) + seq![
        "./"@,
        spec_push_destination(c, local),
    ]
}

/// Builds the rsync argument list for the push, exactly as specified by
/// [`spec_push_args`].
pub fn push_command_args(
    config: &Config,
    local_dir_absolute_path: &str,
    ignore: &Option<Ignore>,
    verbose: u8,
) -> (r: Vec<String>)
    ensures
        r.deep_view() == spec_push_args(*config, local_dir_absolute_path@, *ignore, verbose),
{
    let ghost local = local_dir_absolute_path@;
    let mut args: Vec<String> = Vec::new();
    args.push("--archive".to_owned());
    args.push("--delete".to_owned());
    let ghost s0 = seq!["--archive"@, "--delete"@];
    proof {
        assert(args.deep_view() =~~= s0);
    }
    if let Option::Some(port) = &config.remote.port {
        let mut s: String = "-e ssh -p ".to_owned();
        s.append(port.as_str());
        args.push(s);
    }
    let ghost s1 = s0 + spec_rsync_port_args(config.remote.port);
    proof {
        assert(args.deep_view() =~~= s1);
    }
    let dir = project_dir_on_remote_machine(config, local_dir_absolute_path);
    let mut rp: String = "--rsync-path=mkdir -p ".to_owned();
    rp.append(dir.as_str());
    rp.append(" && rsync");
    args.push(rp);
    let mut cl: String = "--compress-level=".to_owned();
    let digits = i32_string(config.push.compression as i32);
    cl.append(digits.as_str());
    args.push(cl);
    let ghost s2 = s1 + seq![
        "--rsync-path=mkdir -p "@ + spec_project_dir(*config, local) + " && rsync"@,
        spec_compress_arg(config.push.compression as int),
    ];
    proof {
        assert(args.deep_view() =~~= s2);
    }
    if verbose >= 1 {
        args.push("--verbose".to_owned());
    }
    if verbose >= 2 {
        args.push("--verbose".to_owned());
    }
    let ghost s3 = s2 + spec_verbose_args(verbose);
    proof {
        assert(args.deep_view() =~~= s3);
    }
    if let Option::Some(ig) = ignore {
        let patterns = ig.push();
        append_exclude_args(&mut args, &patterns);
    }
    let ghost s4 = s3 + spec_exclude_args(spec_ignore_push_patterns(*ignore));
    proof {
        assert(args.deep_view() =~~= s4);
    }
    args.push("./".to_owned());
    let destination = user_host_dir(&config.push.user, config, local_dir_absolute_path);
    args.push(destination);
    proof {
        assert(args.deep_view() =~~= s4 + seq!["./"@, spec_push_destination(*config, local)]);
        assert(args.deep_view() =~~= spec_push_args(*config, local, *ignore, verbose));
    }
    args
}

/// The full rsync argument list for one pull attempt.
pub open spec fn spec_pull_args(
    c: Config,
    local: Seq<char>,
    ignore: Option<Ignore>,
    verbose: u8,
) -> Seq<Seq<char>> {
    seq!["--archive"@, "--delete"@, spec_compress_arg(c.pull.compression as int)]
        + spec_rsync_port_args(c.remote.port) + spec_verbose_args(verbose) + spec_exclude_args(
        spec_ignore_pull_patterns(ignore),
    ) + seq![spec_pull_source(c, local), "./"@]
}

/// Builds the rsync argument list for a pull attempt, exactly as specified
/// by [`spec_pull_args`].
pub fn pull_command_args(
    config: &Config,
    local_dir_absolute_path: &str,
    ignore: &Option<Ignore>,
    verbose: u8,
) -> (r: Vec<String>)
    ensures
        r.deep_view() == spec_pull_args(*config, local_dir_absolute_path@, *ignore, verbose),
{
    let ghost local = local_dir_absolute_path@;
    let mut args: Vec<String> = Vec::new();
    args.push("--archive".to_owned());
    args.push("--delete".to_owned());
    let mut cl: String = "--compress-level=".to_owned();
    let digits = i32_string(config.pull.compression as i32);
    cl.append(digits.as_str());
    args.push(cl);
    let ghost s0 = seq![
        "--archive"@,
        "--delete"@,
        spec_compress_arg(config.pull.compression as int),
    ];
    proof {
        assert(args.deep_view() =~~= s0);
    }
    if let Option::Some(port) = &config.remote.port {
        let mut s: String = "-e ssh -p ".to_owned();
        s.append(port.as_str());
        args.push(s);
    }
    let ghost s1 = s0 + spec_rsync_port_args(config.remote.port);
    proof {
        assert(args.deep_view() =~~= s1);
    }
    if verbose >= 1 {
        args.push("--verbose".to_owned());
    }
    if verbose >= 2 {
        args.push("--verbose".to_owned());
    }
    let ghost s2 = s1 + spec_verbose_args(verbose);
    proof {
        assert(args.deep_view() =~~= s2);
    }
    if let Option::Some(ig) = ignore {
        let patterns = ig.pull();
        append_exclude_args(&mut args, &patterns);
    }
    let ghost s3 = s2 + spec_exclude_args(spec_ignore_pull_patterns(*ignore));
    proof {
        assert(args.deep_view() =~~= s3);
    }
    let mut source = user_host_dir(&config.pull.user, config, local_dir_absolute_path);
    source.append("/");
    args.push(source);
    args.push("./".to_owned());
    proof {
        assert(args.deep_view() =~~= s3 + seq![spec_pull_source(*config, local), "./"@]);
        assert(args.deep_view() =~~= spec_pull_args(*config, local, *ignore, verbose));
    }
    args
}

/// The diagnostic embedding a nonzero exit code and the captured output.
pub open spec fn spec_rsync_failure_message(code: int, out: Seq<char>, err: Seq<char>) -> Seq<
    char,
> {
    "rsync exit code '"@ + spec_decimal_int(code) + "',\nrsync stdout '"@ + out
        + "',\nrsync stderr '"@ + err + "'."@
}

fn rsync_failure_message(code: i32, stdout: &str, stderr: &str) -> (r: String)
    ensures
        r@ == spec_rsync_failure_message(code as int, stdout@, stderr@),
{
    let mut r: String = "rsync exit code '".to_owned();
    let digits = i32_string(code);
    r.append(digits.as_str());
    r.append("',\nrsync stdout '");
    r.append(stdout);
    r.append("',\nrsync stderr '");
    r.append(stderr);
    r.append("'.");
    proof {
        assert(r@ =~= spec_rsync_failure_message(code as int, stdout@, stderr@));
    }
    r
}

/// The diagnostic for a delegate transfer that did not succeed.
pub open spec fn spec_rsync_error(exit: ProcessExit, out: Seq<char>, err: Seq<char>) -> Seq<char> {
    match exit {
        ProcessExit::WaitFailed => "Generic rsync error."@,
        ProcessExit::NoExitCode => "rsync was terminated."@,
        ProcessExit::Exited(code) => spec_rsync_failure_message(code as int, out, err),
    }
}

/// Maps how the rsync delegate ended to a transfer outcome: success exactly
/// on exit code zero, a diagnostic embedding code and captured output
/// otherwise.
pub fn rsync_exit_result(exit: &ProcessExit, stdout: &str, stderr: &str) -> (r: Result<
    (),
    String,
>)
    ensures
        match r {
            Ok(_) => *exit == ProcessExit::Exited(0),
            Err(m) => *exit != ProcessExit::Exited(0) && m@ == spec_rsync_error(
                *exit,
                stdout@,
                stderr@,
            ),
        },
{
    match exit {
        ProcessExit::WaitFailed => Err("Generic rsync error.".to_owned()),
        ProcessExit::NoExitCode => Err("rsync was terminated.".to_owned()),
        ProcessExit::Exited(code) => {
            if *code == 0 {
                Ok(())
            } else {
                Err(rsync_failure_message(*code, stdout, stderr))
            }
        },
    }
}

/// Packs a push's transfer outcome and elapsed wall time into its result.
pub fn push_outcome(outcome: Result<(), String>, duration: DurationMs) -> (r: Result<
    PushOk,
    PushErr,
>)
    ensures
        match r {
            Ok(ok) => outcome is Ok && ok.duration == duration,
            Err(e) => outcome matches Err(m) && e.duration == duration && e.message == m,
        },
{
    match outcome {
        Ok(_) => Ok(PushOk { duration }),
        Err(message) => Err(PushErr { duration, message }),
    }
}

/// Packs a pull attempt's transfer outcome and elapsed wall time into its
/// result.
pub fn pull_outcome(outcome: Result<(), String>, duration: DurationMs) -> (r: Result<
    PullOk,
    PullErr,
>)
    ensures
        match r {
            Ok(ok) => outcome is Ok && ok.duration == duration,
            Err(e) => outcome matches Err(m) && e.duration == duration && e.message == m,
        },
{
    match outcome {
        Ok(_) => Ok(PullOk { duration }),
        Err(message) => Err(PullErr { duration, message }),
    }
}

} // verus!
