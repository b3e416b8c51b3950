//! The remote command executor's logic: the exact ssh invocation for the
//! user's command, the mapping from its exit status to a result, and the
//! registration of completion listeners before any work starts.

use vstd::prelude::*;
use vstd::string::*;
use crate::config::Config;
use crate::duration::DurationMs;
use crate::sync::ProcessExit;
use crate::sync::spec_user_prefix;

verus! {

/// The remote command finished successfully, after this wall time.
#[derive(Clone, Copy, Debug, PartialEq, Eq, Structural)]
pub struct RemoteCommandOk {
    pub duration: DurationMs,
}

/// The remote command failed, after this wall time. No message is carried:
/// the command's output was already streamed live.
#[derive(Clone, Copy, Debug, PartialEq, Eq, Structural)]
pub struct RemoteCommandErr {
    pub duration: DurationMs,
}

/// The single result of the remote command execution of a run.
pub type RemoteCommandResult = Result<RemoteCommandOk, RemoteCommandErr>;

/// The `-p <port>` argument, when a port is configured.
pub open spec fn spec_ssh_port_args(port: Option<String>) -> Seq<Seq<char>> {
    match port {
        Option::Some(p) => seq!["-p "@ + p@],
        Option::None => seq![],
    }
}

/// The ssh target: `[user@]host`.
pub open spec fn spec_ssh_target(c: Config) -> Seq<char> {
    spec_user_prefix(c.remote.user) + c.remote.host@
}

/// The shell line run on the remote machine: change to the project
/// directory, fail on any non-zero step, echo the command, then run it.
pub open spec fn spec_remote_script(cmd: Seq<char>, dir: Seq<char>) -> Seq<char> {
    "echo 'set -e && cd "@ + dir + " && echo \""@ + cmd + "\" && echo \"\" && "@ + cmd
        + "' | bash"@
}

/// Builds the shell line run remotely, exactly as specified by
/// [`spec_remote_script`].
pub fn remote_command_script(remote_command: &str, project_dir_on_remote_machine: &str) -> (r:
    String)
    ensures
        r@ == spec_remote_script(remote_command@, project_dir_on_remote_machine@),
{
    let mut s: String = "echo 'set -e && cd ".to_owned();
    s.append(project_dir_on_remote_machine);
    s.append(" && echo \"");
    s.append(remote_command);
    s.append("\" && echo \"\" && ");
    s.append(remote_command);
    s.append("' | bash");
    proof {
        assert(s@ =~= spec_remote_script(remote_command@, project_dir_on_remote_machine@));
    }
    s
}

/// The full ssh argument list for the remote command.
pub open spec fn spec_ssh_args(c: Config, cmd: Seq<char>, dir: Seq<char>) -> Seq<Seq<char>> {
    spec_ssh_port_args(c.remote.port) + seq![spec_ssh_target(c), spec_remote_script(cmd, dir)]
}

/// Builds the ssh argument list for the remote command, exactly as specified
/// by [`spec_ssh_args`].
pub fn ssh_command_args(config: &Config, remote_command: &str, project_dir_on_remote_machine: &str)
    -> (r: Vec<String>)
    ensures
        r.deep_view() == spec_ssh_args(
            *config,
            remote_command@,
            project_dir_on_remote_machine@,
        ),
{
    let mut args: Vec<String> = Vec::new();
    if let Option::Some(port) = &config.remote.port {
        let mut s: String = "-p ".to_owned();
        s.append(port.as_str());
        args.push(s);
    }
    let ghost s0 = spec_ssh_port_args(config.remote.port);
    proof {
        assert(args.deep_view() =~~= s0);
    }
    let mut target = String::new();
    if let Option::Some(user) = &config.remote.user {
        target.append(user.as_str());
        target.append("@");
    }
    target.append(config.remote.host.as_str());
    proof {
        assert(target@ =~= spec_ssh_target(*config));
    }
    args.push(target);
    args.push(remote_command_script(remote_command, project_dir_on_remote_machine));
    proof {
        assert(args.deep_view() =~~= spec_ssh_args(
            *config,
            remote_command@,
            project_dir_on_remote_machine@,
        ));
    }
    args
}

/// Maps how the ssh delegate ended to the remote command's result: success
/// exactly on exit code zero.
pub fn remote_command_outcome(exit: &ProcessExit, duration: DurationMs) -> (r: RemoteCommandResult)
    ensures
        match r {
            Ok(ok) => *exit == ProcessExit::Exited(0) && ok.duration == duration,
            Err(e) => *exit != ProcessExit::Exited(0) && e.duration == duration,
        },
{
    match exit {
        ProcessExit::Exited(code) => {
            if *code == 0 {
                Ok(RemoteCommandOk { duration })
            } else {
                Err(RemoteCommandErr { duration })
            }
        },
        _ => Err(RemoteCommandErr { duration }),
    }
}

#[verifier::external_type_specification]
#[verifier::external_body]
#[verifier::reject_recursive_types(T)]
pub struct ExBus<T>(bus::Bus<T>);

#[verifier::external_type_specification]
#[verifier::external_body]
#[verifier::reject_recursive_types(T)]
pub struct ExBusReader<T>(bus::BusReader<T>);

/// How many readers have been registered on a completion bus.
pub uninterp spec fn bus_listeners(b: bus::Bus<Result<RemoteCommandOk, RemoteCommandErr>>) -> nat;

/// Relies on bus::Bus::new: a fresh broadcast bus has no registered readers.
/// The bus adds one padding slot to the capacity, so the largest capacity is
/// left out.
#[verifier::external_body]
fn bus_new(capacity: usize) -> (b: bus::Bus<Result<RemoteCommandOk, RemoteCommandErr>>)
    requires
        capacity < usize::MAX,
    ensures
        bus_listeners(b) == 0,
{
    bus::Bus::new(capacity)
}

/// Relies on bus::Bus::add_rx: registers one more reader on the bus and
/// hands back that reader's receive handle.
#[verifier::external_body]
fn bus_add_reader(b: &mut bus::Bus<Result<RemoteCommandOk, RemoteCommandErr>>) -> (r:
    bus::BusReader<Result<RemoteCommandOk, RemoteCommandErr>>)
    requires
        bus_listeners(*old(b)) < usize::MAX,
    ensures
        bus_listeners(*final(b)) == bus_listeners(*old(b)) + 1,
{
    b.add_rx()
}

/// Creates the completion bus for one run and registers exactly
/// `listener_count` readers on it, before any work has been launched; the
/// returned handles are the only way to observe the command's completion.
pub fn register_listeners(listener_count: usize) -> (r: (
    bus::Bus<Result<RemoteCommandOk, RemoteCommandErr>>,
    Vec<bus::BusReader<Result<RemoteCommandOk, RemoteCommandErr>>>,
))
    ensures
        bus_listeners(r.0) == listener_count,
        r.1@.len() == listener_count,
{
    let mut b = bus_new(1);
    let mut readers: Vec<bus::BusReader<Result<RemoteCommandOk, RemoteCommandErr>>> = Vec::new();
    let mut i: usize = 0;
    while i < listener_count
        invariant
            i <= listener_count,
            bus_listeners(b) == i,
            readers@.len() == i,
        decreases listener_count - i,
    {
        let reader = bus_add_reader(&mut b);
        readers.push(reader);
        i = i + 1;
    }
    (b, readers)
}

} // verus!
