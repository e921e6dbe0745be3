use vstd::prelude::*;
use crate::error::{ErrorKind, ShimError};
use crate::exit_signal::woken_by_signal;
use crate::process::{LifecycleOp, ProcessKind, ProcessRecord, Status, apply_op};
use crate::runtime::{argv_view, create_args, delete_args, exec_args, exec_pid_path, init_pid_path, kill_args,
    opt_view, ps_args, start_args, work_dir_path, flag_if, opt_arg, join_path};
use crate::text::{contains, decimal, lower_of, lowercase, parse_i32, parsed_i32, seq_contains};

verus! {

/// Relies on nix's `Signal::try_from(i32)`: on Linux for x86, x86_64, arm
/// and aarch64 it accepts exactly the signal numbers 1 to 31. (On mips and
/// sparc Linux the numbering differs; this crate does not target them.)
#[verifier::external_body]
fn is_known_signal(n: i32) -> (r: bool)
    ensures
        r == (1 <= n <= 31),
{
    nix::sys::signal::Signal::try_from(n).is_ok()
}

/// The kind of error that a lower-cased kill failure message stands for.
pub open spec fn kill_error_kind(lowered: Seq<char>) -> ErrorKind {
    if seq_contains(lowered, "process already finished"@) || seq_contains(lowered, "container not running"@)
        || seq_contains(lowered, "no such process"@) || seq_contains(lowered, "does not exist"@) {
        ErrorKind::NotFound
    } else {
        ErrorKind::Other
    }
}

/// The message that goes with `kill_error_kind`.
pub open spec fn kill_error_message(lowered: Seq<char>) -> Seq<char> {
    if seq_contains(lowered, "process already finished"@) || seq_contains(lowered, "container not running"@)
        || seq_contains(lowered, "no such process"@) {
        "process already finished"@
    } else if seq_contains(lowered, "does not exist"@) {
        "no such container"@
    } else {
        "unknown error after kill: "@ + lowered
    }
}

/// Maps a lower-cased runtime kill failure to the shim's error: a process
/// that is gone or a container that does not exist is `NotFound`.
pub fn classify_kill_error(lowered: &str) -> (r: ShimError)
    ensures
        r.kind == kill_error_kind(lowered@),
        r.message@ == kill_error_message(lowered@),
{
    if contains(lowered, "process already finished") || contains(lowered, "container not running")
        || contains(lowered, "no such process") {
        ShimError::new(ErrorKind::NotFound, "process already finished")
    } else if contains(lowered, "does not exist") {
        ShimError::new(ErrorKind::NotFound, "no such container")
    } else {
        let mut m = "unknown error after kill: ".to_owned();
        m.append(lowered);
        ShimError { kind: ErrorKind::Other, message: m }
    }
}

/// Maps a runtime kill failure, compared without regard to case.
pub fn check_kill_error(message: &str) -> (r: ShimError)
    ensures
        r.kind == kill_error_kind(lower_of(message@)),
        r.message@ == kill_error_message(lower_of(message@)),
{
    let lowered = lowercase(message);
    classify_kill_error(lowered.as_str())
}

/// A lower-cased runtime delete failure that only says the container is gone.
pub open spec fn reports_absence(lowered: Seq<char>) -> bool {
    seq_contains(lowered, "does not exist"@)
}

/// Whether a lower-cased delete failure only reports that the container is
/// already gone.
pub fn is_absence_report(lowered: &str) -> (r: bool)
    ensures
        r == reports_absence(lowered@),
{
    contains(lowered, "does not exist")
}

/// An error whose message is `prefix` followed by `detail`.
fn error_with(kind: ErrorKind, prefix: &str, detail: &str) -> (r: ShimError)
    ensures
        r.kind == kind,
        r.message@ == prefix@ + detail@,
{
    let mut m = prefix.to_owned();
    m.append(detail);
    ShimError { kind, message: m }
}

/// What became of a create or exec start, once the runtime has run, the
/// relay has been wired and the pid file read.
#[derive(Debug)]
pub struct LaunchReport {
    /// The pid of the new process, or why there is none.
    pub result: Result<i32, ShimError>,
    /// Whether the console socket is to be removed.
    pub clean_socket: bool,
}

impl LaunchReport {
    /// A launched process has a positive pid.
    pub open spec fn wf(&self) -> bool {
        self.result.is_ok() ==> self.result->Ok_0 > 0
    }
}

/// The pid that a pid file holds, when it holds a positive one.
pub open spec fn pid_of_text(text: Seq<char>) -> Option<i32> {
    match parsed_i32(text) {
        Some(v) => if v > 0 { Some(v) } else { None },
        None => None,
    }
}

/// Decides a launch from its three steps: the runtime invocation, the relay
/// wiring (which returns the PTY master on a terminal) and the pid file's
/// text. A step after a failed one is not looked at. On a terminal the
/// console socket is removed on every path, success or failure.
pub fn conclude_launch(
    terminal: bool,
    runtime: &Result<String, String>,
    relay: &Result<Option<i32>, ShimError>,
    pid_text: &str,
    failure: &str,
) -> (r: LaunchReport)
    ensures
        r.wf(),
        r.clean_socket == terminal,
        runtime.is_err() ==> r.result.is_err() && r.result->Err_0.kind == ErrorKind::Runtime
            && r.result->Err_0.message@ == failure@ + runtime->Err_0@,
        runtime.is_ok() && relay.is_err() ==> r.result.is_err() && r.result->Err_0.kind == relay->Err_0.kind
            && r.result->Err_0.message@ == relay->Err_0.message@,
        runtime.is_ok() && relay.is_ok() ==> match pid_of_text(pid_text@) {
            Some(pid) => r.result == Ok::<i32, ShimError>(pid),
            None => r.result.is_err() && r.result->Err_0.kind == ErrorKind::Io,
        },
{
    let result = match runtime {
        Err(e) => Err(error_with(ErrorKind::Runtime, failure, e.as_str())),
        Ok(_) => match relay {
            Err(e) => Err(e.clone_error()),
            Ok(_) => match parse_i32(pid_text) {
                Some(v) => if v > 0 {
                    Ok(v)
                } else {
                    Err(error_with(ErrorKind::Io, "pid file holds no valid pid: ", pid_text))
                },
                None => Err(error_with(ErrorKind::Io, "pid file holds no valid pid: ", pid_text)),
            },
        },
    };
    LaunchReport { result, clean_socket: terminal }
}

/// What a launch does next.
#[derive(Debug, Clone, Copy, PartialEq, Eq, Structural)]
pub enum LaunchStep {
    /// Wire the relay: take the PTY master on a terminal, start the copies.
    WireRelay,
    /// Read the pid file.
    ReadPidFile,
    /// Stop and conclude with what the steps so far gave.
    Conclude,
}

/// The order of a launch's steps: the relay is wired only once the runtime
/// succeeded, and the pid file read only once the relay is wired; any
/// failure ends the launch.
pub fn next_launch_step(runtime: &Result<String, String>, relay: Option<&Result<Option<i32>, ShimError>>) -> (r: LaunchStep)
    ensures
        runtime.is_err() ==> r == LaunchStep::Conclude,
        runtime.is_ok() && relay.is_none() ==> r == LaunchStep::WireRelay,
        runtime.is_ok() && relay.is_some() && relay->Some_0.is_ok() ==> r == LaunchStep::ReadPidFile,
        runtime.is_ok() && relay.is_some() && relay->Some_0.is_err() ==> r == LaunchStep::Conclude,
{
    if runtime.is_err() {
        LaunchStep::Conclude
    } else {
        match relay {
            None => LaunchStep::WireRelay,
            Some(Ok(_)) => LaunchStep::ReadPidFile,
            Some(Err(_)) => LaunchStep::Conclude,
        }
    }
}

/// The shim's settings for one container.
#[derive(Debug, Clone)]
pub struct ShimOptions {
    pub binary_name: String,
    pub no_pivot_root: bool,
    pub no_new_keyring: bool,
    pub io_uid: u32,
    pub io_gid: u32,
    pub criu_path: String,
}

/// How the init process of a container goes through its lifecycle.
#[derive(Debug)]
pub struct RuncInitLifecycle {
    pub runtime: String,
    pub opts: ShimOptions,
    pub bundle: String,
}

/// Everything but the state is as it was.
pub open spec fn unchanged_but_state(a: &ProcessRecord, b: &ProcessRecord) -> bool {
    &&& b.id == a.id
    &&& b.kind == a.kind
    &&& b.stdio == a.stdio
    &&& b.pid == a.pid
    &&& b.exit_code == a.exit_code
    &&& b.exited_at == a.exited_at
    &&& b.console == a.console
    &&& b.wait_notifiers == a.wait_notifiers
    &&& b.exit_signal == a.exit_signal
}

/// Only a created process can be started.
fn check_startable(p: &ProcessRecord) -> (r: Result<(), ShimError>)
    ensures
        r.is_ok() == (p.state == Status::Created),
        r.is_err() ==> r->Err_0.kind == ErrorKind::FailedPrecondition,
{
    if p.state == Status::Created {
        Ok(())
    } else {
        Err(ShimError::new(ErrorKind::FailedPrecondition, "process is not in the created state"))
    }
}

/// Only a running process answers update, stats and ps.
fn check_running(p: &ProcessRecord) -> (r: Result<(), ShimError>)
    ensures
        r.is_ok() == (p.state == Status::Running),
        r.is_err() ==> r->Err_0.kind == ErrorKind::FailedPrecondition,
{
    if p.state == Status::Running {
        Ok(())
    } else {
        Err(ShimError::new(ErrorKind::FailedPrecondition, "process is not running"))
    }
}

impl RuncInitLifecycle {
    /// Without a checkpoint path in `opts`, the bundle's `work` directory is used.
    pub fn new(runtime: &str, opts: ShimOptions, bundle: &str) -> (r: RuncInitLifecycle)
        ensures
            r.runtime@ == runtime@,
            r.bundle@ == bundle@,
            r.opts.binary_name == opts.binary_name,
            r.opts.no_pivot_root == opts.no_pivot_root,
            r.opts.no_new_keyring == opts.no_new_keyring,
            r.opts.io_uid == opts.io_uid,
            r.opts.io_gid == opts.io_gid,
            opts.criu_path@.len() == 0 ==> r.opts.criu_path@ == join_path(bundle@, "work"@),
            opts.criu_path@.len() != 0 ==> r.opts.criu_path == opts.criu_path,
    {
        let mut opts = opts;
        if opts.criu_path.as_str().unicode_len() == 0 {
            opts.criu_path = work_dir_path(bundle);
        }
        RuncInitLifecycle { runtime: runtime.to_owned(), opts, bundle: bundle.to_owned() }
    }

    /// The runtime's create command for the init, with its pid file in the
    /// bundle and, on a terminal, the console socket.
    pub fn create_command(&self, p: &ProcessRecord, console_socket: Option<&str>) -> (r: Vec<String>)
        requires
            console_socket.is_some() == p.stdio.terminal,
        ensures
            argv_view(r@) == seq!["create"@, "--pid-file"@, join_path(self.bundle@, "init.pid"@)]
                + flag_if(self.opts.no_pivot_root, "--no-pivot"@)
                + flag_if(self.opts.no_new_keyring, "--no-new-keyring"@)
                + opt_arg("--console-socket"@, opt_view(console_socket)) + seq![p.id@],
    {
        let pid_file = init_pid_path(self.bundle.as_str());
        create_args(p.id.as_str(), pid_file.as_str(), self.opts.no_pivot_root, self.opts.no_new_keyring, console_socket)
    }

    /// Applies a concluded create: the pid is stored, the state stays `Created`,
    /// and the PTY master, if any, becomes the console.
    pub fn complete_create(&self, p: &mut ProcessRecord, report: &LaunchReport, console: Option<i32>) -> (r: Result<(), ShimError>)
        requires
            old(p).wf(),
            old(p).kind == ProcessKind::Init,
            old(p).state == Status::Created,
            old(p).exited_at.is_none(),
            report.wf(),
        ensures
            final(p).wf(),
            final(p).state == Status::Created,
            r.is_ok() == report.result.is_ok(),
            report.result.is_ok() ==> final(p).pid == report.result->Ok_0 && final(p).console == console,
            report.result.is_err() ==> *final(p) == *old(p) && r->Err_0.kind == report.result->Err_0.kind,
    {
        match &report.result {
            Ok(pid) => {
                p.pid = *pid;
                p.console = console;
                Ok(())
            },
            Err(e) => Err(e.clone_error()),
        }
    }

    /// The runtime's start command, for a created init.
    pub fn start_command(&self, p: &ProcessRecord) -> (r: Result<Vec<String>, ShimError>)
        ensures
            r.is_ok() == (p.state == Status::Created),
            r.is_ok() ==> argv_view(r->Ok_0@) == seq!["start"@, p.id@],
            r.is_err() ==> r->Err_0.kind == ErrorKind::FailedPrecondition,
    {
        check_startable(p)?;
        Ok(start_args(p.id.as_str()))
    }

    /// Applies the outcome of the runtime's start: `Running` on success,
    /// unchanged on failure.
    pub fn complete_start(&self, p: &mut ProcessRecord, outcome: &Result<String, String>) -> (r: Result<(), ShimError>)
        requires
            old(p).wf(),
            old(p).state == Status::Created,
            old(p).pid > 0,
        ensures
            final(p).wf(),
            unchanged_but_state(&*old(p), &*final(p)),
            r.is_ok() == outcome.is_ok(),
            final(p).state == apply_op(old(p).state, old(p).exited_at.is_some(), LifecycleOp::Start { ok: outcome.is_ok() }).0,
            outcome.is_ok() ==> final(p).state == Status::Running,
            outcome.is_err() ==> final(p).state == Status::Created && r->Err_0.kind == ErrorKind::Runtime
                && r->Err_0.message@ == "failed start: "@ + outcome->Err_0@,
    {
        match outcome {
            Ok(_) => {
                p.state = Status::Running;
                Ok(())
            },
            Err(e) => Err(error_with(ErrorKind::Runtime, "failed start: ", e.as_str())),
        }
    }

    /// The runtime's kill command. A process is killed only while created or
    /// running; after that it has finished.
    pub fn kill_command(&self, p: &ProcessRecord, signal: u32, all: bool) -> (r: Result<Vec<String>, ShimError>)
        ensures
            r.is_ok() == (p.state == Status::Created || p.state == Status::Running),
            r.is_ok() ==> argv_view(r->Ok_0@) == seq!["kill"@] + flag_if(all, "--all"@) + seq![p.id@, decimal(signal as nat)],
            r.is_err() ==> r->Err_0.kind == ErrorKind::NotFound,
    {
        if p.state == Status::Created || p.state == Status::Running {
            Ok(kill_args(p.id.as_str(), signal, all))
        } else {
            Err(ShimError::new(ErrorKind::NotFound, "process already finished"))
        }
    }

    /// The outcome of the runtime's kill.
    pub fn complete_kill(&self, outcome: &Result<String, String>) -> (r: Result<(), ShimError>)
        ensures
            r.is_ok() == outcome.is_ok(),
            outcome.is_err() ==> r->Err_0.kind == kill_error_kind(lower_of(outcome->Err_0@))
                && r->Err_0.message@ == kill_error_message(lower_of(outcome->Err_0@)),
    {
        match outcome {
            Ok(_) => Ok(()),
            Err(e) => Err(check_kill_error(e.as_str())),
        }
    }

    /// The runtime's forced delete command.
    pub fn delete_command(&self, p: &ProcessRecord) -> (r: Vec<String>)
        ensures
            argv_view(r@) == seq!["delete"@, "--force"@, p.id@],
    {
        delete_args(p.id.as_str())
    }

    /// Applies the outcome of the runtime's delete. A failure that says the
    /// container does not exist counts as success. Either way the exit signal
    /// fires; the relay tasks it wakes come second in the result. On success
    /// the state is `Deleted` and the callers blocked in `wait` come third,
    /// to be woken: a deleted process has reached its terminal state.
    pub fn complete_delete(&self, p: &mut ProcessRecord, outcome: &Result<String, String>) -> (r: (Result<(), ShimError>, Vec<u64>, Vec<u64>))
        requires
            old(p).wf(),
        ensures
            final(p).wf(),
            final(p).exit_signal.fired,
            r.1@ == woken_by_signal(old(p).exit_signal.fired, old(p).exit_signal.waiters@),
            final(p).id == old(p).id,
            final(p).kind == old(p).kind,
            final(p).pid == old(p).pid,
            final(p).exited_at == old(p).exited_at,
            final(p).exit_code == old(p).exit_code,
            final(p).stdio == old(p).stdio,
            final(p).console == old(p).console,
            r.0.is_ok() ==> r.2@ == old(p).wait_notifiers@ && final(p).wait_notifiers@.len() == 0,
            r.0.is_err() ==> r.2@.len() == 0 && final(p).wait_notifiers == old(p).wait_notifiers,
            r.0.is_ok() == (outcome.is_ok() || reports_absence(lower_of(outcome->Err_0@))),
            r.0.is_ok() ==> final(p).state == Status::Deleted,
            final(p).state == apply_op(old(p).state, old(p).exited_at.is_some(), LifecycleOp::Delete { ok: r.0.is_ok() }).0,
            r.0.is_err() ==> final(p).state == old(p).state && r.0->Err_0.kind == ErrorKind::Runtime
                && r.0->Err_0.message@ == "failed delete: "@ + outcome->Err_0@,
    {
        let result = match outcome {
            Ok(_) => Ok(()),
            Err(e) => {
                let lowered = lowercase(e.as_str());
                if is_absence_report(lowered.as_str()) {
                    Ok(())
                } else {
                    Err(error_with(ErrorKind::Runtime, "failed delete: ", e.as_str()))
                }
            },
        };
        let woken = p.exit_signal.signal();
        let mut waiters = Vec::new();
        if result.is_ok() {
            p.state = Status::Deleted;
            std::mem::swap(&mut waiters, &mut p.wait_notifiers);
        }
        (result, woken, waiters)
    }

    /// The pid whose cgroup an update or stats call works on: the init must
    /// be running, with a pid.
    pub fn cgroup_target(&self, p: &ProcessRecord) -> (r: Result<u32, ShimError>)
        requires
            p.wf(),
        ensures
            r.is_ok() == (p.state == Status::Running),
            r.is_ok() ==> r->Ok_0 == p.pid as u32 && p.pid > 0,
            r.is_err() ==> r->Err_0.kind == ErrorKind::FailedPrecondition,
    {
        check_running(p)?;
        Ok(p.pid as u32)
    }

    /// The runtime's ps command, for a running init.
    pub fn ps_command(&self, p: &ProcessRecord) -> (r: Result<Vec<String>, ShimError>)
        ensures
            r.is_ok() == (p.state == Status::Running),
            r.is_ok() ==> argv_view(r->Ok_0@) == seq!["ps"@, p.id@],
            r.is_err() ==> r->Err_0.kind == ErrorKind::FailedPrecondition,
    {
        check_running(p)?;
        Ok(ps_args(p.id.as_str()))
    }

    /// The process list out of the pids that the runtime's ps reported.
    pub fn complete_ps(&self, outcome: &Result<Vec<i32>, String>) -> (r: Result<Vec<u32>, ShimError>)
        ensures
            r.is_ok() == outcome.is_ok(),
            outcome.is_ok() ==> r->Ok_0@ == outcome->Ok_0@.map_values(|x: i32| x as u32),
            outcome.is_err() ==> r->Err_0.kind == ErrorKind::Runtime
                && r->Err_0.message@ == "failed to execute runc ps: "@ + outcome->Err_0@,
    {
        match outcome {
            Ok(pids) => {
                let mut out: Vec<u32> = Vec::new();
                let mut i: usize = 0;
                while i < pids.len()
                    invariant
                        i <= pids@.len(),
                        out@ == pids@.subrange(0, i as int).map_values(|x: i32| x as u32),
                    decreases pids@.len() - i,
                {
                    out.push(pids[i] as u32);
                    i = i + 1;
                    assert(out@ =~= pids@.subrange(0, i as int).map_values(|x: i32| x as u32));
                }
                assert(pids@.subrange(0, pids@.len() as int) =~= pids@);
                Ok(out)
            },
            Err(e) => Err(error_with(ErrorKind::Runtime, "failed to execute runc ps: ", e.as_str())),
        }
    }
}

/// A direct signal to a process, performed by the caller.
#[derive(Debug, Clone, Copy, PartialEq, Eq, Structural)]
pub struct KillTarget {
    pub pid: i32,
    pub signal: i32,
}

/// How an exec process goes through its lifecycle.
#[derive(Debug)]
pub struct RuncExecLifecycle {
    pub runtime: String,
    pub bundle: String,
    pub container_id: String,
    pub io_uid: u32,
    pub io_gid: u32,
    /// The OCI process spec, as the manager sent it.
    pub spec: String,
}

/// The outcome of an exec kill, which ignores `all`.
pub open spec fn exec_kill_result(p: &ProcessRecord, signal: u32) -> Result<KillTarget, ErrorKind> {
    if p.pid <= 0 {
        Err(ErrorKind::FailedPrecondition)
    } else if p.exited_at.is_some() || p.state == Status::Deleted {
        Err(ErrorKind::NotFound)
    } else if !(1 <= signal as i32 <= 31) {
        Err(ErrorKind::InvalidArgument)
    } else {
        Ok(KillTarget { pid: p.pid, signal: signal as i32 })
    }
}

pub open spec fn kind_of<T>(r: Result<T, ShimError>) -> Result<T, ErrorKind> {
    match r {
        Ok(v) => Ok(v),
        Err(e) => Err(e.kind),
    }
}

impl RuncExecLifecycle {
    /// The runtime's exec command for a created exec: detached, with the
    /// pid file `{bundle}/{exec_id}.pid`, and on a terminal the console socket.
    pub fn start_command(&self, p: &ProcessRecord, console_socket: Option<&str>, spec_path: &str) -> (r: Result<Vec<String>, ShimError>)
        requires
            console_socket.is_some() == p.stdio.terminal,
        ensures
            r.is_ok() == (p.state == Status::Created),
            r.is_ok() ==> argv_view(r->Ok_0@) == seq!["exec"@, "--detach"@, "--pid-file"@, join_path(self.bundle@, p.id@ + ".pid"@)]
                + opt_arg("--console-socket"@, opt_view(console_socket)) + seq!["--process"@, spec_path@, self.container_id@],
            r.is_err() ==> r->Err_0.kind == ErrorKind::FailedPrecondition,
    {
        check_startable(p)?;
        let pid_file = exec_pid_path(self.bundle.as_str(), p.id.as_str());
        let v = exec_args(self.container_id.as_str(), true, Some(pid_file.as_str()), console_socket, spec_path);
        assert(argv_view(v@) =~= seq!["exec"@, "--detach"@, "--pid-file"@, join_path(self.bundle@, p.id@ + ".pid"@)]
            + opt_arg("--console-socket"@, opt_view(console_socket)) + seq!["--process"@, spec_path@, self.container_id@]);
        Ok(v)
    }

    /// Applies a concluded exec start: pid stored, state `Running`, and the
    /// PTY master, if any, as console. On failure the exec stays `Created`.
    pub fn complete_start(&self, p: &mut ProcessRecord, report: &LaunchReport, console: Option<i32>) -> (r: Result<(), ShimError>)
        requires
            old(p).wf(),
            old(p).state == Status::Created,
            old(p).exited_at.is_none(),
            report.wf(),
        ensures
            final(p).wf(),
            r.is_ok() == report.result.is_ok(),
            final(p).state == apply_op(old(p).state, false, LifecycleOp::Start { ok: report.result.is_ok() }).0,
            report.result.is_ok() ==> final(p).pid == report.result->Ok_0 && final(p).state == Status::Running
                && final(p).console == console,
            report.result.is_err() ==> *final(p) == *old(p) && r->Err_0.kind == report.result->Err_0.kind,
    {
        match &report.result {
            Ok(pid) => {
                p.pid = *pid;
                p.state = Status::Running;
                p.console = console;
                Ok(())
            },
            Err(e) => Err(e.clone_error()),
        }
    }

    /// An exec is a single process: `all` is ignored and the signal goes
    /// straight to its pid, once it has one and has not finished.
    pub fn kill(&self, p: &ProcessRecord, signal: u32, all: bool) -> (r: Result<KillTarget, ShimError>)
        ensures
            kind_of(r) == exec_kill_result(p, signal),
            p.pid <= 0 ==> r->Err_0.message@ == "process not created"@,
            p.pid > 0 && (p.exited_at.is_some() || p.state == Status::Deleted)
                ==> r->Err_0.message@ == "process already finished"@,
            p.pid > 0 && p.exited_at.is_none() && p.state != Status::Deleted && !(1 <= signal as i32 <= 31)
                ==> r->Err_0.message@ == "invalid signal"@,
    {
        if p.pid <= 0 {
            Err(ShimError::new(ErrorKind::FailedPrecondition, "process not created"))
        } else if p.exited_at.is_some() || p.state == Status::Deleted {
            Err(ShimError::new(ErrorKind::NotFound, "process already finished"))
        } else if !is_known_signal(signal as i32) {
            Err(ShimError::new(ErrorKind::InvalidArgument, "invalid signal"))
        } else {
            Ok(KillTarget { pid: p.pid, signal: signal as i32 })
        }
    }

    /// Deleting an exec runs nothing: it fires the exit signal and the exec is
    /// `Deleted`. The relay tasks to wake come second in the result, the
    /// callers blocked in `wait` third.
    pub fn delete(&self, p: &mut ProcessRecord) -> (r: (Result<(), ShimError>, Vec<u64>, Vec<u64>))
        requires
            old(p).wf(),
        ensures
            final(p).wf(),
            r.0.is_ok(),
            final(p).state == Status::Deleted,
            final(p).state == apply_op(old(p).state, old(p).exited_at.is_some(), LifecycleOp::Delete { ok: true }).0,
            final(p).exit_signal.fired,
            final(p).id == old(p).id,
            final(p).kind == old(p).kind,
            final(p).pid == old(p).pid,
            final(p).exited_at == old(p).exited_at,
            final(p).exit_code == old(p).exit_code,
            final(p).stdio == old(p).stdio,
            final(p).console == old(p).console,
            r.1@ == woken_by_signal(old(p).exit_signal.fired, old(p).exit_signal.waiters@),
            r.2@ == old(p).wait_notifiers@,
            final(p).wait_notifiers@.len() == 0,
    {
        let woken = p.exit_signal.signal();
        p.state = Status::Deleted;
        let mut waiters = Vec::new();
        std::mem::swap(&mut waiters, &mut p.wait_notifiers);
        (Ok(()), woken, waiters)
    }

    pub fn update(&self, p: &ProcessRecord) -> (r: Result<(), ShimError>)
        ensures
            r.is_err() && r->Err_0.kind == ErrorKind::Unimplemented,
            r->Err_0.message@ == "exec update"@,
    {
        Err(ShimError::new(ErrorKind::Unimplemented, "exec update"))
    }

    pub fn stats(&self, p: &ProcessRecord) -> (r: Result<(), ShimError>)
        ensures
            r.is_err() && r->Err_0.kind == ErrorKind::Unimplemented,
            r->Err_0.message@ == "exec stats"@,
    {
        Err(ShimError::new(ErrorKind::Unimplemented, "exec stats"))
    }

    pub fn ps(&self, p: &ProcessRecord) -> (r: Result<Vec<u32>, ShimError>)
        ensures
            r.is_err() && r->Err_0.kind == ErrorKind::Unimplemented,
            r->Err_0.message@ == "exec ps"@,
    {
        Err(ShimError::new(ErrorKind::Unimplemented, "exec ps"))
    }
}

} // verus!
