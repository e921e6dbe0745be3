use vstd::prelude::*;
use crate::exit_signal::{ExitSignal, woken_by_signal};

verus! {

/// The lifecycle state of a process.
#[derive(Debug, Clone, Copy, PartialEq, Eq, Structural)]
pub enum Status {
    Created,
    Running,
    Stopped,
    Deleted,
}

/// The edges of the lifecycle state machine: create leads to `Created`,
/// start to `Running`, exit to `Stopped`, and delete from any of those to
/// `Deleted`, which is terminal.
pub open spec fn valid_transition(from: Status, to: Status) -> bool {
    ||| from == Status::Created && to == Status::Running
    ||| from == Status::Running && to == Status::Stopped
    ||| from != Status::Deleted && to == Status::Deleted
}

/// Either the state stays or it follows an edge of the state machine.
pub open spec fn valid_step(from: Status, to: Status) -> bool {
    from == to || valid_transition(from, to)
}

/// The stdio wiring the manager asked for; an empty path is not wired.
#[derive(Debug, Clone)]
pub struct Stdio {
    pub stdin: String,
    pub stdout: String,
    pub stderr: String,
    pub terminal: bool,
}

impl Stdio {
    pub fn new(stdin: &str, stdout: &str, stderr: &str, terminal: bool) -> (r: Stdio)
        ensures
            r.stdin@ == stdin@,
            r.stdout@ == stdout@,
            r.stderr@ == stderr@,
            r.terminal == terminal,
    {
        Stdio { stdin: stdin.to_owned(), stdout: stdout.to_owned(), stderr: stderr.to_owned(), terminal }
    }

    /// No stream is wired.
    pub fn is_null(&self) -> (r: bool)
        ensures
            r == (self.stdin@.len() == 0 && self.stdout@.len() == 0 && self.stderr@.len() == 0),
    {
        self.stdin.as_str().unicode_len() == 0 && self.stdout.as_str().unicode_len() == 0
            && self.stderr.as_str().unicode_len() == 0
    }
}

/// Whether a process is the container's init or an exec added later.
#[derive(Debug, Clone, Copy, PartialEq, Eq, Structural)]
pub enum ProcessKind {
    Init,
    Exec,
}

/// The record of one process of a container.
#[derive(Debug)]
pub struct ProcessRecord {
    /// The container id for the init, the exec id for an exec.
    pub id: String,
    pub kind: ProcessKind,
    pub stdio: Stdio,
    pub state: Status,
    /// 0 until a create or start has succeeded.
    pub pid: i32,
    pub exit_code: i32,
    /// When the process exited; set once, never cleared.
    pub exited_at: Option<u64>,
    /// The PTY master, for a terminal process once received.
    pub console: Option<i32>,
    /// Callers blocked in `wait`, by id.
    pub wait_notifiers: Vec<u64>,
    pub exit_signal: ExitSignal,
}

impl ProcessRecord {
    /// The record's invariant.
    pub open spec fn wf(&self) -> bool {
        &&& self.pid >= 0
        &&& (self.state == Status::Running || self.state == Status::Stopped) ==> self.pid > 0
        &&& (self.kind == ProcessKind::Exec && self.state == Status::Created) ==> self.pid == 0
        &&& self.exited_at.is_some() ==> (self.state == Status::Stopped || self.state == Status::Deleted)
        &&& self.state == Status::Stopped ==> self.exited_at.is_some()
        &&& self.exited_at.is_some() ==> self.wait_notifiers@.len() == 0
        &&& self.state == Status::Deleted ==> self.wait_notifiers@.len() == 0
        &&& self.exit_signal.wf()
    }

    /// A fresh record in `Created`, with no pid.
    pub fn new(id: &str, kind: ProcessKind, stdio: Stdio) -> (r: ProcessRecord)
        ensures
            r.wf(),
            r.id@ == id@,
            r.kind == kind,
            r.stdio == stdio,
            r.state == Status::Created,
            r.pid == 0,
            r.exit_code == 0,
            r.exited_at.is_none(),
            r.console.is_none(),
            r.wait_notifiers@.len() == 0,
            !r.exit_signal.fired,
            r.exit_signal.waiters@.len() == 0,
    {
        ProcessRecord {
            id: id.to_owned(),
            kind,
            stdio,
            state: Status::Created,
            pid: 0,
            exit_code: 0,
            exited_at: None,
            console: None,
            wait_notifiers: Vec::new(),
            exit_signal: ExitSignal::new(),
        }
    }

    /// Records the exit of the process: the first call moves it to
    /// `Stopped`, freezes code and time, fires the exit signal and returns
    /// the waiters to wake and then the relay tasks to cancel. Later calls,
    /// and any call on a deleted process, change nothing and wake nobody.
    pub fn notify_exit(&mut self, code: i32, at: u64) -> (r: (Vec<u64>, Vec<u64>))
        requires
            old(self).wf(),
            old(self).state == Status::Created ==> old(self).pid > 0,
        ensures
            final(self).wf(),
            final(self).state == exit_state(old(self).state, old(self).exited_at.is_some()),
            (final(self).state, final(self).exited_at.is_some())
                == apply_op(old(self).state, old(self).exited_at.is_some(), LifecycleOp::Exit),
            final(self).id == old(self).id,
            final(self).kind == old(self).kind,
            final(self).stdio == old(self).stdio,
            final(self).pid == old(self).pid,
            final(self).console == old(self).console,
            if old(self).exited_at.is_none() && old(self).state != Status::Deleted {
                &&& final(self).exit_code == code
                &&& final(self).exited_at == Some(at)
                &&& r.0@ == old(self).wait_notifiers@
                &&& r.1@ == woken_by_signal(old(self).exit_signal.fired, old(self).exit_signal.waiters@)
                &&& final(self).exit_signal.fired
            } else {
                &&& final(self).exit_code == old(self).exit_code
                &&& final(self).exited_at == old(self).exited_at
                &&& r.0@.len() == 0
                &&& r.1@.len() == 0
                &&& final(self).exit_signal == old(self).exit_signal
            },
    {
        if self.exited_at.is_some() || self.state == Status::Deleted {
            return (Vec::new(), Vec::new());
        }
        self.state = Status::Stopped;
        self.exit_code = code;
        self.exited_at = Some(at);
        let mut waiters = Vec::new();
        std::mem::swap(&mut waiters, &mut self.wait_notifiers);
        let tasks = self.exit_signal.signal();
        (waiters, tasks)
    }

    /// Waits for the terminal state: returns the exit code at once when the
    /// process has exited or been deleted (a deleted process that never
    /// exited reports the code it holds, 0), else registers waiter `id` and
    /// returns `None`.
    pub fn wait(&mut self, id: u64) -> (r: Option<i32>)
        requires
            old(self).wf(),
        ensures
            final(self).wf(),
            final(self).state == old(self).state,
            final(self).pid == old(self).pid,
            final(self).exited_at == old(self).exited_at,
            final(self).exit_code == old(self).exit_code,
            final(self).exit_signal == old(self).exit_signal,
            (old(self).exited_at.is_some() || old(self).state == Status::Deleted) ==> r == Some(old(self).exit_code)
                && final(self).wait_notifiers@ == old(self).wait_notifiers@,
            (old(self).exited_at.is_none() && old(self).state != Status::Deleted) ==> r.is_none()
                && final(self).wait_notifiers@ == old(self).wait_notifiers@.push(id),
    {
        if self.exited_at.is_some() || self.state == Status::Deleted {
            Some(self.exit_code)
        } else {
            self.wait_notifiers.push(id);
            None
        }
    }
}

/// The state an exit event leaves: `Stopped`, unless the process had already
/// exited or been deleted.
pub open spec fn exit_state(s: Status, exited: bool) -> Status {
    if exited || s == Status::Deleted {
        s
    } else {
        Status::Stopped
    }
}

/// A lifecycle operation as it affects the state: `ok` says whether the
/// runtime carried it out.
#[derive(Debug, Clone, Copy, PartialEq, Eq, Structural)]
pub enum LifecycleOp {
    Start { ok: bool },
    Kill,
    Exit,
    Delete { ok: bool },
}

/// The state and exited flag after `op`. Start moves only a created process;
/// kill changes no state; exit is `exit_state`; a delete the runtime carried
/// out leads to `Deleted`.
pub open spec fn apply_op(s: Status, exited: bool, op: LifecycleOp) -> (Status, bool) {
    match op {
        LifecycleOp::Start { ok } => (if s == Status::Created && ok { Status::Running } else { s }, exited),
        LifecycleOp::Kill => (s, exited),
        LifecycleOp::Exit => (exit_state(s, exited), exited || s != Status::Deleted),
        LifecycleOp::Delete { ok } => (if ok { Status::Deleted } else { s }, exited),
    }
}

/// The states a process goes through, from (`s`, `exited`), under `ops`.
pub open spec fn state_trace(s: Status, exited: bool, ops: Seq<LifecycleOp>) -> Seq<(Status, bool)>
    decreases ops.len(),
{
    if ops.len() == 0 {
        seq![(s, exited)]
    } else {
        let prev = state_trace(s, exited, ops.drop_last());
        prev.push(apply_op(prev.last().0, prev.last().1, ops.last()))
    }
}

proof fn lemma_trace_shape(s: Status, exited: bool, ops: Seq<LifecycleOp>)
    ensures
        state_trace(s, exited, ops).len() == ops.len() + 1,
        state_trace(s, exited, ops)[0] == (s, exited),
        forall|i: int| 0 <= i < ops.len() ==> #[trigger] state_trace(s, exited, ops)[i + 1]
            == apply_op(state_trace(s, exited, ops)[i].0, state_trace(s, exited, ops)[i].1, ops[i]),
    decreases ops.len(),
{
    if ops.len() > 0 {
        let init = ops.drop_last();
        lemma_trace_shape(s, exited, init);
        assert forall|i: int| 0 <= i < ops.len() implies #[trigger] state_trace(s, exited, ops)[i + 1]
            == apply_op(state_trace(s, exited, ops)[i].0, state_trace(s, exited, ops)[i].1, ops[i]) by {
            if i < ops.len() - 1 {
                assert(state_trace(s, exited, init)[i + 1] == apply_op(state_trace(s, exited, init)[i].0,
                    state_trace(s, exited, init)[i].1, init[i]));
            }
        }
    }
}

/// Every sequence of lifecycle operations walks the state machine: each
/// step keeps the state or follows one of its edges. The one path it does
/// not draw, an exit while still `Created`, is left out.
pub proof fn lemma_lifecycle_follows_state_machine(s: Status, exited: bool, ops: Seq<LifecycleOp>)
    requires
        s == Status::Stopped ==> exited,
        forall|i: int| 0 <= i < ops.len() && ops[i] == LifecycleOp::Exit
            ==> (#[trigger] state_trace(s, exited, ops)[i]).0 != Status::Created,
    ensures
        forall|i: int| 0 <= i < ops.len() ==> valid_step(
            (#[trigger] state_trace(s, exited, ops)[i]).0, state_trace(s, exited, ops)[i + 1].0),
{
    lemma_trace_shape(s, exited, ops);
    let t = state_trace(s, exited, ops);
    assert forall|i: int| 0 <= i < ops.len() implies valid_step((#[trigger] t[i]).0, t[i + 1].0) by {
        assert(t[i + 1] == apply_op(t[i].0, t[i].1, ops[i]));
    }
}

} // verus!
