use vstd::prelude::*;
use crate::error::{ErrorKind, ShimError};
use crate::process::Stdio;

verus! {

/// One of a process's standard streams.
#[derive(Debug, Clone, Copy, PartialEq, Eq, Structural)]
pub enum Stream {
    Stdin,
    Stdout,
    Stderr,
}

/// The container side of a copy: the PTY master, or the stream's pipe.
#[derive(Debug, Clone, Copy, PartialEq, Eq, Structural)]
pub enum Side {
    Console,
    Pipe,
}

/// One copy task between a manager FIFO and the container. Stdin flows from
/// the FIFO into the container, stdout and stderr from the container into
/// the FIFO. With `keep_alive` the relay also holds the FIFO open in the
/// other direction for as long as the task runs.
#[derive(Debug, Clone)]
pub struct CopyTask {
    pub stream: Stream,
    pub fifo: String,
    pub side: Side,
    pub keep_alive: bool,
}

/// A copy task as values.
pub struct TaskModel {
    pub stream: Stream,
    pub fifo: Seq<char>,
    pub side: Side,
    pub keep_alive: bool,
}

impl View for CopyTask {
    type V = TaskModel;

    open spec fn view(&self) -> TaskModel {
        TaskModel { stream: self.stream, fifo: self.fifo@, side: self.side, keep_alive: self.keep_alive }
    }
}

pub open spec fn task_if(path: Seq<char>, stream: Stream, side: Side, keep_alive: bool) -> Seq<TaskModel> {
    if path.len() > 0 {
        seq![TaskModel { stream, fifo: path, side, keep_alive }]
    } else {
        Seq::empty()
    }
}

/// The copy tasks that the relay runs for `stdio`. On a terminal, stdin goes
/// into the PTY and the PTY goes to stdout, both with a kept-alive FIFO;
/// stderr is not separate. With pipes, each wired stream gets its pipe, and
/// the two output FIFOs are kept alive.
pub open spec fn relay_plan(stdin: Seq<char>, stdout: Seq<char>, stderr: Seq<char>, terminal: bool) -> Seq<TaskModel> {
    if terminal {
        task_if(stdin, Stream::Stdin, Side::Console, true) + task_if(stdout, Stream::Stdout, Side::Console, true)
    } else {
        task_if(stdin, Stream::Stdin, Side::Pipe, false) + task_if(stdout, Stream::Stdout, Side::Pipe, true)
            + task_if(stderr, Stream::Stderr, Side::Pipe, true)
    }
}

pub open spec fn tasks_view(v: Seq<CopyTask>) -> Seq<TaskModel> {
    v.map_values(|t: CopyTask| t@)
}

fn push_task_if(v: &mut Vec<CopyTask>, path: &String, stream: Stream, side: Side, keep_alive: bool)
    ensures
        tasks_view(final(v)@) == tasks_view(old(v)@) + task_if(path@, stream, side, keep_alive),
{
    if path.as_str().unicode_len() > 0 {
        v.push(CopyTask { stream, fifo: path.clone(), side, keep_alive });
    }
    assert(tasks_view(final(v)@) =~= tasks_view(old(v)@) + task_if(path@, stream, side, keep_alive));
}

/// The copy tasks to spawn for `stdio`.
pub fn plan_relay(stdio: &Stdio) -> (r: Vec<CopyTask>)
    ensures
        tasks_view(r@) == relay_plan(stdio.stdin@, stdio.stdout@, stdio.stderr@, stdio.terminal),
        r@.len() == relay_plan(stdio.stdin@, stdio.stdout@, stdio.stderr@, stdio.terminal).len(),
        forall|i: int| 0 <= i < r@.len()
            ==> (#[trigger] r@[i])@ == relay_plan(stdio.stdin@, stdio.stdout@, stdio.stderr@, stdio.terminal)[i],
{
    let mut v: Vec<CopyTask> = Vec::new();
    if stdio.terminal {
        push_task_if(&mut v, &stdio.stdin, Stream::Stdin, Side::Console, true);
        push_task_if(&mut v, &stdio.stdout, Stream::Stdout, Side::Console, true);
    } else {
        push_task_if(&mut v, &stdio.stdin, Stream::Stdin, Side::Pipe, false);
        push_task_if(&mut v, &stdio.stdout, Stream::Stdout, Side::Pipe, true);
        push_task_if(&mut v, &stdio.stderr, Stream::Stderr, Side::Pipe, true);
    }
    assert(tasks_view(v@) =~= relay_plan(stdio.stdin@, stdio.stdout@, stdio.stderr@, stdio.terminal));
    assert forall|i: int| 0 <= i < v@.len() implies (#[trigger] v@[i])@
        == relay_plan(stdio.stdin@, stdio.stdout@, stdio.stderr@, stdio.terminal)[i] by {
        assert(tasks_view(v@)[i] == v@[i]@);
    }
    v
}

/// A stream whose path is empty is not wired: no copy task carries it.
pub proof fn lemma_empty_path_not_wired(stdin: Seq<char>, stdout: Seq<char>, stderr: Seq<char>, terminal: bool)
    ensures
        forall|i: int| 0 <= i < relay_plan(stdin, stdout, stderr, terminal).len() ==> {
            let t = #[trigger] relay_plan(stdin, stdout, stderr, terminal)[i];
            &&& t.fifo.len() > 0
            &&& t.stream == Stream::Stdin ==> t.fifo == stdin
            &&& t.stream == Stream::Stdout ==> t.fifo == stdout
            &&& t.stream == Stream::Stderr ==> t.fifo == stderr
        },
        stdin.len() == 0 ==> forall|i: int| 0 <= i < relay_plan(stdin, stdout, stderr, terminal).len()
            ==> #[trigger] relay_plan(stdin, stdout, stderr, terminal)[i].stream != Stream::Stdin,
        stdout.len() == 0 ==> forall|i: int| 0 <= i < relay_plan(stdin, stdout, stderr, terminal).len()
            ==> #[trigger] relay_plan(stdin, stdout, stderr, terminal)[i].stream != Stream::Stdout,
        stderr.len() == 0 ==> forall|i: int| 0 <= i < relay_plan(stdin, stdout, stderr, terminal).len()
            ==> #[trigger] relay_plan(stdin, stdout, stderr, terminal)[i].stream != Stream::Stderr,
{
}

/// The PTY master out of the descriptors that one `SCM_RIGHTS` message
/// carried: exactly one is expected.
pub fn single_fd(fds: &Vec<i32>) -> (r: Result<i32, ShimError>)
    ensures
        fds@.len() == 1 ==> r == Ok::<i32, ShimError>(fds@[0]),
        fds@.len() != 1 ==> r.is_err() && r->Err_0.kind == ErrorKind::Protocol,
{
    if fds.len() == 1 {
        Ok(fds[0])
    } else {
        Err(ShimError::new(ErrorKind::Protocol, "bad control message: expected exactly one file descriptor"))
    }
}

/// What a running copy task observed last.
#[derive(Debug, Clone, Copy, PartialEq, Eq, Structural)]
pub enum CopyEvent {
    /// The process's exit signal fired.
    ExitSignal,
    /// A read returned this many bytes; zero is end of input.
    Read(usize),
    ReadFailed,
    WriteFailed,
}

/// What a copy task does next.
#[derive(Debug, Clone, Copy, PartialEq, Eq, Structural)]
pub enum CopyStep {
    /// Write the bytes just read, then read again.
    WriteAndContinue,
    /// Stop now and run the task's close hook.
    Finish,
}

/// The copy task's decision. The exit signal ends the task at once, whatever
/// the source or sink are doing; so do end of input and any failure.
pub fn copy_step(ev: CopyEvent) -> (r: CopyStep)
    ensures
        r == (match ev {
            CopyEvent::Read(n) => if n > 0 { CopyStep::WriteAndContinue } else { CopyStep::Finish },
            _ => CopyStep::Finish,
        }),
        ev == CopyEvent::ExitSignal ==> r == CopyStep::Finish,
{
    match ev {
        CopyEvent::Read(n) => if n > 0 { CopyStep::WriteAndContinue } else { CopyStep::Finish },
        _ => CopyStep::Finish,
    }
}

} // verus!
