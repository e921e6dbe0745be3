use vstd::prelude::*;
use crate::error::{ErrorKind, ShimError};
use crate::exit_signal::woken_by_signal;
use crate::lifecycle::{RuncExecLifecycle, RuncInitLifecycle};
use crate::process::{ProcessKind, ProcessRecord, Status, Stdio};
use crate::text::same_text;

verus! {

/// The manager's request for a new exec process.
#[derive(Debug, Clone)]
pub struct ExecRequest {
    /// The container id.
    pub id: String,
    pub exec_id: String,
    pub stdin: String,
    pub stdout: String,
    pub stderr: String,
    pub terminal: bool,
    /// The OCI process spec.
    pub spec: String,
}

/// Builds exec processes for one container.
#[derive(Debug, Clone)]
pub struct RuncExecFactory {
    pub runtime: String,
    pub bundle: String,
    pub io_uid: u32,
    pub io_gid: u32,
}

/// An exec process together with its lifecycle.
#[derive(Debug)]
pub struct ExecEntry {
    pub process: ProcessRecord,
    pub lifecycle: RuncExecLifecycle,
}

/// `e` is the fresh exec that factory `f` makes for request `req`.
pub open spec fn made_from(e: ExecEntry, f: RuncExecFactory, req: ExecRequest) -> bool {
    &&& e.process.wf()
    &&& e.process.id@ == req.exec_id@
    &&& e.process.kind == ProcessKind::Exec
    &&& e.process.state == Status::Created
    &&& e.process.pid == 0
    &&& e.process.exited_at.is_none()
    &&& e.process.exit_code == 0
    &&& e.process.console.is_none()
    &&& e.process.wait_notifiers@.len() == 0
    &&& !e.process.exit_signal.fired
    &&& e.process.exit_signal.waiters@.len() == 0
    &&& e.process.stdio.stdin@ == req.stdin@
    &&& e.process.stdio.stdout@ == req.stdout@
    &&& e.process.stdio.stderr@ == req.stderr@
    &&& e.process.stdio.terminal == req.terminal
    &&& e.lifecycle.runtime@ == f.runtime@
    &&& e.lifecycle.bundle@ == f.bundle@
    &&& e.lifecycle.container_id@ == req.id@
    &&& e.lifecycle.io_uid == f.io_uid
    &&& e.lifecycle.io_gid == f.io_gid
    &&& e.lifecycle.spec@ == req.spec@
}

/// An exec that a container delete has taken out and deleted, with what its
/// deletion wakes: relay tasks, then callers blocked in `wait`.
#[derive(Debug)]
pub struct DeletedExec {
    pub entry: ExecEntry,
    pub woken_tasks: Vec<u64>,
    pub woken_waiters: Vec<u64>,
}

impl RuncExecFactory {
    /// A new exec, `Created` and without pid, wired as the request says.
    pub fn create(&self, req: &ExecRequest) -> (r: ExecEntry)
        ensures
            r.process.wf(),
            r.process.id@ == req.exec_id@,
            r.process.kind == ProcessKind::Exec,
            r.process.state == Status::Created,
            r.process.pid == 0,
            r.process.exited_at.is_none(),
            r.process.exit_code == 0,
            r.process.console.is_none(),
            r.process.wait_notifiers@.len() == 0,
            !r.process.exit_signal.fired,
            r.process.exit_signal.waiters@.len() == 0,
            r.process.stdio.stdin@ == req.stdin@,
            r.process.stdio.stdout@ == req.stdout@,
            r.process.stdio.stderr@ == req.stderr@,
            r.process.stdio.terminal == req.terminal,
            r.lifecycle.runtime@ == self.runtime@,
            r.lifecycle.bundle@ == self.bundle@,
            r.lifecycle.container_id@ == req.id@,
            r.lifecycle.io_uid == self.io_uid,
            r.lifecycle.io_gid == self.io_gid,
            r.lifecycle.spec@ == req.spec@,
            made_from(r, *self, *req),
    {
        let stdio = Stdio::new(req.stdin.as_str(), req.stdout.as_str(), req.stderr.as_str(), req.terminal);
        let process = ProcessRecord::new(req.exec_id.as_str(), ProcessKind::Exec, stdio);
        let lifecycle = RuncExecLifecycle {
            runtime: self.runtime.clone(),
            bundle: self.bundle.clone(),
            container_id: req.id.clone(),
            io_uid: self.io_uid,
            io_gid: self.io_gid,
            spec: req.spec.clone(),
        };
        ExecEntry { process, lifecycle }
    }
}

/// One container: its init and its execs by exec id.
#[derive(Debug)]
pub struct Container {
    pub id: String,
    pub bundle: String,
    pub init: ProcessRecord,
    pub init_lifecycle: RuncInitLifecycle,
    pub process_factory: RuncExecFactory,
    pub processes: Vec<ExecEntry>,
}

impl Container {
    /// Exec ids are unique; every record keeps its invariant.
    pub open spec fn wf(&self) -> bool {
        &&& self.init.wf()
        &&& self.init.kind == ProcessKind::Init
        &&& forall|i: int| 0 <= i < self.processes@.len() ==> (#[trigger] self.processes@[i]).process.wf()
            && self.processes@[i].process.kind == ProcessKind::Exec
        &&& forall|i: int, j: int| 0 <= i < j < self.processes@.len()
            ==> (#[trigger] self.processes@[i]).process.id@ != (#[trigger] self.processes@[j]).process.id@
    }

    /// The exec ids, in the order the execs were added.
    pub open spec fn exec_ids(&self) -> Seq<Seq<char>> {
        self.processes@.map_values(|e: ExecEntry| e.process.id@)
    }

    pub fn new(id: &str, bundle: &str, init: ProcessRecord, init_lifecycle: RuncInitLifecycle, process_factory: RuncExecFactory) -> (r: Container)
        requires
            init.wf(),
            init.kind == ProcessKind::Init,
        ensures
            r.wf(),
            r.id@ == id@,
            r.bundle@ == bundle@,
            r.init == init,
            r.processes@.len() == 0,
    {
        Container { id: id.to_owned(), bundle: bundle.to_owned(), init, init_lifecycle, process_factory, processes: Vec::new() }
    }

    /// Where exec `exec_id` stands, if the container has it.
    pub fn find_exec(&self, exec_id: &str) -> (r: Option<usize>)
        ensures
            match r {
                Some(i) => i < self.processes@.len() && self.processes@[i as int].process.id@ == exec_id@,
                None => forall|i: int| 0 <= i < self.processes@.len() ==> (#[trigger] self.processes@[i]).process.id@ != exec_id@,
            },
    {
        let mut i: usize = 0;
        while i < self.processes.len()
            invariant
                i <= self.processes@.len(),
                forall|k: int| 0 <= k < i ==> (#[trigger] self.processes@[k]).process.id@ != exec_id@,
            decreases self.processes@.len() - i,
        {
            if same_text(self.processes[i].process.id.as_str(), exec_id) {
                return Some(i);
            }
            i = i + 1;
        }
        None
    }

    /// Adds the exec that `req` asks for, `Created` and without pid. An exec
    /// id that is already taken is refused.
    pub fn add_exec(&mut self, req: &ExecRequest) -> (r: Result<(), ShimError>)
        requires
            old(self).wf(),
        ensures
            final(self).wf(),
            final(self).init == old(self).init,
            r.is_ok() == !old(self).exec_ids().contains(req.exec_id@),
            r.is_ok() ==> final(self).exec_ids() == old(self).exec_ids().push(req.exec_id@)
                && final(self).processes@.len() == old(self).processes@.len() + 1
                && made_from(final(self).processes@.last(), old(self).process_factory, *req)
                && forall|i: int| 0 <= i < old(self).processes@.len()
                    ==> #[trigger] final(self).processes@[i] == old(self).processes@[i],
            r.is_err() ==> final(self).processes@ == old(self).processes@ && r->Err_0.kind == ErrorKind::AlreadyExists,
    {
        match self.find_exec(req.exec_id.as_str()) {
            Some(i) => {
                assert(old(self).exec_ids()[i as int] == req.exec_id@);
                Err(ShimError::new(ErrorKind::AlreadyExists, "exec id already in use"))
            },
            None => {
                assert(!old(self).exec_ids().contains(req.exec_id@)) by {
                    if old(self).exec_ids().contains(req.exec_id@) {
                        let k = choose|k: int| 0 <= k < old(self).exec_ids().len() && old(self).exec_ids()[k] == req.exec_id@;
                        assert(old(self).processes@[k].process.id@ == req.exec_id@);
                    }
                }
                let entry = self.process_factory.create(req);
                self.processes.push(entry);
                assert(final(self).exec_ids() =~= old(self).exec_ids().push(req.exec_id@));
                Ok(())
            },
        }
    }

    /// Takes exec `exec_id` out of the container.
    pub fn remove_exec(&mut self, exec_id: &str) -> (r: Option<ExecEntry>)
        requires
            old(self).wf(),
        ensures
            final(self).wf(),
            final(self).init == old(self).init,
            r.is_some() == old(self).exec_ids().contains(exec_id@),
            r.is_some() ==> r->Some_0.process.id@ == exec_id@
                && !final(self).exec_ids().contains(exec_id@)
                && exists|i: int| 0 <= i < old(self).processes@.len() && #[trigger] old(self).processes@[i] == r->Some_0
                    && final(self).processes@ == old(self).processes@.remove(i)
                && final(self).processes@.len() == old(self).processes@.len() - 1,
            r.is_none() ==> final(self).processes@ == old(self).processes@,
    {
        match self.find_exec(exec_id) {
            Some(i) => {
                assert(old(self).exec_ids()[i as int] == exec_id@);
                let ghost before = self.processes@;
                let e = self.processes.remove(i);
                assert forall|a: int, b: int| 0 <= a < b < self.processes@.len() implies
                    (#[trigger] self.processes@[a]).process.id@ != (#[trigger] self.processes@[b]).process.id@ by {
                    let a0 = if a < i { a } else { a + 1 };
                    let b0 = if b < i { b } else { b + 1 };
                    assert(self.processes@[a] == before[a0]);
                    assert(self.processes@[b] == before[b0]);
                }
                assert forall|k: int| 0 <= k < self.processes@.len() implies (#[trigger] self.processes@[k]).process.wf()
                    && self.processes@[k].process.kind == ProcessKind::Exec by {
                    let k0 = if k < i { k } else { k + 1 };
                    assert(self.processes@[k] == before[k0]);
                }
                assert(!final(self).exec_ids().contains(exec_id@)) by {
                    if final(self).exec_ids().contains(exec_id@) {
                        let k = choose|k: int| 0 <= k < final(self).exec_ids().len() && final(self).exec_ids()[k] == exec_id@;
                        let k0 = if k < i { k } else { k + 1 };
                        assert(self.processes@[k] == before[k0]);
                    }
                }
                Some(e)
            },
            None => {
                assert(!old(self).exec_ids().contains(exec_id@)) by {
                    if old(self).exec_ids().contains(exec_id@) {
                        let k = choose|k: int| 0 <= k < old(self).exec_ids().len() && old(self).exec_ids()[k] == exec_id@;
                        assert(old(self).processes@[k].process.id@ == exec_id@);
                    }
                }
                None
            },
        }
    }

    /// On deleting the init: every exec is deleted, firing its exit signal,
    /// and the container is left without execs. The deleted execs are
    /// returned in order, each with the relay tasks and waiters to wake.
    pub fn take_execs_for_delete(&mut self) -> (r: Vec<DeletedExec>)
        requires
            old(self).wf(),
        ensures
            final(self).wf(),
            final(self).init == old(self).init,
            final(self).processes@.len() == 0,
            r@.len() == old(self).processes@.len(),
            forall|i: int| 0 <= i < r@.len() ==> {
                let before = old(self).processes@[i];
                &&& (#[trigger] r@[i]).entry.process.id == before.process.id
                &&& r@[i].entry.process.stdio == before.process.stdio
                &&& r@[i].entry.process.console == before.process.console
                &&& r@[i].entry.process.pid == before.process.pid
                &&& r@[i].entry.process.exited_at == before.process.exited_at
                &&& r@[i].entry.lifecycle == before.lifecycle
                &&& r@[i].entry.process.state == Status::Deleted
                &&& r@[i].entry.process.exit_signal.fired
                &&& r@[i].entry.process.wf()
                &&& r@[i].woken_tasks@ == woken_by_signal(before.process.exit_signal.fired, before.process.exit_signal.waiters@)
                &&& r@[i].woken_waiters@ == before.process.wait_notifiers@
            },
    {
        let mut taken: Vec<ExecEntry> = Vec::new();
        std::mem::swap(&mut taken, &mut self.processes);
        let ghost before = taken@;
        let mut out: Vec<DeletedExec> = Vec::new();
        while taken.len() > 0
            invariant
                out@.len() + taken@.len() == before.len(),
                taken@ == before.subrange(out@.len() as int, before.len() as int),
                forall|k: int| 0 <= k < before.len() ==> (#[trigger] before[k]).process.wf(),
                forall|k: int| 0 <= k < out@.len() ==> {
                    let b = before[k];
                    &&& (#[trigger] out@[k]).entry.process.id == b.process.id
                    &&& out@[k].entry.process.stdio == b.process.stdio
                    &&& out@[k].entry.process.console == b.process.console
                    &&& out@[k].entry.process.pid == b.process.pid
                    &&& out@[k].entry.process.exited_at == b.process.exited_at
                    &&& out@[k].entry.lifecycle == b.lifecycle
                    &&& out@[k].entry.process.state == Status::Deleted
                    &&& out@[k].entry.process.exit_signal.fired
                    &&& out@[k].entry.process.wf()
                    &&& out@[k].woken_tasks@ == woken_by_signal(b.process.exit_signal.fired, b.process.exit_signal.waiters@)
                    &&& out@[k].woken_waiters@ == b.process.wait_notifiers@
                },
            decreases taken@.len(),
        {
            let mut e = taken.remove(0);
            assert(e == before[out@.len() as int]);
            let (_, woken_tasks, woken_waiters) = e.lifecycle.delete(&mut e.process);
            out.push(DeletedExec { entry: e, woken_tasks, woken_waiters });
            assert(taken@ =~= before.subrange(out@.len() as int, before.len() as int));
        }
        out
    }
}

} // verus!
