use vstd::prelude::*;

verus! {

/// A one-shot broadcast flag: it fires once, when its process reaches a
/// terminal state, and wakes every task that registered before that.
#[derive(Debug)]
pub struct ExitSignal {
    pub fired: bool,
    /// Tasks waiting for the flag, by id.
    pub waiters: Vec<u64>,
}

impl ExitSignal {
    /// No task waits on a flag that has fired.
    pub open spec fn wf(&self) -> bool {
        self.fired ==> self.waiters@.len() == 0
    }

    pub fn new() -> (r: ExitSignal)
        ensures
            r.wf(),
            !r.fired,
            r.waiters@.len() == 0,
    {
        ExitSignal { fired: false, waiters: Vec::new() }
    }

    pub fn is_fired(&self) -> (r: bool)
        ensures
            r == self.fired,
    {
        self.fired
    }

    /// Registers task `id`. Returns true, registering nothing, when the flag
    /// has already fired: the task is to finish at once.
    pub fn register(&mut self, id: u64) -> (r: bool)
        requires
            old(self).wf(),
        ensures
            final(self).wf(),
            r == old(self).fired,
            final(self).fired == old(self).fired,
            r ==> final(self).waiters@ == old(self).waiters@,
            !r ==> final(self).waiters@ == old(self).waiters@.push(id),
    {
        if self.fired {
            true
        } else {
            self.waiters.push(id);
            false
        }
    }

    /// Fires the flag. The first call returns every registered task, to be
    /// woken; any later call is a no-op and returns nothing.
    pub fn signal(&mut self) -> (r: Vec<u64>)
        requires
            old(self).wf(),
        ensures
            final(self).wf(),
            final(self).fired,
            final(self).waiters@.len() == 0,
            r@ == woken_by_signal(old(self).fired, old(self).waiters@),
    {
        if self.fired {
            Vec::new()
        } else {
            self.fired = true;
            let mut woken = Vec::new();
            std::mem::swap(&mut woken, &mut self.waiters);
            woken
        }
    }
}

/// What firing a flag in state (`fired`, `waiters`) wakes.
pub open spec fn woken_by_signal(fired: bool, waiters: Seq<u64>) -> Seq<u64> {
    if fired {
        Seq::empty()
    } else {
        waiters
    }
}

/// Firing a flag twice wakes each task registered before the first firing
/// exactly once, all of them at the first firing and none at the second.
pub proof fn lemma_signal_fires_once(s: ExitSignal)
    requires
        s.wf(),
    ensures
        woken_by_signal(s.fired, s.waiters@) + woken_by_signal(true, Seq::empty()) == s.waiters@,
        woken_by_signal(true, Seq::empty()).len() == 0,
{
    assert(woken_by_signal(s.fired, s.waiters@) + woken_by_signal(true, Seq::empty()) =~= s.waiters@);
}

} // verus!
