use vstd::prelude::*;

verus! {

/// What a subscriber wants to hear about.
#[derive(Debug, Clone, Copy, PartialEq, Eq, Structural)]
pub enum Topic {
    Pid,
    Exec,
    All,
}

/// Whose exit an event reports.
#[derive(Debug)]
pub enum Subject {
    Pid(i32),
    /// A container id and an exec id.
    Exec(String, String),
}

/// An exit: its subject and its exit code (a raw wait status for a pid).
#[derive(Debug)]
pub struct ExitEvent {
    pub subject: Subject,
    pub exit_code: i32,
}

pub enum SubjectModel {
    Pid(i32),
    Exec(Seq<char>, Seq<char>),
}

pub struct EventModel {
    pub subject: SubjectModel,
    pub exit_code: i32,
}

impl View for ExitEvent {
    type V = EventModel;

    open spec fn view(&self) -> EventModel {
        EventModel {
            subject: match self.subject {
                Subject::Pid(p) => SubjectModel::Pid(p),
                Subject::Exec(c, e) => SubjectModel::Exec(c@, e@),
            },
            exit_code: self.exit_code,
        }
    }
}

impl ExitEvent {
    pub fn pid(pid: i32, exit_code: i32) -> (r: ExitEvent)
        ensures
            r@ == (EventModel { subject: SubjectModel::Pid(pid), exit_code }),
    {
        ExitEvent { subject: Subject::Pid(pid), exit_code }
    }

    pub fn exec(container_id: &str, exec_id: &str, exit_code: i32) -> (r: ExitEvent)
        ensures
            r@ == (EventModel { subject: SubjectModel::Exec(container_id@, exec_id@), exit_code }),
    {
        ExitEvent { subject: Subject::Exec(container_id.to_owned(), exec_id.to_owned()), exit_code }
    }

    pub fn copy(&self) -> (r: ExitEvent)
        ensures
            r@ == self@,
    {
        let subject = match &self.subject {
            Subject::Pid(p) => Subject::Pid(*p),
            Subject::Exec(c, e) => Subject::Exec(c.clone(), e.clone()),
        };
        ExitEvent { subject, exit_code: self.exit_code }
    }

    /// The exit code, when this event reports the exit of `pid`.
    pub fn code_for_pid(&self, pid: i32) -> (r: Option<i32>)
        ensures
            r == (match self@.subject {
                SubjectModel::Pid(p) => if p == pid { Some(self.exit_code) } else { None },
                _ => None,
            }),
    {
        match &self.subject {
            Subject::Pid(p) => if *p == pid { Some(self.exit_code) } else { None },
            _ => None,
        }
    }
}

/// A subscriber's filter.
pub open spec fn topic_matches(t: Topic, s: SubjectModel) -> bool {
    match t {
        Topic::All => true,
        Topic::Pid => s is Pid,
        Topic::Exec => s is Exec,
    }
}

/// A bounded queue takes `e`; when full it first drops its oldest event.
pub open spec fn ring_push(q: Seq<EventModel>, e: EventModel, cap: nat) -> Seq<EventModel> {
    if q.len() < cap {
        q.push(e)
    } else {
        q.drop_first().push(e)
    }
}

/// The queue after each event of `evs` was offered to it, in order.
pub open spec fn ring_push_all(q: Seq<EventModel>, evs: Seq<EventModel>, cap: nat) -> Seq<EventModel>
    decreases evs.len(),
{
    if evs.len() == 0 {
        q
    } else {
        ring_push(ring_push_all(q, evs.drop_last(), cap), evs.last(), cap)
    }
}

/// One subscriber: its id, its filter and the events not yet received.
#[derive(Debug)]
pub struct Subscription {
    pub id: u64,
    pub topic: Topic,
    pub queue: Vec<ExitEvent>,
}

impl Subscription {
    pub open spec fn events(&self) -> Seq<EventModel> {
        self.queue@.map_values(|e: ExitEvent| e@)
    }
}

/// The process-wide exit bus.
#[derive(Debug)]
pub struct ExitMonitor {
    pub next_id: u64,
    pub capacity: usize,
    pub subs: Vec<Subscription>,
}

/// The queue that a notification leaves a subscriber with.
pub open spec fn delivered(s: Subscription, e: EventModel, cap: nat) -> Seq<EventModel> {
    if topic_matches(s.topic, e.subject) {
        ring_push(s.events(), e, cap)
    } else {
        s.events()
    }
}

impl ExitMonitor {
    pub open spec fn wf(&self) -> bool {
        &&& self.capacity > 0
        &&& forall|i: int| 0 <= i < self.subs@.len() ==> #[trigger] self.subs@[i].id < self.next_id
        &&& forall|i: int, j: int| 0 <= i < j < self.subs@.len() ==> #[trigger] self.subs@[i].id != #[trigger] self.subs@[j].id
        &&& forall|i: int| 0 <= i < self.subs@.len() ==> #[trigger] self.subs@[i].queue@.len() <= self.capacity
    }

    /// A bus whose subscribers each buffer 128 events.
    pub fn new() -> (r: ExitMonitor)
        ensures
            r.wf(),
            r.capacity == 128,
            r.next_id == 0,
            r.subs@.len() == 0,
    {
        ExitMonitor { next_id: 0, capacity: 128, subs: Vec::new() }
    }

    /// Adds a subscriber with a fresh id and an empty queue.
    pub fn subscribe(&mut self, topic: Topic) -> (r: u64)
        requires
            old(self).wf(),
            old(self).next_id < u64::MAX,
        ensures
            final(self).wf(),
            r == old(self).next_id,
            final(self).capacity == old(self).capacity,
            final(self).subs@.len() == old(self).subs@.len() + 1,
            forall|i: int| 0 <= i < old(self).subs@.len() ==> #[trigger] final(self).subs@[i] == old(self).subs@[i],
            final(self).subs@.last().id == r,
            final(self).subs@.last().topic == topic,
            final(self).subs@.last().queue@.len() == 0,
    {
        let id = self.next_id;
        self.next_id = self.next_id + 1;
        self.subs.push(Subscription { id, topic, queue: Vec::new() });
        id
    }

    /// Where subscriber `id` stands, if it is subscribed.
    pub fn find(&self, id: u64) -> (r: Option<usize>)
        ensures
            match r {
                Some(i) => i < self.subs@.len() && self.subs@[i as int].id == id,
                None => forall|i: int| 0 <= i < self.subs@.len() ==> #[trigger] self.subs@[i].id != id,
            },
    {
        let mut i: usize = 0;
        while i < self.subs.len()
            invariant
                i <= self.subs@.len(),
                forall|k: int| 0 <= k < i ==> #[trigger] self.subs@[k].id != id,
            decreases self.subs@.len() - i,
        {
            if self.subs[i].id == id {
                return Some(i);
            }
            i = i + 1;
        }
        None
    }

    /// Removes subscriber `id`; removing one that is not there is a no-op.
    /// Returns whether it was there.
    pub fn unsubscribe(&mut self, id: u64) -> (r: bool)
        requires
            old(self).wf(),
        ensures
            final(self).wf(),
            final(self).capacity == old(self).capacity,
            r == exists|i: int| 0 <= i < old(self).subs@.len() && #[trigger] old(self).subs@[i].id == id,
            r ==> exists|i: int| 0 <= i < old(self).subs@.len() && #[trigger] old(self).subs@[i].id == id
                && final(self).subs@ == old(self).subs@.remove(i),
            !r ==> final(self).subs@ == old(self).subs@,
    {
        match self.find(id) {
            Some(i) => {
                let ghost before = self.subs@;
                self.subs.remove(i);
                assert(before[i as int].id == id);
                assert forall|a: int, b: int| 0 <= a < b < self.subs@.len() implies
                    #[trigger] self.subs@[a].id != #[trigger] self.subs@[b].id by {
                    let a0 = if a < i { a } else { a + 1 };
                    let b0 = if b < i { b } else { b + 1 };
                    assert(self.subs@[a] == before[a0]);
                    assert(self.subs@[b] == before[b0]);
                }
                assert forall|k: int| 0 <= k < self.subs@.len() implies #[trigger] self.subs@[k].id < self.next_id
                    && self.subs@[k].queue@.len() <= self.capacity by {
                    let k0 = if k < i { k } else { k + 1 };
                    assert(self.subs@[k] == before[k0]);
                }
                true
            },
            None => false,
        }
    }

    /// Offers `e` to every subscriber whose filter matches, without ever
    /// blocking: a full queue drops its oldest event.
    pub fn notify(&mut self, e: &ExitEvent)
        requires
            old(self).wf(),
        ensures
            final(self).wf(),
            final(self).capacity == old(self).capacity,
            final(self).next_id == old(self).next_id,
            final(self).subs@.len() == old(self).subs@.len(),
            forall|i: int| 0 <= i < old(self).subs@.len() ==> {
                &&& (#[trigger] final(self).subs@[i]).id == old(self).subs@[i].id
                &&& final(self).subs@[i].topic == old(self).subs@[i].topic
                &&& final(self).subs@[i].events() == delivered(old(self).subs@[i], e@, old(self).capacity as nat)
            },
    {
        let ghost before = self.subs@;
        let mut i: usize = 0;
        while i < self.subs.len()
            invariant
                self.capacity > 0,
                i <= self.subs@.len(),
                self.subs@.len() == before.len(),
                self.next_id == old(self).next_id,
                self.capacity == old(self).capacity,
                before == old(self).subs@,
                old(self).wf(),
                forall|k: int| i <= k < before.len() ==> #[trigger] self.subs@[k] == before[k],
                forall|k: int| 0 <= k < i ==> {
                    &&& (#[trigger] self.subs@[k]).id == before[k].id
                    &&& self.subs@[k].topic == before[k].topic
                    &&& self.subs@[k].events() == delivered(before[k], e@, self.capacity as nat)
                    &&& self.subs@[k].queue@.len() <= self.capacity
                },
            decreases before.len() - i,
        {
            let mut sub = self.subs.remove(i);
            let ghost old_events = sub.events();
            let ghost old_sub = sub;
            assert(old_sub == before[i as int]);
            let matches = match sub.topic {
                Topic::All => true,
                Topic::Pid => matches!(e.subject, Subject::Pid(_)),
                Topic::Exec => matches!(e.subject, Subject::Exec(..)),
            };
            if matches {
                if sub.queue.len() >= self.capacity {
                    sub.queue.remove(0);
                }
                sub.queue.push(e.copy());
                assert(sub.events() =~= ring_push(old_events, e@, self.capacity as nat));
            }
            self.subs.insert(i, sub);
            i = i + 1;
        }
    }

    /// Takes the oldest pending event of subscriber `id`.
    pub fn recv(&mut self, id: u64) -> (r: Option<ExitEvent>)
        requires
            old(self).wf(),
        ensures
            final(self).wf(),
            final(self).capacity == old(self).capacity,
            final(self).subs@.len() == old(self).subs@.len(),
            forall|i: int| 0 <= i < old(self).subs@.len() && old(self).subs@[i].id != id
                ==> #[trigger] final(self).subs@[i] == old(self).subs@[i],
            forall|i: int| 0 <= i < old(self).subs@.len() && old(self).subs@[i].id == id ==> {
                let s = #[trigger] old(self).subs@[i];
                &&& final(self).subs@[i].id == id
                &&& final(self).subs@[i].topic == s.topic
                &&& if s.events().len() == 0 {
                    r.is_none() && final(self).subs@[i].events() == s.events()
                } else {
                    r.is_some() && r->Some_0@ == s.events()[0] && final(self).subs@[i].events() == s.events().drop_first()
                }
            },
            (forall|i: int| 0 <= i < old(self).subs@.len() ==> #[trigger] old(self).subs@[i].id != id) ==> r.is_none(),
    {
        match self.find(id) {
            Some(i) => {
                let ghost before = self.subs@;
                let mut sub = self.subs.remove(i);
                let ghost old_events = sub.events();
                let r = if sub.queue.len() > 0 {
                    let ev = sub.queue.remove(0);
                    assert(sub.events() =~= old_events.drop_first());
                    Some(ev)
                } else {
                    None
                };
                self.subs.insert(i, sub);
                assert forall|a: int, b: int| 0 <= a < b < self.subs@.len() implies
                    #[trigger] self.subs@[a].id != #[trigger] self.subs@[b].id by {
                    assert(self.subs@[a].id == before[a].id);
                    assert(self.subs@[b].id == before[b].id);
                }
                r
            },
            None => None,
        }
    }
}

/// Events reach a subscriber in the order they were notified. While its
/// queue does not overflow it holds every one of them after what it held;
/// when it overflows it holds the newest ones, still in order.
pub proof fn lemma_delivery_in_order(q: Seq<EventModel>, evs: Seq<EventModel>, cap: nat)
    requires
        cap > 0,
        q.len() <= cap,
    ensures
        q.len() + evs.len() <= cap ==> ring_push_all(q, evs, cap) == q + evs,
        ring_push_all(q, evs, cap).len() <= cap,
        exists|k: int| 0 <= k <= q.len() + evs.len() && ring_push_all(q, evs, cap) == #[trigger] (q + evs).subrange(k, q.len() + evs.len() as int),
    decreases evs.len(),
{
    if evs.len() == 0 {
        assert((q + evs).subrange(0, q.len() as int) =~= q);
    } else {
        let init = evs.drop_last();
        lemma_delivery_in_order(q, init, cap);
        let prev = ring_push_all(q, init, cap);
        let k = choose|k: int| 0 <= k <= q.len() + init.len() && prev == #[trigger] (q + init).subrange(k, q.len() + init.len() as int);
        let n = q.len() + evs.len();
        assert(evs =~= init.push(evs.last()));
        assert(q + evs =~= (q + init).push(evs.last()));
        if prev.len() < cap {
            assert(ring_push_all(q, evs, cap) =~= (q + evs).subrange(k, n as int));
        } else {
            assert(ring_push_all(q, evs, cap) =~= (q + evs).subrange(k + 1, n as int));
        }
        if q.len() + evs.len() <= cap {
            assert(ring_push_all(q, evs, cap) =~= q + evs);
        }
    }
}

} // verus!
