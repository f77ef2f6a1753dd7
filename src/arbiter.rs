use vstd::prelude::*;

verus! {

/// The mathematical model of the bus arbiter: who holds the bus and who
/// waits for it, in order of arrival.
pub struct ArbiterView {
    pub holder: Option<u32>,
    pub waiting: Seq<u32>,
}

/// A request made to the arbiter by the sensor task with the given id.
#[derive(Clone, Copy, Debug, PartialEq, Eq, Structural)]
pub enum BusRequest {
    Acquire(u32),
    Release(u32),
}

impl ArbiterView {
    /// Nobody waits on a free bus, the holder does not wait, and nobody waits
    /// twice.
    pub open spec fn wf(self) -> bool {
        &&& self.holder is None ==> self.waiting.len() == 0
        &&& self.holder is Some ==> !self.waiting.contains(self.holder->Some_0)
        &&& self.waiting.no_duplicates()
    }

    pub open spec fn holds(self, who: u32) -> bool {
        self.holder == Some(who)
    }

    /// The arbiter after `who` asks for the bus: a free bus is granted at
    /// once, otherwise `who` joins the end of the queue. A holder or a waiter
    /// that asks again changes nothing.
    pub open spec fn acquire(self, who: u32) -> ArbiterView {
        if self.holder is None {
            ArbiterView { holder: Some(who), waiting: self.waiting }
        } else if self.holds(who) || self.waiting.contains(who) {
            self
        } else {
            ArbiterView { holder: self.holder, waiting: self.waiting.push(who) }
        }
    }

    /// The arbiter after `who` gives the bus back: the first waiter gets it,
    /// or it becomes free. A release by anyone but the holder changes nothing.
    pub open spec fn release(self, who: u32) -> ArbiterView {
        if !self.holds(who) {
            self
        } else if self.waiting.len() == 0 {
            ArbiterView { holder: None, waiting: self.waiting }
        } else {
            ArbiterView { holder: Some(self.waiting[0]), waiting: self.waiting.drop_first() }
        }
    }

    pub open spec fn apply(self, r: BusRequest) -> ArbiterView {
        match r {
            BusRequest::Acquire(who) => self.acquire(who),
            BusRequest::Release(who) => self.release(who),
        }
    }

    /// The arbiter after a sequence of requests, taken in order.
    pub open spec fn run(self, rs: Seq<BusRequest>) -> ArbiterView
        decreases rs.len(),
    {
        if rs.len() == 0 {
            self
        } else {
            self.apply(rs[0]).run(rs.drop_first())
        }
    }
}

/// Serialises access to the one shared bus among the sensor tasks: one holder
/// at a time, waiters served first come, first served.
pub struct BusArbiter {
    holder: Option<u32>,
    waiting: Vec<u32>,
}

impl View for BusArbiter {
    type V = ArbiterView;

    closed spec fn view(&self) -> ArbiterView {
        ArbiterView { holder: self.holder, waiting: self.waiting@ }
    }
}

impl BusArbiter {
    /// A free bus.
    pub fn new() -> (r: BusArbiter)
        ensures
            r@.wf(),
            r@.holder is None,
            r@.waiting.len() == 0,
    {
        BusArbiter { holder: None, waiting: Vec::new() }
    }

    pub fn holder(&self) -> (r: Option<u32>)
        ensures
            r == self@.holder,
    {
        self.holder
    }

    pub fn holds(&self, who: u32) -> (r: bool)
        ensures
            r == self@.holds(who),
    {
        match self.holder {
            Some(h) => h == who,
            None => false,
        }
    }

    /// Whether `who` is in the queue.
    pub fn is_waiting(&self, who: u32) -> (r: bool)
        ensures
            r == self@.waiting.contains(who),
    {
        let mut i: usize = 0;
        while i < self.waiting.len()
            invariant
                i <= self.waiting@.len(),
                forall|j: int| 0 <= j < i ==> self.waiting@[j] != who,
            decreases self.waiting@.len() - i,
        {
            if self.waiting[i] == who {
                return true;
            }
            i = i + 1;
        }
        false
    }

    /// Number of tasks waiting for the bus.
    pub fn waiting_len(&self) -> (r: usize)
        ensures
            r == self@.waiting.len(),
    {
        self.waiting.len()
    }

    /// `who` asks for the bus. Returns whether `who` holds it now; if not,
    /// `who` waits in the queue until a release hands it over.
    pub fn acquire(&mut self, who: u32) -> (granted: bool)
        requires
            old(self)@.wf(),
        ensures
            final(self)@ == old(self)@.acquire(who),
            final(self)@.wf(),
            granted == final(self)@.holds(who),
    {
        if self.holder.is_none() {
            self.holder = Some(who);
            return true;
        }
        if self.holds(who) || self.is_waiting(who) {
            return self.holds(who);
        }
        self.waiting.push(who);
        false
    }

    /// `who` gives the bus back. Returns the task that holds it now, if any.
    pub fn release(&mut self, who: u32) -> (next: Option<u32>)
        requires
            old(self)@.wf(),
        ensures
            final(self)@ == old(self)@.release(who),
            final(self)@.wf(),
            next == final(self)@.holder,
    {
        if !self.holds(who) {
            return self.holder;
        }
        if self.waiting.len() == 0 {
            self.holder = None;
            None
        } else {
            let first = self.waiting.remove(0);
            self.holder = Some(first);
            proof {
                assert(self.waiting@ =~= old(self)@.waiting.drop_first());
                assert forall|a: int, b: int|
                    0 <= a < b < self.waiting@.len() implies self.waiting@[a]
                    != self.waiting@[b] by {
                    assert(self.waiting@[a] == old(self)@.waiting[a + 1]);
                    assert(self.waiting@[b] == old(self)@.waiting[b + 1]);
                }
                assert(!self.waiting@.contains(first)) by {
                    if self.waiting@.contains(first) {
                        let k = choose|k: int| 0 <= k < self.waiting@.len() && self.waiting@[k] == first;
                        assert(old(self)@.waiting[k + 1] == old(self)@.waiting[0]);
                    }
                }
            }
            Some(first)
        }
    }
}

/// Every request keeps the arbiter's invariant.
pub proof fn lemma_apply_keeps_wf(v: ArbiterView, r: BusRequest)
    requires
        v.wf(),
    ensures
        v.apply(r).wf(),
{
    match r {
        BusRequest::Acquire(who) => {
            if v.holder is Some && !v.holds(who) && !v.waiting.contains(who) {
                let w = v.waiting.push(who);
                assert(w.no_duplicates()) by {
                    assert forall|a: int, b: int| 0 <= a < b < w.len() implies w[a] != w[b] by {
                        if b == w.len() - 1 {
                            assert(v.waiting.contains(w[a]) || a == b);
                        }
                    }
                }
                assert(!w.contains(v.holder->Some_0)) by {
                    if w.contains(v.holder->Some_0) {
                        let k = choose|k: int| 0 <= k < w.len() && w[k] == v.holder->Some_0;
                        if k < v.waiting.len() {
                            assert(v.waiting.contains(v.holder->Some_0));
                        }
                    }
                }
            }
        },
        BusRequest::Release(who) => {
            if v.holds(who) && v.waiting.len() > 0 {
                let w = v.waiting.drop_first();
                assert forall|a: int, b: int| 0 <= a < b < w.len() implies w[a] != w[b] by {
                    assert(w[a] == v.waiting[a + 1]);
                    assert(w[b] == v.waiting[b + 1]);
                }
                assert(!w.contains(v.waiting[0])) by {
                    if w.contains(v.waiting[0]) {
                        let k = choose|k: int| 0 <= k < w.len() && w[k] == v.waiting[0];
                        assert(v.waiting[k + 1] == v.waiting[0]);
                    }
                }
            }
        },
    }
}

/// However the requests of the sensor tasks interleave, the bus is never
/// granted to two of them at once: a task only comes to hold the bus when it
/// was free and the task asked for it, or when the holder released it and the
/// task was first in the queue.
pub proof fn lemma_grants_never_overlap(v: ArbiterView, r: BusRequest, a: u32, b: u32)
    requires
        v.wf(),
    ensures
        v.apply(r).wf(),
        a != b ==> !(v.apply(r).holds(a) && v.apply(r).holds(b)),
        v.apply(r).holds(a) && !v.holds(a) ==> (v.holder is None && r == BusRequest::Acquire(a))
            || (r == BusRequest::Release(v.holder->Some_0) && v.waiting.len() > 0 && v.waiting[0]
            == a),
{
    lemma_apply_keeps_wf(v, r);
}

/// Any sequence of requests keeps the arbiter's invariant, and at every point
/// at most one task holds the bus.
pub proof fn lemma_run_exclusive(v: ArbiterView, rs: Seq<BusRequest>, a: u32, b: u32)
    requires
        v.wf(),
    ensures
        v.run(rs).wf(),
        a != b ==> !(v.run(rs).holds(a) && v.run(rs).holds(b)),
    decreases rs.len(),
{
    if rs.len() > 0 {
        lemma_apply_keeps_wf(v, rs[0]);
        lemma_run_exclusive(v.apply(rs[0]), rs.drop_first(), a, b);
    }
}

} // verus!
