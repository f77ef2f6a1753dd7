use vstd::prelude::*;

verus! {

/// The mathematical model of a step sequence in progress: the steps, how
/// many of them succeeded, and the error of the step that failed, if one did.
pub struct SequenceView<T, E> {
    pub steps: Seq<T>,
    pub done: nat,
    pub error: Option<E>,
}

impl<T, E> SequenceView<T, E> {
    pub open spec fn wf(self) -> bool {
        self.done <= self.steps.len()
    }

    pub open spec fn failed(self) -> bool {
        self.error is Some
    }

    /// Every step succeeded.
    pub open spec fn complete(self) -> bool {
        self.error is None && self.done == self.steps.len()
    }

    /// The step to carry out next: none once a step failed or all are done.
    pub open spec fn pending(self) -> Option<T> {
        if self.error is None && self.done < self.steps.len() {
            Some(self.steps[self.done as int])
        } else {
            None
        }
    }

    /// The sequence after the pending step reported `r`: a success moves on
    /// to the next step, a failure keeps its error and ends the sequence.
    /// Without a pending step nothing changes.
    pub open spec fn report(self, r: Result<(), E>) -> SequenceView<T, E> {
        if self.pending() is None {
            self
        } else {
            match r {
                Ok(()) => SequenceView { steps: self.steps, done: self.done + 1, error: None },
                Err(e) => SequenceView { steps: self.steps, done: self.done, error: Some(e) },
            }
        }
    }

    /// The sequence after the given reports, in order.
    pub open spec fn run(self, rs: Seq<Result<(), E>>) -> SequenceView<T, E>
        decreases rs.len(),
    {
        if rs.len() == 0 {
            self
        } else {
            self.report(rs[0]).run(rs.drop_first())
        }
    }
}

/// A sequence of operations carried out one at a time, in order, and
/// abandoned at the first failure, whose error it keeps: sensor bring-up and
/// fleet startup.
pub struct StepSequence<T, E> {
    steps: Vec<T>,
    done: usize,
    error: Option<E>,
}

impl<T, E> View for StepSequence<T, E> {
    type V = SequenceView<T, E>;

    closed spec fn view(&self) -> SequenceView<T, E> {
        SequenceView { steps: self.steps@, done: self.done as nat, error: self.error }
    }
}

impl<T: Copy, E: Copy> StepSequence<T, E> {
    pub fn new(steps: Vec<T>) -> (r: StepSequence<T, E>)
        ensures
            r@.wf(),
            r@.steps == steps@,
            r@.done == 0,
            r@.error is None,
    {
        StepSequence { steps, done: 0, error: None }
    }

    /// The step to carry out next.
    pub fn pending(&self) -> (r: Option<T>)
        requires
            self@.wf(),
        ensures
            r == self@.pending(),
    {
        if self.error.is_none() && self.done < self.steps.len() {
            Some(self.steps[self.done])
        } else {
            None
        }
    }

    /// Records the outcome of the pending step.
    pub fn report(&mut self, r: Result<(), E>)
        requires
            old(self)@.wf(),
        ensures
            final(self)@ == old(self)@.report(r),
            final(self)@.wf(),
    {
        if self.error.is_none() && self.done < self.steps.len() {
            match r {
                Ok(()) => {
                    self.done = self.done + 1;
                },
                Err(e) => {
                    self.error = Some(e);
                },
            }
        }
    }

    /// Number of steps that succeeded.
    pub fn done(&self) -> (r: usize)
        ensures
            r == self@.done,
    {
        self.done
    }

    /// The error of the step that failed, if one did; the sequence is then
    /// abandoned.
    pub fn error(&self) -> (r: Option<E>)
        ensures
            r == self@.error,
    {
        self.error
    }

    /// Whether a step failed.
    pub fn failed(&self) -> (r: bool)
        ensures
            r == self@.failed(),
    {
        self.error.is_some()
    }

    /// Whether every step succeeded.
    pub fn is_complete(&self) -> (r: bool)
        requires
            self@.wf(),
        ensures
            r == self@.complete(),
    {
        self.error.is_none() && self.done == self.steps.len()
    }
}

/// Reporting success for every remaining step, one after the other,
/// completes the sequence; the first failure abandons it at that step with
/// that step's error, and no report after that changes anything.
pub proof fn lemma_sequence_all_or_nothing<T, E>(v: SequenceView<T, E>, rs: Seq<Result<(), E>>)
    requires
        v.wf(),
        v.error is None,
        rs.len() == v.steps.len() - v.done,
    ensures
        v.run(rs).wf(),
        (forall|i: int| 0 <= i < rs.len() ==> rs[i] is Ok) ==> v.run(rs).complete(),
        forall|k: int|
            0 <= k < rs.len() && rs[k] is Err && (forall|i: int| 0 <= i < k ==> rs[i] is Ok)
                ==> v.run(rs).error == Some(rs[k]->Err_0) && v.run(rs).done == v.done + k
                && v.run(rs).pending() is None,
    decreases rs.len(),
{
    if rs.len() > 0 {
        let w = v.report(rs[0]);
        match rs[0] {
            Ok(()) => {
                let tail = rs.drop_first();
                lemma_sequence_all_or_nothing(w, tail);
                if forall|i: int| 0 <= i < rs.len() ==> rs[i] is Ok {
                    assert forall|i: int| 0 <= i < tail.len() implies tail[i] is Ok by {
                        assert(rs[i + 1] is Ok);
                    }
                }
                assert forall|k: int|
                    0 <= k < rs.len() && rs[k] is Err && (forall|i: int| 0 <= i < k ==> rs[i] is Ok)
                        implies v.run(rs).error == Some(rs[k]->Err_0) && v.run(rs).done == v.done
                        + k && v.run(rs).pending() is None by {
                    assert(k >= 1);
                    assert(tail[k - 1] == rs[k]);
                    assert forall|i: int| 0 <= i < k - 1 implies tail[i] is Ok by {
                        assert(rs[i + 1] is Ok);
                    }
                }
            },
            Err(e) => {
                lemma_failed_stays(w, rs.drop_first());
                assert forall|k: int|
                    0 <= k < rs.len() && rs[k] is Err && (forall|i: int| 0 <= i < k ==> rs[i] is Ok)
                        implies k == 0 by {
                    if k > 0 {
                        assert(rs[0] is Ok);
                    }
                }
            },
        }
    }
}

proof fn lemma_failed_stays<T, E>(v: SequenceView<T, E>, rs: Seq<Result<(), E>>)
    requires
        v.error is Some,
    ensures
        v.run(rs) == v,
    decreases rs.len(),
{
    if rs.len() > 0 {
        lemma_failed_stays(v.report(rs[0]), rs.drop_first());
    }
}

} // verus!
