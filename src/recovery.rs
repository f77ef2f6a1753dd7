use vstd::prelude::*;
use crate::measurement::{Measurement, RangeStatus};

verus! {

/// Pause between two readiness probes while recovering, in milliseconds.
pub const PROBE_BACKOFF_MS: u32 = 10;

/// Pause between stopping and restarting the device, in milliseconds.
pub const RESTART_PAUSE_MS: u32 = 100;

/// Pause after a failed restart, before the next attempt, in milliseconds.
pub const FAILED_RESTART_BACKOFF_MS: u32 = 500;

/// How a device tells that a result is ready.
#[derive(Clone, Copy, Debug, PartialEq, Eq, Structural)]
pub enum ReadyStyle {
    /// An edge on the ready-signal line.
    Interrupt,
    /// No line: the result is read directly and the read waits for it.
    Poll,
}

/// The coarse state of a sensor's measurement stream.
#[derive(Clone, Copy, Debug, PartialEq, Eq, Structural)]
pub enum RecoveryState {
    /// Normal operation, busy with a cycle: reading, delivering, rearming,
    /// or restarting the device after an error.
    Normal,
    /// Normal operation, suspended on the ready-signal edge: the wait that
    /// begins every normal cycle of an interrupt-driven device, and the
    /// initial state of such a device.
    AwaitingDataReady,
    /// Probing for readiness after a failed restart.
    Recovering,
}

/// Whether the stream is in normal operation (busy or waiting for the edge).
pub open spec fn is_normal(s: RecoveryState) -> bool {
    s == RecoveryState::Normal || s == RecoveryState::AwaitingDataReady
}

/// The operation the task is carrying out, i.e. the one whose outcome the
/// machine waits for.
#[derive(Clone, Copy, Debug, PartialEq, Eq, Structural)]
pub enum Step {
    /// Suspended on the ready-signal edge.
    WaitSignal,
    /// Asking the device whether a result is ready (recovering).
    ProbeReady,
    /// Sleeping between two probes.
    ProbeBackoff,
    /// Reading the ranging result.
    Read,
    /// Handing the last result to the callback.
    Deliver,
    /// Clearing the device interrupt and triggering the next cycle.
    Rearm,
    /// Stopping the device for a restart.
    Stop,
    /// Sleeping between stop and start.
    RestartPause,
    /// Starting the device again.
    Start,
    /// Sleeping after a failed restart.
    FailBackoff,
}

/// What the task has to do next.
#[derive(Clone, Copy, Debug, PartialEq, Eq, Structural)]
pub enum Action {
    WaitSignal,
    ProbeReady,
    Sleep(u32),
    Read,
    Deliver(Measurement),
    Rearm,
    Stop,
    Start,
}

/// How the last action ended.
#[derive(Clone, Copy, Debug, PartialEq, Eq, Structural)]
pub enum Event {
    /// It completed: the edge came, the device is ready, the sleep ended, the
    /// callback returned, or the bus operation succeeded.
    Done,
    /// It failed: a bus or device error, or a probe that would block.
    Failed,
    /// A read returned this result.
    Measured(Measurement),
}

/// The first step of a cycle of normal operation.
pub open spec fn cycle_start(style: ReadyStyle) -> Step {
    match style {
        ReadyStyle::Interrupt => Step::WaitSignal,
        ReadyStyle::Poll => Step::Read,
    }
}

/// Whether a step belongs to the recovery path.
pub open spec fn is_recovery_step(s: Step) -> bool {
    s == Step::FailBackoff || s == Step::ProbeReady || s == Step::ProbeBackoff
}

/// Whether the task is suspended (or sleeping) while it carries out this step.
pub open spec fn is_suspension(s: Step) -> bool {
    s == Step::WaitSignal || s == Step::ProbeBackoff || s == Step::RestartPause
        || s == Step::FailBackoff
}

/// The recovery state of a sensor whose task carries out the given step.
pub open spec fn state_of(s: Step) -> RecoveryState {
    if is_recovery_step(s) {
        RecoveryState::Recovering
    } else if s == Step::WaitSignal {
        RecoveryState::AwaitingDataReady
    } else {
        RecoveryState::Normal
    }
}

/// The mathematical model of a recovery state machine.
pub struct MachineView {
    pub style: ReadyStyle,
    pub step: Step,
    pub last: Measurement,
}

impl MachineView {
    /// The machine's invariant: a result is handed to the callback only when
    /// it is valid.
    pub open spec fn wf(self) -> bool {
        self.step == Step::Deliver ==> self.last.status == RangeStatus::Valid
    }

    pub open spec fn state(self) -> RecoveryState {
        state_of(self.step)
    }

    /// The action that carries out the current step.
    pub open spec fn action(self) -> Action {
        match self.step {
            Step::WaitSignal => Action::WaitSignal,
            Step::ProbeReady => Action::ProbeReady,
            Step::ProbeBackoff => Action::Sleep(PROBE_BACKOFF_MS),
            Step::Read => Action::Read,
            Step::Deliver => Action::Deliver(self.last),
            Step::Rearm => Action::Rearm,
            Step::Stop => Action::Stop,
            Step::RestartPause => Action::Sleep(RESTART_PAUSE_MS),
            Step::Start => Action::Start,
            Step::FailBackoff => Action::Sleep(FAILED_RESTART_BACKOFF_MS),
        }
    }

    /// The step that follows the current one on the given outcome. A probe
    /// that does not report ready counts as failed; any other outcome that
    /// cannot answer the current step (a result where no read was made, or no
    /// result from a read) leaves the step as it is.
    pub open spec fn next_step(self, e: Event) -> Step {
        match self.step {
            Step::WaitSignal => match e {
                Event::Done => Step::Read,
                _ => Step::WaitSignal,
            },
            Step::ProbeReady => match e {
                Event::Done => Step::Read,
                _ => Step::ProbeBackoff,
            },
            Step::ProbeBackoff => Step::ProbeReady,
            Step::Read => match e {
                Event::Measured(m) => if m.status == RangeStatus::Valid {
                    Step::Deliver
                } else {
                    Step::Rearm
                },
                Event::Failed => Step::Stop,
                Event::Done => Step::Read,
            },
            Step::Deliver => Step::Rearm,
            Step::Rearm => match e {
                Event::Done => cycle_start(self.style),
                Event::Failed => Step::Stop,
                Event::Measured(_) => Step::Rearm,
            },
            Step::Stop => Step::RestartPause,
            Step::RestartPause => Step::Start,
            Step::Start => match e {
                Event::Done => cycle_start(self.style),
                Event::Failed => Step::FailBackoff,
                Event::Measured(_) => Step::Start,
            },
            Step::FailBackoff => Step::ProbeReady,
        }
    }

    /// The machine after the given outcome: a result that answers a read is
    /// recorded, valid or not.
    pub open spec fn next(self, e: Event) -> MachineView {
        MachineView {
            style: self.style,
            step: self.next_step(e),
            last: match e {
                Event::Measured(m) => if self.step == Step::Read {
                    m
                } else {
                    self.last
                },
                _ => self.last,
            },
        }
    }

    /// The machine after a sequence of outcomes, taken in order.
    pub open spec fn run(self, es: Seq<Event>) -> MachineView
        decreases es.len(),
    {
        if es.len() == 0 {
            self
        } else {
            self.next(es[0]).run(es.drop_first())
        }
    }
}

impl MachineView {
    /// The machine after the same outcome `n` times in a row.
    pub open spec fn repeat(self, e: Event, n: nat) -> MachineView
        decreases n,
    {
        if n == 0 {
            self
        } else {
            self.next(e).repeat(e, (n - 1) as nat)
        }
    }

    /// The outcome of the current step on a working device whose reads
    /// return `v`.
    pub open spec fn success(self, v: Measurement) -> Event {
        if self.step == Step::Read {
            Event::Measured(v)
        } else {
            Event::Done
        }
    }

    /// The machine after `n` steps on a working device whose reads return `v`.
    pub open spec fn run_working(self, v: Measurement, n: nat) -> MachineView
        decreases n,
    {
        if n == 0 {
            self
        } else {
            self.next(self.success(v)).run_working(v, (n - 1) as nat)
        }
    }
}

impl MachineView {
    /// Whether an outcome answers the current step: a read ends in a result
    /// or a failure, any other step in completion or failure.
    pub open spec fn answers(self, e: Event) -> bool {
        (self.step == Step::Read) == (e is Measured)
    }

    /// Whether every outcome of the sequence answers the step it is given to.
    pub open spec fn answered(self, es: Seq<Event>) -> bool
        decreases es.len(),
    {
        es.len() == 0 || (self.answers(es[0]) && self.next(es[0]).answered(es.drop_first()))
    }

    /// Whether the task is suspended (waiting or sleeping) now or within the
    /// next `k` outcomes of the sequence.
    pub open spec fn suspends_within(self, es: Seq<Event>, k: nat) -> bool
        decreases k,
    {
        is_suspension(self.step) || (k > 0 && es.len() > 0 && self.next(es[0]).suspends_within(
            es.drop_first(),
            (k - 1) as nat,
        ))
    }
}

/// The recovery state machine of one sensor. It records the last result that
/// was read, valid or not.
pub struct RecoveryMachine {
    style: ReadyStyle,
    step: Step,
    last: Measurement,
}

impl View for RecoveryMachine {
    type V = MachineView;

    closed spec fn view(&self) -> MachineView {
        MachineView { style: self.style, step: self.step, last: self.last }
    }
}

impl RecoveryMachine {
    /// A machine for a freshly started device.
    pub fn new(style: ReadyStyle) -> (r: RecoveryMachine)
        ensures
            r@.wf(),
            r@.style == style,
            r@.step == cycle_start(style),
            r@.last == Measurement::empty_spec(),
    {
        let step = match style {
            ReadyStyle::Interrupt => Step::WaitSignal,
            ReadyStyle::Poll => Step::Read,
        };
        RecoveryMachine { style, step, last: Measurement::empty() }
    }

    pub fn style(&self) -> (r: ReadyStyle)
        ensures
            r == self@.style,
    {
        self.style
    }

    pub fn step(&self) -> (r: Step)
        ensures
            r == self@.step,
    {
        self.step
    }

    /// The last result read, valid or not.
    pub fn last_measurement(&self) -> (r: Measurement)
        ensures
            r == self@.last,
    {
        self.last
    }

    pub fn state(&self) -> (r: RecoveryState)
        ensures
            r == self@.state(),
    {
        match self.step {
            Step::FailBackoff | Step::ProbeReady | Step::ProbeBackoff => RecoveryState::Recovering,
            Step::WaitSignal => RecoveryState::AwaitingDataReady,
            _ => RecoveryState::Normal,
        }
    }

    /// The action that carries out the current step.
    pub fn action(&self) -> (r: Action)
        ensures
            r == self@.action(),
    {
        match self.step {
            Step::WaitSignal => Action::WaitSignal,
            Step::ProbeReady => Action::ProbeReady,
            Step::ProbeBackoff => Action::Sleep(PROBE_BACKOFF_MS),
            Step::Read => Action::Read,
            Step::Deliver => Action::Deliver(self.last),
            Step::Rearm => Action::Rearm,
            Step::Stop => Action::Stop,
            Step::RestartPause => Action::Sleep(RESTART_PAUSE_MS),
            Step::Start => Action::Start,
            Step::FailBackoff => Action::Sleep(FAILED_RESTART_BACKOFF_MS),
        }
    }

    /// Takes the outcome of the current action and returns the next action.
    pub fn advance(&mut self, e: Event) -> (r: Action)
        requires
            old(self)@.wf(),
        ensures
            final(self)@ == old(self)@.next(e),
            final(self)@.wf(),
            r == final(self)@.action(),
    {
        let style = self.style;
        let next = match self.step {
            Step::WaitSignal => match e {
                Event::Done => Step::Read,
                _ => Step::WaitSignal,
            },
            Step::ProbeReady => match e {
                Event::Done => Step::Read,
                _ => Step::ProbeBackoff,
            },
            Step::ProbeBackoff => Step::ProbeReady,
            Step::Read => match e {
                Event::Measured(m) => {
                    self.last = m;
                    if m.is_deliverable() {
                        Step::Deliver
                    } else {
                        Step::Rearm
                    }
                },
                Event::Failed => Step::Stop,
                Event::Done => Step::Read,
            },
            Step::Deliver => Step::Rearm,
            Step::Rearm => match e {
                Event::Done => match style {
                    ReadyStyle::Interrupt => Step::WaitSignal,
                    ReadyStyle::Poll => Step::Read,
                },
                Event::Failed => Step::Stop,
                Event::Measured(_) => Step::Rearm,
            },
            Step::Stop => Step::RestartPause,
            Step::RestartPause => Step::Start,
            Step::Start => match e {
                Event::Done => match style {
                    ReadyStyle::Interrupt => Step::WaitSignal,
                    ReadyStyle::Poll => Step::Read,
                },
                Event::Failed => Step::FailBackoff,
                Event::Measured(_) => Step::Start,
            },
            Step::FailBackoff => Step::ProbeReady,
        };
        self.step = next;
        self.action()
    }
}


/// Every outcome keeps the machine's invariant, so a result is never handed
/// to the callback unless it is valid.
pub proof fn lemma_run_keeps_wf(m: MachineView, es: Seq<Event>)
    requires
        m.wf(),
    ensures
        m.run(es).wf(),
    decreases es.len(),
{
    if es.len() > 0 {
        lemma_run_keeps_wf(m.next(es[0]), es.drop_first());
    }
}

/// Every pause the machine asks for lasts between the probe backoff and the
/// failed-restart backoff.
pub proof fn lemma_backoff_bounded(m: MachineView)
    ensures
        m.action() is Sleep ==> PROBE_BACKOFF_MS <= m.action()->Sleep_0
            <= FAILED_RESTART_BACKOFF_MS,
{
}

proof fn lemma_repeat_split(m: MachineView, e: Event, k: nat, i: nat)
    ensures
        m.repeat(e, k + i) == m.repeat(e, k).repeat(e, i),
    decreases k,
{
    if k > 0 {
        lemma_repeat_split(m.next(e), e, (k - 1) as nat, i);
        assert((k + i - 1) as nat == (k - 1) as nat + i);
    }
}

proof fn lemma_failure_suspends_within_three(m: MachineView)
    ensures
        exists|i: nat| i <= 3 && #[trigger] is_suspension(m.repeat(Event::Failed, i).step),
{
    let f = Event::Failed;
    reveal_with_fuel(MachineView::repeat, 4);
    if is_suspension(m.step) {
        assert(is_suspension(m.repeat(f, 0).step));
    } else if is_suspension(m.next(f).step) {
        assert(is_suspension(m.repeat(f, 1).step));
    } else if is_suspension(m.next(f).next(f).step) {
        assert(is_suspension(m.repeat(f, 2).step));
    } else {
        assert(is_suspension(m.repeat(f, 3).step));
    }
}

/// Under a fault that makes every operation fail, the task keeps retrying
/// forever without spinning: from any point, at most three steps pass before
/// it is suspended again (waiting for a signal or sleeping).
pub proof fn lemma_persistent_failure_keeps_retrying(m: MachineView, k: nat)
    ensures
        exists|i: nat| i <= 3 && #[trigger] is_suspension(m.repeat(Event::Failed, k + i).step),
{
    let f = Event::Failed;
    lemma_failure_suspends_within_three(m.repeat(f, k));
    let i = choose|i: nat| i <= 3 && #[trigger] is_suspension(m.repeat(f, k).repeat(f, i).step);
    lemma_repeat_split(m, f, k, i);
    assert(is_suspension(m.repeat(f, k + i).step));
}

/// Once the device works again, whatever state recovery had reached, a valid
/// result is handed to the callback within six steps.
pub proof fn lemma_working_device_delivers(m: MachineView, v: Measurement)
    requires
        v.status == RangeStatus::Valid,
    ensures
        exists|i: nat| i <= 6 && #[trigger] m.run_working(v, i).action() == Action::Deliver(v),
{
    reveal_with_fuel(MachineView::run_working, 7);
    let m1 = m.next(m.success(v));
    let m2 = m1.next(m1.success(v));
    let m3 = m2.next(m2.success(v));
    let m4 = m3.next(m3.success(v));
    let m5 = m4.next(m4.success(v));
    let m6 = m5.next(m5.success(v));
    if m1.action() == Action::Deliver(v) {
        assert(m.run_working(v, 1).action() == Action::Deliver(v));
    } else if m2.action() == Action::Deliver(v) {
        assert(m.run_working(v, 2).action() == Action::Deliver(v));
    } else if m3.action() == Action::Deliver(v) {
        assert(m.run_working(v, 3).action() == Action::Deliver(v));
    } else if m4.action() == Action::Deliver(v) {
        assert(m.run_working(v, 4).action() == Action::Deliver(v));
    } else if m5.action() == Action::Deliver(v) {
        assert(m.run_working(v, 5).action() == Action::Deliver(v));
    } else {
        assert(m6.action() == Action::Deliver(v));
        assert(m.run_working(v, 6).action() == Action::Deliver(v));
    }
}

/// A result that is not valid is recorded as the last result, and is never
/// handed to the callback, whatever happens afterwards.
pub proof fn lemma_flagged_result_recorded_not_delivered(m: MachineView, x: Measurement, es: Seq<Event>)
    requires
        m.wf(),
        m.step == Step::Read,
        x.status != RangeStatus::Valid,
    ensures
        m.next(Event::Measured(x)).last == x,
        m.next(Event::Measured(x)).step == Step::Rearm,
        m.next(Event::Measured(x)).run(es).action() != Action::Deliver(x),
{
    lemma_run_keeps_wf(m.next(Event::Measured(x)), es);
}

/// A failed rearm followed by a successful stop and start stays in normal
/// operation throughout, whatever the stop and the pause reported: the task
/// stops, pauses for the restart pause and starts again, with no failed-restart
/// backoff and no readiness probe, and the next cycle begins as every normal
/// cycle does (for an interrupt-driven device, with the wait for the edge).
pub proof fn lemma_rearm_failure_restart_ok(m: MachineView, stop: Event, pause: Event)
    requires
        m.step == Step::Rearm,
    ensures
        is_normal(m.next(Event::Failed).state()),
        m.next(Event::Failed).action() == Action::Stop,
        is_normal(m.next(Event::Failed).next(stop).state()),
        m.next(Event::Failed).next(stop).action() == Action::Sleep(RESTART_PAUSE_MS),
        is_normal(m.next(Event::Failed).next(stop).next(pause).state()),
        m.next(Event::Failed).next(stop).next(pause).action() == Action::Start,
        m.next(Event::Failed).next(stop).next(pause).next(Event::Done).step == cycle_start(m.style),
        is_normal(m.next(Event::Failed).next(stop).next(pause).next(Event::Done).state()),
        m.style == ReadyStyle::Interrupt ==> {
            &&& m.next(Event::Failed).next(stop).next(pause).next(Event::Done).state()
                == RecoveryState::AwaitingDataReady
            &&& m.next(Event::Failed).next(stop).next(pause).next(Event::Done).action()
                == Action::WaitSignal
        },
{
}

/// A failed start puts the task into recovery, where it stays until a
/// readiness probe succeeds, probing with a pause of the probe backoff
/// between two attempts; a successful probe returns it to normal operation
/// and to reading the result.
pub proof fn lemma_failed_restart_recovers_by_probing(m: MachineView, e: Event)
    requires
        m.step == Step::Start,
    ensures
        m.next(Event::Failed).state() == RecoveryState::Recovering,
        m.next(Event::Failed).action() == Action::Sleep(FAILED_RESTART_BACKOFF_MS),
        m.next(Event::Failed).next(e).action() == Action::ProbeReady,
        m.next(Event::Failed).next(e).next(Event::Failed).action() == Action::Sleep(PROBE_BACKOFF_MS),
        m.next(Event::Failed).next(e).next(Event::Failed).state() == RecoveryState::Recovering,
        m.next(Event::Failed).next(e).next(Event::Failed).next(e).action() == Action::ProbeReady,
        m.next(Event::Failed).next(e).next(Event::Done).state() == RecoveryState::Normal,
        m.next(Event::Failed).next(e).next(Event::Done).action() == Action::Read,
{
}

/// While recovering, the task leaves recovery only on a successful readiness
/// probe, and two probes are always separated by a pause of the probe backoff.
pub proof fn lemma_recovery_persists_until_probe_succeeds(m: MachineView, e: Event)
    requires
        m.state() == RecoveryState::Recovering,
    ensures
        m.next(e).state() != RecoveryState::Recovering <==> (m.step == Step::ProbeReady && e
            == Event::Done),
        m.step == Step::ProbeReady && m.next(e).state() == RecoveryState::Recovering ==> m.next(
            e,
        ).action() == Action::Sleep(PROBE_BACKOFF_MS),
{
}

/// Whatever the device and the bus answer, success or failure in any order,
/// an interrupt-driven task never spins: from any point, within five steps it
/// is suspended, waiting for the ready edge or sleeping for one of the
/// bounded backoffs. No number of failures ends the task.
pub proof fn lemma_answered_outcomes_never_spin(m: MachineView, es: Seq<Event>)
    requires
        m.style == ReadyStyle::Interrupt,
        es.len() >= 5,
        m.answered(es),
    ensures
        m.suspends_within(es, 5),
{
    reveal_with_fuel(MachineView::suspends_within, 6);
    reveal_with_fuel(MachineView::answered, 6);
    let e0 = es[0];
    let t1 = es.drop_first();
    let e1 = t1[0];
    let t2 = t1.drop_first();
    let e2 = t2[0];
    let t3 = t2.drop_first();
    let e3 = t3[0];
    let t4 = t3.drop_first();
    let e4 = t4[0];
    let m1 = m.next(e0);
    let m2 = m1.next(e1);
    let m3 = m2.next(e2);
    let m4 = m3.next(e3);
    let m5 = m4.next(e4);
    assert(m.answers(e0) && m1.answered(t1));
    assert(m1.answers(e1) && m2.answered(t2));
    assert(m2.answers(e2) && m3.answered(t3));
    assert(m3.answers(e3) && m4.answered(t4));
    assert(m4.answers(e4));
    assert(is_suspension(m.step) || is_suspension(m1.step) || is_suspension(m2.step)
        || is_suspension(m3.step) || is_suspension(m4.step) || is_suspension(m5.step));
}

/// The ready style never changes, so what holds of an interrupt-driven
/// machine holds at every point of its run.
pub proof fn lemma_run_keeps_style(m: MachineView, es: Seq<Event>)
    ensures
        m.run(es).style == m.style,
    decreases es.len(),
{
    if es.len() > 0 {
        lemma_run_keeps_style(m.next(es[0]), es.drop_first());
    }
}

} // verus!
