use vstd::prelude::*;
use crate::config::TimingConfig;
use crate::measurement::{Measurement, RangeStatus, status_of_code};
use crate::recovery::{Action, Event, MachineView, ReadyStyle, RecoveryMachine, RecoveryState};
use crate::sequence::StepSequence;

verus! {

/// Why continuous measurement could not be started.
#[derive(Clone, Copy, Debug, PartialEq, Eq, Structural)]
pub enum StartError {
    /// The device could not be armed over the bus.
    I2cError,
    /// The runtime had no slot left for the measurement task.
    SpawnError,
}

/// Why a sensor could not be brought up.
#[derive(Clone, Copy, Debug, PartialEq, Eq, Structural)]
pub enum InitError {
    /// A bus transfer failed or the device did not acknowledge.
    Bus,
    /// The device rejected a setting or was in the wrong state for it.
    Device,
}

/// Region of interest of the long-range sensor, in SPAD coordinates.
#[derive(Clone, Copy, Debug, PartialEq, Eq, Structural)]
pub struct Roi {
    pub top_left_x: u8,
    pub top_left_y: u8,
    pub bot_right_x: u8,
    pub bot_right_y: u8,
}

/// One operation of a sensor's bring-up sequence.
#[derive(Clone, Copy, Debug, PartialEq, Eq, Structural)]
pub enum InitStep {
    /// Drive the reset line low (device off).
    ResetLow,
    /// Drive the reset line high (device on).
    ResetHigh,
    /// Wait the given number of milliseconds.
    Wait(u32),
    /// Device data initialisation over the bus.
    DataInit,
    /// Static initialisation of the device settings.
    StaticInit,
    /// Select the autonomous (continuous, timed) preset mode.
    PresetAutonomous,
    /// Set the region of interest.
    SetRoi(Roi),
    /// Set the measurement timing budget, in microseconds.
    TimingBudget(u32),
    /// Set the inter-measurement period, in milliseconds.
    InterMeasurementPeriod(u32),
    /// Start ranging.
    StartMeasurement,
    /// Write one register of the device answering at `address`.
    WriteRegister { address: u8, register: u8, value: u8 },
    /// Take over the device at the given bus address.
    Attach(u8),
}

/// Hold time of each half of the reset pulse, in milliseconds.
pub const RESET_PULSE_MS: u32 = 10;

/// Bus address of a short-range device after reset.
pub const VL53L0X_DEFAULT_ADDRESS: u8 = 0x29;

/// Bus address given to the short-range device, so that it does not clash
/// with a long-range device, which keeps the default one.
pub const VL53L0X_ADDRESS: u8 = 0x30;

/// Register that holds a short-range device's bus address.
pub const VL53L0X_ADDRESS_REGISTER: u8 = 0x8A;

/// The full field of view.
pub open spec fn full_roi() -> Roi {
    Roi { top_left_x: 0, top_left_y: 15, bot_right_x: 15, bot_right_y: 0 }
}

/// The reset pulse: low, hold, high, hold.
pub open spec fn reset_pulse() -> Seq<InitStep> {
    seq![
        InitStep::ResetLow,
        InitStep::Wait(RESET_PULSE_MS),
        InitStep::ResetHigh,
        InitStep::Wait(RESET_PULSE_MS),
    ]
}

/// Bring-up of the long-range sensor: reset pulse, data and static init,
/// autonomous mode over the full field of view with the configured timing,
/// and ranging started.
pub open spec fn vl53l1x_bring_up(t: TimingConfig) -> Seq<InitStep> {
    reset_pulse() + seq![
        InitStep::DataInit,
        InitStep::StaticInit,
        InitStep::PresetAutonomous,
        InitStep::SetRoi(full_roi()),
        InitStep::TimingBudget(t.timing_budget_us),
        InitStep::InterMeasurementPeriod(t.inter_measurement_period_ms),
        InitStep::StartMeasurement,
    ]
}

/// Bring-up of the short-range sensor: reset pulse, move the device to its
/// own bus address (the register takes the address shifted left by one), take
/// it over there and set the timing budget.
pub open spec fn vl53l0x_bring_up(t: TimingConfig) -> Seq<InitStep> {
    reset_pulse() + seq![
        InitStep::WriteRegister {
            address: VL53L0X_DEFAULT_ADDRESS,
            register: VL53L0X_ADDRESS_REGISTER,
            value: (VL53L0X_ADDRESS * 2) as u8,
        },
        InitStep::Attach(VL53L0X_ADDRESS),
        InitStep::TimingBudget(t.timing_budget_us),
    ]
}

fn push_reset_pulse(steps: &mut Vec<InitStep>)
    ensures
        final(steps)@ == old(steps)@ + reset_pulse(),
{
    steps.push(InitStep::ResetLow);
    steps.push(InitStep::Wait(RESET_PULSE_MS));
    steps.push(InitStep::ResetHigh);
    steps.push(InitStep::Wait(RESET_PULSE_MS));
    assert(steps@ =~= old(steps)@ + reset_pulse());
}

/// The long-range (VL53L1X) sensor's driver state: its recovery state
/// machine, driven by the ready-signal line, and its timing.
pub struct VL53L1XSensor {
    machine: RecoveryMachine,
    timing: TimingConfig,
}

impl VL53L1XSensor {
    pub closed spec fn timing_spec(&self) -> TimingConfig {
        self.timing
    }

    /// The sensor's invariant: its machine's invariant, with the task driven
    /// by the ready-signal line.
    pub open spec fn wf(&self) -> bool {
        self@.wf() && self@.style == ReadyStyle::Interrupt
    }

    /// The bring-up sequence for the given timing.
    pub fn bring_up_plan(timing: &TimingConfig) -> (r: Vec<InitStep>)
        ensures
            r@ == vl53l1x_bring_up(*timing),
    {
        let mut steps: Vec<InitStep> = Vec::new();
        push_reset_pulse(&mut steps);
        steps.push(InitStep::DataInit);
        steps.push(InitStep::StaticInit);
        steps.push(InitStep::PresetAutonomous);
        steps.push(
            InitStep::SetRoi(Roi { top_left_x: 0, top_left_y: 15, bot_right_x: 15, bot_right_y: 0 }),
        );
        steps.push(InitStep::TimingBudget(timing.timing_budget_us));
        steps.push(InitStep::InterMeasurementPeriod(timing.inter_measurement_period_ms));
        steps.push(InitStep::StartMeasurement);
        assert(steps@ =~= vl53l1x_bring_up(*timing));
        steps
    }

    /// The bring-up of a sensor with the given timing, ready to be carried
    /// out step by step.
    pub fn start_bring_up(timing: &TimingConfig) -> (r: StepSequence<InitStep, InitError>)
        ensures
            r@.wf(),
            r@.steps == vl53l1x_bring_up(*timing),
            r@.done == 0,
            r@.error is None,
    {
        StepSequence::new(Self::bring_up_plan(timing))
    }

    /// The sensor after its bring-up sequence has been carried out to its
    /// end. It exists only if every step succeeded, in order; otherwise the
    /// error of the step that failed is returned and nothing is kept. On
    /// success ranging runs and the task waits for the first ready signal.
    pub fn init_new(timing: TimingConfig, bring_up: &StepSequence<InitStep, InitError>) -> (r: Result<VL53L1XSensor, InitError>)
        requires
            bring_up@.wf(),
            bring_up@.steps == vl53l1x_bring_up(timing),
            bring_up@.pending() is None,
        ensures
            r is Ok <==> bring_up@.complete(),
            bring_up@.error is Some ==> r == Err::<VL53L1XSensor, InitError>(bring_up@.error->Some_0),
            r is Ok ==> {
                &&& r->Ok_0.wf()
                &&& r->Ok_0@.state() == RecoveryState::AwaitingDataReady
                &&& r->Ok_0@.last == Measurement::empty_spec()
                &&& r->Ok_0.timing_spec() == timing
            },
    {
        match bring_up.error() {
            Some(e) => Err(e),
            None => Ok(VL53L1XSensor { machine: RecoveryMachine::new(ReadyStyle::Interrupt), timing }),
        }
    }

    pub fn timing(&self) -> (r: &TimingConfig)
        ensures
            *r == self.timing_spec(),
    {
        &self.timing
    }

    /// A result as the device reports it: distance in millimetres, standard
    /// deviation in 16.16 fixed point, and the device's status code.
    pub fn measurement_from_raw(range_mm: i16, sigma_mm_fixed: u32, status_code: u8) -> (r: Measurement)
        ensures
            r.distance_mm == range_mm as int,
            r.sigma_mm_fixed == sigma_mm_fixed,
            r.status == status_of_code(status_code),
    {
        Measurement::from_raw(range_mm as i32, sigma_mm_fixed, status_code)
    }

    /// The last result read, valid or not.
    pub fn get_latest_measurement(&self) -> (r: Measurement)
        ensures
            r == self@.last,
    {
        self.machine.last_measurement()
    }

    /// Whether the task has fallen back to probing for readiness.
    pub fn recovery_mode(&self) -> (r: bool)
        ensures
            r <==> self@.state() == RecoveryState::Recovering,
    {
        match self.machine.state() {
            RecoveryState::Recovering => true,
            _ => false,
        }
    }

    pub fn state(&self) -> (r: RecoveryState)
        ensures
            r == self@.state(),
    {
        self.machine.state()
    }

    /// What the task has to do next.
    pub fn next_action(&self) -> (r: Action)
        ensures
            r == self@.action(),
    {
        self.machine.action()
    }

    /// Takes the outcome of the last action and returns the next one.
    pub fn on_event(&mut self, e: Event) -> (r: Action)
        requires
            old(self).wf(),
        ensures
            final(self)@ == old(self)@.next(e),
            final(self).wf(),
            final(self).timing_spec() == old(self).timing_spec(),
            r == final(self)@.action(),
    {
        self.machine.advance(e)
    }
}

impl View for VL53L1XSensor {
    type V = MachineView;

    closed spec fn view(&self) -> MachineView {
        self.machine@
    }
}

/// The short-range (VL53L0X) sensor's driver state: its recovery state
/// machine, driven by the ready-signal line, and its timing.
pub struct VL53L0XSensor {
    machine: RecoveryMachine,
    timing: TimingConfig,
}

impl VL53L0XSensor {
    pub closed spec fn timing_spec(&self) -> TimingConfig {
        self.timing
    }

    /// The sensor's invariant: its machine's invariant, with the task driven
    /// by the ready-signal line.
    pub open spec fn wf(&self) -> bool {
        self@.wf() && self@.style == ReadyStyle::Interrupt
    }

    /// The bring-up sequence for the given timing.
    pub fn bring_up_plan(timing: &TimingConfig) -> (r: Vec<InitStep>)
        ensures
            r@ == vl53l0x_bring_up(*timing),
    {
        let mut steps: Vec<InitStep> = Vec::new();
        push_reset_pulse(&mut steps);
        steps.push(
            InitStep::WriteRegister {
                address: VL53L0X_DEFAULT_ADDRESS,
                register: VL53L0X_ADDRESS_REGISTER,
                value: VL53L0X_ADDRESS * 2,
            },
        );
        steps.push(InitStep::Attach(VL53L0X_ADDRESS));
        steps.push(InitStep::TimingBudget(timing.timing_budget_us));
        assert(steps@ =~= vl53l0x_bring_up(*timing));
        steps
    }

    /// The bring-up of a sensor with the given timing, ready to be carried
    /// out step by step.
    pub fn start_bring_up(timing: &TimingConfig) -> (r: StepSequence<InitStep, InitError>)
        ensures
            r@.wf(),
            r@.steps == vl53l0x_bring_up(*timing),
            r@.done == 0,
            r@.error is None,
    {
        StepSequence::new(Self::bring_up_plan(timing))
    }

    /// The sensor after its bring-up sequence has been carried out to its
    /// end. It exists only if every step succeeded, in order; otherwise the
    /// error of the step that failed is returned and nothing is kept. On
    /// success ranging is started by `start_continuous_measurement`.
    pub fn init_new(timing: TimingConfig, bring_up: &StepSequence<InitStep, InitError>) -> (r: Result<VL53L0XSensor, InitError>)
        requires
            bring_up@.wf(),
            bring_up@.steps == vl53l0x_bring_up(timing),
            bring_up@.pending() is None,
        ensures
            r is Ok <==> bring_up@.complete(),
            bring_up@.error is Some ==> r == Err::<VL53L0XSensor, InitError>(bring_up@.error->Some_0),
            r is Ok ==> {
                &&& r->Ok_0.wf()
                &&& r->Ok_0@.state() == RecoveryState::AwaitingDataReady
                &&& r->Ok_0@.last == Measurement::empty_spec()
                &&& r->Ok_0.timing_spec() == timing
            },
    {
        match bring_up.error() {
            Some(e) => Err(e),
            None => Ok(VL53L0XSensor { machine: RecoveryMachine::new(ReadyStyle::Interrupt), timing }),
        }
    }

    /// Outcome of starting continuous measurement, given whether the device
    /// could be armed and, if so, whether the task could be spawned.
    pub fn start_continuous_measurement(armed: bool, spawned: bool) -> (r: Result<(), StartError>)
        ensures
            !armed ==> r == Err::<(), StartError>(StartError::I2cError),
            armed && !spawned ==> r == Err::<(), StartError>(StartError::SpawnError),
            armed && spawned ==> r is Ok,
    {
        if !armed {
            Err(StartError::I2cError)
        } else if !spawned {
            Err(StartError::SpawnError)
        } else {
            Ok(())
        }
    }

    pub fn timing(&self) -> (r: &TimingConfig)
        ensures
            *r == self.timing_spec(),
    {
        &self.timing
    }

    /// A result as the device reports it: a distance in millimetres, with no
    /// error estimate and no quality flag of its own.
    pub fn measurement_from_range(range_mm: u16) -> (r: Measurement)
        ensures
            r.distance_mm == range_mm as int,
            r.sigma_mm_fixed == 0,
            r.status == RangeStatus::Valid,
    {
        Measurement::new(range_mm as i32, 0, RangeStatus::Valid)
    }

    /// The last result read.
    pub fn get_latest_measurement(&self) -> (r: Measurement)
        ensures
            r == self@.last,
    {
        self.machine.last_measurement()
    }

    /// Whether the task has fallen back to probing for readiness.
    pub fn recovery_mode(&self) -> (r: bool)
        ensures
            r <==> self@.state() == RecoveryState::Recovering,
    {
        match self.machine.state() {
            RecoveryState::Recovering => true,
            _ => false,
        }
    }

    /// What the task has to do next.
    pub fn next_action(&self) -> (r: Action)
        ensures
            r == self@.action(),
    {
        self.machine.action()
    }

    /// Takes the outcome of the last action and returns the next one.
    pub fn on_event(&mut self, e: Event) -> (r: Action)
        requires
            old(self).wf(),
        ensures
            final(self)@ == old(self)@.next(e),
            final(self).wf(),
            final(self).timing_spec() == old(self).timing_spec(),
            r == final(self)@.action(),
    {
        self.machine.advance(e)
    }
}

impl View for VL53L0XSensor {
    type V = MachineView;

    closed spec fn view(&self) -> MachineView {
        self.machine@
    }
}

} // verus!
