use tof_sensors::config::{DistanceSensorConfig, TimingConfig};
use tof_sensors::fleet::{fleet_plan, FleetStep};
use tof_sensors::measurement::{Measurement, RangeStatus};
use tof_sensors::sensor::{InitError, InitStep, Roi, StartError, VL53L0XSensor, VL53L1XSensor};
use tof_sensors::sequence::StepSequence;

#[test]
fn timing_defaults() {
    let t = TimingConfig::default();
    assert_eq!(t.timing_budget_us, 66_000);
    assert_eq!(t.inter_measurement_period_ms, 69);
    let d = DistanceSensorConfig::default();
    assert_eq!(d.timing_budget_us, 66_000);
    assert_eq!(d.inter_measurement_period_ms, 69);
    let c = DistanceSensorConfig { timing_budget_us: 33_000, inter_measurement_period_ms: 40 };
    let t2 = c.timing();
    assert_eq!(t2.timing_budget_us, 33_000);
    assert_eq!(t2.inter_measurement_period_ms, 40);
}

#[test]
fn long_range_bring_up_plan() {
    let t = TimingConfig { timing_budget_us: 50_000, inter_measurement_period_ms: 100 };
    let plan = VL53L1XSensor::bring_up_plan(&t);
    assert_eq!(
        plan,
        vec![
            InitStep::ResetLow,
            InitStep::Wait(10),
            InitStep::ResetHigh,
            InitStep::Wait(10),
            InitStep::DataInit,
            InitStep::StaticInit,
            InitStep::PresetAutonomous,
            InitStep::SetRoi(Roi { top_left_x: 0, top_left_y: 15, bot_right_x: 15, bot_right_y: 0 }),
            InitStep::TimingBudget(50_000),
            InitStep::InterMeasurementPeriod(100),
            InitStep::StartMeasurement,
        ]
    );
}

#[test]
fn short_range_bring_up_plan() {
    let plan = VL53L0XSensor::bring_up_plan(&TimingConfig::default());
    assert_eq!(
        plan,
        vec![
            InitStep::ResetLow,
            InitStep::Wait(10),
            InitStep::ResetHigh,
            InitStep::Wait(10),
            InitStep::WriteRegister { address: 0x29, register: 0x8A, value: 0x60 },
            InitStep::Attach(0x30),
            InitStep::TimingBudget(66_000),
        ]
    );
}

#[test]
fn bring_up_stops_at_first_failure() {
    let plan = VL53L1XSensor::bring_up_plan(&TimingConfig::default());
    let mut seq: StepSequence<InitStep, InitError> = StepSequence::new(plan);
    for _ in 0..5 {
        assert!(seq.pending().is_some());
        seq.report(Ok(()));
    }
    assert_eq!(seq.pending(), Some(InitStep::StaticInit));
    seq.report(Err(InitError::Device));
    assert!(seq.failed());
    assert_eq!(seq.error(), Some(InitError::Device));
    assert_eq!(seq.pending(), None);
    seq.report(Ok(()));
    seq.report(Err(InitError::Bus));
    assert_eq!(seq.error(), Some(InitError::Device));
    assert_eq!(seq.done(), 5);
    assert!(!seq.is_complete());
}

#[test]
fn bring_up_completes_when_every_step_succeeds() {
    let plan = VL53L0XSensor::bring_up_plan(&TimingConfig::default());
    let n = plan.len();
    let mut seq: StepSequence<InitStep, InitError> = StepSequence::new(plan);
    let mut count = 0;
    while let Some(_) = seq.pending() {
        seq.report(Ok(()));
        count += 1;
    }
    assert_eq!(count, n);
    assert!(seq.is_complete());
    assert!(!seq.failed());
    assert_eq!(seq.error(), None);
}

#[test]
fn long_range_init_succeeds_after_full_bring_up() {
    let timing = TimingConfig { timing_budget_us: 33_000, inter_measurement_period_ms: 50 };
    let mut seq = VL53L1XSensor::start_bring_up(&timing);
    let mut issued = Vec::new();
    while let Some(step) = seq.pending() {
        issued.push(step);
        seq.report(Ok(()));
    }
    assert_eq!(issued, VL53L1XSensor::bring_up_plan(&timing));
    assert_eq!(&issued[..4], &[InitStep::ResetLow, InitStep::Wait(10), InitStep::ResetHigh, InitStep::Wait(10)]);
    let sensor = match VL53L1XSensor::init_new(timing, &seq) {
        Ok(s) => s,
        Err(e) => panic!("unexpected {:?}", e),
    };
    assert_eq!(sensor.timing().timing_budget_us, 33_000);
    assert_eq!(sensor.get_latest_measurement(), Measurement::empty());
    assert_eq!(sensor.next_action(), tof_sensors::recovery::Action::WaitSignal);
}

#[test]
fn long_range_init_fails_with_the_failing_step_error() {
    let timing = TimingConfig::default();
    let mut seq = VL53L1XSensor::start_bring_up(&timing);
    let mut issued = Vec::new();
    while let Some(step) = seq.pending() {
        issued.push(step);
        if step == InitStep::DataInit {
            seq.report(Err(InitError::Bus));
        } else {
            seq.report(Ok(()));
        }
    }
    // nothing after the failing step is issued
    assert_eq!(issued.last(), Some(&InitStep::DataInit));
    assert_eq!(issued.len(), 5);
    assert!(matches!(VL53L1XSensor::init_new(timing, &seq), Err(InitError::Bus)));
}

#[test]
fn short_range_init_fails_when_attach_fails() {
    let timing = TimingConfig::default();
    let mut seq = VL53L0XSensor::start_bring_up(&timing);
    while let Some(step) = seq.pending() {
        match step {
            InitStep::Attach(_) => seq.report(Err(InitError::Device)),
            _ => seq.report(Ok(())),
        }
    }
    assert_eq!(seq.done(), 5);
    assert!(matches!(VL53L0XSensor::init_new(timing, &seq), Err(InitError::Device)));
}

#[test]
fn short_range_init_fails_when_address_write_fails() {
    let timing = TimingConfig::default();
    let mut seq = VL53L0XSensor::start_bring_up(&timing);
    while let Some(step) = seq.pending() {
        match step {
            InitStep::WriteRegister { .. } => seq.report(Err(InitError::Bus)),
            _ => seq.report(Ok(())),
        }
    }
    assert_eq!(seq.done(), 4);
    assert!(matches!(VL53L0XSensor::init_new(timing, &seq), Err(InitError::Bus)));
}

#[test]
fn empty_sequence_is_complete() {
    let seq: StepSequence<FleetStep, InitError> = StepSequence::new(Vec::new());
    assert!(seq.is_complete());
    assert_eq!(seq.pending(), None);
}

#[test]
fn fleet_inits_all_before_starting_any() {
    assert_eq!(
        fleet_plan(2),
        vec![FleetStep::Init(0), FleetStep::Init(1), FleetStep::Start(0), FleetStep::Start(1)]
    );
    assert_eq!(fleet_plan(0), Vec::<FleetStep>::new());
}

#[test]
fn fleet_startup_halts_on_a_failed_sensor() {
    let mut seq: StepSequence<FleetStep, usize> = StepSequence::new(fleet_plan(3));
    seq.report(Ok(()));
    assert_eq!(seq.pending(), Some(FleetStep::Init(1)));
    seq.report(Err(1));
    assert_eq!(seq.pending(), None);
    assert_eq!(seq.error(), Some(1));
}

#[test]
fn start_errors() {
    assert_eq!(VL53L0XSensor::start_continuous_measurement(false, true), Err(StartError::I2cError));
    assert_eq!(VL53L0XSensor::start_continuous_measurement(false, false), Err(StartError::I2cError));
    assert_eq!(VL53L0XSensor::start_continuous_measurement(true, false), Err(StartError::SpawnError));
    assert_eq!(VL53L0XSensor::start_continuous_measurement(true, true), Ok(()));
}

#[test]
fn status_codes() {
    assert_eq!(RangeStatus::from_code(0), RangeStatus::Valid);
    assert_eq!(RangeStatus::from_code(2), RangeStatus::SignalFail);
    assert_eq!(RangeStatus::from_code(1), RangeStatus::OtherFail);
    assert_eq!(RangeStatus::from_code(255), RangeStatus::OtherFail);
    assert!(RangeStatus::Valid.is_valid());
    assert!(!RangeStatus::SignalFail.is_valid());
}

#[test]
fn raw_results() {
    let m = VL53L1XSensor::measurement_from_raw(-12, 0x0002_8000, 0);
    assert_eq!(m.get_distance_mm(), -12);
    assert_eq!(m.get_sigma_mm_fixed(), 0x0002_8000);
    assert_eq!(m.get_sigma_mm_whole(), 2);
    assert_eq!(m.get_status(), RangeStatus::Valid);
    assert!(m.is_deliverable());
    let w = VL53L1XSensor::measurement_from_raw(i16::MAX, u32::MAX, 2);
    assert_eq!(w.distance_mm, 32767);
    assert_eq!(w.get_sigma_mm_whole(), 65535);
    assert!(!w.is_deliverable());
    let s = VL53L0XSensor::measurement_from_range(u16::MAX);
    assert_eq!(s, Measurement::new(65535, 0, RangeStatus::Valid));
    assert_eq!(Measurement::empty(), Measurement::new(0, 0, RangeStatus::OtherFail));
}

#[test]
fn short_range_sensor_records_reads() {
    let timing = TimingConfig::default();
    let mut seq = VL53L0XSensor::start_bring_up(&timing);
    while seq.pending().is_some() {
        seq.report(Ok(()));
    }
    let mut s = match VL53L0XSensor::init_new(timing, &seq) {
        Ok(s) => s,
        Err(e) => panic!("unexpected {:?}", e),
    };
    assert_eq!(s.timing().timing_budget_us, 66_000);
    assert!(!s.recovery_mode());
    assert_eq!(s.get_latest_measurement().distance_mm, 0);
    s.on_event(tof_sensors::recovery::Event::Done);
    let m = VL53L0XSensor::measurement_from_range(250);
    let a = s.on_event(tof_sensors::recovery::Event::Measured(m));
    assert_eq!(a, tof_sensors::recovery::Action::Deliver(m));
    assert_eq!(s.get_latest_measurement(), m);
    assert_eq!(s.next_action(), a);
}
