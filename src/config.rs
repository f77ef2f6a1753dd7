use vstd::prelude::*;

verus! {

/// Timing of one ranging sensor in continuous mode.
pub struct TimingConfig {
    /// Measurement timing budget in microseconds (66000 gives about 15 Hz).
    pub timing_budget_us: u32,
    /// Inter-measurement period in milliseconds.
    pub inter_measurement_period_ms: u32,
}

/// Timing budget used when nothing else is configured, in microseconds.
pub const DEFAULT_TIMING_BUDGET_US: u32 = 66_000;

/// Inter-measurement period used when nothing else is configured, in milliseconds.
pub const DEFAULT_INTER_MEASUREMENT_PERIOD_MS: u32 = 69;

impl Default for TimingConfig {
    fn default() -> (r: Self)
        ensures
            r.timing_budget_us == DEFAULT_TIMING_BUDGET_US,
            r.inter_measurement_period_ms == DEFAULT_INTER_MEASUREMENT_PERIOD_MS,
    {
        TimingConfig {
            timing_budget_us: DEFAULT_TIMING_BUDGET_US,
            inter_measurement_period_ms: DEFAULT_INTER_MEASUREMENT_PERIOD_MS,
        }
    }
}

/// Configuration of a single long-range sensor driven on its own.
pub struct DistanceSensorConfig {
    /// Measurement timing budget in microseconds.
    pub timing_budget_us: u32,
    /// Inter-measurement period in milliseconds.
    pub inter_measurement_period_ms: u32,
}

impl Default for DistanceSensorConfig {
    fn default() -> (r: Self)
        ensures
            r.timing_budget_us == DEFAULT_TIMING_BUDGET_US,
            r.inter_measurement_period_ms == DEFAULT_INTER_MEASUREMENT_PERIOD_MS,
    {
        DistanceSensorConfig {
            timing_budget_us: DEFAULT_TIMING_BUDGET_US,
            inter_measurement_period_ms: DEFAULT_INTER_MEASUREMENT_PERIOD_MS,
        }
    }
}

impl DistanceSensorConfig {
    /// The same timing values in the form the sensor drivers take.
    pub fn timing(&self) -> (r: TimingConfig)
        ensures
            r.timing_budget_us == self.timing_budget_us,
            r.inter_measurement_period_ms == self.inter_measurement_period_ms,
    {
        TimingConfig {
            timing_budget_us: self.timing_budget_us,
            inter_measurement_period_ms: self.inter_measurement_period_ms,
        }
    }
}

} // verus!
