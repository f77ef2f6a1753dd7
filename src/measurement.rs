use vstd::prelude::*;

verus! {

/// Data-quality flag of one ranging result.
#[derive(Clone, Copy, Debug, PartialEq, Eq, Structural)]
pub enum RangeStatus {
    Valid,
    SignalFail,
    OtherFail,
}

/// Device status code of a valid range.
pub const RANGE_VALID_CODE: u8 = 0;

/// Device status code of a range whose return signal was too weak.
pub const SIGNAL_FAIL_CODE: u8 = 2;

/// The quality flag that a device status code stands for. Only the plain
/// "range valid" code counts as valid. The device's qualified valid codes
/// (minimum range clipped, no wrap check, merged pulse) count as other
/// failures, so their results are recorded but never delivered.
pub open spec fn status_of_code(code: u8) -> RangeStatus {
    if code == RANGE_VALID_CODE {
        RangeStatus::Valid
    } else if code == SIGNAL_FAIL_CODE {
        RangeStatus::SignalFail
    } else {
        RangeStatus::OtherFail
    }
}

impl RangeStatus {
    /// Classifies the status code that the long-range device reports.
    pub fn from_code(code: u8) -> (r: RangeStatus)
        ensures
            r == status_of_code(code),
    {
        if code == RANGE_VALID_CODE {
            RangeStatus::Valid
        } else if code == SIGNAL_FAIL_CODE {
            RangeStatus::SignalFail
        } else {
            RangeStatus::OtherFail
        }
    }

    pub fn is_valid(&self) -> (r: bool)
        ensures
            r <==> *self == RangeStatus::Valid,
    {
        match self {
            RangeStatus::Valid => true,
            _ => false,
        }
    }
}

/// One ranging result. The standard deviation is kept as the device gives
/// it: millimetres in 16.16 fixed point.
#[derive(Clone, Copy, Debug, PartialEq, Eq, Structural)]
pub struct Measurement {
    pub distance_mm: i32,
    pub sigma_mm_fixed: u32,
    pub status: RangeStatus,
}

impl Measurement {
    pub fn new(distance_mm: i32, sigma_mm_fixed: u32, status: RangeStatus) -> (r: Measurement)
        ensures
            r.distance_mm == distance_mm,
            r.sigma_mm_fixed == sigma_mm_fixed,
            r.status == status,
    {
        Measurement { distance_mm, sigma_mm_fixed, status }
    }

    /// Builds a result from the device's raw fields, status given as its code.
    pub fn from_raw(distance_mm: i32, sigma_mm_fixed: u32, status_code: u8) -> (r: Measurement)
        ensures
            r.distance_mm == distance_mm,
            r.sigma_mm_fixed == sigma_mm_fixed,
            r.status == status_of_code(status_code),
    {
        Measurement { distance_mm, sigma_mm_fixed, status: RangeStatus::from_code(status_code) }
    }

    /// The record held before any result has been read.
    pub fn empty() -> (r: Measurement)
        ensures
            r == Measurement::empty_spec(),
    {
        Measurement { distance_mm: 0, sigma_mm_fixed: 0, status: RangeStatus::OtherFail }
    }

    pub open spec fn empty_spec() -> Measurement {
        Measurement { distance_mm: 0, sigma_mm_fixed: 0, status: RangeStatus::OtherFail }
    }

    pub fn get_distance_mm(&self) -> (r: i32)
        ensures
            r == self.distance_mm,
    {
        self.distance_mm
    }

    /// Standard deviation in millimetres, 16.16 fixed point.
    pub fn get_sigma_mm_fixed(&self) -> (r: u32)
        ensures
            r == self.sigma_mm_fixed,
    {
        self.sigma_mm_fixed
    }

    /// Whole millimetres of the standard deviation, rounded down.
    pub fn get_sigma_mm_whole(&self) -> (r: u32)
        ensures
            r == self.sigma_mm_fixed / 65536,
    {
        self.sigma_mm_fixed / 65536
    }

    pub fn get_status(&self) -> (r: RangeStatus)
        ensures
            r == self.status,
    {
        self.status
    }

    /// Whether this result may be handed to the user callback.
    pub fn is_deliverable(&self) -> (r: bool)
        ensures
            r <==> self.status == RangeStatus::Valid,
    {
        self.status.is_valid()
    }
}

} // verus!
