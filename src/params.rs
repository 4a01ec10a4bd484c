use vstd::prelude::*;

verus! {

/// Why a gain range cannot be built.
#[derive(Clone, Copy, Debug, PartialEq, Eq, Structural)]
pub enum RangeError {
    /// The lower bound is not strictly below the upper bound.
    InvalidRange,
}

/// A gain range given by its bounds in whole decibels. Bounds in decibels always
/// stand for strictly positive amplitudes, so only their order can be wrong.
#[derive(Clone, Copy, Debug, PartialEq, Eq, Structural)]
pub struct GainRange {
    min_db: i32,
    max_db: i32,
}

impl GainRange {
    pub open spec fn wf(&self) -> bool {
        self.spec_min_db() < self.spec_max_db()
    }

    pub closed spec fn spec_min_db(&self) -> int {
        self.min_db as int
    }

    pub closed spec fn spec_max_db(&self) -> int {
        self.max_db as int
    }

    /// Builds the range from its bounds; fails exactly when `min_db >= max_db`.
    pub fn new(min_db: i32, max_db: i32) -> (r: Result<GainRange, RangeError>)
        ensures
            min_db < max_db <==> r is Ok,
            r is Ok ==> r->Ok_0.wf() && r->Ok_0.spec_min_db() == min_db && r->Ok_0.spec_max_db()
                == max_db,
            r is Err ==> r->Err_0 == RangeError::InvalidRange,
    {
        if min_db < max_db {
            Ok(GainRange { min_db, max_db })
        } else {
            Err(RangeError::InvalidRange)
        }
    }

    pub fn min_db(&self) -> (r: i32)
        ensures
            r == self.spec_min_db(),
    {
        self.min_db
    }

    pub fn max_db(&self) -> (r: i32)
        ensures
            r == self.spec_max_db(),
    {
        self.max_db
    }

    /// Whether `db` lies within the range, bounds included.
    pub fn contains_db(&self, db: i32) -> (r: bool)
        ensures
            r == (self.spec_min_db() <= db <= self.spec_max_db()),
    {
        self.min_db <= db && db <= self.max_db
    }
}

/// The span, in decibels, that the gain control reaches below and above 0 dB.
pub const GAIN_SPAN_DB: u16 = 30;

/// The time constant of the gain smoother, in milliseconds.
pub const GAIN_SMOOTHING_MS: u32 = 50;

/// Decimal places of the gain when it is shown in decibels.
pub const GAIN_DISPLAY_DECIMALS: u32 = 2;

/// How a parameter's smoother moves from its current value to a new target.
#[derive(Clone, Copy, Debug, PartialEq, Eq, Structural)]
pub enum SmoothingLaw {
    /// The new value is taken at once.
    Immediate,
    /// Equal steps per sample.
    Linear,
    /// A one-pole exponential approach.
    Exponential,
    /// Equal ratios per sample, so equal steps in decibels.
    Logarithmic,
}

/// The device's parameter set: one gain control, described by plain values. The
/// conversion of decibels to amplitudes happens where the samples are handled.
#[derive(Clone, Copy, Debug, PartialEq, Eq)]
pub struct AudioPluginParams {
    /// The key by which host automation addresses the control; it never changes.
    pub gain_id: &'static str,
    /// The label shown to the user.
    pub gain_name: &'static str,
    /// Appended to the value when it is shown.
    pub gain_unit: &'static str,
    pub gain_range: GainRange,
    pub default_gain_db: i32,
    pub smoothing_law: SmoothingLaw,
    pub smoothing_time_ms: u32,
    /// Decimal places of the decibel value when it is shown.
    pub display_decimals: u32,
}

impl AudioPluginParams {
    /// The default lies within the range and the range is well formed.
    pub open spec fn wf(&self) -> bool {
        self.gain_range.wf() && self.gain_range.spec_min_db() <= self.default_gain_db
            <= self.gain_range.spec_max_db()
    }
}

impl Default for AudioPluginParams {
    /// The control "gain", shown as "Gain" in " dB" with two decimals: ±30 dB around a
    /// 0 dB default, smoothed logarithmically over 50 ms.
    fn default() -> (r: AudioPluginParams)
        ensures
            r.wf(),
            r.gain_id@ == "gain"@,
            r.gain_name@ == "Gain"@,
            r.gain_unit@ == " dB"@,
            r.gain_range.spec_min_db() == -30,
            r.gain_range.spec_max_db() == 30,
            r.default_gain_db == 0,
            r.smoothing_law == SmoothingLaw::Logarithmic,
            r.smoothing_time_ms == 50,
            r.display_decimals == 2,
    {
        let span = GAIN_SPAN_DB as i32;
        let gain_range = GainRange { min_db: -span, max_db: span };
        AudioPluginParams {
            gain_id: "gain",
            gain_name: "Gain",
            gain_unit: " dB",
            gain_range,
            default_gain_db: 0,
            smoothing_law: SmoothingLaw::Logarithmic,
            smoothing_time_ms: GAIN_SMOOTHING_MS,
            display_decimals: GAIN_DISPLAY_DECIMALS,
        }
    }
}

} // verus!
