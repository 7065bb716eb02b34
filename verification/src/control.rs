//! The proportional control law and the calibration/run step logic.
//!
//! Everything here is a pure function of the measured cycle times and
//! the loaded parameters, so a simulated device can drive the whole
//! control law without hardware. Durations are integer milliseconds and
//! the dimensionless tolerance/factor values are carried in thousandths
//! (`1000` stands for `1.0`).
//!
//! Correction policy, chosen once for the whole crate: the error fed to
//! the proportional correction is `measured - period * cycle_index`.
//! The calibration loop measures one averaged cycle at a time and calls
//! it with `cycle_index == 1` (a per-cycle error); the run loop hands
//! it the cumulative elapsed time with the running cycle index, so the
//! error accumulates against the ideal cumulative schedule and long-run
//! phase drift cannot compound.

use vstd::prelude::*;

use crate::commands::set_high_speed;
use crate::driver::StageHandle;
use crate::error::StageError;

verus! {

/// Upper bound on any duration the control law accepts, in
/// milliseconds: about 31 years, far beyond any session.
pub const MAX_TIME_MS: u64 = 1_000_000_000_000;

/// Upper bound on the proportional factor, in thousandths: a gain of
/// one million.
pub const MAX_FACTOR_MILLI: u64 = 1_000_000_000;

// ---------------------------------------------------------------------
// Parameters and state
// ---------------------------------------------------------------------

/// Immutable-after-load configuration for a calibration session.
#[derive(Clone, Copy, Debug, PartialEq, Eq, Structural)]
pub struct CalibrateParameters {
    /// Starting high speed, as loaded; the loop never rewrites it.
    pub high_speed: u32,
    /// Low (base) speed; also the lower safety bound for corrections.
    pub low_speed: u32,
    /// Acceleration time sent to the device.
    pub acceleration_time: u32,
    /// Deceleration time sent to the device.
    pub deceleration_time: u32,
    /// Driver idle time sent to the device.
    pub idle_time: u32,
    /// How many cycles are averaged into one measurement.
    pub averaging_cycles: u32,
    /// Move amplitude in pulses.
    pub amplitude: i32,
    /// Target cycle period, in milliseconds.
    pub period_ms: u64,
    /// Dwell between direction reversals, in milliseconds.
    pub dwell_ms: u64,
    /// Proportional factor, in thousandths.
    pub factor_milli: u64,
    /// Upper safety bound for corrected speeds.
    pub max_speed: u32,
    /// Tolerance fraction, in thousandths; convergence demands a
    /// measured time strictly inside the band it spans around the
    /// period.
    pub tolerance_milli: u64,
}

impl CalibrateParameters {
    /// Bounds under which the control law cannot overflow and the band
    /// is meaningful.
    pub open spec fn wf(self) -> bool {
        &&& 0 < self.period_ms <= MAX_TIME_MS
        &&& self.dwell_ms <= MAX_TIME_MS
        &&& self.tolerance_milli <= 1000
        &&& self.factor_milli <= MAX_FACTOR_MILLI
        &&& self.low_speed <= self.max_speed
    }
}

/// Immutable-after-load configuration for a run session.
#[derive(Clone, Copy, Debug, PartialEq, Eq, Structural)]
pub struct RunParameters {
    /// Starting high speed, as loaded; the loop never rewrites it.
    pub high_speed: u32,
    /// Low (base) speed; also the lower safety bound for corrections.
    pub low_speed: u32,
    /// Acceleration time sent to the device.
    pub acceleration_time: u32,
    /// Deceleration time sent to the device.
    pub deceleration_time: u32,
    /// Driver idle time sent to the device.
    pub idle_time: u32,
    /// Move amplitude in pulses.
    pub amplitude: i32,
    /// Target cycle period, in milliseconds.
    pub period_ms: u64,
    /// Dwell between direction reversals, in milliseconds.
    pub dwell_ms: u64,
    /// Proportional factor, in thousandths.
    pub factor_milli: u64,
    /// Upper safety bound for corrected speeds.
    pub max_speed: u32,
    /// How many load cycles the run executes.
    pub load_cycles: u32,
    /// Park offset in pulses: the stage moves here before and after the
    /// load cycles.
    pub offset: i32,
    /// Pause before the run starts, in milliseconds.
    pub standby_ms: u64,
}

impl RunParameters {
    /// Bounds under which the control law cannot overflow.
    pub open spec fn wf(self) -> bool {
        &&& 0 < self.period_ms <= MAX_TIME_MS
        &&& self.dwell_ms <= MAX_TIME_MS
        &&& self.standby_ms <= MAX_TIME_MS
        &&& self.factor_milli <= MAX_FACTOR_MILLI
        &&& self.low_speed <= self.max_speed
    }
}

/// The only mutable long-lived state of a control loop besides the
/// device handle: the speed currently commanded and the index of the
/// cycle being run, both updated once per completed cycle.
#[derive(Clone, Copy, Debug, PartialEq, Eq, Structural)]
pub struct ControlLoopState {
    /// High speed currently commanded to the device.
    pub hspd: u32,
    /// One-based index of the current cycle.
    pub cycle: u32,
}

/// Calibration defaults, used for any key the input file does not set.
pub open spec fn default_calibrate_parameters() -> CalibrateParameters {
    CalibrateParameters {
        high_speed: 1500,
        low_speed: 100,
        acceleration_time: 1,
        deceleration_time: 1,
        idle_time: 1,
        averaging_cycles: 3,
        amplitude: 100,
        period_ms: 3000,
        dwell_ms: 500,
        factor_milli: 1000,
        max_speed: 1000000,
        tolerance_milli: 997,
    }
}

/// Calibration defaults, used for any key the input file does not set.
pub fn initialize_calibrate_parameters() -> (r: CalibrateParameters)
    ensures
        r == default_calibrate_parameters(),
        r.wf(),
{
    CalibrateParameters {
        high_speed: 1500,
        low_speed: 100,
        acceleration_time: 1,
        deceleration_time: 1,
        idle_time: 1,
        averaging_cycles: 3,
        amplitude: 100,
        period_ms: 3000,
        dwell_ms: 500,
        factor_milli: 1000,
        max_speed: 1000000,
        tolerance_milli: 997,
    }
}

/// Run defaults, used for any key the input file does not set. The
/// speed band is wide open by default: the run constrains speed only
/// where the operator configured bounds.
pub open spec fn default_run_parameters() -> RunParameters {
    RunParameters {
        high_speed: 0,
        low_speed: 0,
        acceleration_time: 0,
        deceleration_time: 0,
        idle_time: 0,
        amplitude: 0,
        period_ms: 3000,
        dwell_ms: 0,
        factor_milli: 2000,
        max_speed: 0xffff_ffff,
        load_cycles: 0,
        offset: 0,
        standby_ms: 0,
    }
}

/// Run defaults, used for any key the input file does not set.
pub fn initialize_run_parameters() -> (r: RunParameters)
    ensures
        r == default_run_parameters(),
        r.wf(),
{
    RunParameters {
        high_speed: 0,
        low_speed: 0,
        acceleration_time: 0,
        deceleration_time: 0,
        idle_time: 0,
        amplitude: 0,
        period_ms: 3000,
        dwell_ms: 0,
        factor_milli: 2000,
        max_speed: 0xffff_ffff,
        load_cycles: 0,
        offset: 0,
        standby_ms: 0,
    }
}

// ---------------------------------------------------------------------
// The proportional correction
// ---------------------------------------------------------------------

/// Division rounding to the nearest integer, ties away from zero.
pub open spec fn round_half_up_div(n: int, d: int) -> int
    recommends
        d > 0,
{
    if n >= 0 {
        (n + d / 2) / d
    } else {
        -((-n + d / 2) / d)
    }
}

/// The proportional control law: the new speed is the current speed
/// plus `round(error_seconds * factor * 1000)` pulses per second. In
/// millisecond/thousandth units that correction is
/// `(measured_ms - period_ms * cycle_index) * factor_milli / 1000`,
/// rounded to the nearest pulse.
pub open spec fn corrected_speed(
    current_speed: int,
    measured_ms: int,
    period_ms: int,
    cycle_index: int,
    factor_milli: int,
) -> int {
    current_speed + round_half_up_div((measured_ms - period_ms * cycle_index) * factor_milli, 1000)
}

/// Compute the corrected speed. A pure function of its five arguments
/// and nothing else; the result is exact over unbounded integers, so a
/// later safety check can refuse it before anything reaches the device.
pub fn correct_speed(
    current_speed: u32,
    measured_ms: u64,
    period_ms: u64,
    cycle_index: u32,
    factor_milli: u64,
) -> (r: i128)
    requires
        measured_ms <= MAX_TIME_MS,
        period_ms <= MAX_TIME_MS,
        factor_milli <= MAX_FACTOR_MILLI,
    ensures
        r == corrected_speed(
            current_speed as int,
            measured_ms as int,
            period_ms as int,
            cycle_index as int,
            factor_milli as int,
        ),
{
    proof {
        assert(period_ms as int * cycle_index as int <= MAX_TIME_MS as int * u32::MAX as int)
            by (nonlinear_arith)
            requires
                period_ms <= MAX_TIME_MS,
                cycle_index <= u32::MAX,
        ;
        assert(period_ms as int * cycle_index as int >= 0) by (nonlinear_arith)
            requires
                period_ms >= 0,
                cycle_index >= 0,
        ;
    }
    let schedule: i128 = (period_ms as i128) * (cycle_index as i128);
    let delta: i128 = (measured_ms as i128) - schedule;
    proof {
        let bound: int = MAX_TIME_MS as int * u32::MAX as int + MAX_TIME_MS as int;
        assert(-bound <= delta as int <= bound);
        assert(delta as int * factor_milli as int <= bound * MAX_FACTOR_MILLI as int
            && delta as int * factor_milli as int >= -(bound * MAX_FACTOR_MILLI as int))
            by (nonlinear_arith)
            requires
                -bound <= delta as int <= bound,
                0 <= factor_milli as int <= MAX_FACTOR_MILLI as int,
                bound > 0,
        ;
    }
    let numerator: i128 = delta * (factor_milli as i128);
    let correction: i128 = if numerator >= 0 {
        (numerator + 500) / 1000
    } else {
        -((-numerator + 500) / 1000)
    };
    (current_speed as i128) + correction
}

// ---------------------------------------------------------------------
// The tolerance band
// ---------------------------------------------------------------------

/// Whether a measured time lies strictly inside the convergence band
/// `(period * tolerance, period * (2 - tolerance))`, with the tolerance
/// a fraction in thousandths. Stated over exact integer products: no
/// rounding is involved.
pub open spec fn in_tolerance_band(measured_ms: int, period_ms: int, tolerance_milli: int) -> bool {
    &&& period_ms * tolerance_milli < measured_ms * 1000
    &&& measured_ms * 1000 < period_ms * (2000 - tolerance_milli)
}

/// Decide whether a measured time lies strictly inside the band.
pub fn tolerance_band_check(measured_ms: u64, period_ms: u64, tolerance_milli: u64) -> (r: bool)
    requires
        tolerance_milli <= 1000,
    ensures
        r == in_tolerance_band(measured_ms as int, period_ms as int, tolerance_milli as int),
{
    proof {
        assert(period_ms as int * tolerance_milli as int <= u64::MAX as int * 1000
            && period_ms as int * (2000 - tolerance_milli as int) <= u64::MAX as int * 2000
            && measured_ms as int * 1000 <= u64::MAX as int * 1000) by (nonlinear_arith)
            requires
                period_ms <= u64::MAX,
                measured_ms <= u64::MAX,
                tolerance_milli <= 1000,
        ;
    }
    let low: u128 = (period_ms as u128) * (tolerance_milli as u128);
    let high: u128 = (period_ms as u128) * ((2000 - tolerance_milli) as u128);
    let scaled: u128 = (measured_ms as u128) * 1000;
    low < scaled && scaled < high
}

// ---------------------------------------------------------------------
// Step decisions
// ---------------------------------------------------------------------

/// What a control loop does after one measured cycle.
#[derive(Clone, Copy, Debug, PartialEq, Eq, Structural)]
pub enum ControlStep {
    /// The measured time lies inside the tolerance band: calibration is
    /// done and the current speed stands.
    Converged,
    /// Command the contained speed and keep looping.
    Adjust {
        /// The corrected speed, already inside the safety band.
        new_speed: u32,
    },
    /// The corrected speed left the safety band: the loop must abort
    /// without commanding the device further.
    OutOfBounds,
}

/// The calibration decision: converged when the measured (averaged)
/// cycle time lies in the band; otherwise correct with a per-cycle
/// error (`cycle_index == 1`) and refuse a speed outside
/// `[low_speed, max_speed]`.
pub open spec fn spec_calibration_step(
    p: CalibrateParameters,
    hspd: int,
    measured_ms: int,
) -> ControlStep {
    if in_tolerance_band(measured_ms, p.period_ms as int, p.tolerance_milli as int) {
        ControlStep::Converged
    } else {
        let c = corrected_speed(hspd, measured_ms, p.period_ms as int, 1, p.factor_milli as int);
        if p.low_speed as int <= c <= p.max_speed as int {
            ControlStep::Adjust { new_speed: c as u32 }
        } else {
            ControlStep::OutOfBounds
        }
    }
}

/// Decide one calibration step from the averaged cycle time.
pub fn calibration_step(params: &CalibrateParameters, hspd: u32, measured_ms: u64) -> (r:
    ControlStep)
    requires
        params.wf(),
        measured_ms <= MAX_TIME_MS,
    ensures
        r == spec_calibration_step(*params, hspd as int, measured_ms as int),
{
    if tolerance_band_check(measured_ms, params.period_ms, params.tolerance_milli) {
        ControlStep::Converged
    } else {
        let c = correct_speed(hspd, measured_ms, params.period_ms, 1, params.factor_milli);
        if (params.low_speed as i128) <= c && c <= (params.max_speed as i128) {
            ControlStep::Adjust { new_speed: c as u32 }
        } else {
            ControlStep::OutOfBounds
        }
    }
}

/// The run decision: correct against the cumulative schedule (elapsed
/// time versus `period * cycle`) and refuse a speed outside
/// `[low_speed, max_speed]`; a run never converges, it only finishes
/// its configured cycles.
pub open spec fn spec_run_step(p: RunParameters, state: ControlLoopState, elapsed_ms: int) -> ControlStep {
    let c = corrected_speed(
        state.hspd as int,
        elapsed_ms,
        p.period_ms as int,
        state.cycle as int,
        p.factor_milli as int,
    );
    if p.low_speed as int <= c <= p.max_speed as int {
        ControlStep::Adjust { new_speed: c as u32 }
    } else {
        ControlStep::OutOfBounds
    }
}

/// Decide one run step from the cumulative elapsed time.
pub fn run_step(params: &RunParameters, state: &ControlLoopState, elapsed_ms: u64) -> (r:
    ControlStep)
    requires
        params.wf(),
        elapsed_ms <= MAX_TIME_MS,
    ensures
        r == spec_run_step(*params, *state, elapsed_ms as int),
{
    let c = correct_speed(state.hspd, elapsed_ms, params.period_ms, state.cycle, params.factor_milli);
    if (params.low_speed as i128) <= c && c <= (params.max_speed as i128) {
        ControlStep::Adjust { new_speed: c as u32 }
    } else {
        ControlStep::OutOfBounds
    }
}

/// The calibration loop never asks the device to leave the operator's
/// safety band: whenever a step adjusts, the commanded speed lies
/// between the configured low speed and maximum.
pub proof fn lemma_calibration_adjust_in_band(p: CalibrateParameters, hspd: int, measured_ms: int)
    ensures
        forall|v: u32|
            spec_calibration_step(p, hspd, measured_ms) == (ControlStep::Adjust {
                new_speed: v,
            }) ==> p.low_speed <= v <= p.max_speed,
{
}

/// The run loop never asks the device to leave the operator's safety
/// band either.
pub proof fn lemma_run_adjust_in_band(p: RunParameters, state: ControlLoopState, elapsed_ms: int)
    ensures
        forall|v: u32|
            spec_run_step(p, state, elapsed_ms) == (ControlStep::Adjust { new_speed: v })
                ==> p.low_speed <= v <= p.max_speed,
{
}

// ---------------------------------------------------------------------
// Applying a step to the device
// ---------------------------------------------------------------------

/// Decide one calibration step and, when it calls for a correction,
/// command the new speed. `Ok(None)` reports convergence (nothing is
/// sent); `Ok(Some(v))` reports that `v` was commanded; a step outside
/// the safety band aborts with `SpeedBoundExceeded` before anything
/// reaches the device.
pub fn apply_calibration_step(
    handle: &StageHandle,
    params: &CalibrateParameters,
    hspd: u32,
    measured_ms: u64,
) -> (r: Result<Option<u32>, StageError>)
    requires
        handle.is_open(),
        params.wf(),
        measured_ms <= MAX_TIME_MS,
    ensures
        ({
            let step = spec_calibration_step(*params, hspd as int, measured_ms as int);
            &&& match r {
                Ok(Some(v)) => step == (ControlStep::Adjust { new_speed: v }),
                Ok(None) => step == ControlStep::Converged,
                Err(e) => (e == StageError::SpeedBoundExceeded) == (step
                    == ControlStep::OutOfBounds),
            }
            &&& step == ControlStep::OutOfBounds ==> (r matches Err(e) && e
                == StageError::SpeedBoundExceeded)
        }),
{
    match calibration_step(params, hspd, measured_ms) {
        ControlStep::Converged => Ok(None),
        ControlStep::Adjust { new_speed } => {
            match set_high_speed(handle, new_speed) {
                Ok(()) => Ok(Some(new_speed)),
                Err(e) => Err(e),
            }
        },
        ControlStep::OutOfBounds => Err(StageError::SpeedBoundExceeded),
    }
}

/// Decide one run step and, when it stays in the safety band, command
/// the new speed. `Ok` carries the state for the next cycle: the
/// commanded speed and the incremented cycle index. A step outside the
/// safety band aborts with `SpeedBoundExceeded` before anything
/// reaches the device.
pub fn apply_run_step(
    handle: &StageHandle,
    params: &RunParameters,
    state: &ControlLoopState,
    elapsed_ms: u64,
) -> (r: Result<ControlLoopState, StageError>)
    requires
        handle.is_open(),
        params.wf(),
        elapsed_ms <= MAX_TIME_MS,
        state.cycle < u32::MAX,
    ensures
        ({
            let step = spec_run_step(*params, *state, elapsed_ms as int);
            &&& match r {
                Ok(next) => step == (ControlStep::Adjust { new_speed: next.hspd }) && next.cycle
                    == state.cycle + 1,
                Err(e) => (e == StageError::SpeedBoundExceeded) == (step
                    == ControlStep::OutOfBounds),
            }
            &&& step == ControlStep::OutOfBounds ==> (r matches Err(e) && e
                == StageError::SpeedBoundExceeded)
        }),
{
    match run_step(params, state, elapsed_ms) {
        ControlStep::Adjust { new_speed } => {
            match set_high_speed(handle, new_speed) {
                Ok(()) => Ok(ControlLoopState { hspd: new_speed, cycle: state.cycle + 1 }),
                Err(e) => Err(e),
            }
        },
        ControlStep::Converged => Err(StageError::SpeedBoundExceeded),
        ControlStep::OutOfBounds => Err(StageError::SpeedBoundExceeded),
    }
}

// ---------------------------------------------------------------------
// Averaging
// ---------------------------------------------------------------------

/// Sum of a sequence of durations.
pub open spec fn sum_of(s: Seq<u64>) -> int
    decreases s.len(),
{
    if s.len() == 0 {
        0
    } else {
        sum_of(s.drop_last()) + s.last()
    }
}

/// Truncating average of a non-empty vector of durations.
pub fn vec_average(times: &Vec<u64>) -> (r: u64)
    requires
        times@.len() > 0,
        forall|i: int| 0 <= i < times@.len() ==> times@[i] <= MAX_TIME_MS,
    ensures
        r as int == sum_of(times@) / times@.len() as int,
        r <= MAX_TIME_MS,
{
    let mut sum: u128 = 0;
    let mut i: usize = 0;
    proof {
        lemma_sum_of_bounds(times@, times@.len() as int);
    }
    while i < times.len()
        invariant
            0 <= i <= times@.len(),
            forall|j: int| 0 <= j < times@.len() ==> times@[j] <= MAX_TIME_MS,
            sum as int == sum_of(times@.take(i as int)),
            sum as int <= i as int * MAX_TIME_MS as int,
        decreases times@.len() - i,
    {
        proof {
            assert(times@.take(i + 1).drop_last() =~= times@.take(i as int));
            assert(times@.take(i + 1).last() == times@[i as int]);
            assert((i + 1) as int * MAX_TIME_MS as int == i as int * MAX_TIME_MS as int
                + MAX_TIME_MS as int) by (nonlinear_arith);
            assert(i as int * MAX_TIME_MS as int <= usize::MAX as int * MAX_TIME_MS as int)
                by (nonlinear_arith)
                requires
                    0 <= i as int <= usize::MAX as int,
                    MAX_TIME_MS > 0,
            ;
        }
        sum = sum + (times[i] as u128);
        i = i + 1;
    }
    proof {
        assert(times@.take(times@.len() as int) =~= times@);
        lemma_sum_of_div_bound(times@);
    }
    let avg: u128 = sum / (times.len() as u128);
    avg as u64
}

/// The sum of `i` durations bounded by `MAX_TIME_MS` is at most
/// `i * MAX_TIME_MS`.
proof fn lemma_sum_of_bounds(s: Seq<u64>, i: int)
    requires
        0 <= i <= s.len(),
        forall|j: int| 0 <= j < s.len() ==> s[j] <= MAX_TIME_MS,
    ensures
        0 <= sum_of(s.take(i)) <= i * MAX_TIME_MS,
    decreases i,
{
    if i == 0 {
        assert(s.take(0) =~= Seq::<u64>::empty());
    } else {
        lemma_sum_of_bounds(s, i - 1);
        assert(s.take(i).drop_last() =~= s.take(i - 1));
        assert(s.take(i).last() == s[i - 1]);
        assert(i * MAX_TIME_MS == (i - 1) * MAX_TIME_MS + MAX_TIME_MS) by (nonlinear_arith);
    }
}

/// The average of durations bounded by `MAX_TIME_MS` is itself bounded.
proof fn lemma_sum_of_div_bound(s: Seq<u64>)
    requires
        s.len() > 0,
        forall|j: int| 0 <= j < s.len() ==> s[j] <= MAX_TIME_MS,
    ensures
        0 <= sum_of(s) / s.len() as int <= MAX_TIME_MS,
{
    assert(s.take(s.len() as int) =~= s);
    lemma_sum_of_bounds(s, s.len() as int);
    let n = s.len() as int;
    assert(sum_of(s) / n <= MAX_TIME_MS) by (nonlinear_arith)
        requires
            n > 0,
            0 <= sum_of(s) <= n * MAX_TIME_MS,
    ;
    assert(sum_of(s) / n >= 0) by (nonlinear_arith)
        requires
            n > 0,
            sum_of(s) >= 0,
    ;
}

/// Whether `value` lies strictly between `low` and `high`.
pub fn is_in_range_not_inclusive(low: i64, value: i64, high: i64) -> (r: bool)
    ensures
        r == (low < value && value < high),
{
    low < value && value < high
}

} // verus!
