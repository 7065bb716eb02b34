use stage_control::control::{
    calibration_step, correct_speed, initialize_calibrate_parameters, initialize_run_parameters,
    is_in_range_not_inclusive, run_step, tolerance_band_check, vec_average, CalibrateParameters,
    ControlLoopState, ControlStep,
};
use stage_control::error::StageError;

/// A deterministic simulated device: the measured cycle time falls by
/// one millisecond for every pulse-per-second of commanded speed,
/// hitting the 3000 ms target exactly at speed 1500.
fn simulated_time(speed: u32) -> u64 {
    let t = 3000i64 + (1500i64 - speed as i64);
    if t < 1 {
        1
    } else {
        t as u64
    }
}

fn band_params() -> CalibrateParameters {
    let mut p = initialize_calibrate_parameters();
    p.period_ms = 3000;
    p.tolerance_milli = 990;
    p.factor_milli = 1000;
    p.max_speed = 5000;
    p.low_speed = 100;
    p.averaging_cycles = 3;
    p
}

#[test]
fn proportional_correction_matches_the_documented_example() {
    // current 1500, measured 3.2 s, target 3.0 s, cycle 1, factor 1.0:
    // 1500 + round((3.2 - 3.0) * 1.0 * 1000) = 1700.
    assert_eq!(correct_speed(1500, 3200, 3000, 1, 1000), 1700);
}

#[test]
fn proportional_correction_is_pure_and_signed() {
    assert_eq!(correct_speed(1500, 3200, 3000, 1, 1000), correct_speed(1500, 3200, 3000, 1, 1000));
    // A fast cycle lowers the speed.
    assert_eq!(correct_speed(1500, 2800, 3000, 1, 1000), 1300);
    // The factor scales the correction; halves round away from zero.
    assert_eq!(correct_speed(1500, 3001, 3000, 1, 500), 1501);
    // Cumulative schedule: cycle index multiplies the target.
    assert_eq!(correct_speed(2000, 6100, 3000, 2, 1000), 2100);
}

#[test]
fn tolerance_band_is_strict() {
    // period 3000, tolerance 0.990: band is (2970, 3030).
    assert!(!tolerance_band_check(2970, 3000, 990));
    assert!(tolerance_band_check(2971, 3000, 990));
    assert!(tolerance_band_check(3029, 3000, 990));
    assert!(!tolerance_band_check(3030, 3000, 990));
}

#[test]
fn calibration_converges_on_a_simulated_device() {
    let p = band_params();
    let mut speed: u32 = 1200;
    let mut converged = false;
    let mut iterations: u32 = 0;
    while iterations < 50 {
        let measured = simulated_time(speed);
        match calibration_step(&p, speed, measured) {
            ControlStep::Converged => {
                converged = true;
                break;
            }
            ControlStep::Adjust { new_speed } => speed = new_speed,
            ControlStep::OutOfBounds => panic!("the correction left the safety band"),
        }
        iterations += 1;
    }
    assert!(converged);
    // The next measured time at the converged speed lies in the band.
    assert!(tolerance_band_check(simulated_time(speed), p.period_ms, p.tolerance_milli));
}

#[test]
fn calibration_aborts_with_speed_bound_exceeded_when_no_speed_fits() {
    let mut p = band_params();
    // The in-band speeds lie near 1500; cap the band below them.
    p.max_speed = 1400;
    let mut speed: u32 = 1200;
    let mut outcome: Option<StageError> = None;
    let mut iterations: u32 = 0;
    while iterations < 50 {
        let measured = simulated_time(speed);
        match calibration_step(&p, speed, measured) {
            ControlStep::Converged => panic!("no in-band speed exists below the cap"),
            ControlStep::Adjust { new_speed } => speed = new_speed,
            ControlStep::OutOfBounds => {
                outcome = Some(StageError::SpeedBoundExceeded);
                break;
            }
        }
        iterations += 1;
    }
    assert_eq!(outcome, Some(StageError::SpeedBoundExceeded));
}

#[test]
fn run_step_corrects_against_the_cumulative_schedule() {
    let mut p = initialize_run_parameters();
    p.period_ms = 3000;
    p.factor_milli = 1000;
    p.max_speed = 5000;
    p.low_speed = 100;
    // After two cycles the run is 100 ms ahead of its 6000 ms schedule.
    let state = ControlLoopState { hspd: 1500, cycle: 2 };
    match run_step(&p, &state, 5900) {
        ControlStep::Adjust { new_speed } => assert_eq!(new_speed, 1400),
        _ => panic!("an in-band correction adjusts"),
    }
    // A run refuses a correction past its configured cap.
    p.max_speed = 1600;
    match run_step(&p, &state, 6500) {
        ControlStep::OutOfBounds => (),
        _ => panic!("a correction past the cap must abort"),
    }
}

#[test]
fn averaging_truncates_toward_zero() {
    let times: Vec<u64> = vec![3000, 3001, 3001];
    assert_eq!(vec_average(&times), 3000);
    let one: Vec<u64> = vec![42];
    assert_eq!(vec_average(&one), 42);
}

#[test]
fn strict_range_check_excludes_its_endpoints() {
    assert!(is_in_range_not_inclusive(100, 500, 1000));
    assert!(!is_in_range_not_inclusive(100, 100, 1000));
    assert!(!is_in_range_not_inclusive(100, 1000, 1000));
}
