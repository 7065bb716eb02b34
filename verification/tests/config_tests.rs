use stage_control::config::{
    classify_key, format_milli, line_tokens, lines_of, parse_calibrate_parameters, parse_milli,
    parse_run_parameters, render_run_file, ConfigError, ConfigKey,
};
use stage_control::codec::parse_u32;
use stage_control::control::{
    calibration_step, initialize_calibrate_parameters, tolerance_band_check, vec_average,
    ControlStep,
};

fn simulated_time(speed: u32) -> u64 {
    let t = 3000i64 + (1500i64 - speed as i64);
    if t < 1 {
        1
    } else {
        t as u64
    }
}

#[test]
fn thousandths_parse_exactly() {
    assert_eq!(parse_milli(&b"3.0".to_vec()), Some(3000));
    assert_eq!(parse_milli(&b"3".to_vec()), Some(3000));
    assert_eq!(parse_milli(&b"0.997".to_vec()), Some(997));
    assert_eq!(parse_milli(&b"0.5".to_vec()), Some(500));
    assert_eq!(parse_milli(&b"1.2345".to_vec()), Some(1234));
    assert_eq!(parse_milli(&b"0.99".to_vec()), Some(990));
    assert_eq!(parse_milli(&b"".to_vec()), None);
    assert_eq!(parse_milli(&b".".to_vec()), None);
    assert_eq!(parse_milli(&b"3.".to_vec()), None);
    assert_eq!(parse_milli(&b"a".to_vec()), None);
    assert_eq!(parse_milli(&b"-1".to_vec()), None);
}

#[test]
fn thousandths_render_minimally() {
    assert_eq!(format_milli(3000), b"3".to_vec());
    assert_eq!(format_milli(3500), b"3.5".to_vec());
    assert_eq!(format_milli(997), b"0.997".to_vec());
    assert_eq!(format_milli(120), b"0.12".to_vec());
    assert_eq!(format_milli(7), b"0.007".to_vec());
    // Rendering and parsing are inverse.
    assert_eq!(parse_milli(&format_milli(997)), Some(997));
    assert_eq!(parse_milli(&format_milli(3500)), Some(3500));
}

#[test]
fn lines_and_tokens_split_as_documented() {
    let text = b"HighSpeed 1500\n# comment\n\nPeriod 3.0".to_vec();
    let lines = lines_of(&text);
    assert_eq!(lines.len(), 4);
    let (k, v) = line_tokens(&lines[0]);
    assert_eq!(k, b"HighSpeed".to_vec());
    assert_eq!(v, b"1500".to_vec());
    let (blank_k, blank_v) = line_tokens(&lines[2]);
    assert!(blank_k.is_empty());
    assert!(blank_v.is_empty());
}

#[test]
fn keys_match_case_insensitively() {
    assert_eq!(classify_key(&b"HIGHSPEED".to_vec()), ConfigKey::HighSpeed);
    assert_eq!(classify_key(&b"highspeed".to_vec()), ConfigKey::HighSpeed);
    assert_eq!(classify_key(&b"DwellTime".to_vec()), ConfigKey::DwellTime);
    assert_eq!(classify_key(&b"StandbyDuration".to_vec()), ConfigKey::StandbyDuration);
    assert_eq!(classify_key(&b"mystery".to_vec()), ConfigKey::Unknown);
}

#[test]
fn calibration_file_overrides_defaults_and_reports_unknown_keys() {
    let text = b"# stage calibration\nHighSpeed 1200\nlowspeed 150\nPeriod 3.0\nTolerance 0.99\nFactor 1.0\nMaxSpeed 5000\nAveragingCycles 3\nAmplitude -250\nDwellTime 0.5\nMystery 7\n\n".to_vec();
    let lines = lines_of(&text);
    let (p, unknown) = parse_calibrate_parameters(&lines).unwrap();
    assert_eq!(p.high_speed, 1200);
    assert_eq!(p.low_speed, 150);
    assert_eq!(p.period_ms, 3000);
    assert_eq!(p.tolerance_milli, 990);
    assert_eq!(p.factor_milli, 1000);
    assert_eq!(p.max_speed, 5000);
    assert_eq!(p.averaging_cycles, 3);
    assert_eq!(p.amplitude, -250);
    assert_eq!(p.dwell_ms, 500);
    // Defaults survive for keys the file does not set.
    assert_eq!(p.acceleration_time, 1);
    // The unknown key is reported by line index.
    assert_eq!(unknown, vec![10]);
}

#[test]
fn malformed_value_names_its_line() {
    let text = b"HighSpeed 1200\nPeriod fast\n".to_vec();
    let lines = lines_of(&text);
    match parse_calibrate_parameters(&lines) {
        Err(ConfigError::Malformed { line }) => assert_eq!(line, 1),
        other => panic!("a bad value must refuse the file, got {:?}", other),
    }
}

#[test]
fn missing_value_refuses_the_file() {
    let text = b"HighSpeed\n".to_vec();
    let lines = lines_of(&text);
    match parse_calibrate_parameters(&lines) {
        Err(ConfigError::Malformed { line }) => assert_eq!(line, 0),
        other => panic!("a missing value must refuse the file, got {:?}", other),
    }
}

#[test]
fn out_of_range_parameters_refuse_the_file() {
    let text = b"Tolerance 1.5\n".to_vec();
    let lines = lines_of(&text);
    match parse_calibrate_parameters(&lines) {
        Err(ConfigError::OutOfRange) => (),
        other => panic!("a tolerance above one is refused, got {:?}", other),
    }
}

#[test]
fn run_file_knows_its_own_keys() {
    let text = b"HighSpeed 1500\nLoadCycles 20\nOffset -100\nStandbyDuration 2.5\nPeriod 3.0\nTolerance 0.99\n".to_vec();
    let lines = lines_of(&text);
    let (p, unknown) = parse_run_parameters(&lines).unwrap();
    assert_eq!(p.high_speed, 1500);
    assert_eq!(p.load_cycles, 20);
    assert_eq!(p.offset, -100);
    assert_eq!(p.standby_ms, 2500);
    assert_eq!(p.period_ms, 3000);
    // Tolerance belongs to calibration: reported, not stored.
    assert_eq!(unknown, vec![5]);
}

#[test]
fn rendered_run_file_lists_the_calibrated_parameters() {
    let mut p = initialize_calibrate_parameters();
    p.low_speed = 150;
    p.period_ms = 3000;
    p.dwell_ms = 500;
    p.amplitude = -250;
    let file = render_run_file(&p, 1750, 2995);
    let text = String::from_utf8(file.clone()).unwrap();
    assert!(text.starts_with("HighSpeed 1750\nLowSpeed 150\n"));
    assert!(text.contains("\nPeriod 3\n"));
    assert!(text.contains("\nDwellTime 0.5\n"));
    assert!(text.contains("\nAmplitude -250\n"));
    assert!(text.contains("# Final period: 2.995\n"));
}

#[test]
fn end_to_end_calibration_yields_a_reusable_high_speed() {
    let mut p = initialize_calibrate_parameters();
    p.period_ms = 3000;
    p.tolerance_milli = 990;
    p.factor_milli = 1000;
    p.max_speed = 5000;
    p.averaging_cycles = 3;
    p.low_speed = 100;
    let mut speed: u32 = 1200;
    let mut measured: u64 = 0;
    let mut converged = false;
    let mut iterations: u32 = 0;
    while iterations < 100 {
        let times: Vec<u64> = vec![
            simulated_time(speed),
            simulated_time(speed),
            simulated_time(speed),
        ];
        measured = vec_average(&times);
        match calibration_step(&p, speed, measured) {
            ControlStep::Converged => {
                converged = true;
                break;
            }
            ControlStep::Adjust { new_speed } => speed = new_speed,
            ControlStep::OutOfBounds => panic!("the correction left the safety band"),
        }
        iterations += 1;
    }
    assert!(converged);
    // The emitted file holds a HighSpeed line whose value, fed back as
    // the simulated device's speed, reproduces an in-band time.
    let file = render_run_file(&p, speed, measured);
    let lines = lines_of(&file);
    let mut reloaded: Option<u32> = None;
    for line in &lines {
        let (k, v) = line_tokens(line);
        if k == b"HighSpeed".to_vec() {
            reloaded = parse_u32(&v);
        }
    }
    let reloaded = reloaded.expect("the run file must hold a HighSpeed line");
    assert_eq!(reloaded, speed);
    assert!(tolerance_band_check(simulated_time(reloaded), p.period_ms, p.tolerance_milli));
}
