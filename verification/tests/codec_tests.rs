use stage_control::codec::{
    build_bare_command, build_move_command, build_set_command, build_set_command_u32,
    byte_vec_to_string, extract_response, format_i32, format_u32, format_u64, interactive_action,
    parse_i32, parse_u32, response_rejected, trim_line, InteractiveAction,
    _extract_response_from_raw_output,
};
use stage_control::commands::{
    check_response, driver_ack_ok, key_vec, parameter_in_range, parse_u32_response, Mnemonic,
};
use stage_control::driver::check_write_count;
use stage_control::error::StageError;

#[test]
fn set_command_is_nul_terminated_exactly_once() {
    let key = key_vec(Mnemonic::HighSpeed);
    let cmd = build_set_command_u32(&key, 1500);
    assert_eq!(cmd, b"HSPD=1500\0".to_vec());
    assert_eq!(*cmd.last().unwrap(), 0u8);
    assert!(cmd[..cmd.len() - 1].iter().all(|&b| b != 0));
}

#[test]
fn signed_set_command_renders_negative_values() {
    let key = key_vec(Mnemonic::PulsePosition);
    let cmd = build_set_command(&key, -42);
    assert_eq!(cmd, b"PX=-42\0".to_vec());
}

#[test]
fn bare_and_move_commands_are_framed() {
    let key = key_vec(Mnemonic::MotorStatus);
    assert_eq!(build_bare_command(&key), b"MST\0".to_vec());
    assert_eq!(build_move_command(-100), b"X-100\0".to_vec());
    assert_eq!(build_move_command(4913), b"X4913\0".to_vec());
}

#[test]
fn every_mnemonic_command_ends_with_single_nul() {
    let mnemonics = [
        Mnemonic::HighSpeed,
        Mnemonic::LowSpeed,
        Mnemonic::AccelerationTime,
        Mnemonic::DecelerationTime,
        Mnemonic::IdleTime,
        Mnemonic::Microstepping,
        Mnemonic::IdleCurrent,
        Mnemonic::RunCurrent,
        Mnemonic::PulsePosition,
        Mnemonic::EncoderPosition,
        Mnemonic::MotorStatus,
        Mnemonic::MotorEnable,
        Mnemonic::AccelerationProfile,
        Mnemonic::AbsoluteMode,
        Mnemonic::IncrementalMode,
        Mnemonic::DriverWrite,
        Mnemonic::DriverRead,
        Mnemonic::DriverWriteCheck,
        Mnemonic::DriverReadCheck,
    ];
    for m in mnemonics {
        let key = key_vec(m);
        let cmd = build_set_command_u32(&key, 7);
        assert_eq!(cmd.iter().filter(|&&b| b == 0).count(), 1);
        assert_eq!(*cmd.last().unwrap(), 0u8);
    }
}

#[test]
fn extraction_stops_at_first_nul_and_is_repeatable() {
    let raw = b"123\0garbage\0more".to_vec();
    let once = extract_response(&raw);
    let twice = extract_response(&raw);
    assert_eq!(once, b"123".to_vec());
    assert_eq!(once, twice);
}

#[test]
fn bytes_after_the_nul_never_appear() {
    let a = b"OK\0xxxxxx".to_vec();
    let b = b"OK\0yyyyyy".to_vec();
    assert_eq!(extract_response(&a), extract_response(&b));
    assert_eq!(extract_response(&a), b"OK".to_vec());
}

#[test]
fn extraction_without_nul_takes_everything() {
    let raw = b"42".to_vec();
    assert_eq!(extract_response(&raw), b"42".to_vec());
    let empty: Vec<u8> = Vec::new();
    assert_eq!(extract_response(&empty), Vec::<u8>::new());
}

#[test]
fn question_mark_reply_is_rejected() {
    let resp = b"?HSPD".to_vec();
    assert!(response_rejected(&resp));
    match check_response(resp) {
        Err(e) => assert_eq!(e, StageError::CommandRejected),
        Ok(_) => panic!("a rejected reply must not pass"),
    }
}

#[test]
fn rejected_reply_is_never_parsed() {
    let raw = b"?X100\0".to_vec();
    let resp = extract_response(&raw);
    match check_response(resp) {
        Err(e) => assert_eq!(e, StageError::CommandRejected),
        Ok(_) => panic!("a rejected reply must not reach the parser"),
    }
}

#[test]
fn accepted_reply_passes_through() {
    let resp = b"1500".to_vec();
    match check_response(resp) {
        Ok(v) => assert_eq!(v, b"1500".to_vec()),
        Err(_) => panic!("an accepted reply must pass"),
    }
}

#[test]
fn short_write_is_a_transport_error() {
    match check_write_count(3, 5) {
        Err(e) => assert_eq!(e, StageError::TransportIO),
        Ok(()) => panic!("a short write must never pass silently"),
    }
    assert!(check_write_count(5, 5).is_ok());
    match check_write_count(7, 5) {
        Err(e) => assert_eq!(e, StageError::TransportIO),
        Ok(()) => panic!("an overlong write count must not pass"),
    }
}

#[test]
fn numeric_formatting_round_trips() {
    assert_eq!(format_u32(0), b"0".to_vec());
    assert_eq!(format_u32(1500), b"1500".to_vec());
    assert_eq!(format_u32(u32::MAX), b"4294967295".to_vec());
    assert_eq!(format_u64(18446744073709551615), b"18446744073709551615".to_vec());
    assert_eq!(format_i32(-123), b"-123".to_vec());
    assert_eq!(format_i32(i32::MIN), b"-2147483648".to_vec());
}

#[test]
fn unsigned_parsing_is_exact() {
    assert_eq!(parse_u32(&b"0".to_vec()), Some(0));
    assert_eq!(parse_u32(&b"1500".to_vec()), Some(1500));
    assert_eq!(parse_u32(&b"4294967295".to_vec()), Some(u32::MAX));
    assert_eq!(parse_u32(&b"4294967296".to_vec()), None);
    assert_eq!(parse_u32(&b"".to_vec()), None);
    assert_eq!(parse_u32(&b"12a".to_vec()), None);
    assert_eq!(parse_u32(&b"-1".to_vec()), None);
}

#[test]
fn signed_parsing_is_exact() {
    assert_eq!(parse_i32(&b"-42".to_vec()), Some(-42));
    assert_eq!(parse_i32(&b"2147483647".to_vec()), Some(i32::MAX));
    assert_eq!(parse_i32(&b"-2147483648".to_vec()), Some(i32::MIN));
    assert_eq!(parse_i32(&b"-2147483649".to_vec()), None);
    assert_eq!(parse_i32(&b"2147483648".to_vec()), None);
    assert_eq!(parse_i32(&b"-".to_vec()), None);
    assert_eq!(parse_i32(&b"".to_vec()), None);
}

#[test]
fn non_numeric_reply_is_a_parse_failure() {
    match parse_u32_response(&b"?".to_vec()) {
        Err(e) => assert_eq!(e, StageError::ResponseParseFailed),
        Ok(_) => panic!("a non-numeric reply must not parse"),
    }
    assert_eq!(parse_u32_response(&b"77".to_vec()).unwrap(), 77);
}

#[test]
fn interactive_lines_are_trimmed_uppercased_and_framed() {
    match interactive_action(&b"  hspd=100 \n".to_vec()) {
        InteractiveAction::Send(c) => assert_eq!(c, b"HSPD=100\0".to_vec()),
        InteractiveAction::Exit => panic!("not an exit line"),
    }
    assert_eq!(interactive_action(&b"exit\n".to_vec()), InteractiveAction::Exit);
    assert_eq!(interactive_action(&b"  EXIT  ".to_vec()), InteractiveAction::Exit);
}

#[test]
fn trim_removes_surrounding_whitespace_only() {
    assert_eq!(trim_line(&b" \t j+ \r\n".to_vec()), b"j+".to_vec());
    assert_eq!(trim_line(&b"\n".to_vec()), Vec::<u8>::new());
    assert_eq!(trim_line(&b"a b".to_vec()), b"a b".to_vec());
}

#[test]
fn responses_decode_to_text_before_the_nul() {
    let raw = b"123\0junk".to_vec();
    assert_eq!(byte_vec_to_string(&raw).unwrap(), "123".to_string());
    assert_eq!(_extract_response_from_raw_output(&raw), "123".to_string());
    let bad = vec![0xffu8, 0x00u8];
    match byte_vec_to_string(&bad) {
        Err(e) => assert_eq!(e, StageError::ResponseParseFailed),
        Ok(_) => panic!("non-ASCII responses break the protocol contract"),
    }
}

#[test]
fn device_documented_ranges_are_inclusive() {
    // Idle time 1..=100, microstepping 2..=500, currents 100..=2800
    // and 100..=3000.
    assert!(!parameter_in_range(0, 1, 100));
    assert!(parameter_in_range(1, 1, 100));
    assert!(parameter_in_range(100, 1, 100));
    assert!(!parameter_in_range(101, 1, 100));
    assert!(!parameter_in_range(1, 2, 500));
    assert!(parameter_in_range(500, 2, 500));
    assert!(!parameter_in_range(99, 100, 2800));
    assert!(parameter_in_range(2800, 100, 2800));
    assert!(parameter_in_range(3000, 100, 3000));
    assert!(!parameter_in_range(3001, 100, 3000));
}

#[test]
fn driver_write_acknowledgement_is_the_single_digit_one() {
    assert!(driver_ack_ok(&b"1".to_vec()));
    assert!(!driver_ack_ok(&b"0".to_vec()));
    assert!(!driver_ack_ok(&b"11".to_vec()));
    assert!(!driver_ack_ok(&b"".to_vec()));
}
