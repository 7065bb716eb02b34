//! Typed operations on the stage controller.
//!
//! Every setter and getter frames a `KEY=value` or bare `KEY` command,
//! exchanges it through the transport, and classifies the reply: a
//! leading `?` is a rejected command, and a numeric query whose reply
//! does not parse is a protocol-contract violation reported as
//! `ResponseParseFailed`, distinct from a device rejection.
//!
//! Operations that the device follows with a mandatory settle period
//! (`turn_motor_on`, `turn_motor_off`, `write_driver_settings`,
//! `update_readable_driver_settings`) only perform the exchange; the
//! caller owes the settle wait before the next exchange, and for driver
//! settings the `check_driver_write` verification afterwards.

use vstd::prelude::*;

use crate::clock::SessionClock;
use crate::codec::{
    all_dec_digits,
    build_bare_command,
    build_move_command,
    build_set_command,
    dec_value,
    is_rejected,
    key_wf,
    signed_value,
    signed_wf,
};
use crate::driver::{
    read_from_bulk,
    saftey_read,
    write_to_bulk,
    StageHandle,
    RESPONSE_BUFFER_LEN,
};
use crate::error::StageError;

verus! {

// ---------------------------------------------------------------------
// Mnemonics
// ---------------------------------------------------------------------

/// The protocol mnemonics this driver speaks.
#[derive(Clone, Copy, Debug, PartialEq, Eq, Structural)]
pub enum Mnemonic {
    /// `HSPD`: high (traverse) speed.
    HighSpeed,
    /// `LSPD`: low (base) speed.
    LowSpeed,
    /// `ACC`: acceleration time.
    AccelerationTime,
    /// `DEC`: deceleration time.
    DecelerationTime,
    /// `DRVIT`: driver idle time.
    IdleTime,
    /// `DRVMS`: driver microstep count.
    Microstepping,
    /// `DRVIC`: driver idle current.
    IdleCurrent,
    /// `DRVRC`: driver run current.
    RunCurrent,
    /// `PX`: pulse position.
    PulsePosition,
    /// `EX`: encoder position.
    EncoderPosition,
    /// `MST`: motor status register.
    MotorStatus,
    /// `EO`: motor enable.
    MotorEnable,
    /// `SCV`: sinusoidal acceleration profile flag.
    AccelerationProfile,
    /// `ABS`: absolute movement mode.
    AbsoluteMode,
    /// `INC`: incremental movement mode.
    IncrementalMode,
    /// `RW`: commit driver settings.
    DriverWrite,
    /// `RR`: refresh readable driver settings.
    DriverRead,
    /// `R4`: driver write verification.
    DriverWriteCheck,
    /// `R2`: driver read verification.
    DriverReadCheck,
}

/// The wire bytes of each mnemonic.
pub open spec fn key_bytes(m: Mnemonic) -> Seq<u8> {
    match m {
        Mnemonic::HighSpeed => seq![('H' as u8), ('S' as u8), ('P' as u8), ('D' as u8)],
        Mnemonic::LowSpeed => seq![('L' as u8), ('S' as u8), ('P' as u8), ('D' as u8)],
        Mnemonic::AccelerationTime => seq![('A' as u8), ('C' as u8), ('C' as u8)],
        Mnemonic::DecelerationTime => seq![('D' as u8), ('E' as u8), ('C' as u8)],
        Mnemonic::IdleTime => seq![
            ('D' as u8),
            ('R' as u8),
            ('V' as u8),
            ('I' as u8),
            ('T' as u8),
        ],
        Mnemonic::Microstepping => seq![
            ('D' as u8),
            ('R' as u8),
            ('V' as u8),
            ('M' as u8),
            ('S' as u8),
        ],
        Mnemonic::IdleCurrent => seq![
            ('D' as u8),
            ('R' as u8),
            ('V' as u8),
            ('I' as u8),
            ('C' as u8),
        ],
        Mnemonic::RunCurrent => seq![
            ('D' as u8),
            ('R' as u8),
            ('V' as u8),
            ('R' as u8),
            ('C' as u8),
        ],
        Mnemonic::PulsePosition => seq![('P' as u8), ('X' as u8)],
        Mnemonic::EncoderPosition => seq![('E' as u8), ('X' as u8)],
        Mnemonic::MotorStatus => seq![('M' as u8), ('S' as u8), ('T' as u8)],
        Mnemonic::MotorEnable => seq![('E' as u8), ('O' as u8)],
        Mnemonic::AccelerationProfile => seq![('S' as u8), ('C' as u8), ('V' as u8)],
        Mnemonic::AbsoluteMode => seq![('A' as u8), ('B' as u8), ('S' as u8)],
        Mnemonic::IncrementalMode => seq![('I' as u8), ('N' as u8), ('C' as u8)],
        Mnemonic::DriverWrite => seq![('R' as u8), ('W' as u8)],
        Mnemonic::DriverRead => seq![('R' as u8), ('R' as u8)],
        Mnemonic::DriverWriteCheck => seq![('R' as u8), ('4' as u8)],
        Mnemonic::DriverReadCheck => seq![('R' as u8), ('2' as u8)],
    }
}

/// Every mnemonic is non-empty and free of NUL bytes.
pub proof fn lemma_key_bytes_wf(m: Mnemonic)
    ensures
        key_wf(key_bytes(m)),
{
}

/// Every command this driver can emit — a setter, a bare query or a
/// move — ends with exactly one NUL terminator and holds no NUL
/// before it.
pub proof fn lemma_emitted_commands_terminated(m: Mnemonic, value: int)
    ensures
        crate::codec::wire_terminated(crate::codec::set_command(key_bytes(m), value)),
        crate::codec::wire_terminated(crate::codec::bare_command(key_bytes(m))),
        crate::codec::wire_terminated(crate::codec::move_command(value)),
{
    lemma_key_bytes_wf(m);
    crate::codec::lemma_set_command_terminated(key_bytes(m), value);
    crate::codec::lemma_bare_command_terminated(key_bytes(m));
    crate::codec::lemma_move_command_terminated(value);
}

/// The wire bytes of a mnemonic, as a vector.
pub fn key_vec(m: Mnemonic) -> (r: Vec<u8>)
    ensures
        r@ == key_bytes(m),
{
    let mut v: Vec<u8> = Vec::new();
    match m {
        Mnemonic::HighSpeed => {
            v.push('H' as u8);
            v.push('S' as u8);
            v.push('P' as u8);
            v.push('D' as u8);
        },
        Mnemonic::LowSpeed => {
            v.push('L' as u8);
            v.push('S' as u8);
            v.push('P' as u8);
            v.push('D' as u8);
        },
        Mnemonic::AccelerationTime => {
            v.push('A' as u8);
            v.push('C' as u8);
            v.push('C' as u8);
        },
        Mnemonic::DecelerationTime => {
            v.push('D' as u8);
            v.push('E' as u8);
            v.push('C' as u8);
        },
        Mnemonic::IdleTime => {
            v.push('D' as u8);
            v.push('R' as u8);
            v.push('V' as u8);
            v.push('I' as u8);
            v.push('T' as u8);
        },
        Mnemonic::Microstepping => {
            v.push('D' as u8);
            v.push('R' as u8);
            v.push('V' as u8);
            v.push('M' as u8);
            v.push('S' as u8);
        },
        Mnemonic::IdleCurrent => {
            v.push('D' as u8);
            v.push('R' as u8);
            v.push('V' as u8);
            v.push('I' as u8);
            v.push('C' as u8);
        },
        Mnemonic::RunCurrent => {
            v.push('D' as u8);
            v.push('R' as u8);
            v.push('V' as u8);
            v.push('R' as u8);
            v.push('C' as u8);
        },
        Mnemonic::PulsePosition => {
            v.push('P' as u8);
            v.push('X' as u8);
        },
        Mnemonic::EncoderPosition => {
            v.push('E' as u8);
            v.push('X' as u8);
        },
        Mnemonic::MotorStatus => {
            v.push('M' as u8);
            v.push('S' as u8);
            v.push('T' as u8);
        },
        Mnemonic::MotorEnable => {
            v.push('E' as u8);
            v.push('O' as u8);
        },
        Mnemonic::AccelerationProfile => {
            v.push('S' as u8);
            v.push('C' as u8);
            v.push('V' as u8);
        },
        Mnemonic::AbsoluteMode => {
            v.push('A' as u8);
            v.push('B' as u8);
            v.push('S' as u8);
        },
        Mnemonic::IncrementalMode => {
            v.push('I' as u8);
            v.push('N' as u8);
            v.push('C' as u8);
        },
        Mnemonic::DriverWrite => {
            v.push('R' as u8);
            v.push('W' as u8);
        },
        Mnemonic::DriverRead => {
            v.push('R' as u8);
            v.push('R' as u8);
        },
        Mnemonic::DriverWriteCheck => {
            v.push('R' as u8);
            v.push('4' as u8);
        },
        Mnemonic::DriverReadCheck => {
            v.push('R' as u8);
            v.push('2' as u8);
        },
    }
    assert(v@ =~= key_bytes(m));
    v
}

// ---------------------------------------------------------------------
// The exchange primitive
// ---------------------------------------------------------------------

/// Whether a caller-supplied parameter lies inside a device-documented
/// range (both ends included).
pub fn parameter_in_range(value: u32, low: u32, high: u32) -> (r: bool)
    ensures
        r == (low <= value <= high),
{
    low <= value && value <= high
}

/// Classify an extracted response: a leading `?` means the device did
/// not understand the command and yields `CommandRejected`; anything
/// else passes through untouched, never parsed here.
pub fn check_response(resp: Vec<u8>) -> (r: Result<Vec<u8>, StageError>)
    ensures
        is_rejected(resp@) ==> (r matches Err(e) && e == StageError::CommandRejected),
        !is_rejected(resp@) ==> (r matches Ok(v) && v@ == resp@),
{
    if crate::codec::response_rejected(&resp) {
        Err(StageError::CommandRejected)
    } else {
        Ok(resp)
    }
}

/// One full exchange: drain stale bytes, write the framed command, read
/// the reply, extract the response and refuse a rejected one. Whatever
/// the device answered, a returned response is NUL-free, fits the read
/// buffer, and never starts with `?`.
pub fn send_command_get_response(handle: &StageHandle, command: &Vec<u8>) -> (r: Result<
    Vec<u8>,
    StageError,
>)
    requires
        handle.is_open(),
    ensures
        r matches Ok(resp) ==> {
            &&& !is_rejected(resp@)
            &&& resp@.len() <= RESPONSE_BUFFER_LEN
            &&& forall|i: int| 0 <= i < resp@.len() ==> resp@[i] != 0u8
        },
        r matches Err(e) ==> e == StageError::TransportIO || e == StageError::CommandRejected,
{
    let _ = saftey_read(handle);
    match write_to_bulk(handle, command) {
        Ok(()) => (),
        Err(e) => {
            return Err(e);
        },
    }
    let resp = match read_from_bulk(handle) {
        Ok(resp) => resp,
        Err(e) => {
            return Err(e);
        },
    };
    check_response(resp)
}

/// Send `KEY=value` for a `u32` parameter and discard the reply text.
fn send_set_u32(handle: &StageHandle, m: Mnemonic, value: u32) -> (r: Result<(), StageError>)
    requires
        handle.is_open(),
    ensures
        r matches Err(e) ==> e == StageError::TransportIO || e == StageError::CommandRejected,
{
    let key = key_vec(m);
    let command = crate::codec::build_set_command_u32(&key, value);
    match send_command_get_response(handle, &command) {
        Ok(_) => Ok(()),
        Err(e) => Err(e),
    }
}

/// Send `KEY=value` for an `i32` parameter and discard the reply text.
fn send_set_i32(handle: &StageHandle, m: Mnemonic, value: i32) -> (r: Result<(), StageError>)
    requires
        handle.is_open(),
    ensures
        r matches Err(e) ==> e == StageError::TransportIO || e == StageError::CommandRejected,
{
    let key = key_vec(m);
    let command = build_set_command(&key, value);
    match send_command_get_response(handle, &command) {
        Ok(_) => Ok(()),
        Err(e) => Err(e),
    }
}

/// Send a bare `KEY` command and discard the reply text.
fn send_bare(handle: &StageHandle, m: Mnemonic) -> (r: Result<(), StageError>)
    requires
        handle.is_open(),
    ensures
        r matches Err(e) ==> e == StageError::TransportIO || e == StageError::CommandRejected,
{
    let key = key_vec(m);
    let command = build_bare_command(&key);
    match send_command_get_response(handle, &command) {
        Ok(_) => Ok(()),
        Err(e) => Err(e),
    }
}

/// Send a bare `KEY` query and return the raw (accepted) reply.
fn query(handle: &StageHandle, m: Mnemonic) -> (r: Result<Vec<u8>, StageError>)
    requires
        handle.is_open(),
{
    let key = key_vec(m);
    let command = build_bare_command(&key);
    send_command_get_response(handle, &command)
}

// ---------------------------------------------------------------------
// Reply parsing
// ---------------------------------------------------------------------

/// Parse an accepted reply as an unsigned number; anything else is a
/// protocol-contract violation, reported as `ResponseParseFailed`.
pub fn parse_u32_response(resp: &Vec<u8>) -> (r: Result<u32, StageError>)
    ensures
        match r {
            Ok(v) => resp@.len() > 0 && all_dec_digits(resp@) && dec_value(resp@) == v as nat,
            Err(e) => {
                &&& e == StageError::ResponseParseFailed
                &&& (resp@.len() == 0 || !all_dec_digits(resp@) || dec_value(resp@) > u32::MAX)
            },
        },
{
    match crate::codec::parse_u32(resp) {
        Some(v) => Ok(v),
        None => Err(StageError::ResponseParseFailed),
    }
}

/// Parse an accepted reply as a signed number; anything else is a
/// protocol-contract violation, reported as `ResponseParseFailed`.
pub fn parse_i32_response(resp: &Vec<u8>) -> (r: Result<i32, StageError>)
    ensures
        match r {
            Ok(v) => signed_wf(resp@) && signed_value(resp@) == v as int,
            Err(e) => {
                &&& e == StageError::ResponseParseFailed
                &&& (!signed_wf(resp@) || signed_value(resp@) < i32::MIN || signed_value(resp@)
                    > i32::MAX)
            },
        },
{
    match crate::codec::parse_i32(resp) {
        Some(v) => Ok(v),
        None => Err(StageError::ResponseParseFailed),
    }
}

// ---------------------------------------------------------------------
// Setters
// ---------------------------------------------------------------------

/// `HSPD=`: command a new high (traverse) speed.
pub fn set_high_speed(handle: &StageHandle, new_high_speed: u32) -> (r: Result<(), StageError>)
    requires
        handle.is_open(),
    ensures
        r matches Err(e) ==> e == StageError::TransportIO || e == StageError::CommandRejected,
{
    send_set_u32(handle, Mnemonic::HighSpeed, new_high_speed)
}

/// `LSPD=`: command a new low (base) speed.
pub fn set_low_speed(handle: &StageHandle, new_low_speed: u32) -> (r: Result<(), StageError>)
    requires
        handle.is_open(),
{
    send_set_u32(handle, Mnemonic::LowSpeed, new_low_speed)
}

/// `ACC=`: set the acceleration time.
pub fn set_acceleration_time(handle: &StageHandle, time: u32) -> (r: Result<(), StageError>)
    requires
        handle.is_open(),
{
    send_set_u32(handle, Mnemonic::AccelerationTime, time)
}

/// `DEC=`: set the deceleration time.
pub fn set_deceleration_time(handle: &StageHandle, time: u32) -> (r: Result<(), StageError>)
    requires
        handle.is_open(),
{
    send_set_u32(handle, Mnemonic::DecelerationTime, time)
}

/// `DRVIT=`: set the driver idle time. The device documents the range
/// 1 to 100; anything outside is refused before a byte is sent.
pub fn set_idle_time(handle: &StageHandle, time: u32) -> (r: Result<(), StageError>)
    requires
        handle.is_open(),
    ensures
        time < 1 || time > 100 ==> (r matches Err(e) && e == StageError::ParameterOutOfRange),
        1 <= time <= 100 ==> match r {
            Ok(_) => true,
            Err(e) => e != StageError::ParameterOutOfRange,
        },
{
    if !parameter_in_range(time, 1, 100) {
        return Err(StageError::ParameterOutOfRange);
    }
    send_set_u32(handle, Mnemonic::IdleTime, time)
}

/// `DRVMS=`: set the driver microstep count. The device documents the
/// range 2 to 500; anything outside is refused before a byte is sent.
pub fn set_microstepping(handle: &StageHandle, microsteps: u32) -> (r: Result<(), StageError>)
    requires
        handle.is_open(),
    ensures
        microsteps < 2 || microsteps > 500 ==> (r matches Err(e) && e == StageError::ParameterOutOfRange),
        2 <= microsteps <= 500 ==> match r {
            Ok(_) => true,
            Err(e) => e != StageError::ParameterOutOfRange,
        },
{
    if !parameter_in_range(microsteps, 2, 500) {
        return Err(StageError::ParameterOutOfRange);
    }
    send_set_u32(handle, Mnemonic::Microstepping, microsteps)
}

/// `DRVIC=`: set the driver idle current. The device documents the
/// range 100 to 2800 mA; anything outside is refused before a byte is
/// sent.
pub fn set_idle_current(handle: &StageHandle, current: u32) -> (r: Result<(), StageError>)
    requires
        handle.is_open(),
    ensures
        current < 100 || current > 2800 ==> (r matches Err(e) && e == StageError::ParameterOutOfRange),
        100 <= current <= 2800 ==> match r {
            Ok(_) => true,
            Err(e) => e != StageError::ParameterOutOfRange,
        },
{
    if !parameter_in_range(current, 100, 2800) {
        return Err(StageError::ParameterOutOfRange);
    }
    send_set_u32(handle, Mnemonic::IdleCurrent, current)
}

/// `DRVRC=`: set the driver run current. The device documents the range
/// 100 to 3000 mA; anything outside is refused before a byte is sent.
pub fn set_run_current(handle: &StageHandle, current: u32) -> (r: Result<(), StageError>)
    requires
        handle.is_open(),
    ensures
        current < 100 || current > 3000 ==> (r matches Err(e) && e == StageError::ParameterOutOfRange),
        100 <= current <= 3000 ==> match r {
            Ok(_) => true,
            Err(e) => e != StageError::ParameterOutOfRange,
        },
{
    if !parameter_in_range(current, 100, 3000) {
        return Err(StageError::ParameterOutOfRange);
    }
    send_set_u32(handle, Mnemonic::RunCurrent, current)
}

/// `PX=`: overwrite the current pulse position.
pub fn set_pulse_position(handle: &StageHandle, position: i32) -> (r: Result<(), StageError>)
    requires
        handle.is_open(),
{
    send_set_i32(handle, Mnemonic::PulsePosition, position)
}

/// `EX=`: overwrite the current encoder position.
pub fn set_encoder_position(handle: &StageHandle, position: i32) -> (r: Result<(), StageError>)
    requires
        handle.is_open(),
{
    send_set_i32(handle, Mnemonic::EncoderPosition, position)
}

/// How a move target is interpreted by the device.
#[derive(Clone, Copy, Debug, PartialEq, Eq, Structural)]
pub enum MovementType {
    /// `ABS`: move targets are absolute positions.
    Absolute,
    /// `INC`: move targets are relative distances.
    Incremental,
}

/// `ABS` / `INC`: select how move targets are interpreted.
pub fn set_movement_type(handle: &StageHandle, movement: MovementType) -> (r: Result<
    (),
    StageError,
>)
    requires
        handle.is_open(),
{
    match movement {
        MovementType::Absolute => send_bare(handle, Mnemonic::AbsoluteMode),
        MovementType::Incremental => send_bare(handle, Mnemonic::IncrementalMode),
    }
}

/// The shape of the speed ramp.
#[derive(Clone, Copy, Debug, PartialEq, Eq, Structural)]
pub enum AccelerationProfile {
    /// `SCV=1`: sinusoidal ramp.
    Sinusoidal,
    /// `SCV=0`: trapezoidal ramp.
    Trapezoidal,
}

/// `SCV=`: select the acceleration profile.
pub fn set_acceleration_profile(handle: &StageHandle, profile: AccelerationProfile) -> (r: Result<
    (),
    StageError,
>)
    requires
        handle.is_open(),
{
    match profile {
        AccelerationProfile::Sinusoidal => send_set_u32(handle, Mnemonic::AccelerationProfile, 1),
        AccelerationProfile::Trapezoidal => send_set_u32(handle, Mnemonic::AccelerationProfile, 0),
    }
}

/// `EO=1`: energize the motor. The device needs a settle period of a
/// few seconds before the next exchange; the caller owes that wait.
pub fn turn_motor_on(handle: &StageHandle) -> (r: Result<(), StageError>)
    requires
        handle.is_open(),
{
    send_set_u32(handle, Mnemonic::MotorEnable, 1)
}

/// `EO=0`: de-energize the motor. The device needs a settle period of a
/// few seconds before the next exchange; the caller owes that wait.
pub fn turn_motor_off(handle: &StageHandle) -> (r: Result<(), StageError>)
    requires
        handle.is_open(),
{
    send_set_u32(handle, Mnemonic::MotorEnable, 0)
}

/// `X<target>`: start a move. The target is relative or absolute
/// according to the configured movement mode; this does not wait for
/// the move to finish.
pub fn move_stage(handle: &StageHandle, position: i32) -> (r: Result<(), StageError>)
    requires
        handle.is_open(),
{
    let command = build_move_command(position);
    match send_command_get_response(handle, &command) {
        Ok(_) => Ok(()),
        Err(e) => Err(e),
    }
}

// ---------------------------------------------------------------------
// Getters
// ---------------------------------------------------------------------

/// `HSPD`: read the configured high speed.
pub fn get_high_speed(handle: &StageHandle) -> (r: Result<u32, StageError>)
    requires
        handle.is_open(),
{
    let resp = match query(handle, Mnemonic::HighSpeed) {
        Ok(resp) => resp,
        Err(e) => {
            return Err(e);
        },
    };
    parse_u32_response(&resp)
}

/// `LSPD`: read the configured low speed.
pub fn get_low_speed(handle: &StageHandle) -> (r: Result<u32, StageError>)
    requires
        handle.is_open(),
{
    let resp = match query(handle, Mnemonic::LowSpeed) {
        Ok(resp) => resp,
        Err(e) => {
            return Err(e);
        },
    };
    parse_u32_response(&resp)
}

/// `ACC`: read the configured acceleration time.
pub fn get_acceleration_time(handle: &StageHandle) -> (r: Result<u32, StageError>)
    requires
        handle.is_open(),
{
    let resp = match query(handle, Mnemonic::AccelerationTime) {
        Ok(resp) => resp,
        Err(e) => {
            return Err(e);
        },
    };
    parse_u32_response(&resp)
}

/// `DEC`: read the configured deceleration time.
pub fn get_deceleration_time(handle: &StageHandle) -> (r: Result<u32, StageError>)
    requires
        handle.is_open(),
{
    let resp = match query(handle, Mnemonic::DecelerationTime) {
        Ok(resp) => resp,
        Err(e) => {
            return Err(e);
        },
    };
    parse_u32_response(&resp)
}

/// `DRVIT`: read the driver idle time.
pub fn get_idle_time(handle: &StageHandle) -> (r: Result<u32, StageError>)
    requires
        handle.is_open(),
{
    let resp = match query(handle, Mnemonic::IdleTime) {
        Ok(resp) => resp,
        Err(e) => {
            return Err(e);
        },
    };
    parse_u32_response(&resp)
}

/// `PX`: read the current pulse position.
pub fn get_pulse_position(handle: &StageHandle) -> (r: Result<i32, StageError>)
    requires
        handle.is_open(),
{
    let resp = match query(handle, Mnemonic::PulsePosition) {
        Ok(resp) => resp,
        Err(e) => {
            return Err(e);
        },
    };
    parse_i32_response(&resp)
}

/// `EX`: read the current encoder position.
pub fn get_encoder_position(handle: &StageHandle) -> (r: Result<i32, StageError>)
    requires
        handle.is_open(),
{
    let resp = match query(handle, Mnemonic::EncoderPosition) {
        Ok(resp) => resp,
        Err(e) => {
            return Err(e);
        },
    };
    parse_i32_response(&resp)
}

/// `SCV`: whether the acceleration profile is sinusoidal (1) rather
/// than trapezoidal (0).
pub fn acceleration_profile_is_sin(handle: &StageHandle) -> (r: Result<i32, StageError>)
    requires
        handle.is_open(),
{
    let resp = match query(handle, Mnemonic::AccelerationProfile) {
        Ok(resp) => resp,
        Err(e) => {
            return Err(e);
        },
    };
    parse_i32_response(&resp)
}

/// `MST`: read the motor status register. Zero means idle; the nonzero
/// codes are device-defined and treated only as "busy".
pub fn get_motor_status(handle: &StageHandle) -> (r: Result<i32, StageError>)
    requires
        handle.is_open(),
{
    let resp = match query(handle, Mnemonic::MotorStatus) {
        Ok(resp) => resp,
        Err(e) => {
            return Err(e);
        },
    };
    parse_i32_response(&resp)
}

// ---------------------------------------------------------------------
// Driver settings commit
// ---------------------------------------------------------------------

/// The acknowledgement the device gives for a successful driver write:
/// the single character `1`.
pub open spec fn driver_ack() -> Seq<u8> {
    seq![('1' as u8)]
}

/// Whether a reply is the driver-write acknowledgement.
pub fn driver_ack_ok(resp: &Vec<u8>) -> (r: bool)
    ensures
        r == (resp@ == driver_ack()),
{
    let ok = resp.len() == 1 && resp[0] == ('1' as u8);
    proof {
        assert(driver_ack().len() == 1);
        assert(driver_ack()[0] == ('1' as u8));
        if ok {
            assert(resp@ =~= driver_ack());
        }
    }
    ok
}

/// `RW`: ask the device to commit its driver settings. The commit takes
/// a settle period of about three seconds; after waiting it out, call
/// `check_driver_write` to verify it took.
pub fn write_driver_settings(handle: &StageHandle) -> (r: Result<(), StageError>)
    requires
        handle.is_open(),
{
    send_bare(handle, Mnemonic::DriverWrite)
}

/// `RR`: ask the device to refresh the readable copies of its driver
/// settings. The refresh takes a settle period of about three seconds;
/// the caller owes that wait before the next exchange.
pub fn update_readable_driver_settings(handle: &StageHandle) -> (r: Result<(), StageError>)
    requires
        handle.is_open(),
{
    send_bare(handle, Mnemonic::DriverRead)
}

/// `R4`: verify the last driver-settings commit. Anything but the `1`
/// acknowledgement is a `DriverWriteFailed` error, to be treated as
/// potentially unsafe: the parameters may be only partially applied.
pub fn check_driver_write(handle: &StageHandle) -> (r: Result<(), StageError>)
    requires
        handle.is_open(),
{
    let resp = match query(handle, Mnemonic::DriverWriteCheck) {
        Ok(resp) => resp,
        Err(e) => {
            return Err(e);
        },
    };
    if driver_ack_ok(&resp) {
        Ok(())
    } else {
        Err(StageError::DriverWriteFailed)
    }
}

/// `R2`: verify the last readable-settings refresh the same way.
pub fn check_driver_read(handle: &StageHandle) -> (r: Result<(), StageError>)
    requires
        handle.is_open(),
{
    let resp = match query(handle, Mnemonic::DriverReadCheck) {
        Ok(resp) => resp,
        Err(e) => {
            return Err(e);
        },
    };
    if driver_ack_ok(&resp) {
        Ok(())
    } else {
        Err(StageError::DriverWriteFailed)
    }
}

// ---------------------------------------------------------------------
// Motion state polling
// ---------------------------------------------------------------------

/// One telemetry sample taken while the motor is busy.
#[derive(Clone, Copy, Debug, PartialEq, Eq, Structural)]
pub struct TelemetrySample {
    /// Milliseconds since the session clock started.
    pub elapsed_ms: u64,
    /// Pulse position at the time of the sample.
    pub pulse_position: i32,
}

/// Poll the motor status until it reads idle (zero). When a clock is
/// supplied, every busy poll also reads the pulse position and appends
/// a timestamped sample to `sink`; samples already in the sink stay
/// untouched. No timeout is enforced at this layer: only the idle
/// transition (or a failed exchange) ends the wait. The loop carries a
/// `u64` poll budget purely to bound it formally; each poll blocks on
/// a USB exchange, so the budget outlives any physical device, and its
/// exhaustion is reported as `TransportIO`.
pub fn wait_for_motor_idle(
    handle: &StageHandle,
    clock: Option<&SessionClock>,
    sink: &mut Vec<TelemetrySample>,
) -> (r: Result<(), StageError>)
    requires
        handle.is_open(),
    ensures
        final(sink)@.len() >= old(sink)@.len(),
        forall|i: int| 0 <= i < old(sink)@.len() ==> final(sink)@[i] == old(sink)@[i],
{
    let mut polls_left: u64 = u64::MAX;
    while polls_left > 0
        invariant
            handle.is_open(),
            sink@.len() >= old(sink)@.len(),
            forall|i: int| 0 <= i < old(sink)@.len() ==> sink@[i] == old(sink)@[i],
        decreases polls_left,
    {
        let status = match get_motor_status(handle) {
            Ok(status) => status,
            Err(e) => {
                return Err(e);
            },
        };
        if status == 0 {
            return Ok(());
        }
        match clock {
            None => (),
            Some(clock) => {
                let elapsed_ms = clock.elapsed_ms();
                let pulse_position = match get_pulse_position(handle) {
                    Ok(p) => p,
                    Err(e) => {
                        return Err(e);
                    },
                };
                sink.push(TelemetrySample { elapsed_ms, pulse_position });
            },
        }
        polls_left = polls_left - 1;
    }
    Err(StageError::TransportIO)
}


/// Start a move and poll until the motor is idle again, streaming
/// telemetry when a clock is supplied. This is one half of a cycle;
/// the dwell between reversals is the caller's to wait out.
pub fn move_and_wait(
    handle: &StageHandle,
    distance: i32,
    clock: Option<&SessionClock>,
    sink: &mut Vec<TelemetrySample>,
) -> (r: Result<(), StageError>)
    requires
        handle.is_open(),
    ensures
        final(sink)@.len() >= old(sink)@.len(),
        forall|i: int| 0 <= i < old(sink)@.len() ==> final(sink)@[i] == old(sink)@[i],
{
    match move_stage(handle, distance) {
        Ok(()) => (),
        Err(e) => {
            return Err(e);
        },
    }
    wait_for_motor_idle(handle, clock, sink)
}

} // verus!

