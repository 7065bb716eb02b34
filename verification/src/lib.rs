//! Driver library for a single-axis motorized stage behind a USB
//! stepper-motor controller that speaks a NUL-terminated ASCII
//! command/response protocol.
//!
//! The crate is organized bottom-up:
//! - `codec` builds wire commands, decodes responses and normalizes
//!   interactive input, all pure.
//! - `driver` owns the USB transport: the open/claim/release lifecycle
//!   and raw bulk/control transfers, behind trusted rusb wrappers.
//! - `commands` maps typed operations (set speed, move, query status)
//!   onto wire commands and polls the motor-status register.
//! - `clock` supplies monotonic timestamps for telemetry samples.
//! - `config` parses `KEY VALUE` parameter files and renders the
//!   calibrated parameter file.
//! - `control` holds the proportional control law and the
//!   calibration/run step decisions, pure so that a simulated device
//!   can drive them without hardware.
//!
//! Durations are carried as integer milliseconds throughout, and
//! dimensionless fractions (tolerance, proportional factor) in
//! thousandths.
//!
//! What no wrapper can do from here — file access, stdin, and the
//! settle/dwell sleeps the device imposes — belongs to the surrounding
//! application, which loops over the step functions this library
//! verifies.

pub mod clock;
pub mod codec;
pub mod commands;
pub mod config;
pub mod control;
pub mod driver;
pub mod error;
