//! Verified core of a MIDI-controller-to-system-volume bridge.
//!
//! The library holds the logic of the bridge: converting Control Change
//! values to volume levels, debouncing writes to the operating system's
//! volume through a [`actuator::VolumeActuator`], and the connection state
//! machine of [`connection::HardwareConnection`], which filters incoming
//! packets by channel and controller number and tracks binding errors.
//! The platform edges — the MIDI driver that delivers packets, the call
//! that changes the OS volume, and the user interface — live outside;
//! their outcomes enter the library as plain values.

pub mod actuator;
pub mod connection;
pub mod level;
pub mod settings;
pub mod text;
