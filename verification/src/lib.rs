//! Core of a field telemetry gateway: the fixed-layout binary wire frame
//! that every emitted datagram must match bit for bit (including its
//! compact BCD timestamp encoding), and the line-level protocols of the
//! two serial acquisition sources that feed it.
//!
//! Everything here is pure computation over plain values. The surrounding
//! binary owns the serial channels, the UDP socket and the worker loops,
//! and calls into this crate for every decision and every byte it emits.

pub mod bcd;
pub mod config;
pub mod event;
pub mod frame;
pub mod heartbeat;
pub mod lines;
pub mod parani;
pub mod timestamp;
pub mod uconnect;
