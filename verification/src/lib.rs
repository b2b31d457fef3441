//! Decoder for the UDP telemetry feed broadcast by an F1 racing simulator.
//!
//! A datagram arrives as raw bytes; the first two bytes declare the wire
//! format revision (little-endian year, e.g. 2019). The dispatcher selects
//! the decoder set for that revision, decodes the fixed header, and hands
//! the remaining bytes to the decoder for the packet type named in the
//! header. Every numeric field sits at a fixed byte offset with a fixed
//! width, and every coded field is validated against a closed table:
//! a code outside its table is a decode error, never a default.

pub mod car_status;
pub mod car_telemetry;
pub mod error;
pub mod event;
pub mod f1_2019;
pub mod f1_2020;
pub mod header;
pub mod lap;
pub mod models;
pub mod generic;
pub mod packet;
pub mod participants;
pub mod reader;
pub mod session;
pub mod stream;
