//! A verified model of a small smart-home system.
//!
//! The crate centres on the device control protocol layer: a line-oriented
//! TCP command protocol with a fixed four-byte handshake, a single-byte
//! binary command protocol, and a length-prefixed datagram protocol, all
//! speaking a closed command/response vocabulary against shared device
//! state.  Transports are modelled as byte streams and datagram queues, so
//! every framing, handshake and dispatch decision is verified; the thin
//! layer that moves bytes to and from real sockets lives outside the
//! library.

pub mod binary;
pub mod devices;
pub mod errors;
pub mod house;
pub mod patterns;
pub mod report_provider;
pub mod return_code;
pub mod room;
pub mod stream;
pub mod tcp;
pub mod text;
pub mod udp;
pub mod web;
