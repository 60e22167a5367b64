pub mod client;
pub mod handshake;
pub mod protocol;
pub mod socket;
