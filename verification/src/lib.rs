//! A per-connection secure handshake and liveness protocol: an exchange of
//! public keys, one confirmation round, and a periodic encrypted heartbeat.
//!
//! The library decides; the program around it moves the bytes. `framing` derives
//! the sizes of the blocks on the wire from the key size, `cipher` holds the keys
//! and seals and opens single blocks, and `session` is the state machine that says
//! what a connection has to write, read or wait for next. `run` states what holds
//! of every sequence of steps that a connection can take.

pub mod framing;
pub mod error;
pub mod cipher;
pub mod session;
pub mod run;
