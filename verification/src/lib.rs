//! A point-to-point reliable transport for short command/response payloads
//! over a byte-oriented serial link.
//!
//! Payloads travel in self-delimiting frames carrying a 16-bit checksum;
//! a small control-frame sub-protocol (acknowledgments, failure signals and
//! a heartbeat) together with bounded retry loops gives at-most-N-retried
//! delivery over a link with no inherent message boundaries.

pub mod channel;
pub mod config;
pub mod crc16;
pub mod frame;
pub mod log;
pub mod message;
pub mod serialport;
