//! Telnet command bytes (RFC 854) used by the demultiplexers.

use vstd::prelude::*;

verus! {

/// End of subnegotiation parameters.
pub const SE: u8 = 0xF0;
/// Beginning of subnegotiation.
pub const SB: u8 = 0xFA;
/// Sender wants to enable an option on its side.
pub const WILL: u8 = 0xFB;
/// Sender refuses to enable an option on its side.
pub const WONT: u8 = 0xFC;
/// Sender asks the receiver to enable an option.
pub const DO: u8 = 0xFD;
/// Sender asks the receiver to disable an option.
pub const DONT: u8 = 0xFE;
/// Interpret As Command: the escape byte.
pub const IAC: u8 = 0xFF;

} // verus!
