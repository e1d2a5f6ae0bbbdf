//! The SOCKS5 messages that the agent reads from and writes to its clients.
pub mod address;
pub mod auth;
pub mod init;
pub mod socket;
pub mod udp;

use vstd::prelude::*;

verus! {

/// Why a SOCKS5 message could not be decoded.
#[derive(Debug, PartialEq, Eq, Structural)]
pub enum Socks5CodecError {
    /// No byte is left where an address should start.
    NoRemaining,
    /// Fewer bytes remain than the address type needs.
    AddressTooShort { address_type: u8, remaining: usize, required: usize },
    /// The address type byte is not one of 1, 3 or 4.
    UnknownAddressType(u8),
    /// The first byte of a request is not the SOCKS version 5.
    InvalidVersion(u8),
    /// The command byte of an init request is not 1, 2 or 3.
    UnknownInitCommandType(u8),
    /// The status byte of an init reply is above 9.
    UnknownInitCommandStatus(u8),
    /// A UDP relay packet is shorter than its header, or its address is invalid.
    InvalidUdpPacket,
}

} // verus!
