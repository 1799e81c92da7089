//! Plain-value model of a socket address.
//!
//! The transport core never interprets an address; it only carries one from
//! the protocol engine down to the socket (send) or up from the socket
//! (receive). An IPv4 address is held as its 32-bit big-endian integer value,
//! an IPv6 address as its 128-bit value; the I/O layer converts to and from
//! the operating system's representation at the boundary.

use vstd::prelude::*;

verus! {

/// An IP address as a plain integer value.
#[derive(Clone, Copy, Debug, PartialEq, Eq, Structural)]
pub enum IpAddr {
    /// An IPv4 address: the four octets as one 32-bit value, first octet in
    /// the most significant byte.
    V4(u32),
    /// An IPv6 address: the sixteen octets as one 128-bit value, first octet
    /// in the most significant byte.
    V6(u128),
}

/// A socket address: an IP address together with a UDP port.
#[derive(Clone, Copy, Debug, PartialEq, Eq, Structural)]
pub struct SockAddr {
    pub ip: IpAddr,
    pub port: u16,
}

} // verus!
