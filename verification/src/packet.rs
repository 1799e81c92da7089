//! The packet values that cross the transport core's boundary.
//!
//! An outbound packet (`Transmit`) is built by the protocol engine and read,
//! never kept, by the send path. An inbound metadata slot (`RecvMeta`) is
//! allocated by the caller and filled by the receive path for each packet
//! actually read.

use vstd::prelude::*;
use crate::addr::{IpAddr, SockAddr};

verus! {

/// An explicit congestion notification codepoint.
///
/// The fallback path can neither read nor write these; it carries the type
/// so that its metadata contract matches the richer platform paths, and
/// always reports the codepoint as absent.
#[derive(Clone, Copy, Debug, PartialEq, Eq, Structural)]
pub enum EcnCodepoint {
    Ect0,
    Ect1,
    Ce,
}

/// One outbound packet: a destination and an opaque payload, plus the
/// optional hints that richer platforms honour and this path ignores.
#[derive(Clone, Debug)]
pub struct Transmit {
    /// Where the packet goes.
    pub destination: SockAddr,
    /// The congestion marking the sender would like; ignored here.
    pub ecn: Option<EcnCodepoint>,
    /// The payload bytes, opaque to the transport.
    pub contents: Vec<u8>,
    /// The segment size a batching kernel would split on; ignored here.
    pub segment_size: Option<usize>,
}

/// The metadata for one received packet.
#[derive(Clone, Copy, Debug, PartialEq, Eq, Structural)]
pub struct RecvMeta {
    /// How many payload bytes were written into the matching buffer.
    pub len: usize,
    /// The sender's address.
    pub addr: SockAddr,
    /// The congestion marking on the packet; always absent on this path.
    pub ecn: Option<EcnCodepoint>,
    /// The local destination IP the packet arrived on; always absent on
    /// this path.
    pub dst_ip: Option<IpAddr>,
}

} // verus!
