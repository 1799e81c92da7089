//! The fixed capability set of the fallback path.
//!
//! A platform-specific transport would report here whatever kernel
//! assistance it really has; this portable path has none, and says so, so
//! that the protocol engine sizes its batches and buffers without probing.

use vstd::prelude::*;

verus! {

/// How many packets one receive call can deliver on this path: always one.
/// The caller sizes its buffer and metadata arrays from this constant.
pub const BATCH_SIZE: usize = 1;

/// What the underlying platform can do for the UDP path.
#[derive(Clone, Copy, Debug, PartialEq, Eq, Structural)]
pub struct UdpCapabilities {
    /// Whether the kernel can transmit a whole batch in one call
    /// (generic segmentation offload).
    pub gso: bool,
}

/// Returns the platform's UDP socket capabilities.
///
/// The fallback path never has kernel-assisted batching, so the result is
/// the same fixed record on every call, whatever the socket's state.
pub fn caps() -> (r: UdpCapabilities)
    ensures
        r == (UdpCapabilities { gso: false }),
{
    UdpCapabilities { gso: false }
}

/// Law: the capability query is constant. Any two results its contract
/// admits — whatever the socket's state when each call was made — are the
/// same record, and neither reports batched transmission.
pub proof fn lemma_caps_constant(a: UdpCapabilities, b: UdpCapabilities)
    requires
        a == (UdpCapabilities { gso: false }),
        b == (UdpCapabilities { gso: false }),
    ensures
        a == b,
        !a.gso,
{
}

} // verus!
