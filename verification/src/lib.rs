//! Fallback UDP transport core: the portable, poll-based packet path used
//! where the platform offers neither batched transmission (GSO) nor ECN
//! marking. The library holds the pure decision logic: how a batched send
//! reports partial progress, how a single-packet receive fills its metadata
//! slot, and the fixed capability set of this path. The surrounding binary
//! performs the actual socket calls and feeds their outcomes in as events.

pub mod addr;
pub mod caps;
pub mod packet;
pub mod socket;

pub use addr::{IpAddr, SockAddr};
pub use caps::{caps, UdpCapabilities, BATCH_SIZE};
pub use packet::{EcnCodepoint, RecvMeta, Transmit};
pub use socket::{RecvEvent, SendEvent, SendStep, UdpPoll, UdpSocket};
