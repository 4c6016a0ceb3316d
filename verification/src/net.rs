//! Network addresses and the fixed parameters of the control protocol.

use vstd::prelude::*;

verus! {

/// A network address, as the number that its bytes spell most significant first.
#[derive(Clone, Copy, Debug, PartialEq, Eq, Structural)]
pub enum IpAddr {
    V4(u32),
    V6(u128),
}

/// The version 4 address that stands for every local interface.
pub const LOCAL_IP: u32 = 0;

/// The version 4 address that reaches every host of the local network.
pub const BROADCAST_IP: u32 = 0xffff_ffff;

/// Where clients announce themselves and wait for the server.
pub const CONTROL_PORT: u16 = 9943;

/// The length of an announcement.
pub const HANDSHAKE_PACKET_SIZE_BYTES: usize = 56;

/// The longest silence on the control socket, in nanoseconds.
pub const KEEPALIVE_INTERVAL: u64 = 1_000_000_000;

} // verus!
