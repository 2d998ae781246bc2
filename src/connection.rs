use vstd::prelude::*;

verus! {

/// An IP address, as its numeric parts.
#[derive(Debug, Clone, Copy, PartialEq, Eq)]
pub enum IpAddress {
    V4([u8; 4]),
    V6([u16; 8]),
}

/// Network address of a device.
#[derive(Debug, Clone, Copy, PartialEq, Eq)]
pub struct Connection {
    /// Public IP of the device.
    pub ip: IpAddress,
    pub port: u64,
}

} // verus!
