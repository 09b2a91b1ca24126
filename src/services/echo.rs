//! The Echo Protocol (RFC 862)

use vstd::prelude::*;

use crate::services::{ServiceInfo, SimpleService};

verus! {

pub const PORT: u16 = 7;

pub struct Service;

impl SimpleService for Service {
    open spec fn info() -> ServiceInfo {
        ServiceInfo { name: "echo", port: PORT, tcp: true, udp: true, needs_hostname: false }
    }

    fn descriptor() -> (r: ServiceInfo) {
        ServiceInfo { name: "echo", port: PORT, tcp: true, udp: true, needs_hostname: false }
    }
}

/// The answer to received data: the same bytes, unchanged
pub fn answer(data: Vec<u8>) -> (r: Option<Vec<u8>>)
    ensures
        r == Some(data),
{
    Some(data)
}

} // verus!
