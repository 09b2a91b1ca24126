//! The Discard Protocol (RFC 863)

use vstd::prelude::*;

use crate::services::{ServiceInfo, SimpleService};

verus! {

pub const PORT: u16 = 9;

pub struct Service;

impl SimpleService for Service {
    open spec fn info() -> ServiceInfo {
        ServiceInfo { name: "discard", port: PORT, tcp: true, udp: true, needs_hostname: false }
    }

    fn descriptor() -> (r: ServiceInfo) {
        ServiceInfo { name: "discard", port: PORT, tcp: true, udp: true, needs_hostname: false }
    }
}

/// The answer to received data: none, whatever arrives
pub fn answer(data: Vec<u8>) -> (r: Option<Vec<u8>>)
    ensures
        r is None,
{
    None
}

} // verus!
