//! The Daytime Protocol (RFC 867)

use vstd::prelude::*;
use vstd::utf8::encode_utf8;

use crate::services::{ServiceInfo, SimpleService};
use crate::utils::push_str;

verus! {

pub const PORT: u16 = 13;

pub struct Service;

impl SimpleService for Service {
    open spec fn info() -> ServiceInfo {
        ServiceInfo { name: "daytime", port: PORT, tcp: true, udp: true, needs_hostname: false }
    }

    fn descriptor() -> (r: ServiceInfo) {
        ServiceInfo { name: "daytime", port: PORT, tcp: true, udp: true, needs_hostname: false }
    }
}

/// Relies on `time::OffsetDateTime::now_utc`, written by its `format` with
/// the RFC 3339 description: the current time as text, or `None` where it
/// cannot be written that way; nothing is claimed of the text.
#[verifier::external_body]
fn now_rfc3339() -> (r: Option<String>) {
    ::time::OffsetDateTime::now_utc().format(&::time::format_description::well_known::Rfc3339).ok()
}

/// The reply for a time written as `now`: the text itself
pub fn reply_for(now: &str) -> (r: Vec<u8>)
    ensures
        r@ == encode_utf8(now@),
{
    let mut r: Vec<u8> = Vec::new();
    push_str(&mut r, now);
    r
}

/// The reply for the current time, or `None` where it cannot be written
pub fn reply() -> (r: Option<Vec<u8>>) {
    match now_rfc3339() {
        Some(text) => Some(reply_for(text.as_str())),
        None => None,
    }
}

} // verus!
