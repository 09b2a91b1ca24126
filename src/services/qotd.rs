//! The Quote of the Day Protocol (RFC 865)

use vstd::prelude::*;
use vstd::utf8::encode_utf8;

use crate::services::{ServiceInfo, SimpleService};
use crate::utils::{push_str, random_in};

verus! {

pub const PORT: u16 = 17;

pub struct Service;

impl SimpleService for Service {
    open spec fn info() -> ServiceInfo {
        ServiceInfo { name: "qotd", port: PORT, tcp: true, udp: true, needs_hostname: false }
    }

    fn descriptor() -> (r: ServiceInfo) {
        ServiceInfo { name: "qotd", port: PORT, tcp: true, udp: true, needs_hostname: false }
    }
}

/// The reply carrying `quote`: the quote, then CR LF
pub fn reply_for(quote: &str) -> (r: Vec<u8>)
    ensures
        r@ == encode_utf8(quote@) + seq![0x0d, 0x0a],
{
    let mut r: Vec<u8> = Vec::new();
    push_str(&mut r, quote);
    r.push(0x0d);
    r.push(0x0a);
    r
}

/// The reply carrying one of `quotes`, drawn at random; `None` if there is
/// no quote
pub fn reply(quotes: &Vec<String>) -> (r: Option<Vec<u8>>)
    ensures
        quotes@.len() == 0 <==> r is None,
        r matches Some(b) ==> exists|i: int|
            0 <= i < quotes@.len() && b@ == encode_utf8(#[trigger] quotes@[i]@) + seq![0x0d, 0x0a],
{
    if quotes.len() == 0 {
        return None;
    }
    let i = random_in(0, quotes.len());
    let r = reply_for(quotes[i].as_str());
    assert(r@ == encode_utf8(quotes@[i as int]@) + seq![0x0d, 0x0a]);
    Some(r)
}

} // verus!
