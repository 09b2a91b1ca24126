//! The Time Protocol (RFC 868)

use vstd::prelude::*;

use crate::services::{ServiceInfo, SimpleService};

verus! {

pub const PORT: u16 = 37;

pub struct Service;

impl SimpleService for Service {
    open spec fn info() -> ServiceInfo {
        ServiceInfo { name: "time", port: PORT, tcp: true, udp: true, needs_hostname: false }
    }

    fn descriptor() -> (r: ServiceInfo) {
        ServiceInfo { name: "time", port: PORT, tcp: true, udp: true, needs_hostname: false }
    }
}

/// Relies on `time::OffsetDateTime::now_utc`, read as a Unix timestamp:
/// the current time, of which nothing is claimed.
#[verifier::external_body]
fn now_unix() -> (r: i64) {
    ::time::OffsetDateTime::now_utc().unix_timestamp()
}

/// Seconds from 1900-01-01 (the protocol's epoch) to 1970-01-01 (the Unix one)
pub const UNIX_EPOCH_OFFSET: i64 = 2_208_988_800;

/// Values are taken modulo 2^32
pub const WRAP: u64 = 4_294_967_296;

/// The protocol's value for a Unix time: seconds since 1900, modulo 2^32
pub open spec fn time_value_spec(unix: i64) -> int {
    (unix + UNIX_EPOCH_OFFSET) % (WRAP as int)
}

/// The four bytes of `v`, most significant first
pub open spec fn be_bytes(v: u32) -> Seq<u8> {
    seq![
        (v / 0x100_0000) as u8,
        (v / 0x1_0000 % 0x100) as u8,
        (v / 0x100 % 0x100) as u8,
        (v % 0x100) as u8,
    ]
}

/// Seconds since 1900-01-01 at Unix time `unix`, modulo 2^32
pub fn time_value(unix: i64) -> (r: u32)
    ensures
        r as int == time_value_spec(unix),
{
    let t: i128 = unix as i128 + UNIX_EPOCH_OFFSET as i128;
    let m: u128 = WRAP as u128;
    if t >= 0 {
        let r = (t as u128) % m;
        r as u32
    } else {
        let a = ((-t) as u128) % m;
        proof {
            let n = -(t as int);
            let q = n / (m as int);
            vstd::arithmetic::div_mod::lemma_fundamental_div_mod(n, m as int);
            if a == 0 {
                vstd::arithmetic::div_mod::lemma_fundamental_div_mod_converse(
                    t as int,
                    m as int,
                    -q,
                    0,
                );
            } else {
                vstd::arithmetic::div_mod::lemma_fundamental_div_mod_converse(
                    t as int,
                    m as int,
                    -q - 1,
                    m as int - a as int,
                );
            }
        }
        if a == 0 {
            0
        } else {
            (m - a) as u32
        }
    }
}

/// The reply for Unix time `unix`: the protocol's value as four bytes,
/// most significant first
pub fn reply_at(unix: i64) -> (r: Vec<u8>)
    ensures
        r@ == be_bytes(time_value_spec(unix) as u32),
{
    let v = time_value(unix);
    let r = vec![
        (v / 0x100_0000) as u8,
        (v / 0x1_0000 % 0x100) as u8,
        (v / 0x100 % 0x100) as u8,
        (v % 0x100) as u8,
    ];
    assert(r@ =~= be_bytes(v));
    r
}

/// The reply for the current time
pub fn reply() -> (r: Vec<u8>)
    ensures
        r@.len() == 4,
{
    reply_at(now_unix())
}

} // verus!
