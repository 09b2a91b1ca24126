//! The Character Generator Protocol (RFC 864)

use vstd::prelude::*;

use crate::services::{ServiceInfo, SimpleService};
use crate::utils::random_in;

verus! {

pub const PORT: u16 = 19;

pub struct Service;

impl SimpleService for Service {
    open spec fn info() -> ServiceInfo {
        ServiceInfo { name: "chargen", port: PORT, tcp: true, udp: true, needs_hostname: false }
    }

    fn descriptor() -> (r: ServiceInfo) {
        ServiceInfo { name: "chargen", port: PORT, tcp: true, udp: true, needs_hostname: false }
    }
}

/// Characters on a line
pub const LINE_LEN: usize = 72;

/// Bytes on a line, CR LF included
pub const LINE_BYTES: usize = 74;

/// The printable ASCII characters, `!` to `~`, then space
pub const PATTERN_LEN: usize = 95;

/// Longest datagram sent
pub const MAX_DATAGRAM: usize = 511;

/// Character `j` of the endlessly repeated pattern
pub open spec fn pattern_byte(j: nat) -> u8 {
    let k = j % (PATTERN_LEN as nat);
    if k < 94 {
        (0x21 + k) as u8
    } else {
        0x20
    }
}

/// Byte `p` of the character stream: line `i` holds 72 characters of the
/// pattern starting at its `i`-th, then CR LF
pub open spec fn stream_byte(p: nat) -> u8 {
    let col = p % (LINE_BYTES as nat);
    if col < LINE_LEN {
        pattern_byte(p / (LINE_BYTES as nat) + col)
    } else if col == LINE_LEN {
        0x0d
    } else {
        0x0a
    }
}

fn pattern_at(j: usize) -> (r: u8)
    ensures
        r == pattern_byte(j as nat),
{
    let k = j % PATTERN_LEN;
    if k < 94 {
        0x21 + k as u8
    } else {
        0x20
    }
}

/// Line `i` of the character stream sent over TCP, whose lines cycle through
/// the 72 starting offsets
pub fn line(i: usize) -> (r: Vec<u8>)
    requires
        i < LINE_LEN,
    ensures
        r@ == Seq::new(LINE_BYTES as nat, |k: int| stream_byte((i * LINE_BYTES + k) as nat)),
{
    let mut r: Vec<u8> = Vec::new();
    let mut k: usize = 0;
    while k < LINE_LEN
        invariant
            i < LINE_LEN,
            k <= LINE_LEN,
            r@ =~= Seq::new(k as nat, |m: int| stream_byte((i * LINE_BYTES + m) as nat)),
        decreases LINE_LEN - k,
    {
        r.push(pattern_at(i + k));
        proof {
            lemma_stream_line(i as nat, k as nat);
        }
        k = k + 1;
    }
    r.push(0x0d);
    proof {
        lemma_stream_line(i as nat, LINE_LEN as nat);
    }
    r.push(0x0a);
    proof {
        lemma_stream_line(i as nat, (LINE_LEN + 1) as nat);
    }
    r
}

proof fn lemma_stream_line(i: nat, k: nat)
    requires
        k < LINE_BYTES,
    ensures
        ((i * LINE_BYTES + k) as nat) / (LINE_BYTES as nat) == i,
        ((i * LINE_BYTES + k) as nat) % (LINE_BYTES as nat) == k,
        k < LINE_LEN ==> stream_byte((i * LINE_BYTES + k) as nat) == pattern_byte(i + k),
        k == LINE_LEN ==> stream_byte((i * LINE_BYTES + k) as nat) == 0x0d,
        k == LINE_LEN + 1 ==> stream_byte((i * LINE_BYTES + k) as nat) == 0x0a,
{
    vstd::arithmetic::div_mod::lemma_fundamental_div_mod_converse(
        (i * LINE_BYTES + k) as int,
        LINE_BYTES as int,
        i as int,
        k as int,
    );
}

/// The first `len` bytes of the character stream, sent as one datagram
pub fn datagram(len: usize) -> (r: Vec<u8>)
    requires
        len <= MAX_DATAGRAM,
    ensures
        r@ == Seq::new(len as nat, |p: int| stream_byte(p as nat)),
{
    let mut r: Vec<u8> = Vec::new();
    let mut p: usize = 0;
    while p < len
        invariant
            p <= len <= MAX_DATAGRAM,
            r@ =~= Seq::new(p as nat, |q: int| stream_byte(q as nat)),
        decreases len - p,
    {
        let col = p % LINE_BYTES;
        let b = if col < LINE_LEN {
            pattern_at(p / LINE_BYTES + col)
        } else if col == LINE_LEN {
            0x0d
        } else {
            0x0a
        };
        r.push(b);
        p = p + 1;
    }
    r
}

/// The reply to a datagram: between 1 and 511 bytes of the character
/// stream, the length drawn at random
pub fn udp_reply() -> (r: Vec<u8>)
    ensures
        1 <= r@.len() <= MAX_DATAGRAM,
        r@ == Seq::new(r@.len(), |p: int| stream_byte(p as nat)),
{
    let len = random_in(1, MAX_DATAGRAM + 1);
    datagram(len)
}

} // verus!
