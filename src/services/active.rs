//! The Active Users Protocol (RFC 866)

use vstd::prelude::*;
use vstd::utf8::encode_utf8;

use crate::services::{ServiceInfo, SimpleService};
use crate::utils::{push_str, random_in};

verus! {

pub const PORT: u16 = 11;

pub struct Service;

impl SimpleService for Service {
    open spec fn info() -> ServiceInfo {
        ServiceInfo { name: "active", port: PORT, tcp: true, udp: true, needs_hostname: false }
    }

    fn descriptor() -> (r: ServiceInfo) {
        ServiceInfo { name: "active", port: PORT, tcp: true, udp: true, needs_hostname: false }
    }
}

/// Fewest users listed when there are enough
pub const MIN_LISTED: usize = 5;

/// Listing draws fewer than this many users
pub const MAX_LISTED: usize = 500;

/// Relies on `rand::seq::index::sample` on the thread-local generator:
/// `amount` distinct indices below `len`, in random order.
#[verifier::external_body]
fn sample_indices(len: usize, amount: usize) -> (r: Vec<usize>)
    requires
        amount <= len,
    ensures
        r@.len() == amount,
        forall|i: int| 0 <= i < r@.len() ==> #[trigger] r@[i] < len,
        forall|i: int, j: int| 0 <= i < j < r@.len() ==> r@[i] != r@[j],
{
    rand::seq::index::sample(&mut rand::rng(), len, amount).into_vec()
}

/// The listing of the users of `names` picked by `picks`, in that order,
/// each followed by CR LF
pub open spec fn listing_spec(names: Seq<String>, picks: Seq<usize>) -> Seq<u8>
    decreases picks.len(),
{
    if picks.len() == 0 {
        seq![]
    } else {
        listing_spec(names, picks.drop_last()) + encode_utf8(names[picks.last() as int]@) + seq![
            0x0d,
            0x0a,
        ]
    }
}

/// Lists the users of `names` picked by `picks`, in that order
pub fn listing(names: &Vec<String>, picks: &Vec<usize>) -> (r: Vec<u8>)
    requires
        forall|i: int| 0 <= i < picks@.len() ==> #[trigger] picks@[i] < names@.len(),
    ensures
        r@ == listing_spec(names@, picks@),
{
    let mut r: Vec<u8> = Vec::new();
    let mut i: usize = 0;
    while i < picks.len()
        invariant
            i <= picks@.len(),
            forall|k: int| 0 <= k < picks@.len() ==> #[trigger] picks@[k] < names@.len(),
            r@ == listing_spec(names@, picks@.take(i as int)),
        decreases picks@.len() - i,
    {
        let ghost before = r@;
        push_str(&mut r, names[picks[i]].as_str());
        r.push(0x0d);
        r.push(0x0a);
        assert(picks@.take(i + 1).drop_last() =~= picks@.take(i as int));
        assert(r@ =~= before + encode_utf8(names@[picks@[i as int] as int]@) + seq![0x0d, 0x0a]);
        i = i + 1;
    }
    assert(picks@.take(i as int) =~= picks@);
    r
}

/// A listing of distinct users of `names`, as many as a number drawn from
/// 5 to 499, or all of them if there are fewer
pub fn reply(names: &Vec<String>) -> (r: Vec<u8>)
    ensures
        exists|picks: Seq<usize>|
            {
                &&& MIN_LISTED <= picks.len() < MAX_LISTED || picks.len() == names@.len() < MAX_LISTED
                &&& picks.len() <= names@.len()
                &&& forall|i: int| 0 <= i < picks.len() ==> #[trigger] picks[i] < names@.len()
                &&& forall|i: int, j: int| 0 <= i < j < picks.len() ==> picks[i] != picks[j]
                &&& r@ == listing_spec(names@, picks)
            },
{
    let count = random_in(MIN_LISTED, MAX_LISTED);
    let amount = if count < names.len() {
        count
    } else {
        names.len()
    };
    let picks = sample_indices(names.len(), amount);
    let r = listing(names, &picks);
    assert(picks@.len() <= names@.len());
    r
}

} // verus!
