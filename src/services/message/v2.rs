//! The Message Send Protocol, version 2 (RFC 1312)

use vstd::prelude::*;
use vstd::utf8::encode_utf8;

use super::Message;
use crate::utils::{
    decode_iso_8859_1,
    latin1_chars,
    latin1_decodable,
    push_bytes,
    slice_range,
    split_bytes,
    split_spec,
    views,
};

verus! {

/// Number of text fields of a version 2 message
pub const FIELDS: usize = 7;

/// The error for field `k` being absent
pub open spec fn missing_spec(k: int) -> &'static str {
    if k == 0 {
        "missing recipient"
    } else if k == 1 {
        "missing recipient terminal name"
    } else if k == 2 {
        "missing message"
    } else if k == 3 {
        "missing sender"
    } else if k == 4 {
        "missing sender terminal"
    } else if k == 5 {
        "missing cookie"
    } else {
        "missing signature"
    }
}

/// The error for field `k` not being ISO/IEC 8859-1 text
pub open spec fn undecodable_spec(k: int) -> &'static str {
    if k == 0 {
        "error decoding recipient"
    } else if k == 1 {
        "error decoding recipient terminal name"
    } else if k == 2 {
        "error decoding message"
    } else if k == 3 {
        "error decoding sender"
    } else if k == 4 {
        "error decoding sender terminal"
    } else if k == 5 {
        "error decoding cookie"
    } else {
        "error decoding signature"
    }
}

fn missing(k: usize) -> (r: &'static str)
    ensures
        r == missing_spec(k as int),
{
    if k == 0 {
        "missing recipient"
    } else if k == 1 {
        "missing recipient terminal name"
    } else if k == 2 {
        "missing message"
    } else if k == 3 {
        "missing sender"
    } else if k == 4 {
        "missing sender terminal"
    } else if k == 5 {
        "missing cookie"
    } else {
        "missing signature"
    }
}

fn undecodable(k: usize) -> (r: &'static str)
    ensures
        r == undecodable_spec(k as int),
{
    if k == 0 {
        "error decoding recipient"
    } else if k == 1 {
        "error decoding recipient terminal name"
    } else if k == 2 {
        "error decoding message"
    } else if k == 3 {
        "error decoding sender"
    } else if k == 4 {
        "error decoding sender terminal"
    } else if k == 5 {
        "error decoding cookie"
    } else {
        "error decoding signature"
    }
}

/// The fields from the `k`-th on, decoded in order; the first field that is
/// absent or cannot be decoded gives the error
pub open spec fn fields_spec(parts: Seq<Seq<u8>>, k: nat) -> Result<Seq<Seq<char>>, &'static str>
    decreases FIELDS - k,
{
    if k >= FIELDS {
        Ok(seq![])
    } else if parts.len() <= k {
        Err(missing_spec(k as int))
    } else if !latin1_decodable(parts[k as int]) {
        Err(undecodable_spec(k as int))
    } else {
        match fields_spec(parts, k + 1) {
            Ok(rest) => Ok(seq![latin1_chars(parts[k as int])] + rest),
            Err(e) => Err(e),
        }
    }
}

/// The seven text fields a version 2 body holds, or why it is refused: the
/// body is cut at each NUL, each field is decoded as ISO/IEC 8859-1, and
/// the last field must be followed by a NUL and an empty piece
pub open spec fn parse_spec(body: Seq<u8>) -> Result<Seq<Seq<char>>, &'static str> {
    let parts = split_spec(body, 0);
    match fields_spec(parts, 0) {
        Err(e) => Err(e),
        Ok(fields) => if parts.len() < 8 {
            Err("no final null terminator")
        } else if parts[7].len() != 0 {
            Err("extra data after message")
        } else {
            Ok(fields)
        },
    }
}

/// Whether `r` is what parsing `body` gives
pub open spec fn parsed(body: Seq<u8>, r: Result<Message, &'static str>) -> bool {
    match (r, parse_spec(body)) {
        (
            Ok(Message::B { recipient, recip_term, message, sender, sender_term, cookie, signature }),
            Ok(f),
        ) => f == seq![
            recipient@,
            recip_term@,
            message@,
            sender@,
            sender_term@,
            cookie@,
            signature@,
        ],
        (Err(e), Err(f)) => e == f,
        _ => false,
    }
}

/// The acknowledgement of an accepted message: `+` and a NUL
pub open spec fn ack() -> Seq<u8> {
    seq![0x2b, 0]
}

/// The reply to a refused message: `-`, the reason and a NUL
pub open spec fn nak(reason: &str) -> Seq<u8> {
    seq![0x2d] + encode_utf8(reason@) + seq![0]
}

/// What handling a version 2 message over TCP gives: every message gets a
/// reply, an acknowledgement or the reason it was refused
pub open spec fn handled_tcp(data: Seq<u8>, r: (Result<Message, &'static str>, Option<Vec<u8>>)) -> bool {
    &&& parsed(data.drop_first(), r.0)
    &&& r.1 is Some
    &&& r.0 is Ok ==> r.1->0@ == ack()
    &&& r.0 matches Err(reason) ==> r.1->0@ == nak(reason)
}

/// What handling a version 2 datagram gives: an accepted message with a
/// recipient is acknowledged, anything else gets no reply
pub open spec fn handled_udp(data: Seq<u8>, r: (Result<Message, &'static str>, Option<Vec<u8>>)) -> bool {
    &&& parsed(data.drop_first(), r.0)
    &&& (r.0 matches Ok(Message::B { recipient, .. }) && recipient@.len() > 0) ==> (r.1 matches Some(
        reply,
    ) && reply@ == ack())
    &&& !(r.0 matches Ok(Message::B { recipient, .. }) && recipient@.len() > 0) ==> r.1 is None
}

fn ack_bytes() -> (r: Vec<u8>)
    ensures
        r@ == ack(),
{
    let r = vec![0x2b, 0];
    assert(r@ =~= ack());
    r
}

/// Handles a version 2 message received over TCP; `data` starts with the
/// version byte
pub fn handle_tcp(data: &[u8]) -> (r: (Result<Message, &'static str>, Option<Vec<u8>>))
    requires
        data@.len() >= 1,
    ensures
        handled_tcp(data@, r),
{
    let body = slice_range(data, 1, data.len());
    assert(body@ =~= data@.drop_first());
    match parse(body) {
        Ok(msg) => (Ok(msg), Some(ack_bytes())),
        Err(err) => {
            let mut reply: Vec<u8> = vec![0x2d];
            push_bytes(&mut reply, err.as_bytes());
            reply.push(0);
            assert(reply@ =~= nak(err));
            (Err(err), Some(reply))
        },
    }
}

/// Handles a version 2 datagram; `data` starts with the version byte
pub fn handle_udp(data: &[u8]) -> (r: (Result<Message, &'static str>, Option<Vec<u8>>))
    requires
        data@.len() >= 1,
    ensures
        handled_udp(data@, r),
{
    let body = slice_range(data, 1, data.len());
    assert(body@ =~= data@.drop_first());
    match parse(body) {
        Ok(msg) => {
            let named = match &msg {
                Message::B { recipient, .. } => !recipient.as_str().is_empty(),
                Message::A { .. } => false,
            };
            if named {
                (Ok(msg), Some(ack_bytes()))
            } else {
                (Ok(msg), None)
            }
        },
        Err(err) => (Err(err), None),
    }
}

proof fn lemma_fields_len(parts: Seq<Seq<u8>>, k: nat)
    requires
        k <= FIELDS,
    ensures
        fields_spec(parts, k) matches Ok(f) ==> f.len() == FIELDS - k,
    decreases FIELDS - k,
{
    if k < FIELDS {
        lemma_fields_len(parts, k + 1);
    }
}

/// The last string of `v`, removed from it
fn take_last(v: &mut Vec<String>) -> (r: String)
    requires
        old(v)@.len() > 0,
    ensures
        final(v)@ == old(v)@.drop_last(),
        r == old(v)@.last(),
{
    v.pop().unwrap()
}

/// Parses the body of a version 2 message: recipient, recipient terminal,
/// message, sender, sender terminal, cookie and signature, each ended by a NUL
pub fn parse(message: &[u8]) -> (r: Result<Message, &'static str>)
    ensures
        parsed(message@, r),
{
    let parts = split_bytes(message, 0);
    let ghost p = views(parts@);
    assert(p.len() == parts@.len());
    proof {
        crate::utils::lemma_split_nonempty(message@, 0);
    }
    let mut fields: Vec<String> = Vec::new();
    let mut k: usize = 0;
    while k < FIELDS
        invariant
            k <= FIELDS,
            p == views(parts@),
            p == split_spec(message@, 0),
            fields@.len() == k,
            forall|i: int| 0 <= i < k ==> #[trigger] fields@[i]@ == latin1_chars(p[i]),
            forall|i: int| 0 <= i < k ==> i < p.len() && latin1_decodable(#[trigger] p[i]),
            fields_spec(p, 0) == match fields_spec(p, k as nat) {
                Ok(rest) => Ok(fields@.map_values(|s: String| s@) + rest),
                Err(e) => Err::<Seq<Seq<char>>, &'static str>(e),
            },
        decreases FIELDS - k,
    {
        if k >= parts.len() {
            return Err(missing(k));
        }
        assert(p[k as int] == parts@[k as int]@);
        match decode_iso_8859_1(parts[k].as_slice()) {
            Ok(text) => {
                let ghost before = fields@;
                fields.push(text);
                assert(fields@.map_values(|s: String| s@) =~= before.map_values(|s: String| s@)
                    + seq![latin1_chars(p[k as int])]);
                proof {
                    match fields_spec(p, (k + 1) as nat) {
                        Ok(rest) => {
                            assert(before.map_values(|s: String| s@) + (seq![latin1_chars(p[k as int])] + rest)
                                =~= fields@.map_values(|s: String| s@) + rest);
                        },
                        Err(_) => {},
                    }
                }
            },
            Err(_) => {
                return Err(undecodable(k));
            },
        }
        k = k + 1;
    }
    assert(fields@.map_values(|s: String| s@) + seq![] =~= fields@.map_values(|s: String| s@));
    if parts.len() < 8 {
        return Err("no final null terminator");
    }
    if parts[7].len() != 0 {
        assert(p[7] == parts@[7]@);
        return Err("extra data after message");
    }
    let ghost f = fields@.map_values(|s: String| s@);
    let signature = take_last(&mut fields);
    let cookie = take_last(&mut fields);
    let sender_term = take_last(&mut fields);
    let sender = take_last(&mut fields);
    let message = take_last(&mut fields);
    let recip_term = take_last(&mut fields);
    let recipient = take_last(&mut fields);
    assert(f =~= seq![
        recipient@,
        recip_term@,
        message@,
        sender@,
        sender_term@,
        cookie@,
        signature@,
    ]);
    Ok(Message::B { recipient, recip_term, message, sender, sender_term, cookie, signature })
}

} // verus!
