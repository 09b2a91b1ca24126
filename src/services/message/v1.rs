//! The Message Send Protocol, version 1 (RFC 1159)

use vstd::prelude::*;

use super::Message;
use crate::utils::{copy_bytes, slice_range, split_bytes, split_spec, views};

verus! {

/// The username, terminal and message a version 1 body holds, or why it is
/// refused: the body is cut at each NUL; it must have a NUL after each of
/// the three fields, and nothing but possibly further fields after the third
pub open spec fn parse_spec(body: Seq<u8>) -> Result<(Seq<u8>, Seq<u8>, Seq<u8>), &'static str> {
    let parts = split_spec(body, 0);
    if body.len() == 0 {
        Err("message is empty")
    } else if parts.len() < 2 {
        Err("missing terminal name")
    } else if parts.len() < 3 {
        Err("missing message")
    } else if parts.len() < 4 {
        Err("no final null terminator")
    } else if parts[3].len() != 0 {
        Err("extra data after message")
    } else {
        Ok((parts[0], parts[1], parts[2]))
    }
}

/// Whether `r` is what parsing `body` gives
pub open spec fn parsed(body: Seq<u8>, r: Result<Message, &'static str>) -> bool {
    match (r, parse_spec(body)) {
        (Ok(Message::A { username, terminal, message }), Ok((u, t, m))) => username@ == u
            && terminal@ == t && message@ == m,
        (Err(e), Err(f)) => e == f,
        _ => false,
    }
}

/// What handling a version 1 message over TCP gives: no reply is written
pub open spec fn handled_tcp(data: Seq<u8>, r: (Result<Message, &'static str>, Option<Vec<u8>>)) -> bool {
    parsed(data.drop_first(), r.0) && r.1 is None
}

/// What handling a version 1 datagram gives: an accepted message is sent
/// back unchanged, a refused one gets no reply
pub open spec fn handled_udp(data: Seq<u8>, r: (Result<Message, &'static str>, Option<Vec<u8>>)) -> bool {
    &&& parsed(data.drop_first(), r.0)
    &&& r.0 is Ok ==> (r.1 matches Some(reply) && reply@ == data)
    &&& r.0 is Err ==> r.1 is None
}

/// Handles a version 1 message received over TCP; `data` starts with the
/// version byte
pub fn handle_tcp(data: &[u8]) -> (r: (Result<Message, &'static str>, Option<Vec<u8>>))
    requires
        data@.len() >= 1,
    ensures
        handled_tcp(data@, r),
{
    let body = slice_range(data, 1, data.len());
    assert(body@ =~= data@.drop_first());
    (parse(body), None)
}

/// Handles a version 1 datagram; `data` starts with the version byte
pub fn handle_udp(data: &[u8]) -> (r: (Result<Message, &'static str>, Option<Vec<u8>>))
    requires
        data@.len() >= 1,
    ensures
        handled_udp(data@, r),
{
    let body = slice_range(data, 1, data.len());
    assert(body@ =~= data@.drop_first());
    match parse(body) {
        Ok(msg) => (Ok(msg), Some(copy_bytes(data))),
        Err(err) => (Err(err), None),
    }
}

/// Parses the body of a version 1 message: username, terminal and message,
/// each ended by a NUL
pub fn parse(message: &[u8]) -> (r: Result<Message, &'static str>)
    ensures
        parsed(message@, r),
{
    if message.len() == 0 {
        return Err("message is empty");
    }
    let mut parts = split_bytes(message, 0);
    let ghost p = views(parts@);
    assert(p.len() == parts@.len());
    if parts.len() < 2 {
        return Err("missing terminal name");
    }
    if parts.len() < 3 {
        return Err("missing message");
    }
    if parts.len() < 4 {
        return Err("no final null terminator");
    }
    if parts[3].len() != 0 {
        assert(p[3] == parts@[3]@);
        return Err("extra data after message");
    }
    assert(p[0] == parts@[0]@ && p[1] == parts@[1]@ && p[2] == parts@[2]@);
    let ghost p0 = parts@[0]@;
    let ghost p1 = parts@[1]@;
    let ghost p2 = parts@[2]@;
    parts.truncate(3);
    let message = parts.pop().unwrap();
    let terminal = parts.pop().unwrap();
    let username = parts.pop().unwrap();
    assert(username@ == p0 && terminal@ == p1 && message@ == p2);
    Ok(Message::A { username, terminal, message })
}

} // verus!
