//! The Message Send Protocol (RFC 1159 and RFC 1312)

pub mod v1;
pub mod v2;

use vstd::prelude::*;

use vstd::utf8::{decode_utf8, valid_utf8};

use crate::services::{ServiceInfo, SimpleService};
use crate::utils::{ascii_ish, FmtMaybeUtf8};

verus! {

pub const PORT: u16 = 18;

pub struct Service;

impl SimpleService for Service {
    open spec fn info() -> ServiceInfo {
        ServiceInfo { name: "message", port: PORT, tcp: true, udp: true, needs_hostname: false }
    }

    fn descriptor() -> (r: ServiceInfo) {
        ServiceInfo { name: "message", port: PORT, tcp: true, udp: true, needs_hostname: false }
    }
}

/// A message received over the Message Send Protocol
#[derive(Debug, Clone, PartialEq, Eq)]
pub enum Message {
    /// Version 1: raw bytes
    A { username: Vec<u8>, terminal: Vec<u8>, message: Vec<u8> },
    /// Version 2: ISO/IEC 8859-1 text
    B {
        recipient: String,
        recip_term: String,
        message: String,
        sender: String,
        sender_term: String,
        cookie: String,
        signature: String,
    },
}

/// Raw bytes as text: what they encode if they are UTF-8, their ASCII-ish
/// form if not
pub open spec fn shown(b: Seq<u8>) -> Seq<char> {
    if valid_utf8(b) {
        decode_utf8(b)
    } else {
        ascii_ish(b)
    }
}

pub open spec fn describe_spec(m: Message) -> Seq<char> {
    match m {
        Message::A { username, terminal, message } => "to '"@ + shown(username@) + "' at '"@
            + shown(terminal@) + "': '"@ + shown(message@) + "'"@,
        Message::B { recipient, recip_term, message, sender, sender_term, cookie, signature } =>
            "to '"@ + recipient@ + "' at '"@ + recip_term@ + "': '"@ + message@ + "' from '"@
            + sender@ + "' at '"@ + sender_term@ + "' (with cookie '"@ + cookie@ + "', signed '"@
            + signature@ + "')"@,
    }
}

impl Message {
    /// The message as one line of text, for the log
    pub fn describe(&self) -> (r: String)
        ensures
            r@ == describe_spec(*self),
    {
        let mut out = String::new();
        match self {
            Message::A { username, terminal, message } => {
                out.append("to '");
                out.append(FmtMaybeUtf8(username.as_slice()).display().as_str());
                out.append("' at '");
                out.append(FmtMaybeUtf8(terminal.as_slice()).display().as_str());
                out.append("': '");
                out.append(FmtMaybeUtf8(message.as_slice()).display().as_str());
                out.append("'");
            },
            Message::B { recipient, recip_term, message, sender, sender_term, cookie, signature } => {
                out.append("to '");
                out.append(recipient.as_str());
                out.append("' at '");
                out.append(recip_term.as_str());
                out.append("': '");
                out.append(message.as_str());
                out.append("' from '");
                out.append(sender.as_str());
                out.append("' at '");
                out.append(sender_term.as_str());
                out.append("' (with cookie '");
                out.append(cookie.as_str());
                out.append("', signed '");
                out.append(signature.as_str());
                out.append("')");
            },
        }
        out
    }
}

/// Version byte of the first version of the protocol (`A`)
pub const VERSION_1: u8 = 0x41;

/// Version byte of the second version of the protocol (`B`)
pub const VERSION_2: u8 = 0x42;

/// Handles one chunk of message data received over TCP: the parsed message
/// or why it was refused, and the reply to write back, if any
pub fn respond_tcp(data: &[u8]) -> (r: (Result<Message, &'static str>, Option<Vec<u8>>))
    ensures
        data@.len() == 0 ==> r.0 == Err::<Message, &'static str>("empty data") && r.1 is None,
        data@.len() > 0 && data@[0] == VERSION_1 ==> v1::handled_tcp(data@, r),
        data@.len() > 0 && data@[0] == VERSION_2 ==> v2::handled_tcp(data@, r),
        data@.len() > 0 && data@[0] != VERSION_1 && data@[0] != VERSION_2 ==> r.0 == Err::<
            Message,
            &'static str,
        >("invalid protocol version") && r.1 is None,
{
    if data.len() == 0 {
        (Err("empty data"), None)
    } else if data[0] == VERSION_1 {
        v1::handle_tcp(data)
    } else if data[0] == VERSION_2 {
        v2::handle_tcp(data)
    } else {
        (Err("invalid protocol version"), None)
    }
}

/// Handles one datagram of message data: the parsed message or why it was
/// refused, and the reply datagram to send back, if any
pub fn respond_udp(data: &[u8]) -> (r: (Result<Message, &'static str>, Option<Vec<u8>>))
    ensures
        data@.len() == 0 ==> r.0 == Err::<Message, &'static str>("empty data") && r.1 is None,
        data@.len() > 0 && data@[0] == VERSION_1 ==> v1::handled_udp(data@, r),
        data@.len() > 0 && data@[0] == VERSION_2 ==> v2::handled_udp(data@, r),
        data@.len() > 0 && data@[0] != VERSION_1 && data@[0] != VERSION_2 ==> r.0 == Err::<
            Message,
            &'static str,
        >("invalid protocol version") && r.1 is None,
{
    if data.len() == 0 {
        (Err("empty data"), None)
    } else if data[0] == VERSION_1 {
        v1::handle_udp(data)
    } else if data[0] == VERSION_2 {
        v2::handle_udp(data)
    } else {
        (Err("invalid protocol version"), None)
    }
}

} // verus!
