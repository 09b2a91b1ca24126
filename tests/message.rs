use simple_protocols::services::message::{respond_tcp, respond_udp, v1, v2, Message};

fn a(username: &[u8], terminal: &[u8], message: &[u8]) -> Message {
    Message::A { username: username.to_vec(), terminal: terminal.to_vec(), message: message.to_vec() }
}

fn b(fields: [&str; 7]) -> Message {
    Message::B {
        recipient: fields[0].to_string(),
        recip_term: fields[1].to_string(),
        message: fields[2].to_string(),
        sender: fields[3].to_string(),
        sender_term: fields[4].to_string(),
        cookie: fields[5].to_string(),
        signature: fields[6].to_string(),
    }
}

fn check(parsed: Result<Message, &str>, expected: Result<Message, &str>, msg: &[u8]) {
    match (parsed, expected) {
        (Ok(parsed), Ok(res)) => assert_eq!(
            parsed, res,
            "message parsed incorrectly: parsed {:?} as {parsed:?}, but expected {res:?}",
            msg
        ),
        (Err(err), Err(res)) => assert!(
            err.contains(res),
            "message parsing failed incorrectly: got error {err:?}, but expected error containing {res:?}",
        ),
        (Ok(parsed), Err(res)) => panic!(
            "message parsing succeeded unexpectedly: parsed {:?} as {parsed:?}, but expected error containing {res}",
            msg
        ),
        (Err(err), Ok(res)) => {
            panic!("message parsing failed unexpectedly: expected {res:?}, but got {err:?}")
        }
    }
}

#[test]
fn v1_parse() {
    let cases: Vec<(&[u8], Result<Message, &str>)> = vec![
        (
            b"chris\0\0Hi\r\nHow about lunch?\0",
            Ok(a(b"chris", b"", b"Hi\r\nHow about lunch?")),
        ),
        (
            b"\x12\x34\x56\0\x78\x90\0\xab\xcd\xef\0",
            Ok(a(b"\x12\x34\x56", b"\x78\x90", b"\xab\xcd\xef")),
        ),
        (b"\0\0\0", Ok(a(b"", b"", b""))),
        (
            b"chris\0\0Hi\r\nHow about lunch?\0sandy\0console\0910806121325\0\0",
            Err("extra data"),
        ),
        (
            b"chris\0\0Hi\r\nHow about lunch?\0chris\0\0Hi\r\nHow about lunch?\0",
            Err("extra data"),
        ),
        (b"chris\0\0Hi\r\nHow about lunch?", Err("null")),
        (b"chris\0", Err("missing message")),
        (b"chris", Err("missing terminal")),
        (b"", Err("empty")),
    ];

    for (msg, res) in cases {
        check(v1::parse(msg), res, msg);
    }
}

#[test]
fn v2_parse() {
    let cases: Vec<(&[u8], Result<Message, &str>)> = vec![
        (
            b"chris\0\0Hi\r\nHow about lunch?\0sandy\0console\0910806121325\0\0",
            Ok(b(["chris", "", "Hi\r\nHow about lunch?", "sandy", "console", "910806121325", ""])),
        ),
        (b"chris\0\0Hi\r\nHow about lunch?\0sandy\0console\0910806121325\0", Err("null")),
        (b"chris\0\0Hi\r\nHow about lunch?\0", Err("missing sender")),
        (b"\0\0\0\0\0\0\0", Ok(b(["", "", "", "", "", "", ""]))),
        (b"\x12\0\x34\0\x56\0\x78\0\x89\0\xab\0\xcd\0", Err("error decoding")),
        (
            b"chris\0\0Hi\r\nHow about lunch?\0sandy\0console\0910806121325\0\0chris\0\0Hi\r\nHow about lunch?\0sandy\0console\0910806121325\0\0",
            Err("extra data"),
        ),
    ];

    for (msg, res) in cases {
        check(v2::parse(msg), res, msg);
    }
}

#[test]
fn v1_exact_errors() {
    assert_eq!(v1::parse(b""), Err("message is empty"));
    assert_eq!(v1::parse(b"chris"), Err("missing terminal name"));
    assert_eq!(v1::parse(b"a\0b"), Err("missing message"));
    assert_eq!(v1::parse(b"a\0b\0c"), Err("no final null terminator"));
    assert_eq!(v1::parse(b"a\0b\0c\0d"), Err("extra data after message"));
    assert_eq!(v1::parse(b"a\0b\0c\0\0trailing"), Ok(a(b"a", b"b", b"c")));
}

#[test]
fn v2_exact_errors() {
    assert_eq!(v2::parse(b""), Err("missing recipient terminal name"));
    assert_eq!(v2::parse(b"\x89"), Err("error decoding recipient"));
    assert_eq!(v2::parse(b"a\0\x89\0"), Err("error decoding recipient terminal name"));
    assert_eq!(v2::parse(b"a\0b\0c\0d\0e\0f"), Err("missing signature"));
    assert_eq!(v2::parse(b"a\0b\0c\0d\0e\0f\0g"), Err("no final null terminator"));
    assert_eq!(
        v2::parse(b"\xe4\0b\0c\0d\0e\0f\0g\0\0"),
        Ok(b(["\u{e4}", "b", "c", "d", "e", "f", "g"]))
    );
}

#[test]
fn dispatch_by_version_byte() {
    assert_eq!(respond_tcp(b""), (Err("empty data"), None));
    assert_eq!(respond_udp(b"C..."), (Err("invalid protocol version"), None));

    let datagram = b"Achris\0\0Hi\0";
    assert_eq!(
        respond_udp(datagram),
        (Ok(a(b"chris", b"", b"Hi")), Some(datagram.to_vec()))
    );
    assert_eq!(respond_tcp(datagram), (Ok(a(b"chris", b"", b"Hi")), None));
    assert_eq!(respond_udp(b"Achris"), (Err("missing terminal name"), None));

    let v2_msg = b"Bchris\0\0Hi\0sandy\0console\0123\0\0";
    let parsed = b(["chris", "", "Hi", "sandy", "console", "123", ""]);
    assert_eq!(respond_tcp(v2_msg), (Ok(parsed.clone()), Some(b"+\0".to_vec())));
    assert_eq!(respond_udp(v2_msg), (Ok(parsed), Some(b"+\0".to_vec())));
    assert_eq!(
        respond_tcp(b"Bchris\0"),
        (Err("missing message"), Some(b"-missing message\0".to_vec()))
    );
    assert_eq!(respond_udp(b"Bchris\0"), (Err("missing message"), None));

    let no_recipient = b"B\0\0Hi\0sandy\0console\0123\0\0";
    assert_eq!(respond_udp(no_recipient).1, None);
}

#[test]
fn messages_describe_themselves() {
    assert_eq!(a(b"chris", b"", b"Hi").describe(), "to 'chris' at '': 'Hi'");
    assert_eq!(a(b"\xff", b"tty", b"x").describe(), "to '\\xff' at 'tty': 'x'");
    assert_eq!(
        b(["chris", "", "Hi", "sandy", "console", "123", "s"]).describe(),
        "to 'chris' at '': 'Hi' from 'sandy' at 'console' (with cookie '123', signed 's')"
    );
}
