use simple_protocols::utils::{decode_iso_8859_1 as decode, split_bytes, FmtAsciiIsh, FmtMaybeUtf8};

#[test]
fn decode_iso_8859_1() {
    assert_eq!(decode(b"Hello, World!"), Ok("Hello, World!".into()));
    assert_eq!(decode(b"\xa1Hello, World!"), Ok("¡Hello, World!".into()));
    // 'ś' is [0xc5, 0x9b], where 0xc5 in ISO 8859/1 is 'Å', so the error is on 0x9b
    assert_eq!(decode("Witaj świecie!".as_bytes()), Err(7));
    assert_eq!(decode("🏳️‍🌈".as_bytes()), Err(1));
    assert_eq!(decode(&[][..]), Ok("".into()));
    assert_eq!(decode("äöü".as_bytes()), Ok("Ã¤Ã¶Ã¼".into()));
    assert_eq!(decode(&std::array::from_fn::<_, 256, _>(|i| i as u8)[..]), Err(0));
    assert_eq!(
        decode(&std::array::from_fn::<_, { 256 - b' ' as usize }, _>(|i| i as u8 + b' ')[..]),
        Err((0x7f - b' ') as usize)
    );
    assert_eq!(
        decode(&(0x20..=0x7e).chain(0xa0..=0xff).collect::<Vec<_>>()),
        Ok([
            " !\"#$%&'()*+,-./",
            "0123456789:;<=>?",
            "@ABCDEFGHIJKLMNO",
            "PQRSTUVWXYZ[\\]^_",
            "`abcdefghijklmno",
            "pqrstuvwxyz{|}~",
            "\u{a0}¡¢£¤¥¦§¨©ª«¬\u{ad}®¯",
            "°±²³´µ¶·¸¹º»¼½¾¿",
            "ÀÁÂÃÄÅÆÇÈÉÊËÌÍÎÏ",
            "ÐÑÒÓÔÕÖ×ØÙÚÛÜÝÞß",
            "àáâãäåæçèéêëìíîï",
            "ðñòóôõö÷øùúûüýþÿ",
        ]
        .concat())
    );
}

#[test]
fn decode_iso_8859_1_accepts_ascii_controls() {
    assert_eq!(decode(b"\x12\0\x7f"), Ok("\u{12}\0\u{7f}".into()));
    assert_eq!(decode(b"\xe9\x7f"), Err(1));
}

#[test]
fn fmt_ascii_ish_display() {
    assert_eq!(format!("a {} c", FmtAsciiIsh(b"b").display()), r"a b c");
    assert_eq!(format!("a {} c", FmtAsciiIsh(b"123").display()), r"a 123 c");
    assert_eq!(format!("a {} c", FmtAsciiIsh(b"\0b").display()), r"a \0b c");
    assert_eq!(format!("a {} c", FmtAsciiIsh(&[0xff, 0xee][..]).display()), r"a \xff\xee c");
    assert_eq!(
        format!("a {} c", FmtAsciiIsh(b"\xaa \n \r \t \\ \x00 \0 \' ' \"").display()),
        r#"a \xaa \n \r \t \\ \0 \0 ' ' \" c"#
    );
    assert_eq!(
        format!("a {} c", FmtAsciiIsh("🏳️‍🌈".as_bytes()).display()),
        r"a \xf0\x9f\x8f\xb3\xef\xb8\x8f\xe2\x80\x8d\xf0\x9f\x8c\x88 c"
    );
    assert_eq!(
        format!("a {} c", FmtAsciiIsh("𝒷 \n \r \t \\ \x00 \0 \' ' \"".as_bytes()).display()),
        r#"a \xf0\x9d\x92\xb7 \n \r \t \\ \0 \0 ' ' \" c"#
    );
}

#[test]
fn fmt_ascii_ish_debug() {
    assert_eq!(format!("a {} c", FmtAsciiIsh(b"b").debug()), r#"a b"b" c"#);
    assert_eq!(format!("a {} c", FmtAsciiIsh(b"123").debug()), r#"a b"123" c"#);
    assert_eq!(format!("a {} c", FmtAsciiIsh(b"\0b").debug()), r#"a b"\0b" c"#);
    assert_eq!(format!("a {} c", FmtAsciiIsh(&[0xff, 0xee][..]).debug()), r#"a b"\xff\xee" c"#);
    assert_eq!(
        format!("a {} c", FmtAsciiIsh(b"\xaa \n \r \t \\ \x00 \0 \' ' \"").debug()),
        r#"a b"\xaa \n \r \t \\ \0 \0 ' ' \"" c"#
    );
    assert_eq!(
        format!("a {} c", FmtAsciiIsh("🏳️‍🌈".as_bytes()).debug()),
        r#"a b"\xf0\x9f\x8f\xb3\xef\xb8\x8f\xe2\x80\x8d\xf0\x9f\x8c\x88" c"#
    );
    assert_eq!(
        format!("a {} c", FmtAsciiIsh("𝒷 \n \r \t \\ \x00 \0 \' ' \"".as_bytes()).debug()),
        r#"a b"\xf0\x9d\x92\xb7 \n \r \t \\ \0 \0 ' ' \"" c"#
    );
}

#[test]
fn fmt_maybe_utf8_display() {
    assert_eq!(format!("a {} c", FmtMaybeUtf8(b"b").display()), "a b c");
    assert_eq!(format!("a {} c", FmtMaybeUtf8(b"123").display()), "a 123 c");
    assert_eq!(format!("a {} c", FmtMaybeUtf8(b"\0b").display()), "a \0b c");
    assert_eq!(format!("a {} c", FmtMaybeUtf8(&[0xff, 0xee][..]).display()), r"a \xff\xee c");
    assert_eq!(
        format!("a {} c", FmtMaybeUtf8(b"\xaa \n \r \t \\ \x00 \0 \' ' \"").display()),
        r#"a \xaa \n \r \t \\ \0 \0 ' ' \" c"#
    );
    assert_eq!(format!("a {} c", FmtMaybeUtf8("🏳️‍🌈".as_bytes()).display()), "a 🏳️‍🌈 c");
    assert_eq!(
        format!("a {} c", FmtMaybeUtf8("𝒷 \n \r \t \\ \x00 \0 \' ' \"".as_bytes()).display()),
        "a 𝒷 \n \r \t \\ \0 \0 ' ' \" c"
    );
    assert_eq!(
        format!("a {} c", FmtAsciiIsh(b"\xf0\x9d\x92\xb7 \n \r \t \\ \0 \0 ' ' \"").display()),
        r#"a \xf0\x9d\x92\xb7 \n \r \t \\ \0 \0 ' ' \" c"#
    );
}

#[test]
fn fmt_maybe_utf8_debug() {
    assert_eq!(format!("a {} c", FmtMaybeUtf8(b"b").debug()), "a \"b\" c");
    assert_eq!(format!("a {} c", FmtMaybeUtf8(b"123").debug()), "a \"123\" c");
    assert_eq!(format!("a {} c", FmtMaybeUtf8(b"\0b").debug()), "a \"\0b\" c");
    assert_eq!(format!("a {} c", FmtMaybeUtf8(&[0xff, 0xee][..]).debug()), r#"a b"\xff\xee" c"#);
    assert_eq!(
        format!("a {} c", FmtMaybeUtf8(b"\xaa \n \r \t \\ \x00 \0 \' ' \"").debug()),
        r#"a b"\xaa \n \r \t \\ \0 \0 ' ' \"" c"#
    );
    assert_eq!(format!("a {} c", FmtMaybeUtf8("🏳️‍🌈".as_bytes()).debug()), "a \"🏳️‍🌈\" c");
    assert_eq!(
        format!("a {} c", FmtMaybeUtf8("𝒷 \n \r \t \\ \x00 \0 \' ' \"".as_bytes()).debug()),
        "a \"𝒷 \n \r \t \\ \0 \0 ' ' \"\" c"
    );
    assert_eq!(
        format!("a {} c", FmtAsciiIsh(b"\xf0\x9d\x92\xb7 \n \r \t \\ \0 \0 ' ' \"").debug()),
        r#"a b"\xf0\x9d\x92\xb7 \n \r \t \\ \0 \0 ' ' \"" c"#
    );
}

#[test]
fn split_keeps_empty_pieces() {
    assert_eq!(split_bytes(b"", 0), vec![Vec::<u8>::new()]);
    assert_eq!(split_bytes(b"a\0\0b\0", 0), vec![b"a".to_vec(), vec![], b"b".to_vec(), vec![]]);
}
