use simple_protocols::fs::Entry;
use simple_protocols::services::gopher::{parse_selector, response, ItemType, Selected};
use simple_protocols::services::{active, chargen, daytime, qotd, time};

fn file(name: &str, contents: &str) -> Entry {
    Entry::File { name: name.to_string(), contents: contents.to_string() }
}

fn tree() -> Entry {
    Entry::Directory {
        name: String::new(),
        entries: vec![
            file("README.md", "Simple protocols\r\n"),
            Entry::Directory {
                name: "src".to_string(),
                entries: vec![file("lib.rs", "pub mod fs;\n")],
            },
        ],
    }
}

#[test]
fn selector_ends_at_tab_or_crlf() {
    assert_eq!(
        parse_selector(b"/src/services/gopher.rs\tthis should be ignored\r\n"),
        Some(b"/src/services/gopher.rs".to_vec())
    );
    assert_eq!(parse_selector(b"/tests\r\n"), Some(b"/tests".to_vec()));
    assert_eq!(parse_selector(b"\r\n"), Some(vec![]));
    assert_eq!(parse_selector(b"/\r\n"), Some(vec![]));
    assert_eq!(parse_selector(b"a\rb\n"), Some(b"a\rb\n".to_vec()));
    assert_eq!(parse_selector(b"/src"), None);
    assert_eq!(parse_selector(b"a\nb\r\n"), Some(b"a\nb".to_vec()));
}

#[test]
fn empty_selector_lists_the_root_menu() {
    let res = response(&tree(), b"", "example.org");
    assert_eq!(
        res,
        b"0README.md\t/README.md\texample.org\t70\r\n1src\t/src\texample.org\t70\r\n.\r\n".to_vec()
    );
    // every line before the last is a well-formed menu entry
    let text = String::from_utf8(res).unwrap();
    let menu = text.strip_suffix(".\r\n").unwrap();
    for line in menu.strip_suffix("\r\n").unwrap().split("\r\n") {
        let fields: Vec<&str> = line[1..].split('\t').collect();
        assert!(matches!(&line[..1], "0" | "1"));
        assert_eq!(fields.len(), 4);
        assert!(!fields[3].is_empty() && fields[3].chars().all(|c| c.is_ascii_digit()));
    }
}

#[test]
fn selectors_give_files_directories_or_errors() {
    let fs = tree();
    assert_eq!(response(&fs, b"/README.md", "h"), b"Simple protocols\r\n.\r\n".to_vec());
    assert_eq!(response(&fs, b"/src", "h"), b"0lib.rs\t/src/lib.rs\th\t70\r\n.\r\n".to_vec());
    assert_eq!(response(&fs, b"/nothing", "h"), b"3not found\t\th\t70\r\n.\r\n".to_vec());
    assert!(matches!(Selected::get(&fs, b"/src"), Selected::Directory(e) if e.len() == 1));
    assert!(matches!(Selected::get(&fs, b"src"), Selected::Unknown));
    assert!(matches!(Selected::get(&fs, b""), Selected::Directory(e) if e.len() == 2));
}

#[test]
fn item_types_of_entries() {
    assert_eq!(ItemType::for_entry(&file("a", "")), ItemType::File);
    assert_eq!(ItemType::for_entry(&tree()), ItemType::Directory);
    assert_eq!(ItemType::Error.code(), b'3');
}

#[test]
fn chargen_lines_rotate() {
    let first = chargen::line(0);
    assert_eq!(
        first,
        b"!\"#$%&'()*+,-./0123456789:;<=>?@ABCDEFGHIJKLMNOPQRSTUVWXYZ[\\]^_`abcdefgh\r\n".to_vec()
    );
    let second = chargen::line(1);
    assert_eq!(&second[..3], b"\"#$");
    assert_eq!(second.len(), 74);
    let last = chargen::line(71);
    assert_eq!(&last[..2], b"hi");
    assert_eq!(&last[70..], b"OP\r\n");
}

#[test]
fn chargen_datagrams_are_stream_prefixes() {
    let d = chargen::datagram(511);
    assert_eq!(&d[..74], &chargen::line(0)[..]);
    assert_eq!(&d[74..148], &chargen::line(1)[..]);
    assert_eq!(&d[444..], &chargen::line(6)[..67]);
    assert_eq!(chargen::datagram(1), b"!".to_vec());
    let r = chargen::udp_reply();
    assert!(!r.is_empty() && r.len() <= 511);
    assert_eq!(r, chargen::datagram(r.len()));
}

#[test]
fn time_counts_from_1900_modulo_2_32() {
    assert_eq!(time::time_value(0), 2_208_988_800);
    assert_eq!(time::time_value(-2_208_988_800), 0);
    assert_eq!(time::time_value(-2_208_988_801), u32::MAX);
    assert_eq!(time::time_value(2_085_978_496), 0);
    assert_eq!(time::reply_at(0), 2_208_988_800u32.to_be_bytes().to_vec());
    let now = time::reply();
    assert_eq!(now.len(), 4);
    assert_ne!(now, time::reply_at(0));
}

#[test]
fn daytime_replies_with_the_text() {
    assert_eq!(daytime::reply_for("2024-01-02T03:04:05Z"), b"2024-01-02T03:04:05Z".to_vec());
    let now = daytime::reply().unwrap();
    assert!(now.len() >= 20 && now[4] == b'-');
}

#[test]
fn qotd_replies_with_one_quote() {
    assert_eq!(qotd::reply_for("Be kind."), b"Be kind.\r\n".to_vec());
    assert_eq!(qotd::reply(&vec![]), None);
    assert_eq!(qotd::reply(&vec!["Only one.".to_string()]), Some(b"Only one.\r\n".to_vec()));
}

#[test]
fn active_lists_distinct_users() {
    let names = vec!["alice".to_string(), "bob".to_string()];
    assert_eq!(active::listing(&names, &vec![1, 0]), b"bob\r\nalice\r\n".to_vec());
    let r = String::from_utf8(active::reply(&names)).unwrap();
    let mut listed: Vec<&str> = r.split_terminator("\r\n").collect();
    listed.sort();
    assert_eq!(listed, vec!["alice", "bob"]);

    let many: Vec<String> = (0..1000).map(|i| format!("user{i}")).collect();
    let r = String::from_utf8(active::reply(&many)).unwrap();
    let mut listed: Vec<&str> = r.split_terminator("\r\n").collect();
    assert!(listed.len() >= 5 && listed.len() < 500);
    listed.sort();
    listed.dedup();
    assert!(listed.len() >= 5);
}
