//! The Internet Gopher Protocol (RFC 1436), browsing a read-only file tree

use vstd::prelude::*;
use vstd::utf8::encode_utf8;

use crate::fs::{self, read_spec, Entry, ReadOutcome};
use crate::services::{ServiceInfo, SimpleService};
use crate::utils::{push_bytes, push_decimal, push_str, decimal_spec, slice_range};

verus! {

pub const PORT: u16 = 70;

pub struct Service;

impl SimpleService for Service {
    open spec fn info() -> ServiceInfo {
        ServiceInfo { name: "gopher", port: PORT, tcp: true, udp: false, needs_hostname: true }
    }

    fn descriptor() -> (r: ServiceInfo) {
        ServiceInfo { name: "gopher", port: PORT, tcp: true, udp: false, needs_hostname: true }
    }
}

/// What a selector selects
pub enum Selected<'a> {
    /// An unknown non-empty selector was requested
    Unknown,
    /// The contents of the selected file
    File(&'a String),
    /// The entries of the selected directory (for the empty selector, of the
    /// root)
    Directory(&'a Vec<Entry>),
}

pub open spec fn selected_spec<'a>(root: Entry, selector: Seq<u8>, s: Selected<'a>) -> bool {
    if selector.len() == 0 {
        s == Selected::Directory(&root->Directory_entries)
    } else {
        match read_spec(root, selector) {
            ReadOutcome::Found(Entry::File { contents, .. }) => s == Selected::File(&contents),
            ReadOutcome::Found(Entry::Directory { entries, .. }) => s == Selected::Directory(
                &entries,
            ),
            _ => s is Unknown,
        }
    }
}

impl<'a> Selected<'a> {
    /// What `selector` selects in the tree under `root`
    pub fn get(root: &'a Entry, selector: &[u8]) -> (r: Selected<'a>)
        requires
            root is Directory,
        ensures
            selected_spec(*root, selector@, r),
    {
        if selector.len() == 0 {
            Selected::Directory(fs::root_entries(root))
        } else {
            match fs::read(root, selector) {
                Ok(entry) => match entry {
                    Entry::File { contents, .. } => Selected::File(contents),
                    Entry::Directory { entries, .. } => Selected::Directory(entries),
                },
                Err(_) => Selected::Unknown,
            }
        }
    }
}

/// Gopher item types supported by this server
#[derive(Clone, Copy, PartialEq, Eq, Structural, Debug)]
pub enum ItemType {
    File,
    Directory,
    Error,
}

pub open spec fn item_code_spec(t: ItemType) -> u8 {
    match t {
        ItemType::File => 0x30,
        ItemType::Directory => 0x31,
        ItemType::Error => 0x33,
    }
}

impl ItemType {
    /// The item type of an entry of the tree
    pub fn for_entry(entry: &Entry) -> (r: ItemType)
        ensures
            entry is File ==> r == ItemType::File,
            entry is Directory ==> r == ItemType::Directory,
    {
        match (entry.is_file(), entry.is_directory()) {
            (true, false) => ItemType::File,
            (false, true) => ItemType::Directory,
            _ => ItemType::Error,
        }
    }

    /// The character that stands for the type in a menu line
    pub fn code(self) -> (r: u8)
        ensures
            r == item_code_spec(self),
    {
        match self {
            ItemType::File => 0x30,
            ItemType::Directory => 0x31,
            ItemType::Error => 0x33,
        }
    }
}

/// Tab, the separator of the fields of a menu line
pub const TAB: u8 = 0x09;

/// One menu line: type, name, selector, host and port, tab separated and
/// ended by CR LF
pub open spec fn item_line(
    kind: ItemType,
    name: Seq<u8>,
    selector: Seq<u8>,
    host: Seq<u8>,
    port: u16,
) -> Seq<u8> {
    seq![item_code_spec(kind)] + name + seq![TAB] + selector + seq![TAB] + host + seq![TAB]
        + decimal_spec(port as nat) + seq![0x0d, 0x0a]
}

/// The line that ends every response: `.` CR LF
pub open spec fn last_line() -> Seq<u8> {
    seq![0x2e, 0x0d, 0x0a]
}

/// The menu lines of `entries`, listed under `selector`: each entry's
/// selector is the directory's selector, `/` and the entry's name
pub open spec fn menu_spec(entries: Seq<Entry>, selector: Seq<u8>, host: Seq<u8>) -> Seq<u8>
    decreases entries.len(),
{
    if entries.len() == 0 {
        seq![]
    } else {
        let e = entries.last();
        let name = encode_utf8(e.spec_name());
        menu_spec(entries.drop_last(), selector, host) + item_line(
            if e is File {
                ItemType::File
            } else {
                ItemType::Directory
            },
            name,
            selector + seq![fs::SLASH] + name,
            host,
            PORT,
        )
    }
}

/// The response to a selector: a file's contents, a directory's menu, or a
/// "not found" error item, each ended by the last line
pub open spec fn response_spec(root: Entry, selector: Seq<u8>, host: Seq<u8>) -> Seq<u8> {
    let target = if selector.len() == 0 {
        ReadOutcome::Found(root)
    } else {
        read_spec(root, selector)
    };
    match target {
        ReadOutcome::Found(Entry::File { contents, .. }) => encode_utf8(contents@) + last_line(),
        ReadOutcome::Found(Entry::Directory { entries, .. }) => menu_spec(entries@, selector, host)
            + last_line(),
        _ => item_line(ItemType::Error, not_found_name(), seq![], host, PORT) + last_line(),
    }
}

/// The name of the error item for an unknown selector
pub open spec fn not_found_name() -> Seq<u8> {
    seq![0x6e, 0x6f, 0x74, 0x20, 0x66, 0x6f, 0x75, 0x6e, 0x64]
}

/// Appends one menu line to `out`
fn push_item(out: &mut Vec<u8>, kind: ItemType, name: &[u8], selector: &[u8], dir_sep: bool, host: &str)
    ensures
        final(out)@ == old(out)@ + item_line(
            kind,
            name@,
            if dir_sep { selector@ + seq![fs::SLASH] + name@ } else { selector@ },
            encode_utf8(host@),
            PORT,
        ),
{
    out.push(kind.code());
    push_bytes(out, name);
    out.push(TAB);
    push_bytes(out, selector);
    if dir_sep {
        out.push(fs::SLASH);
        push_bytes(out, name);
    }
    out.push(TAB);
    push_str(out, host);
    out.push(TAB);
    push_decimal(out, PORT);
    out.push(0x0d);
    out.push(0x0a);
    assert(final(out)@ =~= old(out)@ + item_line(
        kind,
        name@,
        if dir_sep { selector@ + seq![fs::SLASH] + name@ } else { selector@ },
        encode_utf8(host@),
        PORT,
    ));
}

fn push_last_line(out: &mut Vec<u8>)
    ensures
        final(out)@ == old(out)@ + last_line(),
{
    out.push(0x2e);
    out.push(0x0d);
    out.push(0x0a);
    assert(final(out)@ =~= old(out)@ + last_line());
}

/// Builds the response to `selector` for the tree under `root`, naming
/// `hostname` as the host of every item
pub fn response(root: &Entry, selector: &[u8], hostname: &str) -> (r: Vec<u8>)
    requires
        root is Directory,
    ensures
        r@ == response_spec(*root, selector@, encode_utf8(hostname@)),
{
    let mut res: Vec<u8> = Vec::new();
    let ghost host = encode_utf8(hostname@);
    match Selected::get(root, selector) {
        Selected::File(contents) => {
            push_str(&mut res, contents.as_str());
            push_last_line(&mut res);
        },
        Selected::Directory(entries) => {
            let mut i: usize = 0;
            while i < entries.len()
                invariant
                    i <= entries@.len(),
                    host == encode_utf8(hostname@),
                    res@ == menu_spec(entries@.take(i as int), selector@, host),
                decreases entries@.len() - i,
            {
                let entry = &entries[i];
                let name = entry.name().as_bytes();
                let kind = ItemType::for_entry(entry);
                push_item(&mut res, kind, name, selector, true, hostname);
                assert(entries@.take(i + 1).drop_last() =~= entries@.take(i as int));
                assert(entries@.take(i + 1).last() == entries@[i as int]);
                i = i + 1;
            }
            assert(entries@.take(i as int) =~= entries@);
            push_last_line(&mut res);
        },
        Selected::Unknown => {
            let name: Vec<u8> = vec![0x6e, 0x6f, 0x74, 0x20, 0x66, 0x6f, 0x75, 0x6e, 0x64];
            assert(name@ =~= not_found_name());
            let empty: Vec<u8> = Vec::new();
            push_item(&mut res, ItemType::Error, name.as_slice(), empty.as_slice(), false, hostname);
            push_last_line(&mut res);
        },
    }
    res
}

/// Where the selector of a request line ends: at the first tab, or at the
/// first line feed after a carriage return
pub open spec fn is_selector_end(line: Seq<u8>, i: int) -> bool {
    line[i] == TAB || (line[i] == 0x0a && exists|j: int| 0 <= j < i && line[j] == 0x0d)
}

/// The selector of a request line, or `None` if the line has no end yet
pub open spec fn selector_spec(line: Seq<u8>) -> Option<Seq<u8>> {
    if exists|i: int| 0 <= i < line.len() && is_selector_end(line, i) {
        let end = choose|i: int|
            0 <= i < line.len() && is_selector_end(line, i) && forall|j: int|
                0 <= j < i ==> !is_selector_end(line, j);
        let s = line.take(end + 1);
        let s = if s.len() >= 2 && s[s.len() - 2] == 0x0d && s[s.len() - 1] == 0x0a {
            s.take(s.len() - 2)
        } else if s.last() == TAB {
            s.drop_last()
        } else {
            s
        };
        if s == seq![fs::SLASH] {
            Some(seq![])
        } else {
            Some(s)
        }
    } else {
        None
    }
}

/// Extracts the selector from the start of a request: the text up to a tab
/// or CR LF, whichever comes first; `/` selects the root like the empty
/// selector does
pub fn parse_selector(line: &[u8]) -> (r: Option<Vec<u8>>)
    ensures
        match r {
            Some(s) => selector_spec(line@) == Some(s@),
            None => selector_spec(line@) is None,
        },
{
    let mut saw_cr = false;
    let mut i: usize = 0;
    while i < line.len()
        invariant
            i <= line@.len(),
            saw_cr == exists|j: int| 0 <= j < i && line@[j] == 0x0d,
            forall|j: int| 0 <= j < i ==> !is_selector_end(line@, j),
        ensures
            i <= line@.len(),
            forall|j: int| 0 <= j < i ==> !is_selector_end(line@, j),
            i < line@.len() ==> is_selector_end(line@, i as int),
        decreases line@.len() - i,
    {
        let b = line[i];
        if b == TAB || (saw_cr && b == 0x0a) {
            break;
        }
        if b == 0x0d {
            saw_cr = true;
        }
        i = i + 1;
    }
    if i == line.len() {
        assert(!exists|k: int| 0 <= k < line@.len() && is_selector_end(line@, k));
        return None;
    }
    assert(is_selector_end(line@, i as int));
    let ghost end = choose|k: int|
        0 <= k < line@.len() && is_selector_end(line@, k) && forall|j: int|
            0 <= j < k ==> !is_selector_end(line@, j);
    assert(end == i as int) by {
        if end < i {
        } else if end > i {
            assert(!is_selector_end(line@, i as int));
        }
    }
    let ghost t = line@.take(i + 1);
    let ghost stripped = if t.len() >= 2 && t[t.len() - 2] == 0x0d && t[t.len() - 1] == 0x0a {
        t.take(t.len() - 2)
    } else if t.last() == TAB {
        t.drop_last()
    } else {
        t
    };
    let mut n = i + 1;
    if n >= 2 && line[n - 2] == 0x0d && line[n - 1] == 0x0a {
        n = n - 2;
    } else if line[n - 1] == TAB {
        n = n - 1;
    }
    let s = slice_range(line, 0, n);
    assert(s@ =~= stripped);
    if n == 1 && s[0] == fs::SLASH {
        assert(s@ =~= seq![fs::SLASH]);
        Some(Vec::new())
    } else {
        assert(s@ != seq![fs::SLASH]) by {
            if n == 1 {
                assert(s@[0] != seq![fs::SLASH][0]);
            } else {
                assert(s@.len() != seq![fs::SLASH].len());
            }
        }
        Some(crate::utils::copy_bytes(s))
    }
}

} // verus!
