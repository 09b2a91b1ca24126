//! A read-only virtual file tree, for protocols that transfer files
//! (the directory-browsing one)

use vstd::prelude::*;
use vstd::utf8::{decode_utf8, encode_utf8, valid_utf8};

use crate::utils::{bytes_eq, copy_bytes, slice_range, split_bytes, split_spec, views};

verus! {

/// An entry of the tree: a file with its contents, or a directory with its
/// entries in order
#[derive(Debug, PartialEq)]
pub enum Entry {
    File { name: String, contents: String },
    Directory { name: String, entries: Vec<Entry> },
}

impl Entry {
    pub open spec fn spec_name(&self) -> Seq<char> {
        match self {
            Entry::File { name, .. } => name@,
            Entry::Directory { name, .. } => name@,
        }
    }

    pub fn name(&self) -> (r: &str)
        ensures
            r@ == self.spec_name(),
    {
        match self {
            Entry::File { name, .. } => name.as_str(),
            Entry::Directory { name, .. } => name.as_str(),
        }
    }

    pub fn is_file(&self) -> (r: bool)
        ensures
            r == self is File,
    {
        match self {
            Entry::File { .. } => true,
            Entry::Directory { .. } => false,
        }
    }

    pub fn is_directory(&self) -> (r: bool)
        ensures
            r == self is Directory,
    {
        match self {
            Entry::File { .. } => false,
            Entry::Directory { .. } => true,
        }
    }
}

/// Why a path could not be read; each holds the path
#[derive(Debug, Clone, PartialEq)]
pub enum FsError {
    NonAbsolutePath(Vec<u8>),
    InvalidPath(Vec<u8>),
    NotFound(Vec<u8>),
}

/// The separator of the names in a path
pub const SLASH: u8 = 0x2f;

/// What `String::from_utf8_lossy` makes of `b`
pub uninterp spec fn lossy_text(b: Seq<u8>) -> Seq<char>;

/// Relies on `String::from_utf8_lossy`: the text of `b`, in which invalid
/// UTF-8 is replaced; valid UTF-8 is decoded as it is.
#[verifier::external_body]
fn lossy(b: &[u8]) -> (r: String)
    ensures
        r@ == lossy_text(b@),
        valid_utf8(b@) ==> r@ == decode_utf8(b@),
{
    String::from_utf8_lossy(b).into_owned()
}

pub open spec fn fs_error_spec(e: FsError, shown_path: Seq<char>) -> Seq<char> {
    match e {
        FsError::NonAbsolutePath(_) => "Path is not absolute: '"@ + shown_path + "'"@,
        FsError::InvalidPath(_) => "Invalid file name: '"@ + shown_path + "'"@,
        FsError::NotFound(_) => "File not found: '"@ + shown_path + "'"@,
    }
}

impl FsError {
    pub open spec fn spec_path(&self) -> Seq<u8> {
        match self {
            FsError::NonAbsolutePath(p) => p@,
            FsError::InvalidPath(p) => p@,
            FsError::NotFound(p) => p@,
        }
    }

    /// The path this error is about
    pub fn path(&self) -> (r: &Vec<u8>)
        ensures
            r@ == self.spec_path(),
    {
        match self {
            FsError::NonAbsolutePath(p) => p,
            FsError::InvalidPath(p) => p,
            FsError::NotFound(p) => p,
        }
    }

    /// The text of this error, with the path shown as `shown_path`
    pub fn message_with(&self, shown_path: &str) -> (r: String)
        ensures
            r@ == fs_error_spec(*self, shown_path@),
    {
        let mut out = String::new();
        match self {
            FsError::NonAbsolutePath(_) => out.append("Path is not absolute: '"),
            FsError::InvalidPath(_) => out.append("Invalid file name: '"),
            FsError::NotFound(_) => out.append("File not found: '"),
        }
        out.append(shown_path);
        out.append("'");
        out
    }

    /// The text of this error, with the path decoded as UTF-8 where it can be
    pub fn message(&self) -> (r: String)
        ensures
            r@ == fs_error_spec(*self, lossy_text(self.spec_path())),
    {
        let shown = lossy(self.path().as_slice());
        self.message_with(shown.as_str())
    }
}

/// The bytes a path may hold: ASCII letters and digits, `-`, `.`, `/`, `_`
pub open spec fn is_path_byte(b: u8) -> bool {
    (0x30 <= b <= 0x39) || (0x61 <= b <= 0x7a) || (0x41 <= b <= 0x5a) || b == 0x2d || b == 0x2e
        || b == SLASH || b == 0x5f
}

pub fn path_byte(b: u8) -> (r: bool)
    ensures
        r == is_path_byte(b),
{
    (0x30 <= b && b <= 0x39) || (0x61 <= b && b <= 0x7a) || (0x41 <= b && b <= 0x5a) || b == 0x2d
        || b == 0x2e || b == SLASH || b == 0x5f
}

/// Whether `name` is the UTF-8 encoding of the name of `entries[k]`, and of
/// no entry before it
pub open spec fn first_named(entries: Seq<Entry>, name: Seq<u8>, k: int) -> bool {
    &&& 0 <= k < entries.len()
    &&& encode_utf8(entries[k].spec_name()) == name
    &&& forall|m: int| 0 <= m < k ==> encode_utf8(#[trigger] entries[m].spec_name()) != name
}

/// The entry reached from `e` by following the names in order; in a
/// directory, a name selects the first entry that bears it
pub open spec fn lookup(e: Entry, names: Seq<Seq<u8>>) -> Option<Entry>
    decreases names.len(),
{
    if names.len() == 0 {
        Some(e)
    } else {
        match e {
            Entry::File { .. } => None,
            Entry::Directory { entries, .. } => {
                if exists|k: int| first_named(entries@, names[0], k) {
                    let k = choose|k: int| first_named(entries@, names[0], k);
                    lookup(entries@[k], names.drop_first())
                } else {
                    None
                }
            },
        }
    }
}

/// The names a valid absolute path other than `/` goes through: a trailing
/// `/` is dropped, then the path is cut at each `/` after the first
pub open spec fn path_names(path: Seq<u8>) -> Seq<Seq<u8>> {
    let trimmed = if path.last() == SLASH {
        path.drop_last()
    } else {
        path
    };
    split_spec(trimmed.drop_first(), SLASH)
}

/// What reading a path gives
pub enum ReadOutcome {
    Found(Entry),
    NonAbsolute,
    Invalid,
    Missing,
}

pub open spec fn read_spec(root: Entry, path: Seq<u8>) -> ReadOutcome {
    if path == seq![SLASH] {
        ReadOutcome::Found(root)
    } else if path.len() == 0 || path[0] != SLASH {
        ReadOutcome::NonAbsolute
    } else if !(forall|i: int| 0 <= i < path.len() ==> is_path_byte(#[trigger] path[i])) {
        ReadOutcome::Invalid
    } else {
        match lookup(root, path_names(path)) {
            Some(e) => ReadOutcome::Found(e),
            None => ReadOutcome::Missing,
        }
    }
}

/// The first entry of `entries` whose name is `name`, if any
fn find_named(entries: &Vec<Entry>, name: &[u8]) -> (r: Option<usize>)
    ensures
        match r {
            Some(k) => first_named(entries@, name@, k as int),
            None => !exists|k: int| first_named(entries@, name@, k),
        },
{
    let mut i: usize = 0;
    while i < entries.len()
        invariant
            i <= entries@.len(),
            forall|m: int| 0 <= m < i ==> encode_utf8(#[trigger] entries@[m].spec_name()) != name@,
        decreases entries@.len() - i,
    {
        let n = entries[i].name();
        let nb = n.as_bytes();
        if bytes_eq(nb, name) {
            return Some(i);
        }
        i = i + 1;
    }
    assert forall|k: int| !first_named(entries@, name@, k) by {
        if 0 <= k < entries@.len() {
            assert(encode_utf8(entries@[k].spec_name()) != name@);
        }
    }
    None
}

proof fn lemma_first_named_unique(entries: Seq<Entry>, name: Seq<u8>, k: int)
    requires
        first_named(entries, name, k),
    ensures
        (choose|j: int| first_named(entries, name, j)) == k,
{
    let j = choose|j: int| first_named(entries, name, j);
    assert(first_named(entries, name, j));
    if j < k {
        assert(encode_utf8(entries[j].spec_name()) != name);
    } else if k < j {
        assert(encode_utf8(entries[k].spec_name()) != name);
    }
}

/// Reads the entry at an absolute path of the tree under `root`; `/` is the
/// root itself, and a trailing `/` is ignored
pub fn read<'a>(root: &'a Entry, path: &[u8]) -> (r: Result<&'a Entry, FsError>)
    ensures
        match r {
            Ok(e) => read_spec(*root, path@) == ReadOutcome::Found(*e),
            Err(FsError::NonAbsolutePath(p)) => read_spec(*root, path@) == ReadOutcome::NonAbsolute
                && p@ == path@,
            Err(FsError::InvalidPath(p)) => read_spec(*root, path@) == ReadOutcome::Invalid && p@
                == path@,
            Err(FsError::NotFound(p)) => read_spec(*root, path@) == ReadOutcome::Missing && p@
                == path@,
        },
{
    let len = path.len();
    if len == 1 && path[0] == SLASH {
        assert(path@ =~= seq![SLASH]);
        return Ok(root);
    }
    if len == 0 || path[0] != SLASH {
        assert(path@ != seq![SLASH]);
        return Err(FsError::NonAbsolutePath(copy_bytes(path)));
    }
    assert(path@.len() >= 2 && seq![SLASH].len() == 1);
    assert(path@ != seq![SLASH]);
    let mut i: usize = 0;
    while i < len
        invariant
            len == path@.len(),
            path@ != seq![SLASH],
            path@[0] == SLASH,
            i <= len,
            forall|m: int| 0 <= m < i ==> is_path_byte(#[trigger] path@[m]),
        decreases len - i,
    {
        if !path_byte(path[i]) {
            return Err(FsError::InvalidPath(copy_bytes(path)));
        }
        i = i + 1;
    }
    let end = if path[len - 1] == SLASH {
        len - 1
    } else {
        len
    };
    let rest = slice_range(path, 1, end);
    let ghost trimmed = if path@.last() == SLASH {
        path@.drop_last()
    } else {
        path@
    };
    assert(rest@ =~= trimmed.drop_first());
    let names = split_bytes(rest, SLASH);
    let ghost all = views(names@);
    let mut entry: &'a Entry = root;
    let mut j: usize = 0;
    assert(all.skip(0) =~= all);
    assert(read_spec(*root, path@) == match lookup(*root, all) {
        Some(e) => ReadOutcome::Found(e),
        None => ReadOutcome::Missing,
    });
    while j < names.len()
        invariant
            j <= names@.len(),
            all == views(names@),
            all == path_names(path@),
            lookup(*root, all) == lookup(*entry, all.skip(j as int)),
            read_spec(*root, path@) == match lookup(*root, all) {
                Some(e) => ReadOutcome::Found(e),
                None => ReadOutcome::Missing,
            },
        decreases names@.len() - j,
    {
        let ghost here = all.skip(j as int);
        assert(here[0] == names@[j as int]@);
        assert(here.drop_first() =~= all.skip(j + 1));
        match entry {
            Entry::File { .. } => {
                return Err(FsError::NotFound(copy_bytes(path)));
            },
            Entry::Directory { entries, .. } => {
                match find_named(entries, names[j].as_slice()) {
                    Some(k) => {
                        proof {
                            lemma_first_named_unique(entries@, here[0], k as int);
                        }
                        entry = &entries[k];
                    },
                    None => {
                        return Err(FsError::NotFound(copy_bytes(path)));
                    },
                }
            },
        }
        j = j + 1;
    }
    assert(all.skip(j as int) =~= seq![]);
    Ok(entry)
}

/// The entries of the root directory
pub fn root_entries(root: &Entry) -> (r: &Vec<Entry>)
    requires
        root is Directory,
    ensures
        *r == root->Directory_entries,
{
    match root {
        Entry::Directory { entries, .. } => entries,
        Entry::File { .. } => unreached(),
    }
}

} // verus!
