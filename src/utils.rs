//! Non-protocol-related utilities

use rand::Rng;
use vstd::prelude::*;
use vstd::utf8::{decode_utf8, encode_utf8, valid_utf8};

verus! {

/// Relies on `String::push`: appends one character.
#[verifier::external_body]
pub(crate) fn push_char(s: &mut String, c: char)
    ensures
        final(s)@ == old(s)@.push(c),
{
    s.push(c)
}

/// Relies on `rand::Rng::random_range` on the thread-local generator: a
/// number drawn from `lo..hi`, which must not be empty.
#[verifier::external_body]
pub(crate) fn random_in(lo: usize, hi: usize) -> (r: usize)
    requires
        lo < hi,
    ensures
        lo <= r < hi,
{
    rand::rng().random_range(lo..hi)
}

/// Relies on `std::str::from_utf8`: it succeeds exactly on valid UTF-8, and
/// the string it then gives holds the characters the bytes encode.
#[verifier::external_body]
fn utf8_str(b: &[u8]) -> (r: Option<&str>)
    ensures
        r is Some <==> valid_utf8(b@),
        r matches Some(s) ==> s@ == decode_utf8(b@),
{
    std::str::from_utf8(b).ok()
}

/// The character of Unicode scalar value `b`
pub open spec fn latin1_char(b: u8) -> char {
    b as char
}

pub fn byte_char(b: u8) -> (c: char)
    ensures
        c == latin1_char(b),
{
    b as char
}

/// A byte that ISO/IEC 8859-1 maps to a printable character
pub open spec fn is_latin1_printable(b: u8) -> bool {
    (0x20 <= b <= 0x7e) || 0xa0 <= b
}

/// Whether the decoder accepts `s`: pure ASCII, or printable ISO/IEC 8859-1
pub open spec fn latin1_decodable(s: Seq<u8>) -> bool {
    (forall|i: int| 0 <= i < s.len() ==> #[trigger] s[i] < 0x80) || (forall|i: int|
        0 <= i < s.len() ==> is_latin1_printable(#[trigger] s[i]))
}

pub open spec fn latin1_chars(s: Seq<u8>) -> Seq<char> {
    s.map_values(|b: u8| latin1_char(b))
}

/// Decode an ISO/IEC 8859-1 string: pure ASCII is taken as it is, anything
/// else must be printable ISO/IEC 8859-1, or the position of the first byte
/// that is not is returned
pub fn decode_iso_8859_1(s: &[u8]) -> (r: Result<String, usize>)
    ensures
        match r {
            Ok(t) => latin1_decodable(s@) && t@ == latin1_chars(s@),
            Err(i) => {
                &&& !latin1_decodable(s@)
                &&& i < s@.len()
                &&& !is_latin1_printable(s@[i as int])
                &&& forall|j: int| 0 <= j < i ==> is_latin1_printable(#[trigger] s@[j])
            },
        },
{
    let mut ascii = true;
    let mut printable = true;
    let mut first_bad: usize = 0;
    let mut out = String::new();
    let mut i: usize = 0;
    while i < s.len()
        invariant
            i <= s@.len(),
            ascii == (forall|j: int| 0 <= j < i ==> #[trigger] s@[j] < 0x80),
            printable ==> forall|j: int| 0 <= j < i ==> is_latin1_printable(#[trigger] s@[j]),
            printable ==> first_bad == 0,
            !printable ==> {
                &&& first_bad < i
                &&& !is_latin1_printable(s@[first_bad as int])
                &&& forall|j: int| 0 <= j < first_bad ==> is_latin1_printable(#[trigger] s@[j])
            },
            out@ == latin1_chars(s@.take(i as int)),
        decreases s@.len() - i,
    {
        let b = s[i];
        if b >= 0x80 {
            ascii = false;
        }
        if printable && !((0x20 <= b && b <= 0x7e) || 0xa0 <= b) {
            printable = false;
            first_bad = i;
        }
        push_char(&mut out, byte_char(b));
        i = i + 1;
        assert(out@ =~= latin1_chars(s@.take(i as int)));
    }
    assert(s@.take(i as int) =~= s@);
    if ascii || printable {
        Ok(out)
    } else {
        Err(first_bad)
    }
}

/// The digits of hexadecimal notation, lower case
pub open spec fn hex_digits() -> Seq<char> {
    seq!['0', '1', '2', '3', '4', '5', '6', '7', '8', '9', 'a', 'b', 'c', 'd', 'e', 'f']
}

pub fn hex_digit(n: u8) -> (c: char)
    requires
        n < 16,
    ensures
        c == hex_digits()[n as int],
{
    let digits = ['0', '1', '2', '3', '4', '5', '6', '7', '8', '9', 'a', 'b', 'c', 'd', 'e', 'f'];
    assert(digits@ =~= hex_digits());
    digits[n as usize]
}

/// How one byte is shown in an ASCII-ish string: NUL, tab, line feed,
/// carriage return, `"` and `\` by their escape, other printable ASCII and
/// space as themselves, anything else as `\x` and two hex digits
pub open spec fn escape_spec(b: u8) -> Seq<char> {
    if b == 0 {
        seq!['\\', '0']
    } else if b == 0x09 {
        seq!['\\', 't']
    } else if b == 0x0a {
        seq!['\\', 'n']
    } else if b == 0x0d {
        seq!['\\', 'r']
    } else if b == 0x22 {
        seq!['\\', '"']
    } else if b == 0x5c {
        seq!['\\', '\\']
    } else if 0x20 <= b <= 0x7e {
        seq![latin1_char(b)]
    } else {
        seq!['\\', 'x', hex_digits()[(b / 16) as int], hex_digits()[(b % 16) as int]]
    }
}

/// A byte string shown as ASCII-ish text
pub open spec fn ascii_ish(s: Seq<u8>) -> Seq<char>
    decreases s.len(),
{
    if s.len() == 0 {
        seq![]
    } else {
        ascii_ish(s.drop_last()) + escape_spec(s.last())
    }
}

/// Appends the ASCII-ish form of `s` to `out`
fn push_ascii_ish(out: &mut String, s: &[u8])
    ensures
        final(out)@ == old(out)@ + ascii_ish(s@),
{
    let mut i: usize = 0;
    while i < s.len()
        invariant
            i <= s@.len(),
            out@ == old(out)@ + ascii_ish(s@.take(i as int)),
        decreases s@.len() - i,
    {
        let b = s[i];
        let ghost before = out@;
        if b == 0 {
            push_char(out, '\\');
            push_char(out, '0');
        } else if b == 0x09 {
            push_char(out, '\\');
            push_char(out, 't');
        } else if b == 0x0a {
            push_char(out, '\\');
            push_char(out, 'n');
        } else if b == 0x0d {
            push_char(out, '\\');
            push_char(out, 'r');
        } else if b == 0x22 {
            push_char(out, '\\');
            push_char(out, '"');
        } else if b == 0x5c {
            push_char(out, '\\');
            push_char(out, '\\');
        } else if 0x20 <= b && b <= 0x7e {
            push_char(out, byte_char(b));
        } else {
            push_char(out, '\\');
            push_char(out, 'x');
            push_char(out, hex_digit(b / 16));
            push_char(out, hex_digit(b % 16));
        }
        assert(out@ =~= before + escape_spec(b));
        assert(s@.take(i + 1).drop_last() =~= s@.take(i as int));
        i = i + 1;
        assert(out@ =~= old(out)@ + ascii_ish(s@.take(i as int)));
    }
    assert(s@.take(i as int) =~= s@);
}

/// Format an ASCII-ish byte string
pub struct FmtAsciiIsh<'a>(pub &'a [u8]);

impl<'a> FmtAsciiIsh<'a> {
    /// The bytes as text, escaped where they are not printable ASCII
    pub fn display(&self) -> (r: String)
        ensures
            r@ == ascii_ish(self.0@),
    {
        let mut out = String::new();
        push_ascii_ish(&mut out, self.0);
        out
    }

    /// The bytes as a byte string literal: `b"`, the escaped text, `"`
    pub fn debug(&self) -> (r: String)
        ensures
            r@ == seq!['b', '"'] + ascii_ish(self.0@) + seq!['"'],
    {
        let mut out = String::new();
        push_char(&mut out, 'b');
        push_char(&mut out, '"');
        push_ascii_ish(&mut out, self.0);
        push_char(&mut out, '"');
        out
    }
}

/// Format a byte string as UTF-8 if possible, otherwise as an ASCII-ish string
pub struct FmtMaybeUtf8<'a>(pub &'a [u8]);

impl<'a> FmtMaybeUtf8<'a> {
    /// The text the bytes encode, or their ASCII-ish form if they are not UTF-8
    pub fn display(&self) -> (r: String)
        ensures
            r@ == if valid_utf8(self.0@) {
                decode_utf8(self.0@)
            } else {
                ascii_ish(self.0@)
            },
    {
        match utf8_str(self.0) {
            Some(text) => text.to_owned(),
            None => FmtAsciiIsh(self.0).display(),
        }
    }

    /// The text in quotes, or a byte string literal if the bytes are not UTF-8
    pub fn debug(&self) -> (r: String)
        ensures
            r@ == if valid_utf8(self.0@) {
                seq!['"'] + decode_utf8(self.0@) + seq!['"']
            } else {
                seq!['b', '"'] + ascii_ish(self.0@) + seq!['"']
            },
    {
        match utf8_str(self.0) {
            Some(text) => {
                let mut out = String::new();
                push_char(&mut out, '"');
                out.append(text);
                push_char(&mut out, '"');
                out
            },
            None => FmtAsciiIsh(self.0).debug(),
        }
    }
}

/// The pieces of `s` between occurrences of `sep`, as `<[u8]>::split` gives
/// them: one more piece than there are separators, empty pieces included
pub open spec fn split_spec(s: Seq<u8>, sep: u8) -> Seq<Seq<u8>>
    decreases s.len(),
{
    if s.len() == 0 {
        seq![seq![]]
    } else {
        let p = split_spec(s.drop_last(), sep);
        if s.last() == sep {
            p.push(seq![])
        } else {
            p.update(p.len() - 1, p.last().push(s.last()))
        }
    }
}

pub proof fn lemma_split_nonempty(s: Seq<u8>, sep: u8)
    ensures
        split_spec(s, sep).len() >= 1,
    decreases s.len(),
{
    if s.len() > 0 {
        lemma_split_nonempty(s.drop_last(), sep);
    }
}

/// The contents of each vector of `v`
pub open spec fn views(v: Seq<Vec<u8>>) -> Seq<Seq<u8>> {
    v.map_values(|x: Vec<u8>| x@)
}

/// Splits `s` at every `sep`
pub fn split_bytes(s: &[u8], sep: u8) -> (r: Vec<Vec<u8>>)
    ensures
        views(r@) == split_spec(s@, sep),
{
    let mut done: Vec<Vec<u8>> = Vec::new();
    let mut cur: Vec<u8> = Vec::new();
    let mut i: usize = 0;
    while i < s.len()
        invariant
            i <= s@.len(),
            split_spec(s@.take(i as int), sep) == views(done@).push(cur@),
        decreases s@.len() - i,
    {
        let b = s[i];
        proof {
            lemma_split_nonempty(s@.take(i as int), sep);
            assert(s@.take(i + 1).drop_last() =~= s@.take(i as int));
        }
        let ghost prev = split_spec(s@.take(i as int), sep);
        if b == sep {
            done.push(cur);
            cur = Vec::new();
            assert(views(done@) =~= prev);
            assert(split_spec(s@.take(i + 1), sep) =~= views(done@).push(cur@));
        } else {
            cur.push(b);
            assert(split_spec(s@.take(i + 1), sep) =~= views(done@).push(cur@));
        }
        i = i + 1;
    }
    assert(s@.take(i as int) =~= s@);
    let ghost prev = views(done@).push(cur@);
    done.push(cur);
    assert(views(done@) =~= prev);
    done
}

/// The decimal digits of `n`, in ASCII
pub open spec fn decimal_spec(n: nat) -> Seq<u8>
    decreases n,
{
    if n < 10 {
        seq![(0x30 + n) as u8]
    } else {
        decimal_spec(n / 10).push((0x30 + n % 10) as u8)
    }
}

/// The decimal digits of `n` as text
pub open spec fn decimal_text(n: nat) -> Seq<char>
    decreases n,
{
    if n < 10 {
        seq![latin1_char((0x30 + n) as u8)]
    } else {
        decimal_text(n / 10).push(latin1_char((0x30 + n % 10) as u8))
    }
}

/// Appends the decimal digits of `n` to the text `out`
pub fn push_decimal_text(out: &mut String, n: u16)
    ensures
        final(out)@ == old(out)@ + decimal_text(n as nat),
    decreases n,
{
    if n >= 10 {
        push_decimal_text(out, n / 10);
    }
    push_char(out, byte_char(0x30 + (n % 10) as u8));
    assert(final(out)@ =~= old(out)@ + decimal_text(n as nat));
}

/// Appends the decimal digits of `n` to `out`
pub fn push_decimal(out: &mut Vec<u8>, n: u16)
    ensures
        final(out)@ == old(out)@ + decimal_spec(n as nat),
    decreases n,
{
    if n >= 10 {
        push_decimal(out, n / 10);
    }
    out.push(0x30 + (n % 10) as u8);
    assert(final(out)@ =~= old(out)@ + decimal_spec(n as nat));
}

/// Appends the UTF-8 encoding of `s` to `out`
pub fn push_str(out: &mut Vec<u8>, s: &str)
    ensures
        final(out)@ == old(out)@ + encode_utf8(s@),
{
    push_bytes(out, s.as_bytes());
}

/// Whether two byte strings are equal
pub fn bytes_eq(a: &[u8], b: &[u8]) -> (r: bool)
    ensures
        r == (a@ == b@),
{
    if a.len() != b.len() {
        return false;
    }
    let mut i: usize = 0;
    while i < a.len()
        invariant
            a@.len() == b@.len(),
            i <= a@.len(),
            forall|k: int| 0 <= k < i ==> a@[k] == b@[k],
        decreases a@.len() - i,
    {
        if a[i] != b[i] {
            return false;
        }
        i = i + 1;
    }
    assert(a@ =~= b@);
    true
}

/// A vector holding the bytes of `s`
pub fn copy_bytes(s: &[u8]) -> (r: Vec<u8>)
    ensures
        r@ == s@,
{
    let mut r: Vec<u8> = Vec::new();
    push_bytes(&mut r, s);
    r
}

/// Appends the bytes of `s` to `out`
pub fn push_bytes(out: &mut Vec<u8>, s: &[u8])
    ensures
        final(out)@ == old(out)@ + s@,
{
    let mut i: usize = 0;
    while i < s.len()
        invariant
            i <= s@.len(),
            out@ == old(out)@ + s@.take(i as int),
        decreases s@.len() - i,
    {
        out.push(s[i]);
        i = i + 1;
        assert(out@ =~= old(out)@ + s@.take(i as int));
    }
    assert(s@.take(i as int) =~= s@);
}

/// The bytes of `s` from `start` up to `end`
pub fn slice_range(s: &[u8], start: usize, end: usize) -> (r: &[u8])
    requires
        start <= end <= s@.len(),
    ensures
        r@ == s@.subrange(start as int, end as int),
{
    &s[start..end]
}

} // verus!
