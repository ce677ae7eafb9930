//! Byte strings.
//!
//! Commands, paths, environment values and file contents are handled as the
//! bytes the operating system hands over. This module holds the scanning and
//! splitting primitives that everything else is built from, each with its
//! mathematical meaning over `Seq<u8>`.

use vstd::prelude::*;
use vstd::slice::slice_subrange;
use vstd::slice::slice_to_vec;
use vstd::string::StrSliceExecFns;
use vstd::string::StringSliceAdditionalSpecFns;
use vstd::utf8::valid_utf8;

verus! {

pub const TAB: u8 = 0x09;

pub const NEWLINE: u8 = 0x0a;

pub const FORM_FEED: u8 = 0x0c;

pub const RETURN: u8 = 0x0d;

pub const SPACE: u8 = 0x20;

pub const QUOTE: u8 = 0x22;

pub const HASH: u8 = 0x23;

pub const PERCENT: u8 = 0x25;

pub const AMPERSAND: u8 = 0x26;

pub const DASH: u8 = 0x2d;

pub const DOT: u8 = 0x2e;

pub const SLASH: u8 = 0x2f;

pub const COLON: u8 = 0x3a;

pub const EQUALS: u8 = 0x3d;

pub const BRACKET: u8 = 0x5b;

pub const BACKSLASH: u8 = 0x5c;

pub const CARET: u8 = 0x5e;

/// The bytes of a string literal, as they stand in memory (UTF-8).
pub open spec fn lit(s: &str) -> Seq<u8> {
    s.spec_bytes()
}

/// The contents of a list of byte strings.
pub open spec fn texts(v: Seq<Vec<u8>>) -> Seq<Seq<u8>> {
    Seq::new(v.len(), |i: int| v[i]@)
}

/// ASCII whitespace: space, tab, line feed, form feed, carriage return.
pub open spec fn is_space(b: u8) -> bool {
    b == SPACE || b == TAB || b == NEWLINE || b == FORM_FEED || b == RETURN
}

/// A class of bytes at which a scan stops.
#[derive(Clone, Copy, Debug)]
pub enum Stop {
    /// The given byte.
    Byte(u8),
    /// Any byte but the given one.
    Other(u8),
    /// Either of two bytes.
    Either(u8, u8),
    /// ASCII whitespace.
    Space,
    /// Anything that is not ASCII whitespace.
    Ink,
}

impl Stop {
    /// Whether `b` belongs to the class.
    pub open spec fn holds(self, b: u8) -> bool {
        match self {
            Stop::Byte(x) => b == x,
            Stop::Other(x) => b != x,
            Stop::Either(x, y) => b == x || b == y,
            Stop::Space => is_space(b),
            Stop::Ink => !is_space(b),
        }
    }

    /// Whether `b` belongs to the class.
    pub fn test(self, b: u8) -> (r: bool)
        ensures
            r == self.holds(b),
    {
        match self {
            Stop::Byte(x) => b == x,
            Stop::Other(x) => b != x,
            Stop::Either(x, y) => b == x || b == y,
            Stop::Space => b == SPACE || b == TAB || b == NEWLINE || b == FORM_FEED || b == RETURN,
            Stop::Ink => !(b == SPACE || b == TAB || b == NEWLINE || b == FORM_FEED || b == RETURN),
        }
    }
}

/// How many bytes stand at the front of `s` before the first one in `stop`
/// (all of them, if there is none).
pub open spec fn span(s: Seq<u8>, stop: Stop) -> nat
    decreases s.len(),
{
    if s.len() == 0 || stop.holds(s[0]) {
        0
    } else {
        1 + span(s.skip(1), stop)
    }
}

/// How many bytes stand at the back of `s` after the last one in `stop`
/// (all of them, if there is none).
pub open spec fn tail_span(s: Seq<u8>, stop: Stop) -> nat
    decreases s.len(),
{
    if s.len() == 0 || stop.holds(s.last()) {
        0
    } else {
        1 + tail_span(s.drop_last(), stop)
    }
}

/// `span` is the one position up to which nothing stops the scan and at which
/// something does.
pub proof fn lemma_span(s: Seq<u8>, stop: Stop, n: int)
    requires
        0 <= n <= s.len(),
        forall|k: int| 0 <= k < n ==> !stop.holds(#[trigger] s[k]),
        n < s.len() ==> stop.holds(s[n]),
    ensures
        span(s, stop) == n,
    decreases n,
{
    if n > 0 {
        let t = s.skip(1);
        assert forall|k: int| 0 <= k < n - 1 implies !stop.holds(#[trigger] t[k]) by {
            assert(t[k] == s[k + 1]);
        }
        lemma_span(t, stop, n - 1);
    }
}

/// `tail_span` is the one count of trailing bytes that nothing interrupts and
/// before which something does.
pub proof fn lemma_tail_span(s: Seq<u8>, stop: Stop, n: int)
    requires
        0 <= n <= s.len(),
        forall|k: int| s.len() - n <= k < s.len() ==> !stop.holds(#[trigger] s[k]),
        n < s.len() ==> stop.holds(s[s.len() - n - 1]),
    ensures
        tail_span(s, stop) == n,
    decreases n,
{
    if n > 0 {
        let t = s.drop_last();
        assert forall|k: int| t.len() - (n - 1) <= k < t.len() implies !stop.holds(
            #[trigger] t[k],
        ) by {
            assert(t[k] == s[k]);
        }
        lemma_tail_span(t, stop, n - 1);
    }
}

/// The pieces of `s` between occurrences of `sep`; there is always at least
/// one, and an empty piece stands wherever two separators meet.
pub open spec fn pieces(s: Seq<u8>, sep: u8) -> Seq<Seq<u8>>
    decreases s.len(),
{
    let n = span(s, Stop::Byte(sep)) as int;
    if n >= s.len() {
        seq![s]
    } else {
        seq![s.take(n)] + pieces(s.skip(n + 1), sep)
    }
}

/// The maximal runs of bytes of `s` that hold no ASCII whitespace.
pub open spec fn words(s: Seq<u8>) -> Seq<Seq<u8>>
    decreases s.len(),
{
    if s.len() == 0 {
        seq![]
    } else if is_space(s[0]) {
        words(s.skip(1))
    } else {
        let n = span(s, Stop::Space) as int;
        if 0 < n <= s.len() {
            seq![s.take(n)] + words(s.skip(n))
        } else {
            seq![s]
        }
    }
}

/// `s` without one trailing carriage return.
pub open spec fn chomp(s: Seq<u8>) -> Seq<u8> {
    if s.len() > 0 && s.last() == RETURN {
        s.drop_last()
    } else {
        s
    }
}

/// The lines of a file: each ends at a line feed, which is dropped together
/// with a carriage return before it; a last line without a line feed is kept
/// as it is.
pub open spec fn lines(s: Seq<u8>) -> Seq<Seq<u8>>
    decreases s.len(),
{
    if s.len() == 0 {
        seq![]
    } else {
        let n = span(s, Stop::Byte(NEWLINE)) as int;
        if n >= s.len() {
            seq![s]
        } else {
            seq![chomp(s.take(n))] + lines(s.skip(n + 1))
        }
    }
}

/// `s` without the ASCII whitespace at its two ends.
pub open spec fn trimmed(s: Seq<u8>) -> Seq<u8> {
    let t = s.skip(span(s, Stop::Ink) as int);
    t.take(t.len() - tail_span(t, Stop::Ink))
}

/// `s` without the run of `b` at its end.
pub open spec fn without_trailing(s: Seq<u8>, b: u8) -> Seq<u8> {
    s.take(s.len() - tail_span(s, Stop::Other(b)))
}

/// What follows the last `/` of `path` (all of it, if it holds none).
pub open spec fn basename(path: Seq<u8>) -> Seq<u8> {
    path.skip(path.len() - tail_span(path, Stop::Byte(SLASH)))
}

/// The lower-case form of an ASCII capital; any other byte is left alone.
pub open spec fn lower_byte(b: u8) -> u8 {
    if 0x41 <= b <= 0x5a {
        (b + 0x20) as u8
    } else {
        b
    }
}

/// `s` with its ASCII capitals in lower case.
pub open spec fn lowered(s: Seq<u8>) -> Seq<u8> {
    Seq::new(s.len(), |i: int| lower_byte(s[i]))
}

/// `s` with each `from` replaced by the bytes `to`.
pub open spec fn replaced(s: Seq<u8>, from: u8, to: Seq<u8>) -> Seq<u8>
    decreases s.len(),
{
    if s.len() == 0 {
        seq![]
    } else {
        replaced(s.drop_last(), from, to) + (if s.last() == from {
            to
        } else {
            seq![s.last()]
        })
    }
}

/// `p` stands at the front of `s`.
pub open spec fn has_prefix(s: Seq<u8>, p: Seq<u8>) -> bool {
    p.len() <= s.len() && s.take(p.len() as int) == p
}

/// `p` stands at the end of `s`.
pub open spec fn has_suffix(s: Seq<u8>, p: Seq<u8>) -> bool {
    p.len() <= s.len() && s.skip(s.len() - p.len()) == p
}

/// `p` stands in `s` at position `i`.
pub open spec fn occurs_at(s: Seq<u8>, p: Seq<u8>, i: int) -> bool {
    0 <= i && i + p.len() <= s.len() && s.subrange(i, i + p.len()) == p
}

/// `p` stands somewhere in `s`.
pub open spec fn has_part(s: Seq<u8>, p: Seq<u8>) -> bool {
    exists|i: int| occurs_at(s, p, i)
}

/// The first position at which `p` stands in `s`, where it stands somewhere.
pub open spec fn position(s: Seq<u8>, p: Seq<u8>) -> int {
    choose|i: int| occurs_at(s, p, i) && forall|k: int| 0 <= k < i ==> !occurs_at(s, p, k)
}

/// A path extended by `child` as the operating system joins them: an
/// absolute `child` stands for itself, and one separator is put between the
/// two unless `base` is empty or already ends in one.
pub open spec fn joined(base: Seq<u8>, child: Seq<u8>) -> Seq<u8> {
    if child.len() > 0 && child[0] == SLASH {
        child
    } else if base.len() == 0 || base.last() == SLASH {
        base + child
    } else {
        base + seq![SLASH] + child
    }
}

/// The bytes of a string.
pub fn text(s: &str) -> (r: Vec<u8>)
    ensures
        r@ == lit(s),
{
    s.as_bytes_vec()
}

/// A copy of the bytes of `s` from `from` up to `to`.
pub fn part(s: &[u8], from: usize, to: usize) -> (r: Vec<u8>)
    requires
        from <= to <= s@.len(),
    ensures
        r@ == s@.subrange(from as int, to as int),
{
    slice_to_vec(slice_subrange(s, from, to))
}

/// A copy of `s`.
pub fn copy(s: &[u8]) -> (r: Vec<u8>)
    ensures
        r@ == s@,
{
    slice_to_vec(s)
}

/// Adds `x` at the end of `v`.
pub fn push_bytes(v: &mut Vec<Vec<u8>>, x: Vec<u8>)
    ensures
        texts(final(v)@) == texts(old(v)@).push(x@),
        final(v)@.len() == old(v)@.len() + 1,
{
    v.push(x);
    assert(texts(v@) == texts(old(v)@).push(x@));
}

/// Adds the bytes of `s` at the end of `v`.
pub fn push_text(v: &mut Vec<Vec<u8>>, s: &str)
    ensures
        texts(final(v)@) == texts(old(v)@).push(lit(s)),
        final(v)@.len() == old(v)@.len() + 1,
{
    push_bytes(v, text(s));
}

/// A list without entries.
pub fn no_texts() -> (r: Vec<Vec<u8>>)
    ensures
        texts(r@) == Seq::<Seq<u8>>::empty(),
        r@.len() == 0,
{
    let v: Vec<Vec<u8>> = Vec::new();
    assert(texts(v@) == Seq::<Seq<u8>>::empty());
    v
}

/// A copy of a list of byte strings without its first entry.
pub fn rest_of(v: &Vec<Vec<u8>>) -> (r: Vec<Vec<u8>>)
    requires
        v@.len() > 0,
    ensures
        texts(r@) == texts(v@).skip(1),
{
    let mut out: Vec<Vec<u8>> = Vec::new();
    let mut i: usize = 1;
    while i < v.len()
        invariant
            1 <= i <= v@.len(),
            out@.len() == i - 1,
            forall|k: int| 0 <= k < i - 1 ==> #[trigger] out@[k]@ == v@[k + 1]@,
        decreases v@.len() - i,
    {
        out.push(copy(v[i].as_slice()));
        i += 1;
    }
    assert(texts(out@) == texts(v@).skip(1));
    out
}

/// A copy of a list of byte strings.
pub fn copy_all(v: &Vec<Vec<u8>>) -> (r: Vec<Vec<u8>>)
    ensures
        texts(r@) == texts(v@),
{
    let mut out: Vec<Vec<u8>> = Vec::new();
    let mut i: usize = 0;
    while i < v.len()
        invariant
            i <= v@.len(),
            out@.len() == i,
            forall|k: int| 0 <= k < i ==> #[trigger] out@[k]@ == v@[k]@,
        decreases v@.len() - i,
    {
        out.push(copy(v[i].as_slice()));
        i += 1;
    }
    assert(texts(out@) == texts(v@));
    out
}

/// `core::str::from_utf8`, asked only whether it succeeds: it does so
/// exactly on well-formed UTF-8.
#[verifier::external_body]
pub(crate) fn is_utf8(s: &[u8]) -> (r: bool)
    ensures
        r == valid_utf8(s@),
{
    core::str::from_utf8(s).is_ok()
}

/// Whether two byte strings hold the same bytes.
pub fn same(a: &[u8], b: &[u8]) -> (r: bool)
    ensures
        r == (a@ == b@),
{
    if a.len() != b.len() {
        return false;
    }
    let mut i: usize = 0;
    while i < a.len()
        invariant
            i <= a@.len(),
            a@.len() == b@.len(),
            a@.take(i as int) == b@.take(i as int),
        decreases a@.len() - i,
    {
        if a[i] != b[i] {
            assert(a@[i as int] != b@[i as int]);
            return false;
        }
        assert(a@.take(i + 1) == a@.take(i as int).push(a@[i as int]));
        assert(b@.take(i + 1) == b@.take(i as int).push(b@[i as int]));
        i += 1;
    }
    assert(a@ == a@.take(i as int));
    assert(b@ == b@.take(i as int));
    true
}

/// Whether `a` holds exactly the bytes of the string `s`.
pub fn is(a: &[u8], s: &str) -> (r: bool)
    ensures
        r == (a@ == lit(s)),
{
    same(a, s.as_bytes())
}

/// The first position at or after `from` whose byte is in `stop`, or the
/// length of `s` if there is none.
pub fn scan(s: &[u8], from: usize, stop: Stop) -> (r: usize)
    requires
        from <= s@.len(),
    ensures
        from <= r <= s@.len(),
        r == from + span(s@.skip(from as int), stop),
        forall|k: int| from <= k < r ==> !stop.holds(#[trigger] s@[k]),
        r < s@.len() ==> stop.holds(s@[r as int]),
{
    let mut i: usize = from;
    while i < s.len() && !stop.test(s[i])
        invariant
            from <= i <= s@.len(),
            forall|k: int| from <= k < i ==> !stop.holds(#[trigger] s@[k]),
        decreases s@.len() - i,
    {
        i += 1;
    }
    proof {
        let t = s@.skip(from as int);
        assert forall|k: int| 0 <= k < i - from implies !stop.holds(#[trigger] t[k]) by {
            assert(t[k] == s@[from + k]);
        }
        lemma_span(t, stop, i - from);
    }
    i
}

/// The position after the last byte of `s` that is in `stop`, or 0 if there
/// is none.
pub fn scan_back(s: &[u8], stop: Stop) -> (r: usize)
    ensures
        r <= s@.len(),
        r == s@.len() - tail_span(s@, stop),
{
    let mut i: usize = s.len();
    while i > 0 && !stop.test(s[i - 1])
        invariant
            i <= s@.len(),
            forall|k: int| i <= k < s@.len() ==> !stop.holds(#[trigger] s@[k]),
        decreases i,
    {
        i -= 1;
    }
    proof {
        lemma_tail_span(s@, stop, s@.len() - i);
    }
    i
}

/// Splits `s` at each `sep`.
pub fn split(s: &[u8], sep: u8) -> (r: Vec<Vec<u8>>)
    ensures
        texts(r@) == pieces(s@, sep),
{
    let mut out: Vec<Vec<u8>> = Vec::new();
    let mut i: usize = 0;
    assert(s@.skip(0) == s@);
    assert(texts(out@) + pieces(s@, sep) == pieces(s@, sep));
    loop
        invariant
            i <= s@.len(),
            pieces(s@, sep) == texts(out@) + pieces(s@.skip(i as int), sep),
        decreases s@.len() - i,
    {
        let j = scan(s, i, Stop::Byte(sep));
        let ghost before = out@;
        let ghost rest = s@.skip(i as int);
        out.push(part(s, i, j));
        if j >= s.len() {
            proof {
                assert(rest.subrange(0, rest.len() as int) == rest);
                assert(s@.subrange(i as int, j as int) == rest);
                assert(texts(out@) == texts(before) + seq![rest]);
            }
            return out;
        }
        proof {
            assert(rest.take(j - i) == s@.subrange(i as int, j as int));
            assert(rest.skip(j - i + 1) == s@.skip(j + 1));
            assert(texts(out@) == texts(before) + seq![rest.take(j - i)]);
        }
        i = j + 1;
    }
}

/// Splits `s` into its words.
pub fn split_words(s: &[u8]) -> (r: Vec<Vec<u8>>)
    ensures
        texts(r@) == words(s@),
{
    let mut out: Vec<Vec<u8>> = Vec::new();
    let mut i: usize = 0;
    assert(s@.skip(0) == s@);
    assert(texts(out@) + words(s@) == words(s@));
    while i < s.len()
        invariant
            i <= s@.len(),
            words(s@) == texts(out@) + words(s@.skip(i as int)),
        decreases s@.len() - i,
    {
        let ghost rest = s@.skip(i as int);
        let ghost before = out@;
        if Stop::Space.test(s[i]) {
            assert(rest.skip(1) == s@.skip(i + 1));
            i += 1;
        } else {
            let j = scan(s, i, Stop::Space);
            assert(j > i) by {
                if j == i {
                    assert(Stop::Space.holds(s@[j as int]));
                }
            }
            out.push(part(s, i, j));
            proof {
                assert(rest.take(j - i) == s@.subrange(i as int, j as int));
                assert(rest.skip(j - i) == s@.skip(j as int));
                assert(texts(out@) == texts(before) + seq![rest.take(j - i)]);
            }
            i = j;
        }
    }
    assert(s@.skip(i as int).len() == 0);
    assert(texts(out@) + Seq::<Seq<u8>>::empty() == texts(out@));
    out
}

/// Splits the contents of a file into its lines.
pub fn split_lines(s: &[u8]) -> (r: Vec<Vec<u8>>)
    ensures
        texts(r@) == lines(s@),
{
    let mut out: Vec<Vec<u8>> = Vec::new();
    let mut i: usize = 0;
    assert(s@.skip(0) == s@);
    assert(texts(out@) + lines(s@) == lines(s@));
    while i < s.len()
        invariant
            i <= s@.len(),
            lines(s@) == texts(out@) + lines(s@.skip(i as int)),
        decreases s@.len() - i,
    {
        let ghost rest = s@.skip(i as int);
        let ghost before = out@;
        let j = scan(s, i, Stop::Byte(NEWLINE));
        if j >= s.len() {
            out.push(part(s, i, j));
            proof {
                assert(s@.subrange(i as int, j as int) == rest);
                assert(texts(out@) == texts(before) + seq![rest]);
                assert(s@.skip(j as int).len() == 0);
                assert(texts(out@) + Seq::<Seq<u8>>::empty() == texts(out@));
            }
            return out;
        }
        let end = if j > i && s[j - 1] == RETURN {
            j - 1
        } else {
            j
        };
        out.push(part(s, i, end));
        proof {
            let line = rest.take(j - i);
            assert(line == s@.subrange(i as int, j as int));
            if j > i {
                assert(line.last() == s@[j - 1]);
            }
            assert(chomp(line) == s@.subrange(i as int, end as int));
            assert(rest.skip(j - i + 1) == s@.skip(j + 1));
            assert(texts(out@) == texts(before) + seq![chomp(line)]);
        }
        i = j + 1;
    }
    assert(s@.skip(i as int).len() == 0);
    assert(texts(out@) + Seq::<Seq<u8>>::empty() == texts(out@));
    out
}

/// `s` without the ASCII whitespace at its two ends.
pub fn trim(s: &[u8]) -> (r: Vec<u8>)
    ensures
        r@ == trimmed(s@),
{
    let a = scan(s, 0, Stop::Ink);
    assert(s@.skip(0) == s@);
    let t = slice_subrange(s, a, s.len());
    assert(t@ == s@.skip(a as int));
    let b = scan_back(t, Stop::Ink);
    part(t, 0, b)
}

/// `s` without the run of `b` at its end.
pub fn trim_end_matches(s: &[u8], b: u8) -> (r: Vec<u8>)
    ensures
        r@ == without_trailing(s@, b),
{
    let n = scan_back(s, Stop::Other(b));
    part(s, 0, n)
}

/// What follows the last `/` of `path`.
pub fn file_name(path: &[u8]) -> (r: Vec<u8>)
    ensures
        r@ == basename(path@),
{
    let n = scan_back(path, Stop::Byte(SLASH));
    part(path, n, path.len())
}

/// `s` with its ASCII capitals in lower case.
pub fn to_ascii_lowercase(s: &[u8]) -> (r: Vec<u8>)
    ensures
        r@ == lowered(s@),
{
    let mut out: Vec<u8> = Vec::new();
    let mut i: usize = 0;
    while i < s.len()
        invariant
            i <= s@.len(),
            out@ == lowered(s@.take(i as int)),
        decreases s@.len() - i,
    {
        let b = s[i];
        let c = if 0x41 <= b && b <= 0x5a {
            b + 0x20
        } else {
            b
        };
        out.push(c);
        assert(out@ == lowered(s@.take(i + 1)));
        i += 1;
    }
    assert(s@.take(i as int) == s@);
    out
}

/// Whether two byte strings are equal but for the case of ASCII letters.
pub fn eq_ignore_ascii_case(a: &[u8], b: &[u8]) -> (r: bool)
    ensures
        r == (lowered(a@) == lowered(b@)),
{
    let x = to_ascii_lowercase(a);
    let y = to_ascii_lowercase(b);
    same(x.as_slice(), y.as_slice())
}

/// `s` with each `from` replaced by the bytes `to`.
pub fn replace(s: &[u8], from: u8, to: &[u8]) -> (r: Vec<u8>)
    ensures
        r@ == replaced(s@, from, to@),
{
    let mut out: Vec<u8> = Vec::new();
    let mut i: usize = 0;
    while i < s.len()
        invariant
            i <= s@.len(),
            out@ == replaced(s@.take(i as int), from, to@),
        decreases s@.len() - i,
    {
        assert(s@.take(i + 1).drop_last() == s@.take(i as int));
        if s[i] == from {
            out.extend_from_slice(to);
        } else {
            out.push(s[i]);
        }
        i += 1;
    }
    assert(s@.take(i as int) == s@);
    out
}

/// Whether `p` stands at the front of `s`.
pub fn starts_with(s: &[u8], p: &[u8]) -> (r: bool)
    ensures
        r == has_prefix(s@, p@),
{
    if p.len() > s.len() {
        return false;
    }
    same(slice_subrange(s, 0, p.len()), p)
}

/// Whether `p` stands at the end of `s`.
pub fn ends_with(s: &[u8], p: &[u8]) -> (r: bool)
    ensures
        r == has_suffix(s@, p@),
{
    if p.len() > s.len() {
        return false;
    }
    same(slice_subrange(s, s.len() - p.len(), s.len()), p)
}

/// The first position at which `p` stands in `s`.
pub fn find(s: &[u8], p: &[u8]) -> (r: Option<usize>)
    ensures
        match r {
            Some(i) => occurs_at(s@, p@, i as int) && i == position(s@, p@) && forall|k: int|
                0 <= k < i ==> !occurs_at(s@, p@, k),
            None => !has_part(s@, p@),
        },
{
    if p.len() > s.len() {
        return None;
    }
    let last = s.len() - p.len();
    let mut i: usize = 0;
    loop
        invariant
            last == s@.len() - p@.len(),
            s@.len() <= usize::MAX,
            i <= last,
            forall|k: int| 0 <= k < i ==> !occurs_at(s@, p@, k),
        decreases last - i,
    {
        if same(slice_subrange(s, i, i + p.len()), p) {
            proof {
                let j = position(s@, p@);
                assert(occurs_at(s@, p@, i as int));
                if j < i {
                    assert(!occurs_at(s@, p@, j));
                }
            }
            return Some(i);
        }
        if i == last {
            return None;
        }
        i += 1;
    }
}

/// Whether `p` stands somewhere in `s`.
pub fn contains(s: &[u8], p: &[u8]) -> (r: bool)
    ensures
        r == has_part(s@, p@),
{
    find(s, p).is_some()
}

/// Whether the byte `b` stands somewhere in `s`.
pub fn contains_byte(s: &[u8], b: u8) -> (r: bool)
    ensures
        r == s@.contains(b),
        r == (span(s@, Stop::Byte(b)) < s@.len()),
{
    let n = scan(s, 0, Stop::Byte(b));
    assert(s@.skip(0) == s@);
    n < s.len()
}

/// `a` followed by `b`.
pub fn concat(a: &[u8], b: &[u8]) -> (r: Vec<u8>)
    ensures
        r@ == a@ + b@,
{
    let mut out = slice_to_vec(a);
    out.extend_from_slice(b);
    out
}

/// `base` extended by `child`, as the operating system joins two paths.
pub fn join(base: &[u8], child: &[u8]) -> (r: Vec<u8>)
    ensures
        r@ == joined(base@, child@),
{
    if child.len() > 0 && child[0] == SLASH {
        copy(child)
    } else if base.len() == 0 || base[base.len() - 1] == SLASH {
        concat(base, child)
    } else {
        let mut out = slice_to_vec(base);
        out.push(SLASH);
        out.extend_from_slice(child);
        out
    }
}

} // verus!
