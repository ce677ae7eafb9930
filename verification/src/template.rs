//! Command templates of the `BROWSER` environment variable.
//!
//! The variable holds templates separated by `:`. A template is a command
//! line whose words are separated by ASCII whitespace, without quoting. In a
//! word, `%s` stands for the URL, `%c` for a colon and `%%` for a percent
//! sign. A template is read once, from left to right: what a code is replaced
//! by is never read again, so a URL that itself holds `%s` or `%c` passes
//! through untouched. A template that names the URL nowhere gets it as its
//! last argument.

use crate::text::split_words;
use crate::text::texts;
use crate::text::words;
use crate::text::COLON;
use crate::text::PERCENT;
use vstd::prelude::*;

verus! {

/// `s`
pub const CODE_URL: u8 = 0x73;

/// `c`
pub const CODE_COLON: u8 = 0x63;

/// Whether a code starts at the front of `t`.
pub open spec fn at_code(t: Seq<u8>) -> bool {
    t.len() >= 2 && t[0] == PERCENT && (t[1] == CODE_URL || t[1] == CODE_COLON || t[1] == PERCENT)
}

/// What the code at the front of `t` is replaced by.
pub open spec fn code_value(t: Seq<u8>, url: Seq<u8>) -> Seq<u8> {
    if t[1] == CODE_URL {
        url
    } else if t[1] == CODE_COLON {
        seq![COLON]
    } else {
        seq![PERCENT]
    }
}

/// The text `t` with its codes replaced.
pub open spec fn expanded(t: Seq<u8>, url: Seq<u8>) -> Seq<u8>
    decreases t.len(),
{
    if t.len() == 0 {
        seq![]
    } else if at_code(t) {
        code_value(t, url) + expanded(t.skip(2), url)
    } else {
        seq![t[0]] + expanded(t.skip(1), url)
    }
}

/// Whether the code `%s` stands in `t`.
pub open spec fn names_url(t: Seq<u8>) -> bool
    decreases t.len(),
{
    if t.len() == 0 {
        false
    } else if at_code(t) {
        t[1] == CODE_URL || names_url(t.skip(2))
    } else {
        names_url(t.skip(1))
    }
}

/// Whether reading `t` ends on a percent sign that a following byte could
/// still turn into a code.
pub open spec fn ends_open(t: Seq<u8>) -> bool
    decreases t.len(),
{
    if t.len() == 0 {
        false
    } else if at_code(t) {
        ends_open(t.skip(2))
    } else if t.len() == 1 {
        t[0] == PERCENT
    } else {
        ends_open(t.skip(1))
    }
}

/// The words of a template, each with its codes replaced.
pub open spec fn expanded_words(template: Seq<u8>, url: Seq<u8>) -> Seq<Seq<u8>> {
    let ws = words(template);
    Seq::new(ws.len(), |i: int| expanded(ws[i], url))
}

/// The command line that a template stands for: its expanded words, and the
/// URL after them unless the template names it.
pub open spec fn command_line(template: Seq<u8>, url: Seq<u8>) -> Seq<Seq<u8>> {
    if names_url(template) {
        expanded_words(template, url)
    } else {
        expanded_words(template, url).push(url)
    }
}

/// A piece of a template that has been read: a byte to be put out as it is,
/// or the place of the URL.
pub enum Piece {
    Byte(u8),
    Url,
}

/// The pieces of a template. The URL plays no part in finding them.
pub open spec fn template_pieces(t: Seq<u8>) -> Seq<Piece>
    decreases t.len(),
{
    if t.len() == 0 {
        seq![]
    } else if at_code(t) {
        seq![
            if t[1] == CODE_URL {
                Piece::Url
            } else if t[1] == CODE_COLON {
                Piece::Byte(COLON)
            } else {
                Piece::Byte(PERCENT)
            },
        ] + template_pieces(t.skip(2))
    } else {
        seq![Piece::Byte(t[0])] + template_pieces(t.skip(1))
    }
}

/// The bytes that pieces stand for once the URL is known.
pub open spec fn filled(pieces: Seq<Piece>, url: Seq<u8>) -> Seq<u8>
    decreases pieces.len(),
{
    if pieces.len() == 0 {
        seq![]
    } else {
        (match pieces[0] {
            Piece::Byte(b) => seq![b],
            Piece::Url => url,
        }) + filled(pieces.skip(1), url)
    }
}

/// Replacing `%c` and `%%` does not depend on the URL, and putting in the URL
/// does not depend on what `%c` and `%%` became: the expansion is what one
/// gets by first resolving the template into pieces, without the URL, and
/// then filling the URL into its places, unread.
pub proof fn lemma_url_is_filled_in_unread(t: Seq<u8>, url: Seq<u8>)
    ensures
        expanded(t, url) == filled(template_pieces(t), url),
    decreases t.len(),
{
    if t.len() == 0 {
    } else if at_code(t) {
        lemma_url_is_filled_in_unread(t.skip(2), url);
        let ps = template_pieces(t);
        assert(ps.skip(1) == template_pieces(t.skip(2)));
    } else {
        lemma_url_is_filled_in_unread(t.skip(1), url);
        let ps = template_pieces(t);
        assert(ps.skip(1) == template_pieces(t.skip(1)));
    }
}

/// Expansion goes piece by piece: where the first part of a template does
/// not end on an open percent sign, the whole expands to the expansions of
/// its two parts, one after the other.
pub proof fn lemma_expanded_concat(a: Seq<u8>, b: Seq<u8>, url: Seq<u8>)
    requires
        !ends_open(a),
    ensures
        expanded(a + b, url) == expanded(a, url) + expanded(b, url),
    decreases a.len(),
{
    let t = a + b;
    if a.len() == 0 {
        assert(t == b);
    } else if at_code(a) {
        assert(at_code(t));
        assert(t.skip(2) == a.skip(2) + b);
        lemma_expanded_concat(a.skip(2), b, url);
    } else {
        if a.len() == 1 {
            assert(a[0] != PERCENT);
        }
        assert(!at_code(t));
        assert(t.skip(1) == a.skip(1) + b);
        lemma_expanded_concat(a.skip(1), b, url);
    }
}

/// A template that is complete before a `%s` names the URL.
pub proof fn lemma_names_url_concat(a: Seq<u8>, b: Seq<u8>)
    requires
        !ends_open(a),
    ensures
        names_url(a + b) == (names_url(a) || names_url(b)),
    decreases a.len(),
{
    let t = a + b;
    if a.len() == 0 {
        assert(t == b);
    } else if at_code(a) {
        assert(at_code(t));
        assert(t.skip(2) == a.skip(2) + b);
        lemma_names_url_concat(a.skip(2), b);
    } else {
        if a.len() == 1 {
            assert(a[0] != PERCENT);
        }
        assert(!at_code(t));
        assert(t.skip(1) == a.skip(1) + b);
        lemma_names_url_concat(a.skip(1), b);
    }
}

/// Where `%s` stands in a word, the URL stands in its expansion, byte for
/// byte, between the expansions of what is before and after the code; the
/// bytes of the URL are not expanded again.
pub proof fn lemma_url_verbatim(a: Seq<u8>, b: Seq<u8>, url: Seq<u8>)
    requires
        !ends_open(a),
    ensures
        expanded(a + seq![PERCENT, CODE_URL] + b, url) == expanded(a, url) + url + expanded(b, url),
        names_url(a + seq![PERCENT, CODE_URL] + b),
{
    let code = seq![PERCENT, CODE_URL];
    let tail = code + b;
    assert(a + code + b == a + tail);
    lemma_expanded_concat(a, tail, url);
    lemma_names_url_concat(a, tail);
    assert(at_code(tail));
    assert(tail.skip(2) == b);
    assert(expanded(a, url) + (url + expanded(b, url)) == expanded(a, url) + url + expanded(
        b,
        url,
    ));
}

/// The text `t` with its codes replaced.
pub fn expand(t: &[u8], url: &[u8]) -> (r: Vec<u8>)
    ensures
        r@ == expanded(t@, url@),
{
    let mut out: Vec<u8> = Vec::new();
    let mut i: usize = 0;
    assert(t@.skip(0) == t@);
    assert(out@ + expanded(t@, url@) == expanded(t@, url@));
    while i < t.len()
        invariant
            i <= t@.len(),
            expanded(t@, url@) == out@ + expanded(t@.skip(i as int), url@),
        decreases t@.len() - i,
    {
        let ghost rest = t@.skip(i as int);
        let ghost before = out@;
        if t[i] == PERCENT && i + 1 < t.len() && (t[i + 1] == CODE_URL || t[i + 1] == CODE_COLON
            || t[i + 1] == PERCENT) {
            assert(at_code(rest));
            assert(rest.skip(2) == t@.skip(i + 2));
            if t[i + 1] == CODE_URL {
                out.extend_from_slice(url);
            } else if t[i + 1] == CODE_COLON {
                out.push(COLON);
            } else {
                out.push(PERCENT);
            }
            assert(out@ == before + code_value(rest, url@));
            assert(before + (code_value(rest, url@) + expanded(rest.skip(2), url@)) == out@
                + expanded(rest.skip(2), url@));
            i += 2;
        } else {
            assert(!at_code(rest));
            assert(rest.skip(1) == t@.skip(i + 1));
            out.push(t[i]);
            assert(before + (seq![rest[0]] + expanded(rest.skip(1), url@)) == out@ + expanded(
                rest.skip(1),
                url@,
            ));
            i += 1;
        }
    }
    assert(t@.skip(i as int).len() == 0);
    assert(out@ + Seq::<u8>::empty() == out@);
    out
}

/// Whether the code `%s` stands in `t`.
pub fn has_url_code(t: &[u8]) -> (r: bool)
    ensures
        r == names_url(t@),
{
    let mut i: usize = 0;
    assert(t@.skip(0) == t@);
    while i < t.len()
        invariant
            i <= t@.len(),
            names_url(t@) == names_url(t@.skip(i as int)),
        decreases t@.len() - i,
    {
        let ghost rest = t@.skip(i as int);
        if t[i] == PERCENT && i + 1 < t.len() && (t[i + 1] == CODE_URL || t[i + 1] == CODE_COLON
            || t[i + 1] == PERCENT) {
            assert(at_code(rest));
            assert(rest.skip(2) == t@.skip(i + 2));
            if t[i + 1] == CODE_URL {
                return true;
            }
            i += 2;
        } else {
            assert(!at_code(rest));
            assert(rest.skip(1) == t@.skip(i + 1));
            i += 1;
        }
    }
    false
}

/// The command line that `template` stands for when `url` is to be opened.
///
/// A template that names the URL keeps as many words as it has, and does not
/// get the URL a second time at its end; one that does not name it gets the
/// URL as exactly one more argument.
pub fn expand_template(template: &[u8], url: &[u8]) -> (r: Vec<Vec<u8>>)
    ensures
        texts(r@) == command_line(template@, url@),
        names_url(template@) ==> r@.len() == words(template@).len(),
        !names_url(template@) ==> r@.len() == words(template@).len() + 1 && r@.last()@ == url@,
        forall|i: int|
            0 <= i < words(template@).len() ==> #[trigger] r@[i]@ == expanded(
                words(template@)[i],
                url@,
            ),
{
    let ws = split_words(template);
    let mut out: Vec<Vec<u8>> = Vec::new();
    let mut i: usize = 0;
    while i < ws.len()
        invariant
            i <= ws@.len(),
            texts(ws@) == words(template@),
            out@.len() == i,
            forall|k: int| 0 <= k < i ==> #[trigger] out@[k]@ == expanded(ws@[k]@, url@),
        decreases ws@.len() - i,
    {
        out.push(expand(ws[i].as_slice(), url));
        i += 1;
    }
    assert(texts(out@) == expanded_words(template@, url@)) by {
        assert forall|k: int| 0 <= k < out@.len() implies texts(out@)[k] == expanded_words(
            template@,
            url@,
        )[k] by {
            assert(texts(ws@)[k] == ws@[k]@);
        }
    }
    assert forall|k: int| 0 <= k < words(template@).len() implies #[trigger] out@[k]@ == expanded(
        words(template@)[k],
        url@,
    ) by {
        assert(texts(ws@)[k] == ws@[k]@);
    }
    if !has_url_code(template) {
        let ghost before = out@;
        out.push(crate::text::copy(url));
        assert(texts(out@) == texts(before).push(url@));
    }
    out
}

} // verus!
