//! Desktop entries: the `.desktop` files that say how an application is
//! started.
//!
//! Only the group `[Desktop Entry]` is read, and of it the keys `Exec`,
//! `Hidden` and `Terminal`. Comments, blank lines and lines without `=` are
//! passed over.

use crate::text::is;
use crate::text::lines;
use crate::text::lit;
use crate::text::part;
use crate::text::scan;
use crate::text::span;
use crate::text::split_lines;
use crate::text::texts;
use crate::text::Stop;
use crate::text::BRACKET;
use crate::text::EQUALS;
use crate::text::HASH;
use crate::token::tokens;
use vstd::prelude::*;

verus! {

/// What a desktop entry says of the application.
#[derive(Clone, Debug, PartialEq, Eq)]
pub struct DesktopEntryRecord {
    /// The command line to start it with, where the entry has one.
    pub exec_template: Option<Vec<u8>>,
    /// The entry is to be treated as if it did not exist.
    pub hidden: bool,
    /// The application needs a terminal to run in.
    pub requires_terminal: bool,
}

/// The contents of a [`DesktopEntryRecord`].
pub struct EntryView {
    pub exec_template: Option<Seq<u8>>,
    pub hidden: bool,
    pub requires_terminal: bool,
}

impl View for DesktopEntryRecord {
    type V = EntryView;

    open spec fn view(&self) -> EntryView {
        EntryView {
            exec_template: crate::host::value(self.exec_template),
            hidden: self.hidden,
            requires_terminal: self.requires_terminal,
        }
    }
}

/// What has been read of a file up to some line.
pub struct Reading {
    /// Whether the last group header was `[Desktop Entry]`.
    pub inside: bool,
    pub entry: EntryView,
}

/// Whether a line opens a group.
pub open spec fn is_header(line: Seq<u8>) -> bool {
    line.len() > 0 && line[0] == BRACKET
}

/// Whether a line is a comment.
pub open spec fn is_comment(line: Seq<u8>) -> bool {
    line.len() > 0 && line[0] == HASH
}

/// The key of a line: what stands before its first `=`.
pub open spec fn key_of(line: Seq<u8>) -> Option<Seq<u8>> {
    let n = span(line, Stop::Byte(EQUALS)) as int;
    if n < line.len() {
        Some(line.take(n))
    } else {
        None
    }
}

/// The value of a line: what stands after its first `=`.
pub open spec fn value_of(line: Seq<u8>) -> Seq<u8> {
    line.skip(span(line, Stop::Byte(EQUALS)) as int + 1)
}

/// The reading after one more line.
///
/// `Exec` and `Terminal` take the value of their last line. `Hidden` holds
/// as soon as one line of the group says `Hidden=true`.
pub open spec fn absorb(before: Reading, line: Seq<u8>) -> Reading {
    if line == lit("[Desktop Entry]") {
        Reading { inside: true, entry: before.entry }
    } else if is_header(line) {
        Reading { inside: false, entry: before.entry }
    } else if before.inside && !is_comment(line) {
        if key_of(line) == Some(lit("Exec")) {
            Reading {
                inside: true,
                entry: EntryView { exec_template: Some(value_of(line)), ..before.entry },
            }
        } else if key_of(line) == Some(lit("Hidden")) {
            Reading {
                inside: true,
                entry: EntryView {
                    hidden: before.entry.hidden || value_of(line) == lit("true"),
                    ..before.entry
                },
            }
        } else if key_of(line) == Some(lit("Terminal")) {
            Reading {
                inside: true,
                entry: EntryView { requires_terminal: value_of(line) == lit("true"), ..before.entry },
            }
        } else {
            before
        }
    } else {
        before
    }
}

/// The reading before the first line.
pub open spec fn nothing_read() -> Reading {
    Reading {
        inside: false,
        entry: EntryView { exec_template: None, hidden: false, requires_terminal: false },
    }
}

/// The reading after all of `ls`.
pub open spec fn reading(ls: Seq<Seq<u8>>) -> Reading
    decreases ls.len(),
{
    if ls.len() == 0 {
        nothing_read()
    } else {
        absorb(reading(ls.drop_last()), ls.last())
    }
}

/// What the file with these contents says.
pub open spec fn entry_of(contents: Seq<u8>) -> EntryView {
    reading(lines(contents)).entry
}

/// Whether a token of an `Exec` line stands for the target: `%u`, `%U`, `%f`
/// or `%F`.
pub open spec fn is_field_code(token: Seq<u8>) -> bool {
    token == lit("%u") || token == lit("%U") || token == lit("%f") || token == lit("%F")
}

/// The arguments among the tokens `ts` of an `Exec` line from position `i`
/// on, each field code replaced by `url`.
pub open spec fn exec_args(ts: Seq<Seq<u8>>, url: Seq<u8>) -> Seq<Seq<u8>> {
    Seq::new(
        (ts.len() - 1) as nat,
        |i: int|
            if is_field_code(ts[i + 1]) {
                url
            } else {
                ts[i + 1]
            },
    )
}

/// Whether one of the arguments among the tokens `ts` is a field code.
pub open spec fn has_field_code(ts: Seq<Seq<u8>>) -> bool {
    exists|i: int| 1 <= i < ts.len() && is_field_code(#[trigger] ts[i])
}

/// The arguments that an `Exec` line with the tokens `ts` gives its program
/// when `url` is to be opened: the tokens after the first, each field code
/// replaced by `url`, and `url` after them if there was no field code.
pub open spec fn exec_arguments(ts: Seq<Seq<u8>>, url: Seq<u8>) -> Seq<Seq<u8>> {
    if has_field_code(ts) {
        exec_args(ts, url)
    } else {
        exec_args(ts, url).push(url)
    }
}

/// What the bytes of the line `Hidden=true` are.
proof fn lemma_hidden_literal()
    ensures
        key_of(lit("Hidden=true")) == Some(lit("Hidden")),
        value_of(lit("Hidden=true")) == lit("true"),
        lit("Hidden=true") != lit("[Desktop Entry]"),
        !is_header(lit("Hidden=true")),
        !is_comment(lit("Hidden=true")),
        lit("Hidden") != lit("Exec"),
{
    reveal_strlit("Hidden=true");
    reveal_strlit("Hidden");
    reveal_strlit("true");
    reveal_strlit("Exec");
    reveal_strlit("[Desktop Entry]");
    vstd::string::is_ascii_spec_bytes("Hidden=true");
    vstd::string::is_ascii_spec_bytes("Hidden");
    vstd::string::is_ascii_spec_bytes("true");
    vstd::string::is_ascii_spec_bytes("Exec");
    vstd::string::is_ascii_spec_bytes("[Desktop Entry]");
    let line = lit("Hidden=true");
    assert(line.len() == 11);
    assert(line[6] == EQUALS);
    crate::text::lemma_span(line, Stop::Byte(EQUALS), 6);
    assert(line.take(6) == lit("Hidden"));
    assert(line.skip(7) == lit("true"));
    assert(lit("Hidden").len() == 6);
    assert(lit("Exec").len() == 4);
    assert(lit("[Desktop Entry]").len() == 15);
}

/// `Hidden=true` in the group `[Desktop Entry]` hides the entry, whatever
/// else the file holds: where line `i` stands in the group and says so, the
/// entry is hidden.
pub proof fn lemma_hidden_anywhere(ls: Seq<Seq<u8>>, i: int)
    requires
        0 <= i < ls.len(),
        reading(ls.take(i)).inside,
        ls[i] == lit("Hidden=true"),
    ensures
        reading(ls).entry.hidden,
{
    lemma_hidden_literal();
    lemma_hidden_stays(ls, i + 1);
    assert(ls.take(i + 1).drop_last() == ls.take(i));
    assert(ls.take(i + 1).last() == ls[i]);
}

/// Once hidden, always hidden: no later line takes it back.
pub proof fn lemma_hidden_stays(ls: Seq<Seq<u8>>, n: int)
    requires
        0 <= n <= ls.len(),
    ensures
        reading(ls.take(n)).entry.hidden ==> reading(ls).entry.hidden,
    decreases ls.len() - n,
{
    if n == ls.len() {
        assert(ls.take(n) == ls);
    } else {
        assert(ls.take(n + 1).drop_last() == ls.take(n));
        lemma_hidden_stays(ls, n + 1);
    }
}

/// A line outside the group `[Desktop Entry]` that is no group header has no
/// part in what is read: the file without it reads the same.
pub proof fn lemma_outside_lines_do_not_count(ls: Seq<Seq<u8>>, i: int)
    requires
        0 <= i < ls.len(),
        !reading(ls.take(i)).inside,
        !is_header(ls[i]),
        ls[i] != lit("[Desktop Entry]"),
    ensures
        reading(ls.remove(i)) == reading(ls),
    decreases ls.len(),
{
    if i == ls.len() - 1 {
        assert(ls.remove(i) == ls.drop_last());
        assert(ls.take(i) == ls.drop_last());
    } else {
        let shorter = ls.drop_last();
        assert(shorter.take(i) == ls.take(i));
        lemma_outside_lines_do_not_count(shorter, i);
        assert(ls.remove(i).drop_last() == shorter.remove(i));
        assert(ls.remove(i).last() == ls.last());
    }
}

/// A line outside the group `[Desktop Entry]` may say anything that is no
/// group header: whatever stands in its place, the file reads the same.
pub proof fn lemma_outside_lines_may_change(ls: Seq<Seq<u8>>, i: int, other: Seq<u8>)
    requires
        0 <= i < ls.len(),
        !reading(ls.take(i)).inside,
        !is_header(ls[i]),
        ls[i] != lit("[Desktop Entry]"),
        !is_header(other),
        other != lit("[Desktop Entry]"),
    ensures
        reading(ls.update(i, other)) == reading(ls),
{
    let changed = ls.update(i, other);
    assert(changed.take(i) == ls.take(i));
    lemma_outside_lines_do_not_count(ls, i);
    lemma_outside_lines_do_not_count(changed, i);
    assert(changed.remove(i) == ls.remove(i));
}

/// Reads one line into the record.
fn absorb_line(entry: &mut DesktopEntryRecord, inside: &mut bool, line: &[u8])
    ensures
        (Reading { inside: *final(inside), entry: final(entry)@ }) == absorb(
            Reading { inside: *old(inside), entry: old(entry)@ },
            line@,
        ),
{
    if is(line, "[Desktop Entry]") {
        *inside = true;
    } else if line.len() > 0 && line[0] == BRACKET {
        *inside = false;
    } else if *inside && !(line.len() > 0 && line[0] == HASH) {
        let n = scan(line, 0, Stop::Byte(EQUALS));
        assert(line@.skip(0) == line@);
        if n < line.len() {
            let key = part(line, 0, n);
            let val = part(line, n + 1, line.len());
            assert(key@ == line@.take(n as int));
            assert(val@ == value_of(line@));
            if is(key.as_slice(), "Exec") {
                entry.exec_template = Some(val);
            } else if is(key.as_slice(), "Hidden") {
                entry.hidden = entry.hidden || is(val.as_slice(), "true");
            } else if is(key.as_slice(), "Terminal") {
                entry.requires_terminal = is(val.as_slice(), "true");
            }
        }
    }
}

/// Reads the contents of a desktop entry file.
pub fn parse_desktop_entry(contents: &[u8]) -> (r: DesktopEntryRecord)
    ensures
        r@ == entry_of(contents@),
{
    let ls = split_lines(contents);
    let mut entry = DesktopEntryRecord {
        exec_template: None,
        hidden: false,
        requires_terminal: false,
    };
    let mut inside = false;
    let mut i: usize = 0;
    assert(texts(ls@).take(0) == Seq::<Seq<u8>>::empty());
    while i < ls.len()
        invariant
            i <= ls@.len(),
            texts(ls@) == lines(contents@),
            (Reading { inside, entry: entry@ }) == reading(texts(ls@).take(i as int)),
        decreases ls@.len() - i,
    {
        proof {
            let upto = texts(ls@).take(i + 1);
            assert(upto.drop_last() == texts(ls@).take(i as int));
            assert(upto.last() == ls@[i as int]@);
        }
        absorb_line(&mut entry, &mut inside, ls[i].as_slice());
        i += 1;
    }
    assert(texts(ls@).take(i as int) == texts(ls@));
    entry
}

/// The arguments that an `Exec` line with the tokens `ts` gives its program
/// when `url` is to be opened.
pub fn fill_exec_arguments(ts: &Vec<Vec<u8>>, url: &[u8]) -> (r: Vec<Vec<u8>>)
    requires
        ts@.len() > 0,
    ensures
        texts(r@) == exec_arguments(texts(ts@), url@),
{
    let mut out: Vec<Vec<u8>> = Vec::new();
    let mut url_added = false;
    let mut i: usize = 1;
    while i < ts.len()
        invariant
            1 <= i <= ts@.len(),
            out@.len() == i - 1,
            forall|k: int| 0 <= k < i - 1 ==> #[trigger] out@[k]@ == exec_args(texts(ts@), url@)[k],
            url_added == exists|k: int| 1 <= k < i && is_field_code(#[trigger] texts(ts@)[k]),
        decreases ts@.len() - i,
    {
        let t = ts[i].as_slice();
        assert(texts(ts@)[i as int] == t@);
        if is(t, "%u") || is(t, "%U") || is(t, "%f") || is(t, "%F") {
            url_added = true;
            out.push(crate::text::copy(url));
        } else {
            out.push(crate::text::copy(t));
        }
        i += 1;
    }
    assert(texts(out@) == exec_args(texts(ts@), url@));
    if !url_added {
        let ghost before = out@;
        out.push(crate::text::copy(url));
        assert(texts(out@) == texts(before).push(url@));
    }
    out
}

} // verus!
