//! Splitting a command line into tokens, with double quotes.

use crate::text::part;
use crate::text::scan;
use crate::text::span;
use crate::text::texts;
use crate::text::Stop;
use crate::text::QUOTE;
use crate::text::SPACE;
use vstd::prelude::*;

verus! {

/// The tokens of a command line.
///
/// Spaces separate tokens. A double quote opens a token that runs up to the
/// next double quote, or to the end of the line, and may hold spaces and be
/// empty. Any other byte opens a token that runs up to the next space or
/// double quote. The byte that ends a token belongs to no token.
pub open spec fn tokens(s: Seq<u8>) -> Seq<Seq<u8>>
    decreases s.len(),
{
    if s.len() == 0 {
        seq![]
    } else if s[0] == SPACE {
        tokens(s.skip(1))
    } else if s[0] == QUOTE {
        let body = s.skip(1);
        let n = span(body, Stop::Byte(QUOTE)) as int;
        if n >= body.len() {
            seq![body]
        } else {
            seq![body.take(n)] + tokens(body.skip(n + 1))
        }
    } else {
        let n = span(s, Stop::Either(SPACE, QUOTE)) as int;
        if n >= s.len() {
            seq![s]
        } else {
            seq![s.take(n)] + tokens(s.skip(n + 1))
        }
    }
}

/// Parses `line` to find its tokens (including quoted strings).
pub fn for_each_token(line: &[u8]) -> (r: Vec<Vec<u8>>)
    ensures
        texts(r@) == tokens(line@),
{
    let mut out: Vec<Vec<u8>> = Vec::new();
    let mut i: usize = 0;
    assert(line@.skip(0) == line@);
    assert(texts(out@) + tokens(line@) == tokens(line@));
    while i < line.len()
        invariant
            i <= line@.len(),
            tokens(line@) == texts(out@) + tokens(line@.skip(i as int)),
        decreases line@.len() - i,
    {
        let ghost rest = line@.skip(i as int);
        let ghost before = out@;
        let b = line[i];
        if b == SPACE {
            assert(rest.skip(1) == line@.skip(i + 1));
            i += 1;
        } else {
            let from = if b == QUOTE {
                i + 1
            } else {
                i
            };
            let stop = if b == QUOTE {
                Stop::Byte(QUOTE)
            } else {
                Stop::Either(SPACE, QUOTE)
            };
            let j = scan(line, from, stop);
            out.push(part(line, from, j));
            proof {
                let body = line@.skip(from as int);
                assert(body == if b == QUOTE {
                    rest.skip(1)
                } else {
                    rest
                });
                assert(body.take(j - from) == line@.subrange(from as int, j as int));
                assert(texts(out@) == texts(before) + seq![body.take(j - from)]);
                if j >= line@.len() {
                    assert(body.take(j - from) == body);
                    assert(line@.skip(line@.len() as int).len() == 0);
                    assert(texts(out@) + tokens(line@.skip(line@.len() as int)) == texts(out@));
                } else {
                    assert(body.skip(j - from + 1) == line@.skip(j + 1));
                }
            }
            if j >= line.len() {
                i = line.len();
            } else {
                i = j + 1;
            }
        }
    }
    assert(line@.skip(i as int).len() == 0);
    assert(texts(out@) + Seq::<Seq<u8>>::empty() == texts(out@));
    out
}

} // verus!
