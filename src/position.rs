//! Resolution of a cursor position to the whitespace-separated token under it.
use vstd::prelude::*;
use crate::text::{
    byte_len, chars_of, is_white_space, is_white_space_char, string_of_chars, utf8_width_of,
};

verus! {

/// The lines of a document: the pieces between newline characters. A document
/// without a newline is one line; a trailing newline opens an empty last line.
pub open spec fn lines(s: Seq<char>) -> Seq<Seq<char>>
    decreases s.len(),
{
    if s.len() == 0 {
        seq![Seq::empty()]
    } else {
        let prev = lines(s.drop_last());
        if s.last() == '\n' {
            prev.push(Seq::empty())
        } else {
            prev.update(prev.len() - 1, prev.last().push(s.last()))
        }
    }
}

/// The tokens of a line: its maximal runs of characters that are not white space.
pub open spec fn tokens(s: Seq<char>) -> Seq<Seq<char>>
    decreases s.len(),
{
    if s.len() == 0 {
        Seq::empty()
    } else {
        let prev = tokens(s.drop_last());
        let c = s.last();
        if is_white_space(c) {
            prev
        } else if s.len() >= 2 && !is_white_space(s[s.len() - 2]) {
            prev.update(prev.len() - 1, prev.last().push(c))
        } else {
            prev.push(seq![c])
        }
    }
}

/// A cursor at column 0 selects the first token; any other cursor stands just
/// past the character it refers to.
pub open spec fn effective_offset(character: nat) -> nat {
    if character == 0 {
        0
    } else {
        (character - 1) as nat
    }
}

/// The summed byte lengths of tokens `0..=i`.
pub open spec fn running_total(toks: Seq<Seq<char>>, i: int) -> nat
    decreases i + 1,
{
    if i < 0 {
        0
    } else {
        running_total(toks, i - 1) + byte_len(toks[i])
    }
}

/// The first token, from index `i` on, whose running total reaches `offset`.
pub open spec fn first_reaching(toks: Seq<Seq<char>>, offset: nat, i: int) -> Option<int>
    decreases toks.len() - i,
{
    if i < 0 || i >= toks.len() {
        None
    } else if running_total(toks, i) >= offset {
        Some(i)
    } else {
        first_reaching(toks, offset, i + 1)
    }
}

/// The token chosen for an offset, with its ordinal; the empty token with
/// ordinal 0 when no running total reaches the offset.
pub open spec fn token_at(toks: Seq<Seq<char>>, offset: nat) -> (Seq<char>, nat) {
    match first_reaching(toks, offset, 0) {
        Some(i) => (toks[i], i as nat),
        None => (Seq::empty(), 0),
    }
}

/// The token under a position of a document, or `None` when the line does not exist.
pub open spec fn resolution(doc: Seq<char>, line: nat, character: nat) -> Option<(Seq<char>, nat)> {
    let ls = lines(doc);
    if line < ls.len() {
        Some(token_at(tokens(ls[line as int]), effective_offset(character)))
    } else {
        None
    }
}

/// The token found at a position and its ordinal among the tokens of its line.
pub struct ResolvedToken {
    pub text: String,
    pub ordinal: usize,
}

impl View for ResolvedToken {
    type V = (Seq<char>, nat);

    open spec fn view(&self) -> (Seq<char>, nat) {
        (self.text@, self.ordinal as nat)
    }
}

/// The characters of line `line` of `doc`, if it has that many lines.
fn line_chars(doc: &Vec<char>, line: usize) -> (r: Option<Vec<char>>)
    ensures
        match r {
            Some(l) => line < lines(doc@).len() && l@ == lines(doc@)[line as int],
            None => line >= lines(doc@).len(),
        },
{
    let mut count: usize = 0;
    let mut cur: Vec<char> = Vec::new();
    let mut i: usize = 0;
    while i < doc.len()
        invariant
            i <= doc.len(),
            count <= i,
            count == lines(doc@.take(i as int)).len() - 1,
            count >= line ==> cur@ == lines(doc@.take(i as int))[line as int],
        decreases doc.len() - i,
    {
        let c = doc[i];
        let ghost p = doc@.take(i as int);
        assert(doc@.take(i + 1).drop_last() =~= p);
        if c == '\n' {
            count = count + 1;
            if count == line {
                cur = Vec::new();
            }
        } else if count == line {
            cur.push(c);
        }
        i = i + 1;
    }
    assert(doc@.take(doc.len() as int) =~= doc@);
    if line <= count {
        Some(cur)
    } else {
        None
    }
}

/// The tokens of a line, in order.
fn tokens_of(line: &Vec<char>) -> (r: Vec<Vec<char>>)
    ensures
        r@.len() == tokens(line@).len(),
        forall|k: int| 0 <= k < r@.len() ==> #[trigger] r@[k]@ == tokens(line@)[k],
{
    let mut toks: Vec<Vec<char>> = Vec::new();
    let mut i: usize = 0;
    while i < line.len()
        invariant
            i <= line.len(),
            toks@.len() == tokens(line@.take(i as int)).len(),
            forall|k: int| 0 <= k < toks@.len() ==> #[trigger] toks@[k]@ == tokens(line@.take(i as int))[k],
            i > 0 && !is_white_space(line@[i - 1]) ==> toks@.len() > 0,
        decreases line.len() - i,
    {
        let c = line[i];
        let ghost p = line@.take(i as int);
        let ghost q = line@.take(i + 1);
        assert(q.drop_last() =~= p);
        assert(q.last() == c);
        if is_white_space_char(c) {
        } else if i > 0 && !is_white_space_char(line[i - 1]) {
            assert(q[q.len() - 2] == line@[i - 1]);
            let mut last = toks.pop().unwrap();
            last.push(c);
            toks.push(last);
        } else {
            assert(i >= 1 ==> q[q.len() - 2] == line@[i - 1]);
            let mut t: Vec<char> = Vec::new();
            t.push(c);
            assert(t@ =~= seq![c]);
            toks.push(t);
        }
        proof {
            let tq = tokens(q);
            assert(toks@.len() == tq.len());
            assert forall|k: int| 0 <= k < toks@.len() implies #[trigger] toks@[k]@ == tq[k] by {}
        }
        i = i + 1;
    }
    assert(line@.take(line.len() as int) =~= line@);
    toks
}

/// Whether the byte length of `tok` reaches `need`; if not, what remains of `need`.
fn remaining_after(tok: &Vec<char>, need: usize) -> (r: Option<usize>)
    ensures
        match r {
            None => byte_len(tok@) >= need,
            Some(n) => byte_len(tok@) < need && n == need - byte_len(tok@),
        },
{
    let mut left: usize = need;
    let mut j: usize = 0;
    while j < tok.len()
        invariant
            j <= tok.len(),
            left == if byte_len(tok@.take(j as int)) >= need {
                0
            } else {
                need - byte_len(tok@.take(j as int))
            },
        decreases tok.len() - j,
    {
        let w = utf8_width_of(tok[j]);
        assert(tok@.take(j + 1).drop_last() =~= tok@.take(j as int));
        if w >= left {
            left = 0;
        } else {
            left = left - w;
        }
        j = j + 1;
    }
    assert(tok@.take(tok.len() as int) =~= tok@);
    if left == 0 {
        None
    } else {
        Some(left)
    }
}

/// The token under `(line, character)` of `text` and its ordinal on the line,
/// or `None` when the document has no such line.
pub fn resolve_token(text: &str, line: usize, character: usize) -> (r: Option<ResolvedToken>)
    ensures
        match r {
            Some(t) => resolution(text@, line as nat, character as nat) == Some(t@),
            None => resolution(text@, line as nat, character as nat) is None,
        },
{
    let doc = chars_of(text);
    let chars = match line_chars(&doc, line) {
        Some(l) => l,
        None => {
            return None;
        },
    };
    let toks = tokens_of(&chars);
    let ghost tv = tokens(chars@);
    let offset: usize = if character == 0 {
        0
    } else {
        character - 1
    };
    let mut rem: usize = offset;
    let mut k: usize = 0;
    while k < toks.len()
        invariant
            k <= toks@.len(),
            offset as nat == effective_offset(character as nat),
            line < lines(text@).len(),
            chars@ == lines(text@)[line as int],
            tv == tokens(chars@),
            toks@.len() == tv.len(),
            forall|m: int| 0 <= m < toks@.len() ==> #[trigger] toks@[m]@ == tv[m],
            rem + running_total(tv, k - 1) == offset,
            first_reaching(tv, offset as nat, 0) == first_reaching(tv, offset as nat, k as int),
        decreases toks.len() - k,
    {
        assert(toks@[k as int]@ == tv[k as int]);
        match remaining_after(&toks[k], rem) {
            None => {
                assert(running_total(tv, k as int) == running_total(tv, k - 1) + byte_len(tv[k as int]));
                assert(first_reaching(tv, offset as nat, k as int) == Some(k as int));
                let t = ResolvedToken { text: string_of_chars(&toks[k]), ordinal: k };
                assert(t.text@ == tv[k as int]);
                assert(token_at(tv, offset as nat) == (tv[k as int], k as nat));
                assert(resolution(text@, line as nat, character as nat) == Some(t@));
                return Some(t);
            },
            Some(n) => {
                assert(running_total(tv, k as int) == running_total(tv, k - 1) + byte_len(tv[k as int]));
                rem = n;
            },
        }
        k = k + 1;
    }
    Some(ResolvedToken { text: String::new(), ordinal: 0 })
}

} // verus!
