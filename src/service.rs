//! Hover and completion: the two queries answered at a cursor position.
use vstd::prelude::*;
use crate::position::{resolution, resolve_token};
use crate::store::{lookup, matching, KnowledgeStore, StoreEntry};
use crate::text::chars_of;

verus! {

/// One completion offered to the user: a mnemonic and its rendered description.
pub struct CompletionCandidate {
    pub label: String,
    pub detail: String,
}

impl View for CompletionCandidate {
    type V = (Seq<char>, Seq<char>);

    open spec fn view(&self) -> (Seq<char>, Seq<char>) {
        (self.label@, self.detail@)
    }
}

/// The hover text at a position: the rendered description of the token under
/// the cursor, when the line exists, the token is not empty and the store
/// knows it.
pub open spec fn hover_answer(entries: Seq<StoreEntry>, doc: Seq<char>, line: nat, character: nat) -> Option<Seq<char>> {
    match resolution(doc, line, character) {
        None => None,
        Some((tok, _)) => if tok.len() == 0 {
            None
        } else {
            match lookup(entries, tok) {
                None => None,
                Some(s) => Some(s.rendered()),
            }
        },
    }
}

/// A trigger that the server registers: a single lower-case ASCII letter or `_`.
pub open spec fn is_trigger(t: Seq<char>) -> bool {
    t.len() == 1 && ((0x61 <= (t[0] as u32) && (t[0] as u32) <= 0x7A) || t[0] as u32 == 0x5F)
}

/// Every entry whose key starts with `prefix`, as (label, detail), in registration order.
pub open spec fn candidates(entries: Seq<StoreEntry>, prefix: Seq<char>) -> Seq<(Seq<char>, Seq<char>)> {
    matching(entries, prefix).map_values(|e: StoreEntry| (e.key@, e.spec.rendered()))
}

/// The completions at a position: none unless a registered trigger started
/// the request and the cursor is on the first token of an existing line; then
/// every entry whose key starts with that token.
pub open spec fn completion_answer(
    entries: Seq<StoreEntry>,
    doc: Seq<char>,
    line: nat,
    character: nat,
    triggered: bool,
) -> Seq<(Seq<char>, Seq<char>)> {
    if !triggered {
        Seq::empty()
    } else {
        match resolution(doc, line, character) {
            Some((tok, ordinal)) => if ordinal == 0 {
                candidates(entries, tok)
            } else {
                Seq::empty()
            },
            None => Seq::empty(),
        }
    }
}

/// The trigger as the contracts see it: present and registered.
pub open spec fn triggered_by(trigger: Option<Seq<char>>) -> bool {
    match trigger {
        Some(t) => is_trigger(t),
        None => false,
    }
}

/// Whether `t` is a trigger that the server registers.
pub fn is_trigger_character(t: &str) -> (r: bool)
    ensures
        r == is_trigger(t@),
{
    let cs = chars_of(t);
    if cs.len() != 1 {
        return false;
    }
    let u = cs[0] as u32;
    (0x61 <= u && u <= 0x7A) || u == 0x5F
}

/// The hover text for the token at `(line, character)` of `text`.
pub fn hover(store: &KnowledgeStore, text: &str, line: usize, character: usize) -> (r: Option<String>)
    ensures
        match r {
            Some(s) => hover_answer(store@, text@, line as nat, character as nat) == Some(s@),
            None => hover_answer(store@, text@, line as nat, character as nat) is None,
        },
{
    let tok = match resolve_token(text, line, character) {
        Some(t) => t,
        None => {
            return None;
        },
    };
    if tok.text.as_str().is_empty() {
        return None;
    }
    match store.lookup_exact(tok.text.as_str()) {
        Some(spec) => Some(spec.render()),
        None => None,
    }
}

/// Candidates for every entry of `entries`, in order.
fn to_candidates(entries: &Vec<&StoreEntry>) -> (r: Vec<CompletionCandidate>)
    ensures
        r@.map_values(|c: CompletionCandidate| c@) == entries@.map_values(
            |e: &StoreEntry| (e.key@, e.spec.rendered()),
        ),
{
    let mut out: Vec<CompletionCandidate> = Vec::new();
    let mut i: usize = 0;
    while i < entries.len()
        invariant
            i <= entries@.len(),
            out@.map_values(|c: CompletionCandidate| c@) == entries@.take(i as int).map_values(
                |e: &StoreEntry| (e.key@, e.spec.rendered()),
            ),
        decreases entries.len() - i,
    {
        let e = entries[i];
        let c = CompletionCandidate { label: e.key.clone(), detail: e.spec.render() };
        assert(c@ == (e.key@, e.spec.rendered()));
        let ghost before = out@;
        out.push(c);
        assert(out@.map_values(|c: CompletionCandidate| c@) =~= before.map_values(
            |c: CompletionCandidate| c@,
        ).push(c@));
        assert(entries@.take(i + 1).map_values(|e: &StoreEntry| (e.key@, e.spec.rendered()))
            =~= entries@.take(i as int).map_values(
            |e: &StoreEntry| (e.key@, e.spec.rendered()),
        ).push((e.key@, e.spec.rendered())));
        i = i + 1;
    }
    assert(entries@.take(entries.len() as int) =~= entries@);
    out
}

/// The completions for the token at `(line, character)` of `text`, given the
/// character that triggered the request, if any.
pub fn complete(
    store: &KnowledgeStore,
    text: &str,
    line: usize,
    character: usize,
    trigger: Option<&str>,
) -> (r: Vec<CompletionCandidate>)
    ensures
        r@.map_values(|c: CompletionCandidate| c@) == completion_answer(
            store@,
            text@,
            line as nat,
            character as nat,
            triggered_by(
                match trigger {
                    Some(t) => Some(t@),
                    None => None,
                },
            ),
        ),
{
    let triggered = match trigger {
        Some(t) => is_trigger_character(t),
        None => false,
    };
    if !triggered {
        let r: Vec<CompletionCandidate> = Vec::new();
        assert(r@.map_values(|c: CompletionCandidate| c@) =~= Seq::empty());
        return r;
    }
    let tok = match resolve_token(text, line, character) {
        Some(t) => t,
        None => {
            let r: Vec<CompletionCandidate> = Vec::new();
            assert(r@.map_values(|c: CompletionCandidate| c@) =~= Seq::empty());
            return r;
        },
    };
    if tok.ordinal != 0 {
        let r: Vec<CompletionCandidate> = Vec::new();
        assert(r@.map_values(|c: CompletionCandidate| c@) =~= Seq::empty());
        return r;
    }
    let found = store.lookup_prefix(tok.text.as_str());
    let r = to_candidates(&found);
    proof {
        let m = matching(store@, tok.text@);
        assert(found@.map_values(|e: &StoreEntry| (e.key@, e.spec.rendered())) =~= m.map_values(
            |e: StoreEntry| (e.key@, e.spec.rendered()),
        )) by {
            assert(found@.map_values(|e: &StoreEntry| *e) == m);
            assert forall|j: int| 0 <= j < m.len() implies found@[j] == m[j] by {
                assert(found@.map_values(|e: &StoreEntry| *e)[j] == *found@[j]);
            }
        }
    }
    r
}

} // verus!
