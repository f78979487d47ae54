//! Properties that hold across the services for all inputs.
use vstd::prelude::*;
use crate::dispatch::{answer, Request};
use crate::position::resolution;
use crate::service::{candidates, completion_answer, hover_answer, triggered_by};
use crate::store::{has_key, lookup, matching, KnowledgeStore, StoreEntry};

verus! {

/// Exact lookup of a key that no entry has finds nothing.
pub proof fn lemma_lookup_absent(entries: Seq<StoreEntry>, key: Seq<char>)
    requires
        !has_key(entries, key),
    ensures
        lookup(entries, key) is None,
    decreases entries.len(),
{
    if entries.len() > 0 {
        assert(entries[0].key@ != key);
        assert forall|i: int| 0 <= i < entries.drop_first().len() implies #[trigger] entries.drop_first()[i].key@ != key by {
            assert(entries.drop_first()[i] == entries[i + 1]);
        }
        lemma_lookup_absent(entries.drop_first(), key);
    }
}

/// Hovering over a token that the store has no entry for gives no hover text.
pub proof fn lemma_hover_absent(
    store: &KnowledgeStore,
    doc: Seq<char>,
    line: nat,
    character: nat,
    token: Seq<char>,
    ordinal: nat,
)
    requires
        resolution(doc, line, character) == Some((token, ordinal)),
        !has_key(store@, token),
    ensures
        hover_answer(store@, doc, line, character) is None,
{
    lemma_lookup_absent(store@, token);
}

/// Triggered completion on the first token of a line offers, in registration
/// order, the entries whose key starts with that token: every such entry is
/// offered, and every offered entry is in the store and starts with the token.
pub proof fn lemma_completion_lists_prefix_matches(
    store: &KnowledgeStore,
    doc: Seq<char>,
    line: nat,
    character: nat,
    token: Seq<char>,
)
    requires
        resolution(doc, line, character) == Some((token, 0nat)),
    ensures
        completion_answer(store@, doc, line, character, true) == candidates(store@, token),
        forall|i: int|
            0 <= i < store@.len() && token.is_prefix_of(#[trigger] store@[i].key@) ==> matching(
                store@,
                token,
            ).contains(store@[i]),
        forall|j: int|
            0 <= j < matching(store@, token).len() ==> token.is_prefix_of(
                #[trigger] matching(store@, token)[j].key@,
            ) && store@.contains(matching(store@, token)[j]),
{
    let pred = |e: StoreEntry| token.is_prefix_of(e.key@);
    assert forall|i: int|
        0 <= i < store@.len() && token.is_prefix_of(#[trigger] store@[i].key@) implies matching(
            store@,
            token,
        ).contains(store@[i]) by {
        store@.lemma_filter_contains(pred, i);
    }
    assert forall|j: int| 0 <= j < matching(store@, token).len() implies token.is_prefix_of(
        #[trigger] matching(store@, token)[j].key@,
    ) && store@.contains(matching(store@, token)[j]) by {
        store@.lemma_filter_pred(pred, j);
        store@.lemma_filter_contains_rev(pred, matching(store@, token)[j]);
    }
}

/// Completion on any token but the first of its line offers nothing, whatever
/// the store holds.
pub proof fn lemma_completion_first_token_only(
    store: &KnowledgeStore,
    doc: Seq<char>,
    line: nat,
    character: nat,
    triggered: bool,
    token: Seq<char>,
    ordinal: nat,
)
    requires
        resolution(doc, line, character) == Some((token, ordinal)),
        ordinal != 0,
    ensures
        completion_answer(store@, doc, line, character, triggered) == Seq::<(Seq<char>, Seq<char>)>::empty(),
{
}

/// Completion that no registered trigger character started offers nothing,
/// whatever the store holds.
pub proof fn lemma_completion_needs_trigger(
    store: &KnowledgeStore,
    doc: Seq<char>,
    line: nat,
    character: nat,
    trigger: Option<Seq<char>>,
)
    requires
        !triggered_by(trigger),
    ensures
        completion_answer(store@, doc, line, character, triggered_by(trigger)) == Seq::<(Seq<char>, Seq<char>)>::empty(),
{
}

/// The reply to a request depends only on the store's entries and on the
/// request itself: asking again against an unchanged document and store gives
/// the same reply, character for character.
pub proof fn lemma_answer_repeatable(s1: &KnowledgeStore, s2: &KnowledgeStore, q1: &Request, q2: &Request)
    requires
        s1@ == s2@,
        q1@ == q2@,
    ensures
        answer(s1@, q1@) == answer(s2@, q2@),
{
}

} // verus!
