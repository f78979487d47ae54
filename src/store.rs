//! The knowledge base: instruction descriptions keyed by mnemonic, kept in the
//! order in which they were registered.
use vstd::prelude::*;
use crate::instruction::InstructionSpec;
use crate::text::chars_of;

verus! {

/// One mnemonic and its description.
pub struct StoreEntry {
    pub key: String,
    pub spec: InstructionSpec,
}

/// No two entries share a key.
pub open spec fn keys_unique(entries: Seq<StoreEntry>) -> bool {
    forall|i: int, j: int|
        0 <= i < j < entries.len() ==> #[trigger] entries[i].key@ != #[trigger] entries[j].key@
}

/// Some entry has this key.
pub open spec fn has_key(entries: Seq<StoreEntry>, key: Seq<char>) -> bool {
    exists|i: int| 0 <= i < entries.len() && #[trigger] entries[i].key@ == key
}

/// The description registered under `key`, if any.
pub open spec fn lookup(entries: Seq<StoreEntry>, key: Seq<char>) -> Option<InstructionSpec>
    decreases entries.len(),
{
    if entries.len() == 0 {
        None
    } else if entries[0].key@ == key {
        Some(entries[0].spec)
    } else {
        lookup(entries.drop_first(), key)
    }
}

/// The entries whose key starts with `prefix`, in registration order.
pub open spec fn matching(entries: Seq<StoreEntry>, prefix: Seq<char>) -> Seq<StoreEntry> {
    entries.filter(|e: StoreEntry| prefix.is_prefix_of(e.key@))
}

/// A read-only mapping from mnemonic to description, filled once at startup.
pub struct KnowledgeStore {
    entries: Vec<StoreEntry>,
}

impl View for KnowledgeStore {
    type V = Seq<StoreEntry>;

    closed spec fn view(&self) -> Seq<StoreEntry> {
        self.entries@
    }
}

/// Whether `p` is a prefix of `s`.
fn starts_with_chars(s: &Vec<char>, p: &Vec<char>) -> (r: bool)
    ensures
        r == p@.is_prefix_of(s@),
{
    if p.len() > s.len() {
        return false;
    }
    let mut i: usize = 0;
    while i < p.len()
        invariant
            p.len() <= s.len(),
            i <= p.len(),
            forall|j: int| 0 <= j < i ==> p@[j] == s@[j],
        decreases p.len() - i,
    {
        if p[i] != s[i] {
            return false;
        }
        i = i + 1;
    }
    assert(p@ =~= s@.subrange(0, p.len() as int));
    true
}

impl KnowledgeStore {
    pub open spec fn wf(&self) -> bool {
        keys_unique(self@)
    }

    /// An empty store.
    pub fn new() -> (r: Self)
        ensures
            r.wf(),
            r@ == Seq::<StoreEntry>::empty(),
    {
        KnowledgeStore { entries: Vec::new() }
    }

    pub fn len(&self) -> (r: usize)
        ensures
            r == self@.len(),
    {
        self.entries.len()
    }

    /// Adds `spec` under `key` at the end of the registration order, unless
    /// `key` is already present, in which case nothing changes. Returns whether
    /// the entry was added.
    pub fn register(&mut self, key: String, spec: InstructionSpec) -> (added: bool)
        requires
            old(self).wf(),
        ensures
            final(self).wf(),
            added == !has_key(old(self)@, key@),
            added ==> final(self)@ == old(self)@.push(StoreEntry { key, spec }),
            !added ==> final(self)@ == old(self)@,
    {
        let mut i: usize = 0;
        while i < self.entries.len()
            invariant
                i <= self.entries@.len(),
                self@ == old(self)@,
                keys_unique(self@),
                forall|j: int| 0 <= j < i ==> #[trigger] self.entries@[j].key@ != key@,
            decreases self.entries.len() - i,
        {
            if self.entries[i].key == key {
                return false;
            }
            i = i + 1;
        }
        let ghost before = self.entries@;
        self.entries.push(StoreEntry { key, spec });
        proof {
            assert forall|a: int, b: int|
                0 <= a < b < self.entries@.len() implies #[trigger] self.entries@[a].key@
                != #[trigger] self.entries@[b].key@ by {
                if b == before.len() {
                    assert(self.entries@[a] == before[a]);
                } else {
                    assert(self.entries@[a] == before[a]);
                    assert(self.entries@[b] == before[b]);
                }
            }
        }
        true
    }

    /// The description registered under exactly `key`.
    pub fn lookup_exact(&self, key: &str) -> (r: Option<&InstructionSpec>)
        ensures
            match r {
                Some(s) => lookup(self@, key@) == Some(*s),
                None => lookup(self@, key@) is None,
            },
    {
        let k = key.to_owned();
        let mut i: usize = 0;
        assert(self.entries@.skip(0) =~= self.entries@);
        while i < self.entries.len()
            invariant
                i <= self.entries@.len(),
                k@ == key@,
                lookup(self.entries@, key@) == lookup(self.entries@.skip(i as int), key@),
            decreases self.entries.len() - i,
        {
            assert(self.entries@.skip(i as int).drop_first() =~= self.entries@.skip(i + 1));
            if self.entries[i].key == k {
                return Some(&self.entries[i].spec);
            }
            i = i + 1;
        }
        None
    }

    /// The entries whose key starts with `prefix`, in registration order.
    pub fn lookup_prefix(&self, prefix: &str) -> (r: Vec<&StoreEntry>)
        ensures
            r@.map_values(|e: &StoreEntry| *e) == matching(self@, prefix@),
    {
        let p = chars_of(prefix);
        let mut out: Vec<&StoreEntry> = Vec::new();
        let mut i: usize = 0;
        while i < self.entries.len()
            invariant
                i <= self.entries@.len(),
                p@ == prefix@,
                out@.map_values(|e: &StoreEntry| *e) == matching(self.entries@.take(i as int), prefix@),
            decreases self.entries.len() - i,
        {
            let e = &self.entries[i];
            let ks = chars_of(e.key.as_str());
            let ghost t = self.entries@.take(i + 1);
            assert(t.drop_last() =~= self.entries@.take(i as int));
            proof {
                reveal_with_fuel(Seq::filter, 1);
            }
            let ghost before = out@;
            if starts_with_chars(&ks, &p) {
                out.push(e);
                assert(out@.map_values(|e: &StoreEntry| *e) =~= before.map_values(|e: &StoreEntry| *e).push(*e));
            }
            i = i + 1;
        }
        assert(self.entries@.take(self.entries.len() as int) =~= self.entries@);
        out
    }
}

} // verus!
