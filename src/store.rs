use vstd::prelude::*;
use std::collections::HashMap;

verus! {

broadcast use vstd::std_specs::hash::group_hash_axioms;

/// The map `base` after interning a list of (id, value) entries in order:
/// each id of the list holds the value of its last entry.
pub open spec fn interned_onto<V>(base: Map<u64, V>, entries: Seq<(u64, V)>) -> Map<u64, V>
    decreases entries.len(),
{
    if entries.len() == 0 {
        base
    } else {
        let last = entries.last();
        interned_onto(base, entries.drop_last()).insert(last.0, last.1)
    }
}

/// The map that a list of (id, value) entries interns to on its own.
pub open spec fn interned<V>(entries: Seq<(u64, V)>) -> Map<u64, V> {
    interned_onto(Map::empty(), entries)
}

/// After interning a list of entries, the id of an entry that no later
/// entry repeats holds that entry's value.
pub proof fn lemma_interned_last_wins<V>(base: Map<u64, V>, entries: Seq<(u64, V)>, i: int)
    requires
        0 <= i < entries.len(),
        forall|j: int| i < j < entries.len() ==> #[trigger] entries[j].0 != entries[i].0,
    ensures
        interned_onto(base, entries).contains_key(entries[i].0),
        interned_onto(base, entries)[entries[i].0] == entries[i].1,
    decreases entries.len(),
{
    if i < entries.len() - 1 {
        let prefix = entries.drop_last();
        assert forall|j: int| i < j < prefix.len() implies #[trigger] prefix[j].0 != prefix[i].0 by {
            assert(entries[j].0 != entries[i].0);
        }
        lemma_interned_last_wins(base, prefix, i);
        assert(entries[entries.len() - 1].0 != entries[i].0);
    }
}

/// Interning a list of entries leaves an id that no entry names as it was.
pub proof fn lemma_interned_untouched<V>(base: Map<u64, V>, entries: Seq<(u64, V)>, id: u64)
    requires
        forall|j: int| 0 <= j < entries.len() ==> #[trigger] entries[j].0 != id,
    ensures
        interned_onto(base, entries).contains_key(id) == base.contains_key(id),
        base.contains_key(id) ==> interned_onto(base, entries)[id] == base[id],
    decreases entries.len(),
{
    if entries.len() > 0 {
        let prefix = entries.drop_last();
        assert forall|j: int| 0 <= j < prefix.len() implies #[trigger] prefix[j].0 != id by {
            assert(entries[j].0 != id);
        }
        lemma_interned_untouched(base, prefix, id);
        assert(entries[entries.len() - 1].0 != id);
    }
}

/// The interning tables of one block, owned by that block alone.
#[derive(Debug)]
pub struct InternStore<N> {
    strings: HashMap<u64, String>,
    number_literals: HashMap<u64, N>,
}

impl<N> InternStore<N> {
    pub closed spec fn strings_view(&self) -> Map<u64, String> {
        self.strings@
    }

    pub closed spec fn numbers_view(&self) -> Map<u64, N> {
        self.number_literals@
    }

    /// An empty store.
    pub fn new() -> (r: InternStore<N>)
        ensures
            r.strings_view() == Map::<u64, String>::empty(),
            r.numbers_view() == Map::<u64, N>::empty(),
    {
        InternStore { strings: HashMap::new(), number_literals: HashMap::new() }
    }

    /// Interns `text` under `id`, replacing what the id held.
    pub fn insert_string(&mut self, id: u64, text: String)
        ensures
            final(self).strings_view() == old(self).strings_view().insert(id, text),
            final(self).numbers_view() == old(self).numbers_view(),
    {
        self.strings.insert(id, text);
    }

    /// Interns the number literal `n` under `id`, replacing what the id held.
    pub fn insert_number_literal(&mut self, id: u64, n: N)
        ensures
            final(self).numbers_view() == old(self).numbers_view().insert(id, n),
            final(self).strings_view() == old(self).strings_view(),
    {
        self.number_literals.insert(id, n);
    }

    /// Interns each (id, text) entry in order; a later entry for an id wins.
    pub fn intern_strings(&mut self, entries: Vec<(u64, String)>)
        ensures
            final(self).strings_view() == interned_onto(old(self).strings_view(), entries@),
            final(self).numbers_view() == old(self).numbers_view(),
    {
        let ghost all = entries@;
        let mut rest = entries;
        let ghost mut done: int = 0;
        while rest.len() > 0
            invariant
                0 <= done <= all.len(),
                rest@ == all.subrange(done, all.len() as int),
                self.strings_view() == interned_onto(old(self).strings_view(), all.subrange(0, done)),
                self.numbers_view() == old(self).numbers_view(),
            decreases rest.len(),
        {
            let (id, text) = rest.remove(0);
            proof {
                assert(all.subrange(0, done + 1).drop_last() == all.subrange(0, done));
                done = done + 1;
            }
            self.insert_string(id, text);
        }
        assert(all.subrange(0, all.len() as int) == all);
    }

    /// Interns each (id, literal) entry in order; a later entry for an id wins.
    pub fn intern_number_literals(&mut self, entries: Vec<(u64, N)>)
        ensures
            final(self).numbers_view() == interned_onto(old(self).numbers_view(), entries@),
            final(self).strings_view() == old(self).strings_view(),
    {
        let ghost all = entries@;
        let mut rest = entries;
        let ghost mut done: int = 0;
        while rest.len() > 0
            invariant
                0 <= done <= all.len(),
                rest@ == all.subrange(done, all.len() as int),
                self.numbers_view() == interned_onto(old(self).numbers_view(), all.subrange(0, done)),
                self.strings_view() == old(self).strings_view(),
            decreases rest.len(),
        {
            let (id, n) = rest.remove(0);
            proof {
                assert(all.subrange(0, done + 1).drop_last() == all.subrange(0, done));
                done = done + 1;
            }
            self.insert_number_literal(id, n);
        }
        assert(all.subrange(0, all.len() as int) == all);
    }

    /// The two tables, for handing over to their new owner.
    pub fn into_tables(self) -> (r: (HashMap<u64, String>, HashMap<u64, N>))
        ensures
            r.0@ == self.strings_view(),
            r.1@ == self.numbers_view(),
    {
        (self.strings, self.number_literals)
    }

    /// The text interned under `id`, if any.
    pub fn string(&self, id: u64) -> (r: Option<&String>)
        ensures
            self.strings_view().contains_key(id) ==> r == Some(&self.strings_view()[id]),
            !self.strings_view().contains_key(id) ==> r.is_none(),
    {
        self.strings.get(&id)
    }

    /// The number literal interned under `id`, if any.
    pub fn number_literal(&self, id: u64) -> (r: Option<&N>)
        ensures
            self.numbers_view().contains_key(id) ==> r == Some(&self.numbers_view()[id]),
            !self.numbers_view().contains_key(id) ==> r.is_none(),
    {
        self.number_literals.get(&id)
    }
}

} // verus!
