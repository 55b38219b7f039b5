use vstd::prelude::*;
use crate::snapshot::MiniBlock;
use crate::store::{InternStore, interned};

verus! {

/// A block rebuilt from a snapshot, ready to be published to the engine.
///
/// Its interning store is a value of its own: no other block holds it, so it
/// is filled without sharing and handed over whole.
#[derive(Debug)]
pub struct RehydratedBlock<T, E, N> {
    pub id: u64,
    /// The authored (label, transformations) pairs, to be replayed in order.
    pub transformations: Vec<(String, Vec<T>)>,
    /// The resolved execution plan, taken as it stands.
    pub plan: Vec<T>,
    /// The snapshot's errors, to be added to what replaying raises.
    pub errors: Vec<E>,
    pub store: InternStore<N>,
}

/// Rebuilds a block from a snapshot, consuming the snapshot.
pub fn maximize_block<T, E, N>(miniblock: MiniBlock<T, E, N>) -> (r: RehydratedBlock<T, E, N>)
    ensures
        r.id == miniblock.id,
        r.transformations@ == miniblock.transformations@,
        r.plan@ == miniblock.plan@,
        r.errors@ == miniblock.errors@,
        r.store.strings_view() == interned(miniblock.strings@),
        r.store.numbers_view() == interned(miniblock.number_literals@),
{
    let MiniBlock { id, transformations, plan, strings, errors, number_literals } = miniblock;
    let mut store = InternStore::new();
    store.intern_strings(strings);
    store.intern_number_literals(number_literals);
    RehydratedBlock { id, transformations, plan, errors, store }
}

} // verus!
