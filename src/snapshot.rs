use vstd::prelude::*;

verus! {

/// A portable, inert snapshot of one dataflow block.
///
/// `T` is the engine's transformation, `E` its error and `N` its number
/// literal; the snapshot carries them without looking inside.
#[derive(Debug, Clone, PartialEq)]
pub struct MiniBlock<T, E, N> {
    pub id: u64,
    pub transformations: Vec<(String, Vec<T>)>,
    pub plan: Vec<T>,
    pub strings: Vec<(u64, String)>,
    pub errors: Vec<E>,
    pub number_literals: Vec<(u64, N)>,
}

impl<T, E, N> MiniBlock<T, E, N> {
    /// An empty snapshot with id 0.
    pub fn new() -> (r: MiniBlock<T, E, N>)
        ensures
            r.id == 0,
            r.transformations@.len() == 0,
            r.plan@.len() == 0,
            r.strings@.len() == 0,
            r.errors@.len() == 0,
            r.number_literals@.len() == 0,
    {
        MiniBlock {
            id: 0,
            transformations: Vec::with_capacity(1),
            plan: Vec::with_capacity(1),
            strings: Vec::with_capacity(1),
            errors: Vec::with_capacity(1),
            number_literals: Vec::with_capacity(1),
        }
    }
}

/// A named, ordered collection of snapshots.
#[derive(Debug, Clone, PartialEq)]
pub struct MiniProgram<T, E, N> {
    pub title: Option<String>,
    pub blocks: Vec<MiniBlock<T, E, N>>,
}

/// A code payload: source text, snapshots, or programs of snapshots.
#[derive(Debug, Clone)]
pub enum MechCode<T, E, N> {
    String(String),
    MiniBlocks(Vec<MiniBlock<T, E, N>>),
    MiniPrograms(Vec<MiniProgram<T, E, N>>),
}

} // verus!
