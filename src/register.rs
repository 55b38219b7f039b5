use vstd::prelude::*;

verus! {

/// A (table, column) address: the key of subscriptions and publications.
#[derive(Clone, Copy, Debug, PartialEq, Eq, Hash, Structural)]
pub struct Register {
    pub table: u64,
    pub column: u64,
}

impl Register {
    pub fn new(table: u64, column: u64) -> (r: Register)
        ensures
            r.table == table,
            r.column == column,
    {
        Register { table, column }
    }
}

} // verus!
