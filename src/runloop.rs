use vstd::prelude::*;
use std::collections::HashMap;
use crate::register::Register;

verus! {

broadcast use vstd::std_specs::hash::group_hash_axioms;

/// What a run loop keeps of the cores and blocks that messages address:
/// its blocks by local index (`B`), the sockets of attached remote cores by
/// core id (`S`), and the (core id, register) subscriptions it has heard.
#[derive(Debug)]
pub struct RunLoopState<B, S> {
    blocks: Vec<B>,
    remote_cores: HashMap<u64, S>,
    listeners: Vec<(u64, Register)>,
}

impl<B, S> RunLoopState<B, S> {
    pub closed spec fn blocks_view(&self) -> Seq<B> {
        self.blocks@
    }

    pub closed spec fn cores_view(&self) -> Map<u64, S> {
        self.remote_cores@
    }

    pub closed spec fn listeners_view(&self) -> Seq<(u64, Register)> {
        self.listeners@
    }

    /// A run loop with no blocks, cores or subscriptions.
    pub fn new() -> (r: RunLoopState<B, S>)
        ensures
            r.blocks_view() == Seq::<B>::empty(),
            r.cores_view() == Map::<u64, S>::empty(),
            r.listeners_view() == Seq::<(u64, Register)>::empty(),
    {
        RunLoopState { blocks: Vec::new(), remote_cores: HashMap::new(), listeners: Vec::new() }
    }

    /// Adds a block at the next local index, which is returned.
    pub fn add_block(&mut self, block: B) -> (ix: usize)
        ensures
            ix == old(self).blocks_view().len(),
            final(self).blocks_view() == old(self).blocks_view().push(block),
            final(self).cores_view() == old(self).cores_view(),
            final(self).listeners_view() == old(self).listeners_view(),
    {
        let ix = self.blocks.len();
        self.blocks.push(block);
        ix
    }

    /// Removes the block at local index `ix`. An index with no block is a
    /// stale reference: nothing changes and `None` comes back.
    pub fn remove_block(&mut self, ix: usize) -> (r: Option<B>)
        ensures
            ix < old(self).blocks_view().len() ==> {
                &&& r == Some(old(self).blocks_view()[ix as int])
                &&& final(self).blocks_view() == old(self).blocks_view().remove(ix as int)
            },
            ix >= old(self).blocks_view().len() ==> r is None && *final(self) == *old(self),
            final(self).cores_view() == old(self).cores_view(),
            final(self).listeners_view() == old(self).listeners_view(),
    {
        if ix < self.blocks.len() {
            Some(self.blocks.remove(ix))
        } else {
            None
        }
    }

    /// Attaches remote core `id` through `socket`, replacing and returning
    /// the socket that the id had.
    pub fn connect(&mut self, id: u64, socket: S) -> (r: Option<S>)
        ensures
            final(self).cores_view() == old(self).cores_view().insert(id, socket),
            old(self).cores_view().contains_key(id) ==> r == Some(old(self).cores_view()[id]),
            !old(self).cores_view().contains_key(id) ==> r is None,
            final(self).blocks_view() == old(self).blocks_view(),
            final(self).listeners_view() == old(self).listeners_view(),
    {
        self.remote_cores.insert(id, socket)
    }

    /// Detaches remote core `id` and returns its socket. An unknown id is a
    /// stale reference: nothing changes and `None` comes back. The core's
    /// subscriptions stay: stale subscriptions are tolerated.
    pub fn disconnect(&mut self, id: u64) -> (r: Option<S>)
        ensures
            final(self).cores_view() == old(self).cores_view().remove(id),
            old(self).cores_view().contains_key(id) ==> r == Some(old(self).cores_view()[id]),
            !old(self).cores_view().contains_key(id) ==> r is None && final(self).cores_view()
                == old(self).cores_view(),
            final(self).blocks_view() == old(self).blocks_view(),
            final(self).listeners_view() == old(self).listeners_view(),
    {
        let r = self.remote_cores.remove(&id);
        proof {
            if !old(self).cores_view().contains_key(id) {
                assert(self.remote_cores@ =~= old(self).cores_view());
            }
        }
        r
    }

    /// Records that core `origin` listens to `reg`.
    pub fn listen(&mut self, origin: u64, reg: Register)
        ensures
            final(self).listeners_view() == old(self).listeners_view().push((origin, reg)),
            final(self).blocks_view() == old(self).blocks_view(),
            final(self).cores_view() == old(self).cores_view(),
    {
        self.listeners.push((origin, reg));
    }

    /// The number of blocks.
    pub fn block_count(&self) -> (r: usize)
        ensures
            r == self.blocks_view().len(),
    {
        self.blocks.len()
    }

    /// Whether remote core `id` is attached.
    pub fn is_connected(&self, id: u64) -> (r: bool)
        ensures
            r == self.cores_view().contains_key(id),
    {
        self.remote_cores.contains_key(&id)
    }
}

} // verus!
