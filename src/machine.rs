use vstd::prelude::*;
use crate::register::Register;

verus! {

/// A pluggable capability that reacts to changes of the tables it
/// subscribes to.
pub trait Machine {
    /// The engine's table.
    type Table;

    /// Whether a change callback on `table`, run on this machine, may leave
    /// the machine as `after` and report `outcome`. A machine that states
    /// what its callback does overrides this; by default nothing is stated.
    open spec fn reacted(&self, table: &Self::Table, after: &Self, outcome: Result<(), String>) -> bool {
        true
    }

    /// A stable name, for diagnostics.
    fn name(&self) -> String;

    /// A stable numeric id, by which the protocol addresses the machine.
    fn id(&self) -> u64;

    /// Called when a subscribed table changes; a failure is reported as text.
    fn on_change(&mut self, table: &Self::Table) -> (r: Result<(), String>)
        ensures
            old(self).reacted(table, &*final(self), r),
    ;
}

/// What a host offers a plugin during registration: it takes ownership of
/// the plugin's machines.
pub trait MachineRegistrar<M> {
    /// The machines handed over so far, in order.
    spec fn registered(&self) -> Seq<M>;

    fn register_machine(&mut self, machine: M)
        ensures
            final(self).registered() == old(self).registered().push(machine),
    ;
}

/// Whether `subs` holds a subscription of machine `id` to a column of table
/// `table`.
pub open spec fn subscribed(subs: Seq<(u64, Register)>, id: u64, table: u64) -> bool {
    exists|j: int| 0 <= j < subs.len() && #[trigger] subs[j].0 == id && subs[j].1.table == table
}

/// The ids among `ids`, in order, of the machines subscribed to `table`.
pub open spec fn subscribers(ids: Seq<u64>, subs: Seq<(u64, Register)>, table: u64) -> Seq<u64>
    decreases ids.len(),
{
    if ids.len() == 0 {
        Seq::empty()
    } else {
        let rest = subscribers(ids.drop_last(), subs, table);
        if subscribed(subs, ids.last(), table) {
            rest.push(ids.last())
        } else {
            rest
        }
    }
}

/// Where, among the outcomes of a change of `table`, the outcome of the
/// machine at position `i` of `ids` stands: after those of the subscribers
/// before it.
pub open spec fn outcome_index(ids: Seq<u64>, subs: Seq<(u64, Register)>, table: u64, i: int) -> int {
    subscribers(ids.subrange(0, i), subs, table).len() as int
}

/// The machines that a host owns, in registration order, with their
/// subscriptions.
pub struct MachineHost<M> {
    machines: Vec<(u64, M)>,
    subscriptions: Vec<(u64, Register)>,
}

impl<M> MachineHost<M> {
    /// The ids of the machines, in registration order.
    pub closed spec fn ids(&self) -> Seq<u64> {
        self.machines@.map_values(|p: (u64, M)| p.0)
    }

    /// The machines, in registration order.
    pub closed spec fn machines_view(&self) -> Seq<M> {
        self.machines@.map_values(|p: (u64, M)| p.1)
    }

    pub closed spec fn subscriptions_view(&self) -> Seq<(u64, Register)> {
        self.subscriptions@
    }

    /// A host with no machines.
    pub fn new() -> (r: MachineHost<M>)
        ensures
            r.ids() == Seq::<u64>::empty(),
            r.machines_view() == Seq::<M>::empty(),
            r.subscriptions_view() == Seq::<(u64, Register)>::empty(),
    {
        let r = MachineHost { machines: Vec::new(), subscriptions: Vec::new() };
        assert(r.ids() =~= Seq::<u64>::empty());
        assert(r.machines_view() =~= Seq::<M>::empty());
        r
    }

    /// Takes ownership of a machine registered under `id`.
    pub fn add_machine(&mut self, id: u64, machine: M)
        ensures
            final(self).ids() == old(self).ids().push(id),
            final(self).machines_view() == old(self).machines_view().push(machine),
            final(self).subscriptions_view() == old(self).subscriptions_view(),
    {
        self.machines.push((id, machine));
        assert(self.ids() =~= old(self).ids().push(id));
        assert(self.machines_view() =~= old(self).machines_view().push(machine));
    }

    /// Subscribes machine `id` to `reg`.
    pub fn subscribe(&mut self, id: u64, reg: Register)
        ensures
            final(self).subscriptions_view() == old(self).subscriptions_view().push((id, reg)),
            final(self).ids() == old(self).ids(),
            final(self).machines_view() == old(self).machines_view(),
    {
        self.subscriptions.push((id, reg));
    }

    /// The number of machines.
    pub fn machine_count(&self) -> (r: usize)
        ensures
            r == self.ids().len(),
    {
        self.machines.len()
    }

    /// The machine at position `i` in registration order.
    pub fn machine(&self, i: usize) -> (r: &M)
        requires
            i < self.ids().len(),
        ensures
            *r == self.machines_view()[i as int],
    {
        &self.machines[i].1
    }

    fn is_subscribed(&self, id: u64, table: u64) -> (r: bool)
        ensures
            r == subscribed(self.subscriptions_view(), id, table),
    {
        let mut j: usize = 0;
        while j < self.subscriptions.len()
            invariant
                j <= self.subscriptions@.len(),
                forall|k: int|
                    0 <= k < j ==> !(#[trigger] self.subscriptions@[k].0 == id
                        && self.subscriptions@[k].1.table == table),
            decreases self.subscriptions@.len() - j,
        {
            let (sid, reg) = self.subscriptions[j];
            if sid == id && reg.table == table {
                return true;
            }
            j = j + 1;
        }
        false
    }
}

impl<M: Machine> MachineHost<M> {
    /// Runs the change callback of every machine subscribed to table
    /// `table_id` on `table`, in registration order, and returns each one's
    /// id with what its callback reported. A failure of one callback does not
    /// keep the others from running; the machines that are not subscribed
    /// are left as they were.
    pub fn notify(&mut self, table_id: u64, table: &M::Table) -> (r: Vec<(u64, Result<(), String>)>)
        ensures
            r@.map_values(|p: (u64, Result<(), String>)| p.0)
                == subscribers(old(self).ids(), old(self).subscriptions_view(), table_id),
            final(self).ids() == old(self).ids(),
            final(self).subscriptions_view() == old(self).subscriptions_view(),
            final(self).machines_view().len() == old(self).machines_view().len(),
            forall|i: int|
                #![trigger old(self).ids()[i]]
                0 <= i < old(self).machines_view().len() ==> if subscribed(
                    old(self).subscriptions_view(),
                    old(self).ids()[i],
                    table_id,
                ) {
                    &&& 0 <= outcome_index(old(self).ids(), old(self).subscriptions_view(), table_id, i)
                        < r@.len()
                    &&& old(self).machines_view()[i].reacted(
                        table,
                        &final(self).machines_view()[i],
                        r@[outcome_index(old(self).ids(), old(self).subscriptions_view(), table_id, i)].1,
                    )
                } else {
                    final(self).machines_view()[i] == old(self).machines_view()[i]
                },
    {
        let ghost all = self.machines@;
        let ghost ids = self.ids();
        let ghost subs = self.subscriptions@;
        let mut rest: Vec<(u64, M)> = Vec::new();
        std::mem::swap(&mut rest, &mut self.machines);
        let mut kept: Vec<(u64, M)> = Vec::new();
        let mut outcomes: Vec<(u64, Result<(), String>)> = Vec::new();
        let ghost mut done: int = 0;
        while rest.len() > 0
            invariant
                0 <= done <= all.len(),
                ids == all.map_values(|p: (u64, M)| p.0),
                rest@ == all.subrange(done, all.len() as int),
                kept@.len() == done,
                forall|i: int| 0 <= i < done ==> #[trigger] kept@[i].0 == all[i].0,
                outcomes@.map_values(|p: (u64, Result<(), String>)| p.0)
                    == subscribers(ids.subrange(0, done), subs, table_id),
                forall|i: int|
                    #![trigger ids[i]]
                    0 <= i < done ==> if subscribed(subs, ids[i], table_id) {
                        &&& 0 <= outcome_index(ids, subs, table_id, i) < outcomes@.len()
                        &&& all[i].1.reacted(
                            table,
                            &kept@[i].1,
                            outcomes@[outcome_index(ids, subs, table_id, i)].1,
                        )
                    } else {
                        kept@[i].1 == all[i].1
                    },
                self.subscriptions@ == subs,
            decreases rest.len(),
        {
            let ghost before = rest@;
            let (id, mut machine) = rest.remove(0);
            let ghost outcomes_before = outcomes@;
            let ghost kept_before = kept@;
            let ghost machine_before = machine;
            proof {
                assert(before[0] == all[done]);
                assert(id == ids[done]);
                assert(ids.subrange(0, done + 1).drop_last() =~= ids.subrange(0, done));
            }
            if self.is_subscribed(id, table_id) {
                let outcome = machine.on_change(table);
                outcomes.push((id, outcome));
                proof {
                    assert(machine_before.reacted(table, &machine, outcome));
                    assert(outcomes@[outcomes_before.len() as int] == (id, outcome));
                    assert(outcome_index(ids, subs, table_id, done) == outcomes_before.len()) by {
                        assert(outcomes_before.map_values(|p: (u64, Result<(), String>)| p.0).len()
                            == outcomes_before.len());
                    }
                }
            }
            kept.push((id, machine));
            proof {
                done = done + 1;
                assert forall|i: int| 0 <= i < done implies #[trigger] kept@[i].0 == all[i].0 by {
                    if i < done - 1 {
                        assert(kept@[i] == kept_before[i]);
                    }
                }
                assert forall|i: int|
                    #![trigger ids[i]]
                    0 <= i < done implies if subscribed(subs, ids[i], table_id) {
                        &&& 0 <= outcome_index(ids, subs, table_id, i) < outcomes@.len()
                        &&& all[i].1.reacted(
                            table,
                            &kept@[i].1,
                            outcomes@[outcome_index(ids, subs, table_id, i)].1,
                        )
                    } else {
                        kept@[i].1 == all[i].1
                    } by {
                    if i < done - 1 {
                        assert(kept@[i] == kept_before[i]);
                        if subscribed(subs, ids[i], table_id) {
                            let k = outcome_index(ids, subs, table_id, i);
                            assert(outcomes@[k] == outcomes_before[k]);
                        }
                    }
                }
                assert(outcomes@.map_values(|p: (u64, Result<(), String>)| p.0)
                    =~= subscribers(ids.subrange(0, done), subs, table_id));
                assert(rest@ =~= all.subrange(done, all.len() as int));
            }
        }
        self.machines = kept;
        proof {
            assert forall|i: int| 0 <= i < all.len() implies #[trigger] ids[i] == old(self).ids()[i]
                && self.machines_view()[i] == kept@[i].1
                && old(self).machines_view()[i] == all[i].1 by {
            }
            assert(ids.subrange(0, all.len() as int) =~= ids);
            assert(self.ids() =~= ids) by {
                assert forall|i: int| 0 <= i < all.len() implies self.ids()[i] == ids[i] by {
                    assert(kept@[i].0 == all[i].0);
                }
            }
        }
        outcomes
    }
}

impl<M: Machine> MachineRegistrar<M> for MachineHost<M> {
    closed spec fn registered(&self) -> Seq<M> {
        self.machines_view()
    }

    /// Takes ownership of `machine` under the id it reports.
    fn register_machine(&mut self, machine: M) {
        let id = machine.id();
        self.add_machine(id, machine);
    }
}

} // verus!
