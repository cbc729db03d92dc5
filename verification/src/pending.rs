use std::collections::HashMap;
use vstd::prelude::*;

verus! {

broadcast use vstd::std_specs::hash::group_hash_axioms;

/// The slot that `table` holds for `id`, if it holds one.
pub open spec fn slot_of<S>(table: Map<u64, S>, id: u64) -> Option<S> {
    if table.contains_key(id) {
        Some(table[id])
    } else {
        None
    }
}

/// A counter that hands out the ids of one direction of one channel: each
/// id once, in increasing order.
#[derive(Debug)]
pub struct IdCounter {
    next: u64,
}

impl IdCounter {
    /// The id that the next successful [`IdCounter::allocate`] returns.
    pub closed spec fn upcoming(&self) -> u64 {
        self.next
    }

    /// A counter whose first id is 1.
    pub fn new() -> (r: IdCounter)
        ensures
            r.upcoming() == 1,
    {
        IdCounter { next: 1 }
    }

    /// A counter whose first id is `first`.
    pub fn starting_at(first: u64) -> (r: IdCounter)
        ensures
            r.upcoming() == first,
    {
        IdCounter { next: first }
    }

    /// The id that the next successful [`IdCounter::allocate`] returns.
    pub fn peek(&self) -> (r: u64)
        ensures
            r == self.upcoming(),
    {
        self.next
    }

    /// Hands out the upcoming id and moves on by one. Once the counter has
    /// reached `u64::MAX` no id is left: nothing is handed out and the counter
    /// stays where it is, so that no id is ever given twice.
    pub fn allocate(&mut self) -> (r: Option<u64>)
        ensures
            old(self).upcoming() < u64::MAX ==> r == Some(old(self).upcoming())
                && final(self).upcoming() == old(self).upcoming() + 1,
            old(self).upcoming() == u64::MAX ==> r is None && final(self).upcoming() == old(
                self,
            ).upcoming(),
    {
        if self.next < u64::MAX {
            let id = self.next;
            self.next = self.next + 1;
            Some(id)
        } else {
            None
        }
    }
}

/// The replies that are still awaited, by id. A slot is whatever the owner
/// needs in order to deliver the reply once it is there; it leaves the table
/// the first time its id is resolved.
pub struct PendingTable<S> {
    slots: HashMap<u64, S>,
}

impl<S> View for PendingTable<S> {
    type V = Map<u64, S>;

    closed spec fn view(&self) -> Map<u64, S> {
        self.slots@
    }
}

impl<S> PendingTable<S> {
    /// An empty table.
    pub fn new() -> (r: PendingTable<S>)
        ensures
            r@ == Map::<u64, S>::empty(),
    {
        PendingTable { slots: HashMap::new() }
    }

    /// Whether a reply for `id` is awaited.
    pub fn contains(&self, id: u64) -> (r: bool)
        ensures
            r == self@.contains_key(id),
    {
        self.slots.contains_key(&id)
    }

    /// The number of awaited replies.
    pub fn len(&self) -> (r: usize)
        ensures
            r == self@.len(),
            self@.dom().finite(),
    {
        self.slots.len()
    }

    /// Awaits a reply for `id` in `slot`. A slot that was waiting under the
    /// same id is displaced and handed back: its wait is abandoned.
    pub fn register(&mut self, id: u64, slot: S) -> (displaced: Option<S>)
        ensures
            final(self)@ == old(self)@.insert(id, slot),
            displaced == slot_of(old(self)@, id),
    {
        self.slots.insert(id, slot)
    }

    /// Takes the slot for `id` out of the table. Where none is there, the
    /// table stays as it is and nothing is returned.
    pub fn resolve(&mut self, id: u64) -> (slot: Option<S>)
        ensures
            final(self)@ == old(self)@.remove(id),
            slot == slot_of(old(self)@, id),
    {
        self.slots.remove(&id)
    }
}

/// Registering a slot and resolving its id once gives that slot back, and
/// leaves the table without the id.
pub proof fn law_register_then_resolve<S>(table: Map<u64, S>, id: u64, slot: S)
    ensures
        slot_of(table.insert(id, slot), id) == Some(slot),
        table.insert(id, slot).remove(id) == table.remove(id),
        !table.insert(id, slot).remove(id).contains_key(id),
{
}

/// Resolving an id that the table does not hold gives nothing and changes
/// nothing.
pub proof fn law_resolve_absent<S>(table: Map<u64, S>, id: u64)
    requires
        !table.contains_key(id),
    ensures
        slot_of(table, id) is None,
        table.remove(id) == table,
{
}

/// Resolving an id a second time gives nothing and changes nothing: a reply
/// is delivered at most once.
pub proof fn law_resolve_twice<S>(table: Map<u64, S>, id: u64)
    ensures
        slot_of(table.remove(id), id) is None,
        table.remove(id).remove(id) == table.remove(id),
{
}

/// Registering or resolving one id leaves the slots of all other ids as they
/// were: the replies are independent of each other.
pub proof fn law_other_ids_untouched<S>(table: Map<u64, S>, id: u64, other: u64, slot: S)
    requires
        id != other,
    ensures
        slot_of(table.insert(id, slot), other) == slot_of(table, other),
        slot_of(table.remove(id), other) == slot_of(table, other),
{
}

} // verus!
