//! What holds of the registry over whole histories of operations, and of the
//! deliveries that one operation calls for.

use vstd::prelude::*;
use crate::server::{delivered, fans_out, Client, Delivery, RegistryModel};

verus! {

/// One operation on the registry.
pub enum Operation<H> {
    /// A client joins.
    Connect(Client<H>),
    /// The connection of this number leaves.
    Disconnect(usize),
    /// The connection of this number asks for a text to be relayed.
    Broadcast(usize, Seq<char>),
}

impl<H> RegistryModel<H> {
    /// The registry after one operation. A broadcast leaves it as it was.
    pub open spec fn after(self, op: Operation<H>) -> Self {
        match op {
            Operation::Connect(client) => self.joined(client),
            Operation::Disconnect(id) => self.left(id),
            Operation::Broadcast(_, _) => self,
        }
    }

    /// The registry after a history of operations.
    pub open spec fn after_all(self, ops: Seq<Operation<H>>) -> Self
        decreases ops.len(),
    {
        if ops.len() == 0 {
            self
        } else {
            self.after_all(ops.drop_last()).after(ops.last())
        }
    }

    /// The numbers given to the connects of a history, in the order of the
    /// connects.
    pub open spec fn assigned(self, ops: Seq<Operation<H>>) -> Seq<usize>
        decreases ops.len(),
    {
        if ops.len() == 0 {
            seq![]
        } else {
            let earlier = self.assigned(ops.drop_last());
            match ops.last() {
                Operation::Connect(_) => earlier.push(self.after_all(ops.drop_last()).upcoming()),
                _ => earlier,
            }
        }
    }
}

/// How many connects a history holds.
pub open spec fn connects<H>(ops: Seq<Operation<H>>) -> nat
    decreases ops.len(),
{
    if ops.len() == 0 {
        0
    } else {
        connects(ops.drop_last()) + if ops.last() is Connect {
            1nat
        } else {
            0nat
        }
    }
}

/// The numbers to which a list of deliveries goes, in order.
pub open spec fn recipients(deliveries: Seq<Delivery>) -> Seq<usize> {
    Seq::new(deliveries.len(), |i: int| deliveries[i].to)
}

/// A registry in which every number in use was given out stays so when a
/// client joins, as long as there is a number left to give.
pub proof fn lemma_join_keeps_wf<H>(registry: RegistryModel<H>, client: Client<H>)
    requires
        registry.wf(),
        registry.next_id < usize::MAX,
    ensures
        registry.joined(client).wf(),
        !registry.sessions.contains_key(registry.upcoming()),
        registry.joined(client).sessions.dom() == registry.sessions.dom().insert(
            registry.upcoming(),
        ),
{
}

/// A registry in which every number in use was given out stays so when a
/// connection leaves.
pub proof fn lemma_leave_keeps_wf<H>(registry: RegistryModel<H>, id: usize)
    requires
        registry.wf(),
    ensures
        registry.left(id).wf(),
{
}

/// A disconnect for a number that the registry does not hold changes
/// nothing.
pub proof fn lemma_absent_disconnect_changes_nothing<H>(registry: RegistryModel<H>, id: usize)
    requires
        !registry.sessions.contains_key(id),
    ensures
        registry.left(id) == registry,
{
    assert(registry.sessions.remove(id) =~= registry.sessions);
}

/// A second disconnect for the same number finds nothing to remove: the
/// registry no longer holds the number, and stays as the first left it.
pub proof fn lemma_disconnect_is_idempotent<H>(registry: RegistryModel<H>, id: usize)
    ensures
        !registry.left(id).sessions.contains_key(id),
        registry.left(id).left(id) == registry.left(id),
{
    lemma_absent_disconnect_changes_nothing(registry.left(id), id);
}

/// Over any history of connects, disconnects and broadcasts, the connects
/// get the numbers that follow the last one given out before, one after the
/// other: neither a disconnect nor a broadcast in between changes what the
/// next connect gets.
pub proof fn lemma_assigned_ids_are_consecutive<H>(
    registry: RegistryModel<H>,
    ops: Seq<Operation<H>>,
)
    requires
        registry.next_id + connects(ops) <= usize::MAX,
    ensures
        registry.after_all(ops).next_id == registry.next_id + connects(ops),
        registry.assigned(ops).len() == connects(ops),
        forall|i: int|
            0 <= i < registry.assigned(ops).len() ==> #[trigger] registry.assigned(ops)[i]
                == registry.next_id + 1 + i,
    decreases ops.len(),
{
    if ops.len() > 0 {
        lemma_assigned_ids_are_consecutive(registry, ops.drop_last());
    }
}

/// The numbers given to the connects of a history are strictly increasing
/// in the order of the connects, hence pairwise distinct, whatever
/// disconnects and broadcasts stand in between; and each is greater than
/// every number given out before the history began.
pub proof fn lemma_assigned_ids_increase<H>(registry: RegistryModel<H>, ops: Seq<Operation<H>>)
    requires
        registry.next_id + connects(ops) <= usize::MAX,
    ensures
        forall|i: int, j: int|
            0 <= i < j < registry.assigned(ops).len() ==> #[trigger] registry.assigned(ops)[i]
                < #[trigger] registry.assigned(ops)[j],
        forall|i: int|
            0 <= i < registry.assigned(ops).len() ==> registry.next_id
                < #[trigger] registry.assigned(ops)[i],
        registry.assigned(ops).no_duplicates(),
{
    lemma_assigned_ids_are_consecutive(registry, ops);
}

/// A registry in which every number in use was given out stays so over any
/// history for which the numbers suffice.
pub proof fn lemma_history_keeps_wf<H>(registry: RegistryModel<H>, ops: Seq<Operation<H>>)
    requires
        registry.wf(),
        registry.next_id + connects(ops) <= usize::MAX,
    ensures
        registry.after_all(ops).wf(),
    decreases ops.len(),
{
    if ops.len() > 0 {
        lemma_history_keeps_wf(registry, ops.drop_last());
        lemma_assigned_ids_are_consecutive(registry, ops.drop_last());
    }
}

/// A text that is fanned out for a sender reaches every other connection
/// exactly once and never the sender: the recipients are the connections
/// without the sender, none of them twice, and every delivery carries the
/// text.
pub proof fn lemma_fan_out_spares_sender<H>(
    registry: RegistryModel<H>,
    deliveries: Seq<Delivery>,
    sender: usize,
    text: Seq<char>,
)
    requires
        registry.sessions.dom().finite(),
        fans_out(deliveries, registry.peers_of(sender), text),
    ensures
        !delivered(deliveries, sender),
        recipients(deliveries).no_duplicates(),
        recipients(deliveries).to_set() == registry.sessions.dom().remove(sender),
        deliveries.len() == registry.sessions.dom().remove(sender).len(),
        forall|i: int| 0 <= i < deliveries.len() ==> (#[trigger] deliveries[i]).message.0@ == text,
{
    let to = registry.peers_of(sender);
    let ids = recipients(deliveries);
    assert forall|id: usize| ids.to_set().contains(id) <==> to.contains(id) by {
        if ids.to_set().contains(id) {
            let i = choose|i: int| 0 <= i < ids.len() && ids[i] == id;
            assert(deliveries[i].to == id);
        }
        if to.contains(id) {
            let i = choose|i: int| 0 <= i < deliveries.len() && deliveries[i].to == id;
            assert(ids[i] == id);
        }
    }
    assert(ids.to_set() =~= to);
    assert forall|i: int, j: int| 0 <= i < ids.len() && 0 <= j < ids.len() && i != j implies ids[i]
        != ids[j] by {
        if i < j {
            assert(deliveries[i].to != deliveries[j].to);
        } else {
            assert(deliveries[j].to != deliveries[i].to);
        }
    }
    ids.unique_seq_to_set();
}

} // verus!
