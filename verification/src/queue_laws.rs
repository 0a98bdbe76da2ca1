//! What the packet queues do, step by step.

use crate::data_queue::{
    lemma_filter_partition, lemma_total_insert, lemma_total_remove, not_of_handle, QueueView,
};
use crate::device::DeviceView;
use crate::hci::AclDataPacket;
use crate::pools::{
    accepted, after_answer, all_accepted, answers, fresh_queue, OutboundPacket, PoolsView,
};
use crate::retain::lemma_filter_members;
use crate::transport::HostAction;
use vstd::prelude::*;

verus! {

/// A packet waits behind all that wait already, and is counted as accepted.
pub proof fn lemma_packet_waits<P>(queue: QueueView<P>, packet: P, handle: u16)
    ensures
        ({
            let after = queue.enqueued(packet, handle);
            &&& after.waiting.len() == queue.waiting.len() + 1
            &&& after.waiting.last() == (packet, handle)
            &&& after.waiting.drop_last() =~= queue.waiting
            &&& after.queued == queue.queued + 1
            &&& after.completed == queue.completed
            &&& after.counters == queue.counters
            &&& after.max_in_flight == queue.max_in_flight
        }),
{
}

/// Several packets wait in their order behind all that wait already, and each is
/// counted as accepted.
pub proof fn lemma_packets_wait<P>(queue: QueueView<P>, packets: Seq<P>, handle: u16, place: int)
    ensures
        ({
            let after = queue.enqueued_all(packets, handle);
            &&& after.waiting.len() == queue.waiting.len() + packets.len()
            &&& after.waiting.take(queue.waiting.len() as int) =~= queue.waiting
            &&& 0 <= place < packets.len() ==> after.waiting[queue.waiting.len() + place] == (
                packets[place],
                handle,
            )
            &&& after.queued == queue.queued + packets.len()
            &&& after.completed == queue.completed
            &&& after.counters == queue.counters
            &&& after.max_in_flight == queue.max_in_flight
        }),
{
}

/// A packet may enter the window exactly where one waits and the window has room.
/// The first one enters, for its own connection, and the window holds one more.
pub proof fn lemma_packet_enters<P>(queue: QueueView<P>, other: u16)
    requires
        queue.counters.dom().finite(),
        queue.waiting.len() > 0,
        queue.connection_in_flight(queue.waiting[0].1) < usize::MAX,
    ensures
        queue.ready() <==> queue.in_flight() < queue.max_in_flight,
        ({
            let after = queue.polled();
            let handle = queue.waiting[0].1;
            &&& after.waiting =~= queue.waiting.drop_first()
            &&& after.connection_in_flight(handle) == queue.connection_in_flight(handle) + 1
            &&& other != handle ==> after.connection_in_flight(other)
                == queue.connection_in_flight(other)
            &&& after.in_flight() == queue.in_flight() + 1
            &&& after.queued == queue.queued
            &&& after.completed == queue.completed
            &&& after.max_in_flight == queue.max_in_flight
        }),
{
    let handle = queue.waiting[0].1;
    let count = (queue.connection_in_flight(handle) + 1) as usize;
    lemma_total_insert(queue.counters, handle, count);
    if queue.counters.contains_key(handle) {
        lemma_total_remove(queue.counters, handle);
    } else {
        assert(queue.counters.remove(handle) =~= queue.counters);
    }
}

/// An empty queue has nothing that may enter the window.
pub proof fn lemma_nothing_enters<P>(queue: QueueView<P>)
    requires
        queue.waiting.len() == 0,
    ensures
        !queue.ready(),
{
}

/// Completed packets leave the window for their connection alone. A report of more
/// than are in flight completes those that are, and one for a connection without
/// packets changes nothing.
pub proof fn lemma_packets_complete<P>(
    queue: QueueView<P>,
    handle: u16,
    count: nat,
    other: u16,
)
    requires
        queue.counters.dom().finite(),
    ensures
        ({
            let after = queue.settled(handle, count);
            let in_flight = queue.connection_in_flight(handle);
            let done = if count < in_flight {
                count
            } else {
                in_flight
            };
            &&& after.connection_in_flight(handle) == in_flight - done
            &&& other != handle ==> after.connection_in_flight(other)
                == queue.connection_in_flight(other)
            &&& after.completed == queue.completed + done
            &&& after.in_flight() == queue.in_flight() - done
            &&& after.waiting == queue.waiting
            &&& after.queued == queue.queued
            &&& after.max_in_flight == queue.max_in_flight
        }),
{
    let in_flight = queue.connection_in_flight(handle);
    if queue.counters.contains_key(handle) {
        let left = if count < in_flight {
            (in_flight - count) as usize
        } else {
            0
        };
        lemma_total_insert(queue.counters, handle, left);
        lemma_total_remove(queue.counters, handle);
    }
}

/// A connection that is flushed leaves nothing waiting or in flight. All of it
/// counts as done, and the packets of others wait on.
pub proof fn lemma_connection_flushed<P>(queue: QueueView<P>, handle: u16, entry: (P, u16))
    requires
        queue.counters.dom().finite(),
    ensures
        ({
            let after = queue.flushed(handle);
            &&& after.connection_in_flight(handle) == 0
            &&& entry.1 != handle ==> after.connection_in_flight(entry.1)
                == queue.connection_in_flight(entry.1)
            &&& after.waiting.contains(entry) <==> queue.waiting.contains(entry) && entry.1
                != handle
            &&& after.completed - queue.completed == (queue.waiting.len() - after.waiting.len())
                + queue.connection_in_flight(handle)
            &&& after.queued == queue.queued
            &&& after.max_in_flight == queue.max_in_flight
        }),
{
    lemma_filter_partition(queue.waiting, handle);
    lemma_filter_members(queue.waiting, not_of_handle::<P>(handle), entry);
}

/// A fresh queue has a window of the given size and nothing else.
pub proof fn lemma_fresh_queue<P>(window: nat, handle: u16)
    ensures
        fresh_queue::<P>(window).max_in_flight == window,
        fresh_queue::<P>(window).waiting.len() == 0,
        fresh_queue::<P>(window).queued == 0,
        fresh_queue::<P>(window).completed == 0,
        !fresh_queue::<P>(window).counters.contains_key(handle),
{
}

/// A packet that the transport takes stays in the window, and one that it refuses
/// leaves it at once and counts as done.
pub proof fn lemma_packet_answered<P: OutboundPacket>(queue: QueueView<P>, taken: bool)
    requires
        queue.counters.dom().finite(),
        queue.waiting.len() > 0,
        queue.waiting[0].1 == queue.waiting[0].0.handle(),
        queue.connection_in_flight(queue.waiting[0].1) < usize::MAX,
    ensures
        ({
            let after = after_answer(queue, taken);
            let handle = queue.waiting[0].1;
            &&& after.waiting =~= queue.waiting.drop_first()
            &&& taken ==> after.connection_in_flight(handle) == queue.connection_in_flight(handle)
                + 1 && after.completed == queue.completed
            &&& !taken ==> after.connection_in_flight(handle) == queue.connection_in_flight(handle)
                && after.completed == queue.completed + 1
        }),
{
    let handle = queue.waiting[0].1;
    lemma_packet_enters(queue, handle);
    lemma_packets_complete(queue.polled(), handle, 1, handle);
}

/// The transport's answers stand in the log in order, and all are positive exactly
/// where none is negative.
pub proof fn lemma_answers_stand_in_log(
    log_before: Seq<HostAction>,
    log_after: Seq<HostAction>,
    place: int,
)
    requires
        log_before.len() <= log_after.len(),
        0 <= place < log_after.len() - log_before.len(),
    ensures
        answers(log_before, log_after).len() == log_after.len() - log_before.len(),
        answers(log_before, log_after)[place] == accepted(log_after[log_before.len() + place]),
        !accepted(log_after[log_before.len() + place]) ==> !all_accepted(
            answers(log_before, log_after),
        ),
{
    assert(answers(log_before, log_after)[place] == accepted(log_after[log_before.len() + place]));
}

/// A packet's answer is the one that the log holds for it.
pub proof fn lemma_answers(action: HostAction)
    ensures
        action is Acl ==> accepted(action) == action->Acl_accepted,
        action is Iso ==> accepted(action) == action->Iso_accepted,
        action is Synchronous ==> accepted(action) == action->Synchronous_accepted,
        action is Disconnect ==> accepted(action) == action->Disconnect_accepted,
        action is Command ==> accepted(action),
{
}

/// A frame of an LE connection is cut for the LE pool where the controller has
/// one, and waits in that. Every other frame is cut for the Classic pool and waits
/// there.
pub proof fn lemma_frame_waits(
    device: DeviceView,
    handle: u16,
    fragments: Seq<AclDataPacket>,
)
    ensures
        ({
            let own = device.le.le_connections.contains_key(handle) && device.pools.le_acl is Some;
            let after = device.with_fragments(handle, fragments);
            &&& own ==> {
                &&& device.fragment_length(handle) == device.pools.le_acl_data_packet_length->0
                &&& after.pools.acl == device.pools.acl
                &&& after.pools.le_acl is Some
                &&& after.pools.le_acl->0.queued == device.pools.le_acl->0.queued
                    + fragments.len()
                &&& after.pools.le_acl->0.waiting =~= device.pools.le_acl->0.waiting + Seq::new(
                    fragments.len(),
                    |index: int| (fragments[index], handle),
                )
            }
            &&& !own ==> {
                &&& device.fragment_length(handle) == device.pools.acl_data_packet_length
                &&& after.pools.le_acl == device.pools.le_acl
                &&& after.pools.acl.queued == device.pools.acl.queued + fragments.len()
                &&& after.pools.acl.waiting =~= device.pools.acl.waiting + Seq::new(
                    fragments.len(),
                    |index: int| (fragments[index], handle),
                )
            }
            &&& after.pools.iso == device.pools.iso
            &&& after == (DeviceView { pools: after.pools, ..device })
        }),
{
}

/// The packets of both ACL pools are pending, each until it is done.
pub proof fn lemma_acl_pending(pools: PoolsView)
    ensures
        pools.le_acl is None ==> pools.acl_pending() == pools.acl.queued - pools.acl.completed,
        pools.le_acl is Some ==> pools.acl_pending() == pools.acl.queued - pools.acl.completed
            + pools.le_acl->0.queued - pools.le_acl->0.completed,
{
}

} // verus!
