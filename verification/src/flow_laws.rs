//! Which packet pool a completion report concerns.

use crate::data_queue::QueueView;
use crate::device::DeviceView;
use crate::hci::{AclDataPacket, Event, HciPacket, IsoDataPacket};
use crate::link_state::reports;
use crate::pools::{after_answers, answers, queue_flushed, OutboundPacket, PoolsView};
use crate::transport::HostAction;
use vstd::prelude::*;

verus! {

/// Whether a queue has got back what a report says for one connection: no more
/// than was in flight for it, and nothing else has changed.
pub open spec fn lowered<P>(
    before: QueueView<P>,
    after: QueueView<P>,
    handle: u16,
    count: int,
) -> bool {
    let in_flight = before.connection_in_flight(handle);
    let gone = if count <= in_flight {
        count
    } else {
        in_flight as int
    };
    &&& after.connection_in_flight(handle) == in_flight - gone
    &&& forall|other: u16|
        other != handle ==> #[trigger] after.connection_in_flight(other)
            == before.connection_in_flight(other)
    &&& after.completed == before.completed + gone
    &&& after.waiting == before.waiting
    &&& after.queued == before.queued
    &&& after.max_in_flight == before.max_in_flight
}

/// Whether the pools have got back what a report says for one connection, each
/// from the pool that the connection's packets are taken from.
pub open spec fn settled_in_own_pool(
    device: DeviceView,
    before: PoolsView,
    after: PoolsView,
    handle: u16,
    count: int,
) -> bool {
    let streams = device.iso.cis_links.contains_key(handle)
        || device.iso.bis_directions.contains_key(handle);
    let own_le_pool = device.le.le_connections.contains_key(handle) && before.le_acl is Some;
    &&& after.acl_data_packet_length == before.acl_data_packet_length
    &&& after.le_acl_data_packet_length == before.le_acl_data_packet_length
    &&& after.iso_data_packet_length == before.iso_data_packet_length
    &&& after.le_acl is Some == before.le_acl is Some
    &&& after.iso is Some == before.iso is Some
    &&& streams ==> {
        &&& after.acl == before.acl
        &&& after.le_acl == before.le_acl
        &&& before.iso is Some ==> lowered(before.iso->0, after.iso->0, handle, count)
    }
    &&& !streams ==> after.iso == before.iso
    &&& !streams && own_le_pool ==> {
        &&& after.acl == before.acl
        &&& lowered(before.le_acl->0, after.le_acl->0, handle, count)
    }
    &&& !streams && !own_le_pool ==> {
        &&& after.le_acl == before.le_acl
        &&& lowered(before.acl, after.acl, handle, count)
    }
}

/// Whether no packet waits in any pool.
pub open spec fn nothing_waits(pools: PoolsView) -> bool {
    &&& pools.acl.waiting.len() == 0
    &&& pools.le_acl is Some ==> pools.le_acl->0.waiting.len() == 0
    &&& pools.iso is Some ==> pools.iso->0.waiting.len() == 0
}

/// A completion report in a list of reports gives back, to the pool that the
/// packets of its handle are taken from, what it says and no more than was in
/// flight. No report gives back nothing.
pub proof fn lemma_report_settles_in_own_pool(
    device: DeviceView,
    earlier: Seq<(u16, u16)>,
    handle: u16,
    count: u16,
)
    ensures
        device.settled_all(Seq::empty()) == device.pools,
        settled_in_own_pool(
            device,
            device.settled_all(earlier),
            device.settled_all(earlier.push((handle, count))),
            handle,
            count as int,
        ),
{
    let all = earlier.push((handle, count));
    assert(all.drop_last() =~= earlier);
    assert(all.last() == (handle, count));
}

/// Flushing a queue in which nothing waits does nothing.
proof fn lemma_nothing_to_flush<P: OutboundPacket>(
    before: QueueView<P>,
    after: QueueView<P>,
    log_before: Seq<HostAction>,
    log_after: Seq<HostAction>,
    controller_id: usize,
)
    requires
        queue_flushed(before, after, log_before, log_after, controller_id),
        before.waiting.len() == 0,
    ensures
        after == before,
        log_after == log_before,
{
    let given = answers(log_before, log_after);
    assert(given.len() == 0);
    assert(after_answers(before, given) == before);
    assert(log_after =~= log_before);
}

/// A completion report for one handle, with nothing waiting to be sent, gives
/// back what it says to the pool that the handle's packets are taken from. All
/// else stays as it is, and nothing is handed over.
pub proof fn lemma_completion_goes_to_own_pool(
    device: DeviceView,
    after: DeviceView,
    handles: Vec<u16>,
    counts: Vec<u16>,
    log_before: Seq<HostAction>,
    log_after: Seq<HostAction>,
)
    requires
        device.setup.status.controller_ready,
        handles@.len() == 1,
        counts@.len() == 1,
        nothing_waits(device.pools),
        device.packet_handled(
            after,
            HciPacket::Event(
                Event::NumberOfCompletedPackets {
                    connection_handles: handles,
                    num_completed_packets: counts,
                },
            ),
            log_before,
            log_after,
        ),
    ensures
        settled_in_own_pool(device, device.pools, after.pools, handles@[0], counts@[0] as int),
        after == (DeviceView { pools: after.pools, ..device }),
        log_after == log_before,
{
    let handle = handles@[0];
    let count = counts@[0];
    let list = reports(handles@, counts@);
    assert(list =~= Seq::<(u16, u16)>::empty().push((handle, count)));
    lemma_report_settles_in_own_pool(device, Seq::empty(), handle, count);
    let settled = device.settled_all(list);
    assert(nothing_waits(settled));
    assert(device.completions_handled(after, list, log_before, log_after));
    let (between, middle) = choose|between: PoolsView, middle: Seq<HostAction>| #[trigger]
        DeviceView::flushed_queues_via(
            settled,
            between,
            after.pools,
            log_before,
            middle,
            log_after,
            device.controller_id,
        );
    let inner = choose|inner: Seq<HostAction>|
        settled.acl_flushed_via(between, log_before, inner, middle, device.controller_id);
    lemma_nothing_to_flush(settled.acl, between.acl, log_before, inner, device.controller_id);
    if settled.le_acl is Some {
        lemma_nothing_to_flush(
            settled.le_acl->0,
            between.le_acl->0,
            inner,
            middle,
            device.controller_id,
        );
    }
    if between.iso is Some {
        lemma_nothing_to_flush(
            between.iso->0,
            after.pools.iso->0,
            middle,
            log_after,
            device.controller_id,
        );
    }
    assert(after.pools =~= settled);
}

/// A completion report for any handle first gives back what it says to the pool
/// that the handle's packets are taken from; what waits is only then handed over.
pub proof fn lemma_completion_precedes_handover(
    device: DeviceView,
    after: DeviceView,
    handles: Vec<u16>,
    counts: Vec<u16>,
    log_before: Seq<HostAction>,
    log_after: Seq<HostAction>,
) -> (settled: PoolsView)
    requires
        device.setup.status.controller_ready,
        handles@.len() == 1,
        counts@.len() == 1,
        device.packet_handled(
            after,
            HciPacket::Event(
                Event::NumberOfCompletedPackets {
                    connection_handles: handles,
                    num_completed_packets: counts,
                },
            ),
            log_before,
            log_after,
        ),
    ensures
        settled_in_own_pool(device, device.pools, settled, handles@[0], counts@[0] as int),
        exists|between: PoolsView, middle: Seq<HostAction>|
            {
                &&& settled.acl_flushed(between, log_before, middle, device.controller_id)
                &&& #[trigger] between.iso_flushed(
                    after.pools,
                    middle,
                    log_after,
                    device.controller_id,
                )
            },
        after == (DeviceView { pools: after.pools, ..device }),
{
    let handle = handles@[0];
    let count = counts@[0];
    let list = reports(handles@, counts@);
    assert(list =~= Seq::<(u16, u16)>::empty().push((handle, count)));
    lemma_report_settles_in_own_pool(device, Seq::empty(), handle, count);
    let settled = device.settled_all(list);
    assert(device.completions_handled(after, list, log_before, log_after));
    let (between, middle) = choose|between: PoolsView, middle: Seq<HostAction>| #[trigger]
        DeviceView::flushed_queues_via(
            settled,
            between,
            after.pools,
            log_before,
            middle,
            log_after,
            device.controller_id,
        );
    assert(settled.acl_flushed(between, log_before, middle, device.controller_id));
    assert(between.iso_flushed(after.pools, middle, log_after, device.controller_id));
    settled
}

/// An SDU that was sent on a stream and has been completed leaves nothing of the
/// stream in the ISO pool, and the ACL pools as they were.
pub proof fn lemma_sent_stream_drains(
    device: DeviceView,
    between: DeviceView,
    after: DeviceView,
    packets: Seq<IsoDataPacket>,
    length: int,
    success: bool,
    handles: Vec<u16>,
    counts: Vec<u16>,
    log_before: Seq<HostAction>,
    middle: Seq<HostAction>,
    log_after: Seq<HostAction>,
)
    requires
        device.setup.status.controller_ready,
        handles@.len() == 1,
        counts@.len() == 1,
        device.pools.iso is Some,
        device.sends_sdu(handles@[0], length),
        device.sdu_sent_as(between, packets, handles@[0], success, log_before, middle),
        nothing_waits(between.pools),
        counts@[0] >= between.pools.iso->0.connection_in_flight(handles@[0]),
        between.packet_handled(
            after,
            HciPacket::Event(
                Event::NumberOfCompletedPackets {
                    connection_handles: handles,
                    num_completed_packets: counts,
                },
            ),
            middle,
            log_after,
        ),
    ensures
        after.pools.iso is Some,
        after.pools.iso->0.drained(handles@[0]),
        after.pools.acl == device.pools.acl,
        after.pools.le_acl == device.pools.le_acl,
        log_after == middle,
{
    reveal(Seq::filter);
    lemma_completion_goes_to_own_pool(between, after, handles, counts, middle, log_after);
}

/// A frame that was sent on a connection and has been completed leaves nothing
/// of the connection in the ACL pool that it was sent through, and the ISO pool
/// as it was.
pub proof fn lemma_sent_frame_drains(
    device: DeviceView,
    between: DeviceView,
    after: DeviceView,
    fragments: Seq<AclDataPacket>,
    success: bool,
    handles: Vec<u16>,
    counts: Vec<u16>,
    log_before: Seq<HostAction>,
    middle: Seq<HostAction>,
    log_after: Seq<HostAction>,
)
    requires
        device.setup.status.controller_ready,
        handles@.len() == 1,
        counts@.len() == 1,
        !device.iso.cis_links.contains_key(handles@[0]),
        !device.iso.bis_directions.contains_key(handles@[0]),
        device.frame_sent(between, handles@[0], fragments, success, log_before, middle),
        nothing_waits(between.pools),
        counts@[0] >= between.pools.acl.connection_in_flight(handles@[0]),
        between.pools.le_acl is Some ==> counts@[0]
            >= between.pools.le_acl->0.connection_in_flight(handles@[0]),
        between.packet_handled(
            after,
            HciPacket::Event(
                Event::NumberOfCompletedPackets {
                    connection_handles: handles,
                    num_completed_packets: counts,
                },
            ),
            middle,
            log_after,
        ),
    ensures
        device.le.le_connections.contains_key(handles@[0]) && device.pools.le_acl is Some ==> {
            &&& after.pools.le_acl is Some
            &&& after.pools.le_acl->0.drained(handles@[0])
            &&& after.pools.acl == between.pools.acl
        },
        !(device.le.le_connections.contains_key(handles@[0]) && device.pools.le_acl is Some) ==> {
            &&& after.pools.acl.drained(handles@[0])
            &&& after.pools.le_acl == between.pools.le_acl
        },
        after.pools.iso == device.pools.iso,
        log_after == middle,
{
    reveal(Seq::filter);
    lemma_completion_goes_to_own_pool(between, after, handles, counts, middle, log_after);
}

} // verus!
