//! What holds of a device across its operations.

use crate::address::Address;
use crate::advertise::stop_scan_command;
use crate::advertising::{AccumulatorView, AdvertisementView};
use crate::bearers::{lemma_once_each, once_each, BearerSubscription};
use crate::channel_sounding::ChannelSoundingConfig;
use crate::commands::{addresses, first_at, lemma_filed_once};
use crate::data_queue::{lemma_filter_push, not_of_handle, of_handle, QueueView};
use crate::device::{Device, DeviceView};
use crate::disconnect::{lemma_bearers_keep, OfBearer};
use crate::events::DeviceEventView;
use crate::hci::{Command, HciPacket};
use crate::ids::spec_next_id;
use crate::lifecycle::disconnections;
use crate::lookup::{PeerLookupRequestView, PeerLookupTransport};
use crate::ordered::{
    lemma_sorted_lists, lemma_sorted_lists_u64, lists_u16, sorted, sorted_u64,
};
use crate::pairing::PairingProgress;
use crate::pump::Pump;
use crate::retain::{
    lemma_filter_members, lemma_none_left, lemma_remove_keeps_distinct, not_of_connection,
    not_selected, of_connection,
};
use crate::search::{answered, Sighting};
use crate::state::{ClassicView, GapView, LookupView};
use crate::transport::HostAction;
use vstd::prelude::*;

verus! {

broadcast use vstd::laws_cmp::group_laws_cmp;

/// First in, first out: a packet that arrives while others wait does not change
/// which packet is next.
pub proof fn lemma_first_in_first_out<P>(queue: QueueView<P>, packet: P, handle: u16)
    requires
        queue.waiting.len() > 0,
    ensures
        queue.enqueued(packet, handle).waiting[0] == queue.waiting[0],
        queue.enqueued(packet, handle).polled() == queue.polled().enqueued(packet, handle),
{
    let later = queue.enqueued(packet, handle);
    assert(later.polled().waiting =~= queue.polled().enqueued(packet, handle).waiting);
}

/// Nothing of a connection is left in what was kept of others.
proof fn lemma_none_of_handle<P>(waiting: Seq<(P, u16)>, handle: u16)
    ensures
        waiting.filter(not_of_handle(handle)).filter(of_handle(handle)).len() == 0,
    decreases waiting.len(),
{
    reveal(Seq::filter);
    if waiting.len() > 0 {
        lemma_none_of_handle(waiting.drop_last(), handle);
        if waiting.last().1 != handle {
            lemma_filter_push(
                waiting.drop_last().filter(not_of_handle(handle)),
                waiting.last(),
                of_handle(handle),
            );
        }
    }
}

/// What was kept of others holds all that another connection had.
proof fn lemma_others_kept<P>(waiting: Seq<(P, u16)>, handle: u16, other: u16)
    requires
        other != handle,
    ensures
        waiting.filter(not_of_handle(handle)).filter(of_handle(other)) == waiting.filter(
            of_handle(other),
        ),
    decreases waiting.len(),
{
    reveal(Seq::filter);
    if waiting.len() > 0 {
        lemma_others_kept(waiting.drop_last(), handle, other);
        if waiting.last().1 != handle {
            lemma_filter_push(
                waiting.drop_last().filter(not_of_handle(handle)),
                waiting.last(),
                of_handle(other),
            );
        }
    }
}

/// Flushing a connection drains it, and leaves every other connection's packets
/// as they were.
pub proof fn lemma_flush_drains<P>(queue: QueueView<P>, handle: u16, other: u16)
    requires
        other != handle,
    ensures
        queue.flushed(handle).drained(handle),
        queue.flushed(handle).connection_in_flight(other) == queue.connection_in_flight(other),
        queue.flushed(handle).waiting.filter(of_handle(other)) == queue.waiting.filter(
            of_handle(other),
        ),
{
    lemma_none_of_handle(queue.waiting, handle);
    lemma_others_kept(queue.waiting, handle, other);
}

/// Flushing every connection leaves a queue with nothing pending.
pub proof fn lemma_flush_all_drains<P>(queue: QueueView<P>, handle: u16)
    requires
        queue.valid(),
    ensures
        queue.flushed_all().pending() == 0,
        queue.flushed_all().drained(handle),
{
    reveal(Seq::filter);
}

impl DeviceView {
    /// Whether a synchronous connection has a handle.
    pub open spec fn has_synchronous(self, connection_handle: u16) -> bool {
        exists|index: int|
            0 <= index < self.classic.synchronous_connections.len() && (
            #[trigger] self.classic.synchronous_connections[index]).connection_handle
                == connection_handle
    }
}

/// A disconnected handle names nothing any more: it is unknown, unencrypted and
/// not waited for, and nothing of it is left in the packet queues.
pub proof fn lemma_disconnected_is_forgotten(device: DeviceView, handle: u16, reason: u8)
    ensures
        ({
            let after = device.disconnected(0, handle, reason);
            &&& !after.knows(handle)
            &&& !after.le.encrypted_handles.contains(handle)
            &&& !after.le.pending_disconnections.contains(handle)
            &&& !after.classic.classic_link_keys.contains_key(handle)
            &&& after.pools.acl.drained(handle)
            &&& after.pools.le_acl is Some ==> after.pools.le_acl->0.drained(handle)
            &&& after.pools.iso is Some ==> after.pools.iso->0.drained(handle)
        }),
{
    let after = device.disconnected(0, handle, reason);
    lemma_none_left(device.classic.synchronous_connections, handle);
    assert(!after.has_synchronous(handle));
    lemma_none_of_handle(device.pools.acl.waiting, handle);
    if device.pools.le_acl is Some {
        lemma_none_of_handle(device.pools.le_acl->0.waiting, handle);
    }
    if device.pools.iso is Some {
        lemma_none_of_handle(device.pools.iso->0.waiting, handle);
    }
}

/// A disconnection concerns no other connection: what was live stays live, with
/// its record.
pub proof fn lemma_disconnection_spares_others(
    device: DeviceView,
    handle: u16,
    reason: u8,
    other: u16,
)
    requires
        other != handle,
    ensures
        ({
            let after = device.disconnected(0, handle, reason);
            &&& after.knows(other) == device.knows(other)
            &&& after.le.le_connections.contains_key(other)
                == device.le.le_connections.contains_key(other)
            &&& after.le.le_connections[other] == device.le.le_connections[other]
            &&& after.classic.classic_connections.contains_key(other)
                == device.classic.classic_connections.contains_key(other)
            &&& after.classic.classic_connections[other]
                == device.classic.classic_connections[other]
            &&& after.le.encrypted_handles.contains(other)
                == device.le.encrypted_handles.contains(other)
        }),
{
    let after = device.disconnected(0, handle, reason);
    let before = device.classic.synchronous_connections;
    let kept = after.classic.synchronous_connections;
    assert(kept == before.filter(not_of_connection(handle)));
    if device.has_synchronous(other) {
        let place = choose|index: int|
            0 <= index < before.len() && (#[trigger] before[index]).connection_handle == other;
        lemma_filter_members(before, not_of_connection(handle), before[place]);
        assert(before.contains(before[place]));
        let found = choose|index: int| 0 <= index < kept.len() && kept[index] == before[place];
        assert(kept[found].connection_handle == other);
        assert(after.has_synchronous(other));
    }
    if after.has_synchronous(other) {
        let place = choose|index: int|
            0 <= index < kept.len() && (#[trigger] kept[index]).connection_handle == other;
        lemma_filter_members(before, not_of_connection(handle), kept[place]);
        assert(kept.contains(kept[place]));
        let found = choose|index: int| 0 <= index < before.len() && before[index] == kept[place];
        assert(before[found].connection_handle == other);
        assert(device.has_synchronous(other));
    }
}

/// A disconnection that failed leaves every connection as it was.
pub proof fn lemma_failed_disconnection(
    device: DeviceView,
    status: u8,
    handle: u16,
    reason: u8,
    other: u16,
)
    requires
        status != 0,
    ensures
        device.disconnected(status, handle, reason).knows(other) == device.knows(other),
        device.disconnected(status, handle, reason).le.le_connections == device.le.le_connections,
        device.disconnected(status, handle, reason).classic == device.classic,
        device.disconnected(status, handle, reason).pools == device.pools,
{
    let after = device.disconnected(status, handle, reason);
    assert(after.has_synchronous(other) == device.has_synchronous(other));
}

/// A flush announces itself first, and then the end of everything that was
/// live, each once, without a reason and in the order of the handles.
pub proof fn lemma_flush_announces(device: DeviceView)
    ensures
        device.flushed().journal.device_events == device.journal.device_events.push(
            DeviceEventView::Flush,
        ) + disconnections(sorted(device.live())),
        lists_u16(sorted(device.live()), device.live()),
        forall|handle: u16| #[trigger] device.live().contains(handle) <==> device.knows(handle),
{
    lemma_sorted_lists(device.live());
}

/// After a flush nothing is live, nothing is selected, and no packet is pending.
pub proof fn lemma_flush_leaves_nothing(device: Device, handle: u16)
    requires
        device.wf(),
    ensures
        !device@.flushed().knows(handle),
        device@.flushed().le.connection_handle is None,
        device@.flushed().classic.classic_connection_handle is None,
        device@.flushed().le.encrypted_handles == Set::<u16>::empty(),
        device@.flushed().pools.idle(),
{
    let after = device@.flushed();
    assert(!after.has_synchronous(handle));
    device.pools.acl_packet_queue.lemma_valid();
    if device.pools.le_acl_packet_queue is Some {
        device.pools.le_acl_packet_queue->0.lemma_valid();
    }
    if device.pools.iso_packet_queue is Some {
        device.pools.iso_packet_queue->0.lemma_valid();
    }
}

/// The role noted for a peer, when its connection was requested or accepted, is
/// the role that the connection gets.
pub proof fn lemma_noted_role_is_taken(
    device: DeviceView,
    peer_address: Address,
    role: u8,
    handle: u16,
    encryption_enabled: u8,
)
    ensures
        ({
            let noted = DeviceView {
                classic: device.classic.with_pending_role(peer_address, role),
                ..device
            };
            let after = noted.classic_connected(handle, peer_address, encryption_enabled);
            &&& after.classic.classic_connections.contains_key(handle)
            &&& after.classic.classic_connections[handle].role == role
            &&& after.classic.classic_connection_handle == Some(handle)
            &&& after.classic.classic_connection_role == Some(role)
        }),
{
    let before = device.classic.pending_classic_roles;
    let noted = device.classic.with_pending_role(peer_address, role);
    let filed = crate::commands::addresses(before);
    let later = crate::commands::addresses(noted.pending_classic_roles);
    filed.index_of_first_ensures(peer_address);
    later.index_of_first_ensures(peer_address);
    match first_at(before, peer_address) {
        Some(index) => {
            assert(later =~= filed.update(index, peer_address));
            assert(later[index] == peer_address);
            assert(later.contains(peer_address));
            let found = first_at(noted.pending_classic_roles, peer_address)->0;
            if found < index {
                assert(filed[found] == peer_address);
            }
            assert(found == index);
        },
        None => {
            assert(later =~= filed.push(peer_address));
            assert(later[before.len() as int] == peer_address);
            assert(later.contains(peer_address));
            let found = first_at(noted.pending_classic_roles, peer_address)->0;
            if found < before.len() {
                assert(filed[found] == peer_address);
                assert(filed.contains(peer_address));
            }
            assert(found == before.len());
        },
    }
    assert(noted.pending_role(peer_address) == role);
}

/// One answer settles one request for a peer's name: afterwards the open
/// requests are those that were open before.
pub proof fn lemma_name_answer_settles(classic: ClassicView, peer_address: Address)
    requires
        classic.valid(),
        classic.can_request_name(peer_address),
    ensures
        classic.name_requested(peer_address).name_answered(
            peer_address,
        ).pending_remote_name_requests == classic.pending_remote_name_requests,
{
    let before = classic.pending_remote_name_requests;
    let asked = classic.name_requested(peer_address).pending_remote_name_requests;
    let filed = crate::commands::addresses(before);
    let later = crate::commands::addresses(asked);
    filed.index_of_first_ensures(peer_address);
    later.index_of_first_ensures(peer_address);
    let answered = classic.name_requested(peer_address).name_answered(
        peer_address,
    ).pending_remote_name_requests;
    match first_at(before, peer_address) {
        Some(index) => {
            assert(later =~= filed);
            assert(filed[index] == before[index].0);
            assert(before[index].1 > 0);
            assert(answered =~= before);
        },
        None => {
            assert(later =~= filed.push(peer_address));
            assert(later[before.len() as int] == peer_address);
            assert(later.contains(peer_address));
            let found = first_at(asked, peer_address)->0;
            if found < before.len() {
                assert(filed[found] == peer_address);
                assert(filed.contains(peer_address));
            }
            assert(found == before.len());
            assert(answered =~= before);
        },
    }
}

/// The answer to a request about a connection settles it: afterwards the open
/// requests are those that were open before.
pub proof fn lemma_control_answer_settles(device: DeviceView, handle: u16, command_opcode: u16)
    requires
        !device.le.pending_connection_controls.contains((handle, command_opcode)),
    ensures
        device.control_asked(true, handle, command_opcode).le.control_completed(
            command_opcode,
            handle,
        ).pending_connection_controls == device.le.pending_connection_controls,
{
    let before = device.le.pending_connection_controls;
    let asked = before.push((handle, command_opcode));
    asked.index_of_first_ensures((handle, command_opcode));
    assert(asked[before.len() as int] == (handle, command_opcode));
    assert(asked.contains((handle, command_opcode)));
    let found = asked.index_of_first((handle, command_opcode))->0;
    if found < before.len() {
        assert(before[found] == (handle, command_opcode));
    }
    assert(asked.remove_value((handle, command_opcode)) =~= before);
}

/// A pairing starts encryption at most once.
pub proof fn lemma_pairing_encrypts_once(
    device: DeviceView,
    handle: u16,
    first: PairingProgress,
    second: PairingProgress,
)
    requires
        device.begins_encryption(handle, first),
    ensures
        !device.pairing_advanced(handle, first).begins_encryption(handle, second),
{
}

/// A pairing ends at most once: after a failure or a completion nothing more is
/// announced, and no bond is stored.
pub proof fn lemma_pairing_ends_once(
    device: DeviceView,
    handle: u16,
    first: PairingProgress,
    second: PairingProgress,
)
    requires
        first.failure is Some || first.complete,
        device.pairing_outcome(handle, first) != Err::<bool, crate::pairing::PairingFlowError>(
            crate::pairing::PairingFlowError::NoEncryptionKey,
        ),
    ensures
        ({
            let ended = device.pairing_advanced(handle, first);
            &&& ended.pairing_advanced(handle, second).journal == ended.journal
            &&& ended.pairing_outcome(handle, second) != Ok::<
                bool,
                crate::pairing::PairingFlowError,
            >(true)
        }),
{
}

/// A bearer that was sent an indication is sent no other one until the
/// confirmation has arrived, and can be sent one then.
pub proof fn lemma_one_indication_at_a_time(
    device: DeviceView,
    handle: u16,
    bearer: BearerSubscription,
)
    ensures
        ({
            let waiting = device.indicated(handle, bearer.source_cid);
            let confirmed = waiting.indication_confirmed(handle, bearer.source_cid);
            &&& !waiting.value_goes_to(handle, true, true)(bearer)
            &&& confirmed.value_goes_to(handle, true, true)(bearer)
        }),
{
    let cid = bearer.source_cid;
    let waiting = device.indicated(handle, cid);
    let pending = device.channels.pending_att_indications;
    if !device.indication_open(handle, cid) {
        assert(waiting.channels.pending_att_indications[pending.len() as int] == (handle, cid));
    }
    assert(waiting.indication_open(handle, cid));
    let keep = not_selected(OfBearer { connection_handle: handle, source_cid: cid });
    lemma_filter_members(waiting.channels.pending_att_indications, keep, (handle, cid));
    assert(!waiting.indication_confirmed(handle, cid).indication_open(handle, cid));
}

/// A Channel Sounding configuration that has been created or removed, or could
/// not be, is no longer pending.
pub proof fn lemma_settled_configuration_is_not_pending(
    device: DeviceView,
    status: u8,
    handle: u16,
    action: u8,
    config: ChannelSoundingConfig,
)
    requires
        device.valid(),
    ensures
        !device.sounding_configured(
            status,
            handle,
            action,
            config,
        ).le.pending_channel_sounding_configs.contains((handle, config.config_id)),
{
    lemma_remove_keeps_distinct(
        device.le.pending_channel_sounding_configs,
        (handle, config.config_id),
    );
}

/// An advertiser's accumulator is the one that was filed for it last, and those
/// of others stay as they were.
pub proof fn lemma_accumulator_is_filed(
    gap: GapView,
    address: Address,
    accumulator: AccumulatorView,
    other: Address,
)
    requires
        gap.valid(),
        other != address,
    ensures
        gap.with_accumulator(address, accumulator).valid(),
        gap.with_accumulator(address, accumulator).accumulator(address) == accumulator,
        gap.with_accumulator(address, accumulator).accumulator(other) == gap.accumulator(other),
{
    let entries = gap.advertisement_accumulators;
    let later = gap.with_accumulator(address, accumulator).advertisement_accumulators;
    lemma_filed_once(entries, address, accumulator);
    addresses(entries).index_of_first_ensures(address);
    addresses(later).index_of_first_ensures(address);
    addresses(entries).index_of_first_ensures(other);
    addresses(later).index_of_first_ensures(other);
    let filed = addresses(entries);
    match first_at(entries, address) {
        Some(index) => {
            assert(addresses(later) =~= filed);
        },
        None => {
            assert(addresses(later) =~= filed.push(address));
            assert(addresses(later)[entries.len() as int] == address);
            match first_at(entries, other) {
                Some(index) => {
                    assert(addresses(later)[index] == other);
                },
                None => {},
            }
        },
    }
}

/// What a device is told of the open EATT channels of a connection is what it
/// knows of them afterwards, each channel once.
pub proof fn lemma_bearers_are_known(device: DeviceView, handle: u16, open: Seq<u16>)
    ensures
        device.bearers_updated(handle, open).eatt_cids(handle) == once_each(open),
        open.no_duplicates() ==> device.bearers_updated(handle, open).eatt_cids(handle) == open,
{
    lemma_once_each(open);
    let before = device.channels.eatt_bearers;
    let others = before.filter(not_of_connection::<(u16, u16)>(handle));
    let mine = of_connection::<(u16, u16)>(handle);
    let added = crate::bearers::bearers_on(handle, once_each(open));
    lemma_bearers_keep(device.channels, device.closed_bearers(handle, open));
    Seq::filter_distributes_over_add(others, added, mine);
    lemma_none_left(before, handle);
    lemma_filter_nothing(others, mine);
    lemma_filter_everything(added, mine);
    assert((others + added).filter(mine) =~= added);
    assert(device.bearers_updated(handle, open).eatt_cids(handle) =~= once_each(open));
}

proof fn lemma_filter_nothing<T>(entries: Seq<T>, keep: spec_fn(T) -> bool)
    requires
        forall|index: int| 0 <= index < entries.len() ==> !keep(#[trigger] entries[index]),
    ensures
        entries.filter(keep) == Seq::<T>::empty(),
    decreases entries.len(),
{
    reveal(Seq::filter);
    if entries.len() > 0 {
        lemma_filter_nothing(entries.drop_last(), keep);
    }
}

proof fn lemma_filter_everything<T>(entries: Seq<T>, keep: spec_fn(T) -> bool)
    requires
        forall|index: int| 0 <= index < entries.len() ==> keep(#[trigger] entries[index]),
    ensures
        entries.filter(keep) == entries,
    decreases entries.len(),
{
    reveal(Seq::filter);
    if entries.len() > 0 {
        lemma_filter_everything(entries.drop_last(), keep);
        assert(entries =~= entries.drop_last().push(entries.last()));
    }
}

/// An active scan reports a scannable advertisement together with the scan
/// response that follows it, and not before.
pub proof fn lemma_scan_response_completes(
    accumulator: AccumulatorView,
    advertisement: AdvertisementView,
    response: AdvertisementView,
)
    requires
        !accumulator.passive,
        !accumulator.awaits_scan_response(),
        advertisement.is_scannable,
        !advertisement.is_scan_response,
        response.is_scan_response,
    ensures
        accumulator.reported(advertisement) is None,
        accumulator.after(advertisement).reported(response) == Some(
            AdvertisementView {
                is_connectable: advertisement.is_connectable,
                is_scannable: true,
                data: advertisement.data_bytes + response.data_bytes,
                ..response
            },
        ),
        !accumulator.after(advertisement).after(response).awaits_scan_response(),
{
}

/// A passive scan reports every advertisement at once, as it is.
pub proof fn lemma_passive_scan_reports_at_once(
    accumulator: AccumulatorView,
    advertisement: AdvertisementView,
)
    requires
        accumulator.passive,
        !advertisement.is_scan_response,
    ensures
        accumulator.reported(advertisement) == Some(advertisement),
        accumulator.after(advertisement).passive,
{
}

/// A sighting completes exactly the lookups that it answers, each once: they are
/// taken off the list, and the others stay as they were.
pub proof fn lemma_lookup_completes_once(device: DeviceView, sighting: Sighting, lookup_id: u64)
    requires
        device.lookups.pending_peer_lookups.dom().finite(),
        device.lookups.pending_peer_lookups.contains_key(lookup_id),
    ensures
        ({
            let request = device.lookups.pending_peer_lookups[lookup_id];
            let after = device.sighted(sighting).lookups.pending_peer_lookups;
            &&& device.lookups.answered_ids(sighting).contains(lookup_id)
                <==> request.answered_by(sighting)
            &&& after.contains_key(lookup_id) <==> !request.answered_by(sighting)
            &&& after.contains_key(lookup_id) ==> after[lookup_id] == request
        }),
{
    let pending = device.lookups.pending_peer_lookups;
    let ids = device.lookups.answered_ids(sighting);
    lemma_sorted_lists_u64(pending.dom());
    assert(sorted_u64(pending.dom()).contains(lookup_id));
    lemma_filter_members(
        sorted_u64(pending.dom()),
        answered(pending, sighting),
        lookup_id,
    );
    assert(ids.to_set().contains(lookup_id) == ids.contains(lookup_id));
}

/// A lookup that is cancelled leaves no trace but its number: where nothing else
/// looks on its radio, the device scans or discovers exactly if it did before.
/// What the lookup started is stopped, what the application started goes on, and
/// the number is not pending any more.
pub proof fn lemma_cancelled_lookup_leaves_no_trace(
    device: DeviceView,
    lookup_id: u64,
    request: PeerLookupRequestView,
)
    requires
        device.valid(),
        !device.lookups.pending_peer_lookups.contains_key(lookup_id),
        !device.lookups.waits_on(request.transport()),
    ensures
        ({
            let transport = request.transport();
            let searching = device.with_lookup(lookup_id, request).searching(transport);
            let cancelled = searching.without_lookup(lookup_id);
            let after = cancelled.search_finished();
            &&& searching.lookups.pending_peer_lookups.contains_key(lookup_id)
            &&& after.lookups == (LookupView {
                next_peer_lookup_id: spec_next_id(lookup_id),
                ..device.lookups
            })
            &&& after.gap.scanning == device.gap.scanning
            &&& after.classic.classic_discovering == device.classic.classic_discovering
            &&& !device.search_starts(transport) ==> {
                &&& after == (DeviceView { lookups: after.lookups, ..device })
                &&& cancelled.search_finish_sends() == Seq::<Command>::empty()
            }
            &&& device.search_starts(transport) ==> cancelled.search_finish_sends()
                == match transport {
                PeerLookupTransport::Le => seq![stop_scan_command(device.scans_extended())],
                PeerLookupTransport::Classic => seq![Command::InquiryCancel],
            }
        }),
{
    let transport = request.transport();
    let searching = device.with_lookup(lookup_id, request).searching(transport);
    let cancelled = searching.without_lookup(lookup_id);
    assert(cancelled.lookups.pending_peer_lookups =~= device.lookups.pending_peer_lookups);
    assert forall|radio: PeerLookupTransport| #[trigger]
        cancelled.lookups.waits_on(radio) == device.lookups.waits_on(radio) by {
        assert(cancelled.lookups.pending_peer_lookups == device.lookups.pending_peer_lookups);
    }
    let after = cancelled.search_finished();
    assert(after.lookups =~= (LookupView {
        next_peer_lookup_id: spec_next_id(lookup_id),
        ..device.lookups
    }));
    if !device.search_starts(transport) {
        assert(cancelled.search_finish_sends() =~= Seq::<Command>::empty());
        assert(after =~= (DeviceView { lookups: after.lookups, ..device }));
    } else {
        match transport {
            PeerLookupTransport::Le => {
                assert(cancelled.search_finish_sends() =~= seq![
                    stop_scan_command(device.scans_extended()),
                ]);
            },
            PeerLookupTransport::Classic => {
                assert(cancelled.search_finish_sends() =~= seq![Command::InquiryCancel]);
            },
        }
    }
}

/// A cancelled lookup cannot be cancelled again.
pub proof fn lemma_cancelled_once(device: DeviceView, lookup_id: u64)
    ensures
        !device.without_lookup(
            lookup_id,
        ).search_finished().lookups.pending_peer_lookups.contains_key(lookup_id),
{
}

/// The private address does not change under an advertisement, a scan or a
/// connection attempt, however much time goes by.
pub proof fn lemma_address_stays_while_used(device: DeviceView, elapsed_seconds: u64)
    requires
        device.uses_address(),
    ensures
        !device.rotates(elapsed_seconds),
{
}

/// Packets that a device does not heed only leave the queue.
proof fn lemma_unheeded(
    device: DeviceView,
    after: DeviceView,
    count: nat,
    log_before: Seq<HostAction>,
    log_after: Seq<HostAction>,
)
    requires
        forall|index: int|
            0 <= index < device.inbound.len() ==> !device.heeds(#[trigger] device.inbound[index]),
        device.processed(after, count, log_before, log_after),
    ensures
        count <= device.inbound.len(),
        after == (DeviceView { inbound: device.inbound.skip(count as int), ..device }),
        log_after == log_before,
    decreases count,
{
    if count == 0 {
        assert(device.inbound.skip(0) =~= device.inbound);
    } else {
        let (middle, log) = choose|middle: DeviceView, log: Seq<HostAction>|
            {
                &&& device.processed(middle, (count - 1) as nat, log_before, log)
                &&& #[trigger] middle.stepped(after, log, log_after)
            };
        lemma_unheeded(device, middle, (count - 1) as nat, log_before, log);
        assert(!device.heeds(device.inbound[count - 1]));
        assert(middle.inbound[0] == device.inbound[count - 1]);
        assert(middle.inbound.skip(1) =~= device.inbound.skip(count as int));
    }
}

/// Until the controller has answered the reset, whatever else it sends is taken
/// and dropped: the device stays as it was and answers nothing.
pub proof fn lemma_unready_device_drops_packets(
    device: DeviceView,
    packets: Seq<HciPacket>,
    after: DeviceView,
    log_before: Seq<HostAction>,
    log_after: Seq<HostAction>,
)
    requires
        device.inbound.len() == 0,
        device.follow_up is None,
        forall|index: int| 0 <= index < packets.len() ==> !device.heeds(#[trigger] packets[index]),
        device.with_inbound(packets).worked_off(after, log_before, log_after),
    ensures
        after == device,
        log_after == log_before,
{
    let waiting = device.with_inbound(packets);
    assert(waiting.inbound =~= packets);
    let count = choose|count: nat| #[trigger]
        waiting.processed(after, count, log_before, log_after);
    assert forall|index: int| 0 <= index < waiting.inbound.len() implies !waiting.heeds(
        #[trigger] waiting.inbound[index],
    ) by {
        assert(!device.heeds(packets[index]));
    }
    lemma_unheeded(waiting, after, count, log_before, log_after);
    assert(after =~= device);
}

/// A poll that finds nothing changes nothing, and asks the transport for
/// nothing but its packets.
pub proof fn lemma_quiet_poll_changes_nothing(
    device: DeviceView,
    after: DeviceView,
    log_before: Seq<HostAction>,
    log_after: Seq<HostAction>,
)
    requires
        device.inbound.len() == 0,
        device.polled(after, false, log_before, log_after),
    ensures
        after == device,
        log_after == device.drained(log_before, Seq::empty()),
{
    let taken = choose|taken: Seq<HciPacket>|
        {
            &&& false == (taken.len() > 0)
            &&& #[trigger] device.with_inbound(taken).worked_off(
                after,
                device.drained(log_before, taken),
                log_after,
            )
        };
    assert(taken =~= Seq::empty());
    let waiting = device.with_inbound(taken);
    assert(waiting =~= device);
    let log = device.drained(log_before, taken);
    let count = choose|count: nat| #[trigger] device.processed(after, count, log, log_after);
    lemma_unheeded(device, after, count, log, log_after);
}

/// The turns of one round, from its first one, in which no device finds
/// anything: they change no device, so a pump that is over before its limit has
/// brought the devices to rest.
pub proof fn lemma_quiet_turns_change_nothing(
    pump: Pump,
    after: Pump,
    count: nat,
    devices: Seq<DeviceView>,
    devices_after: Seq<DeviceView>,
    log_before: Seq<HostAction>,
    log_after: Seq<HostAction>,
)
    requires
        pump.turn == 0,
        !pump.polled,
        pump.count == devices.len(),
        forall|index: int|
            0 <= index < devices.len() ==> (#[trigger] devices[index]).inbound.len() == 0,
        pump.turns_made(after, count, devices, devices_after, log_before, log_after),
        after.rounds == pump.rounds,
        !after.active,
    ensures
        devices_after == devices,
        after.turn == count,
        log_after.len() == log_before.len() + count,
    decreases count,
{
    if count > 0 {
        let (middle, views, log) = choose|
            middle: Pump,
            views: Seq<DeviceView>,
            log: Seq<HostAction>,
        |
            {
                &&& pump.turns_made(middle, (count - 1) as nat, devices, views, log_before, log)
                &&& #[trigger] middle.turn_made(after, views, devices_after, log, log_after)
                &&& !after.polled
            };
        lemma_rounds_grow(pump, middle, (count - 1) as nat, devices, views, log_before, log);
        assert(!middle.begins_round());
        lemma_quiet_turns_change_nothing(
            pump,
            middle,
            (count - 1) as nat,
            devices,
            views,
            log_before,
            log,
        );
        let index = middle.turn as int;
        assert(devices[index].inbound.len() == 0);
        assert(!middle.polled);
        lemma_quiet_poll_changes_nothing(devices[index], devices_after[index], log, log_after);
        assert(devices_after =~= devices);
    }
}

/// Rounds are only added.
proof fn lemma_rounds_grow(
    pump: Pump,
    after: Pump,
    count: nat,
    devices: Seq<DeviceView>,
    devices_after: Seq<DeviceView>,
    log_before: Seq<HostAction>,
    log_after: Seq<HostAction>,
)
    requires
        pump.turns_made(after, count, devices, devices_after, log_before, log_after),
    ensures
        after.rounds >= pump.rounds,
        after.count == pump.count,
    decreases count,
{
    if count > 0 {
        let (middle, views, log) = choose|
            middle: Pump,
            views: Seq<DeviceView>,
            log: Seq<HostAction>,
        |
            {
                &&& pump.turns_made(middle, (count - 1) as nat, devices, views, log_before, log)
                &&& #[trigger] middle.turn_made(after, views, devices_after, log, log_after)
                &&& !after.polled
            };
        lemma_rounds_grow(pump, middle, (count - 1) as nat, devices, views, log_before, log);
    }
}

} // verus!
