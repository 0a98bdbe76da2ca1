//! What a disconnection takes with it, and what it leaves.

use crate::classic::ClassicPairingEvent;
use crate::connection::ConnectionFeatureError;
use crate::device::DeviceView;
use crate::disconnect::{lemma_bearers_keep, OfBearer, PairingOf};
use crate::ordered::least;
use crate::retain::{lemma_filter_members, not_of_connection, not_selected, of_connection};
use crate::state::ChannelView;
use vstd::prelude::*;

verus! {

/// The least member of a set of handles is one of them, and none is less.
proof fn lemma_least_is_least(members: Set<u16>, other: u16)
    requires
        members.contains(other),
    ensures
        members.contains(least(members)),
        least(members) <= other,
    decreases other,
{
    if forall|smaller: u16| #[trigger] members.contains(smaller) ==> other <= smaller {
        assert(members.contains(other) && forall|smaller: u16|
            members.contains(smaller) ==> other <= smaller);
        let found = least(members);
        assert(members.contains(found) && forall|smaller: u16|
            members.contains(smaller) ==> found <= smaller);
    } else {
        let smaller = choose|smaller: u16| #[trigger]
            members.contains(smaller) && !(other <= smaller);
        lemma_least_is_least(members, smaller);
    }
}

/// A disconnection that took the selected LE connection selects the live one with
/// the least handle, or none. Any other selection stays.
pub proof fn lemma_le_selection_moves(device: DeviceView, handle: u16, reason: u8, other: u16)
    ensures
        ({
            let after = device.disconnected(0, handle, reason).le;
            let live = after.le_connections;
            &&& device.le.connection_handle != Some(handle) ==> {
                &&& after.connection_handle == device.le.connection_handle
                &&& after.connection_role == device.le.connection_role
                &&& after.peer_address == device.le.peer_address
            }
            &&& device.le.connection_handle == Some(handle) && live.contains_key(other) ==> exists|
                next: u16,
            | #[trigger]
                live.contains_key(next) && next <= other && after.connection_handle == Some(
                    live[next].connection_handle,
                ) && after.connection_role == Some(live[next].role) && after.peer_address == Some(
                    live[next].peer_address,
                )
            &&& device.le.connection_handle == Some(handle) && live.dom() =~= Set::empty() ==> {
                &&& after.connection_handle is None
                &&& after.connection_role is None
                &&& after.peer_address is None
            }
        }),
{
    let others = device.le.le_connections.remove(handle);
    let after = device.disconnected(0, handle, reason).le;
    assert(after.le_connections == others);
    if others.contains_key(other) {
        assert(others.dom().contains(other));
        lemma_least_is_least(others.dom(), other);
        assert(others.contains_key(least(others.dom())));
    }
}

/// A disconnection that took the selected Classic connection selects the live one
/// with the least handle, or none. Any other selection stays.
pub proof fn lemma_classic_selection_moves(
    device: DeviceView,
    handle: u16,
    reason: u8,
    other: u16,
)
    ensures
        ({
            let before = device.classic;
            let after = device.disconnected(0, handle, reason).classic;
            let live = after.classic_connections;
            &&& before.classic_connection_handle != Some(handle) ==> {
                &&& after.classic_connection_handle == before.classic_connection_handle
                &&& after.classic_connection_role == before.classic_connection_role
            }
            &&& before.classic_connection_handle == Some(handle) && live.contains_key(other)
                ==> exists|next: u16| #[trigger]
                live.contains_key(next) && next <= other && after.classic_connection_handle
                    == Some(live[next].connection_handle) && after.classic_connection_role == Some(
                    live[next].role,
                )
            &&& before.classic_connection_handle == Some(handle) && live.dom() =~= Set::empty()
                ==> {
                &&& after.classic_connection_handle is None
                &&& after.classic_connection_role is None
            }
        }),
{
    let others = device.classic.classic_connections.remove(handle);
    let after = device.disconnected(0, handle, reason).classic;
    assert(after.classic_connections == others);
    if others.contains_key(other) {
        assert(others.dom().contains(other));
        lemma_least_is_least(others.dom(), other);
        assert(others.contains_key(least(others.dom())));
    }
}

/// What an LE connection waited for or had reported goes with it. What belongs to
/// other connections stays.
pub proof fn lemma_le_rest(
    device: DeviceView,
    handle: u16,
    reason: u8,
    control: (u16, u16),
    pair: (u16, u8),
    feature: ConnectionFeatureError,
)
    ensures
        ({
            let before = device.le;
            let after = device.disconnected(0, handle, reason).le;
            &&& after.pending_connection_controls.contains(control)
                <==> before.pending_connection_controls.contains(control) && control.0 != handle
            &&& after.pending_channel_sounding_configs.contains(pair)
                <==> before.pending_channel_sounding_configs.contains(pair) && pair.0 != handle
            &&& after.channel_sounding_security_results.contains(pair)
                <==> before.channel_sounding_security_results.contains(pair) && pair.0 != handle
            &&& after.connection_feature_errors.contains(feature)
                <==> before.connection_feature_errors.contains(feature)
                && feature.connection_handle != handle
            &&& after.le_connecting == before.le_connecting
            &&& after.connection_control_events == before.connection_control_events
            &&& after.channel_sounding_subevent_results
                == before.channel_sounding_subevent_results
        }),
{
    let before = device.le;
    lemma_filter_members(before.pending_connection_controls, not_of_connection(handle), control);
    lemma_filter_members(before.pending_channel_sounding_configs, not_of_connection(handle), pair);
    lemma_filter_members(before.channel_sounding_security_results, not_of_connection(handle), pair);
    lemma_filter_members(before.connection_feature_errors, not_of_connection(handle), feature);
}

/// What a Classic connection's pairing had told goes with it, by its handle or by
/// its peer. What other pairings told stays.
pub proof fn lemma_classic_rest(
    device: DeviceView,
    handle: u16,
    reason: u8,
    event: ClassicPairingEvent,
    other: u16,
)
    ensures
        ({
            let before = device.classic;
            let after = device.disconnected(0, handle, reason).classic;
            let known = before.classic_connections.contains_key(handle);
            let peer = before.classic_connections[handle].peer_address;
            &&& known ==> (after.classic_pairing_events.contains(event)
                <==> before.classic_pairing_events.contains(event) && event.handle() != Some(
                handle,
            ) && event.peer() != Some(peer))
            &&& !known ==> after.classic_pairing_events == before.classic_pairing_events
            &&& other != handle ==> {
                &&& after.classic_link_keys.contains_key(other)
                    <==> before.classic_link_keys.contains_key(other)
                &&& after.classic_link_keys[other] == before.classic_link_keys[other]
            }
            &&& after.classic_discovering == before.classic_discovering
            &&& after.pending_remote_name_requests == before.pending_remote_name_requests
            &&& after.synchronous_inbox == before.synchronous_inbox
        }),
{
    let before = device.classic;
    if before.classic_connections.contains_key(handle) {
        let peer_address = before.classic_connections[handle].peer_address;
        lemma_filter_members(
            before.classic_pairing_events,
            not_selected(PairingOf { connection_handle: handle, peer_address }),
            event,
        );
    }
}

/// What a stream had goes with it. Other streams keep what they have.
pub proof fn lemma_stream_rest(
    device: DeviceView,
    handle: u16,
    reason: u8,
    other: u16,
    removal: (u16, u8),
)
    ensures
        ({
            let before = device.iso;
            let after = device.disconnected(0, handle, reason).iso;
            &&& !after.cis_links.contains_key(handle)
            &&& !after.iso_data_paths.contains_key(handle)
            &&& !after.iso_tx_syncs.contains_key(handle)
            &&& !after.iso_sequence_numbers.contains_key(handle)
            &&& !after.iso_assemblers.contains_key(handle)
            &&& other != handle ==> {
                &&& after.cis_links.contains_key(other) <==> before.cis_links.contains_key(other)
                &&& after.cis_links[other] == before.cis_links[other]
                &&& after.iso_data_paths.contains_key(other)
                    <==> before.iso_data_paths.contains_key(other)
                &&& after.iso_data_paths[other] == before.iso_data_paths[other]
                &&& after.iso_tx_syncs.contains_key(other)
                    <==> before.iso_tx_syncs.contains_key(other)
                &&& after.iso_tx_syncs[other] == before.iso_tx_syncs[other]
                &&& after.iso_sequence_numbers.contains_key(other)
                    <==> before.iso_sequence_numbers.contains_key(other)
                &&& after.iso_sequence_numbers[other] == before.iso_sequence_numbers[other]
                &&& after.iso_assemblers.contains_key(other)
                    <==> before.iso_assemblers.contains_key(other)
                &&& after.iso_assemblers[other] == before.iso_assemblers[other]
            }
            &&& after.pending_iso_data_path_removals.contains(removal)
                <==> before.pending_iso_data_path_removals.contains(removal) && removal.0 != handle
            &&& after.pending_iso_tx_syncs.contains(other)
                <==> before.pending_iso_tx_syncs.contains(other) && other != handle
            &&& after.bigs == before.bigs && after.big_syncs == before.big_syncs
            &&& after.bis_directions == before.bis_directions
        }),
{
    let before = device.iso;
    lemma_filter_members(before.pending_iso_data_path_removals, not_of_connection(handle), removal);
    lemma_filter_members(before.pending_iso_tx_syncs, not_of_connection(handle), other);
}

/// What a connection's channels held goes with it. What other connections' channels
/// hold stays.
pub proof fn lemma_channel_rest(
    device: DeviceView,
    handle: u16,
    reason: u8,
    bearer: (u16, u16),
    payload: (u16, u16, Vec<u8>),
    error: (u16, String),
)
    ensures
        ({
            let before = device.channels;
            let after = device.disconnected(0, handle, reason).channels;
            &&& after.eatt_bearers.contains(bearer) <==> before.eatt_bearers.contains(bearer)
                && bearer.0 != handle
            &&& after.l2cap_inbox.contains(payload) <==> before.l2cap_inbox.contains(payload)
                && payload.0 != handle
            &&& after.le_credit_errors.contains(error) <==> before.le_credit_errors.contains(error)
                && error.0 != handle
            &&& after.classic_channel_errors.contains(error)
                <==> before.classic_channel_errors.contains(error) && error.0 != handle
            &&& after.server_attached == before.server_attached
            &&& after.le_credit_servers == before.le_credit_servers
        }),
{
    let before = device.channels;
    let start = before.bearer_removed(handle, 4);
    lemma_bearers_keep(start, before.eatt_bearers.filter(of_connection(handle)));
    lemma_filter_members(before.eatt_bearers, not_of_connection(handle), bearer);
    lemma_filter_members(before.l2cap_inbox, not_of_connection(handle), payload);
    lemma_filter_members(before.le_credit_errors, not_of_connection(handle), error);
    lemma_filter_members(before.classic_channel_errors, not_of_connection(handle), error);
}

/// What a connection's pairing held goes with it. Other pairings go on.
pub proof fn lemma_security_rest(
    device: DeviceView,
    handle: u16,
    reason: u8,
    other: u16,
    request: (u16, u8),
    error: (u16, String),
)
    ensures
        ({
            let before = device.security;
            let after = device.disconnected(0, handle, reason).security;
            &&& after.security_requests.contains(request)
                <==> before.security_requests.contains(request) && request.0 != handle
            &&& after.pairing_errors.contains(error) <==> before.pairing_errors.contains(error)
                && error.0 != handle
            &&& after.pairing_encryption_started.contains(other)
                <==> before.pairing_encryption_started.contains(other) && other != handle
            &&& after.pairing_terminal_handles.contains(other)
                <==> before.pairing_terminal_handles.contains(other) && other != handle
            &&& after.key_store_errors == before.key_store_errors
            &&& after.pairing_enabled == before.pairing_enabled
            &&& after.key_store_open == before.key_store_open
        }),
{
    let before = device.security;
    lemma_filter_members(before.security_requests, not_of_connection(handle), request);
    lemma_filter_members(before.pairing_errors, not_of_connection(handle), error);
}

/// A disconnection touches neither the controller's setup, nor scanning and
/// advertising, nor lookups.
pub proof fn lemma_disconnection_leaves(device: DeviceView, status: u8, handle: u16, reason: u8)
    ensures
        ({
            let after = device.disconnected(status, handle, reason);
            &&& after.setup == device.setup
            &&& after.gap == device.gap
            &&& after.lookups == device.lookups
            &&& after.config == device.config
            &&& after.identity == device.identity
        }),
{
}

/// What a closed bearer held goes with it: its messages and the confirmation that
/// it waited for. Other bearers keep theirs.
pub proof fn lemma_bearer_closed(
    channels: ChannelView,
    handle: u16,
    cid: u16,
    bearer: (u16, u16),
)
    ensures
        ({
            let after = channels.bearer_removed(handle, cid);
            &&& after.pending_att_indications.contains(bearer)
                <==> channels.pending_att_indications.contains(bearer) && bearer != (handle, cid)
            &&& after == (ChannelView {
                eatt_inbox: after.eatt_inbox,
                pending_att_indications: after.pending_att_indications,
                ..channels
            })
        }),
{
    lemma_filter_members(
        channels.pending_att_indications,
        not_selected(OfBearer { connection_handle: handle, source_cid: cid }),
        bearer,
    );
}

} // verus!
