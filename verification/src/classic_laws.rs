//! What Classic events leave behind, and what they ask of the controller.

use crate::address::Address;
use crate::classic::{
    ClassicConnectionInfoView, ClassicInquiryResultInfo, RemoteNameError, RemoteNameResultView,
    SynchronousConnectionInfo,
};
use crate::connection::{ConnectionFeatureError, ConnectionFeatureTransport, LeConnectionInfoView};
use crate::device::{DeviceView, FollowUp};
use crate::events::{DeviceConnectionTransport, DeviceEventView};
use crate::hci::{Command, Event};
use crate::lookup::PeerLookupTransport;
use crate::ordered::least;
use crate::pairing_laws::{heard, journaled};
use crate::state::{ClassicView, LeView};
use crate::transport::{
    lemma_commands_none, lemma_sent_between, only_commands, sent_between, HostAction,
};
use vstd::prelude::*;

verus! {

/// A device with other Classic state, and which is else the same.
pub open spec fn with_classic(device: DeviceView, classic: ClassicView) -> DeviceView {
    DeviceView { classic, ..device }
}

/// A device with one Classic connection's record replaced.
pub open spec fn with_record(
    device: DeviceView,
    handle: u16,
    record: ClassicConnectionInfoView,
) -> DeviceView {
    with_classic(
        device,
        ClassicView {
            classic_connections: device.classic.classic_connections.insert(handle, record),
            ..device.classic
        },
    )
}

/// The end of an inquiry is noted and announced. A discovery that restarts goes
/// on with another general inquiry for extended responses; one that does not is
/// over. The next discovery restarts again.
pub proof fn lemma_inquiry_complete(
    device: DeviceView,
    after: DeviceView,
    status: u8,
    log_before: Seq<HostAction>,
    log_after: Seq<HostAction>,
)
    requires
        heard(device, Event::InquiryComplete { status }, after, log_before, log_after),
    ensures
        ({
            let again = device.classic.classic_discovering
                && device.classic.classic_auto_restart_inquiry;
            let sent = sent_between(log_before, log_after);
            &&& after == journaled(
                with_classic(
                    device,
                    ClassicView {
                        classic_inquiry_complete: device.classic.classic_inquiry_complete.push(
                            status,
                        ),
                        classic_discovering: again,
                        classic_auto_restart_inquiry: true,
                        ..device.classic
                    },
                ),
                DeviceEventView::InquiryComplete { status },
            )
            &&& only_commands(log_before, log_after, device.controller_id)
            &&& again ==> {
                &&& sent.len() == 2
                &&& sent[0] == (Command::WriteInquiryMode { inquiry_mode: 2 })
                &&& sent[1] == (Command::Inquiry {
                    lap: 0x9E8B33,
                    inquiry_length: 8,
                    num_responses: 0,
                })
            }
            &&& !again ==> sent.len() == 0 && log_after == log_before
        }),
{
    lemma_commands_none(log_before, device.controller_id);
    lemma_sent_between(
        log_before,
        log_after,
        device.controller_id,
        device.event_step(Event::InquiryComplete { status }).sent,
    );
}

/// A response to an inquiry is kept as it is, announced, and held against the
/// lookups of Classic peers.
pub proof fn lemma_inquiry_response(
    device: DeviceView,
    after: DeviceView,
    result: ClassicInquiryResultInfo,
    log_before: Seq<HostAction>,
    log_after: Seq<HostAction>,
)
    requires
        heard(device, Event::InquiryResponse { result }, after, log_before, log_after),
    ensures
        after == journaled(
            DeviceView {
                classic: ClassicView {
                    classic_inquiry_results: device.classic.classic_inquiry_results.push(
                        result.peer_address,
                    ),
                    classic_inquiry_result_details:
                        device.classic.classic_inquiry_result_details.push(result@),
                    ..device.classic
                },
                follow_up: Some(
                    FollowUp::CompletePeerLookups {
                        transport: PeerLookupTransport::Classic,
                        peer_address: result.peer_address,
                    },
                ),
                ..device
            },
            DeviceEventView::InquiryResult(result@),
        ),
        log_after == log_before,
{
    lemma_commands_none(log_before, device.controller_id);
}

/// A name request that failed is recorded and announced with its status, and
/// names nobody. One that succeeded names every connection to the peer and no
/// other.
pub proof fn lemma_remote_name(
    device: DeviceView,
    after: DeviceView,
    status: u8,
    peer: Address,
    field: [u8; 248],
    log_before: Seq<HostAction>,
    log_after: Seq<HostAction>,
)
    requires
        heard(
            device,
            Event::RemoteNameRequestComplete { status, bd_addr: peer, remote_name: field },
            after,
            log_before,
            log_after,
        ),
    ensures
        log_after == log_before,
        ({
            let before = device.classic.classic_remote_name_results;
            let results = after.classic.classic_remote_name_results;
            &&& results.len() == before.len() + 1
            &&& results.drop_last() =~= before
            &&& results.last().peer_address == peer
            &&& status != 0 ==> results.last().result == Err::<Seq<char>, RemoteNameError>(
                RemoteNameError::HciStatus(status),
            )
            &&& match results.last().result {
                Ok(name) => {
                    &&& status == 0
                    &&& after.classic.classic_remote_names
                        == device.classic.classic_remote_names.push((0u8, peer, name))
                    &&& after.journal.device_events == device.journal.device_events.push(
                        DeviceEventView::RemoteName { status: 0, peer_address: peer, name },
                    )
                    &&& after.classic.classic_connections.dom()
                        =~= device.classic.classic_connections.dom()
                    &&& forall|handle: u16| #[trigger]
                        device.classic.classic_connections.contains_key(handle)
                            ==> after.classic.classic_connections[handle] == if device.classic.classic_connections[handle].peer_address
                            == peer {
                            ClassicConnectionInfoView {
                                peer_name: Some(name),
                                ..device.classic.classic_connections[handle]
                            }
                        } else {
                            device.classic.classic_connections[handle]
                        }
                },
                Err(error) => {
                    &&& after.classic.classic_remote_names == device.classic.classic_remote_names
                    &&& after.journal.device_events == device.journal.device_events.push(
                        DeviceEventView::RemoteNameFailure { peer_address: peer, error },
                    )
                    &&& after.classic.classic_connections == device.classic.classic_connections
                },
            }
            &&& after.classic.pending_remote_name_commands
                == device.classic.pending_remote_name_commands.remove_value(peer)
            &&& after == (DeviceView {
                classic: ClassicView {
                    classic_remote_name_results: results,
                    classic_remote_names: after.classic.classic_remote_names,
                    classic_connections: after.classic.classic_connections,
                    pending_remote_name_commands: after.classic.pending_remote_name_commands,
                    pending_remote_name_requests: after.classic.pending_remote_name_requests,
                    ..device.classic
                },
                journal: after.journal,
                ..device
            })
        }),
{
    lemma_commands_none(log_before, device.controller_id);
}

/// A name in a field stands before the first zero byte, or fills the field. It
/// is read as UTF-8.
pub proof fn lemma_name_in_field(field: Seq<u8>, length: int)
    requires
        0 <= length <= field.len(),
        forall|index: int| 0 <= index < length ==> field[index] != 0,
        length < field.len() ==> field[length] == 0,
    ensures
        vstd::utf8::valid_utf8(field.take(length)) ==> crate::text::name_in(field) == Ok::<
            Seq<char>,
            RemoteNameError,
        >(vstd::utf8::decode_utf8(field.take(length))),
        !vstd::utf8::valid_utf8(field.take(length)) ==> crate::text::name_in(field) matches Err(
            RemoteNameError::InvalidUtf8 { .. },
        ),
{
    field.index_of_first_ensures(0u8);
    if length < field.len() {
        assert(field.contains(0u8));
        let first = field.index_of_first(0u8)->0;
        assert(first == length);
    } else {
        assert(!field.contains(0u8));
        assert(field.take(length) =~= field);
    }
}

/// A name that a peer gave is the one that its field holds.
pub proof fn lemma_remote_name_is_read(
    device: DeviceView,
    after: DeviceView,
    peer: Address,
    field: [u8; 248],
    length: int,
    log_before: Seq<HostAction>,
    log_after: Seq<HostAction>,
)
    requires
        heard(
            device,
            Event::RemoteNameRequestComplete { status: 0, bd_addr: peer, remote_name: field },
            after,
            log_before,
            log_after,
        ),
        0 <= length <= 248,
        forall|index: int| 0 <= index < length ==> field@[index] != 0,
        length < 248 ==> field@[length] == 0,
        vstd::utf8::valid_utf8(field@.take(length)),
    ensures
        after.classic.classic_remote_name_results.last() == (RemoteNameResultView {
            peer_address: peer,
            result: Ok(vstd::utf8::decode_utf8(field@.take(length))),
        }),
{
    lemma_name_in_field(field@, length);
}

/// A name request that the controller refuses fails for the peer that has waited
/// longest. One that it takes up is left pending.
pub proof fn lemma_name_request_answered(
    device: DeviceView,
    after: DeviceView,
    packets: u8,
    status: u8,
    log_before: Seq<HostAction>,
    log_after: Seq<HostAction>,
)
    requires
        heard(
            device,
            Event::CommandStatus {
                status,
                num_hci_command_packets: packets,
                command_opcode: 0x0419,
            },
            after,
            log_before,
            log_after,
        ),
    ensures
        log_after == log_before,
        ({
            let waiting = device.classic.pending_remote_name_commands;
            &&& waiting.len() == 0 ==> after == device
            &&& waiting.len() > 0 ==> after.classic.pending_remote_name_commands == waiting.skip(1)
            &&& waiting.len() > 0 && status == 0 ==> {
                &&& after.journal == device.journal
                &&& after.classic.classic_remote_name_results
                    == device.classic.classic_remote_name_results
                &&& after.classic.pending_remote_name_requests
                    == device.classic.pending_remote_name_requests
            }
            &&& waiting.len() > 0 && status != 0 ==> {
                &&& after.classic.classic_remote_name_results
                    == device.classic.classic_remote_name_results.push(
                    RemoteNameResultView {
                        peer_address: waiting[0],
                        result: Err(RemoteNameError::HciStatus(status)),
                    },
                )
                &&& after.journal.device_events == device.journal.device_events.push(
                    DeviceEventView::RemoteNameFailure {
                        peer_address: waiting[0],
                        error: RemoteNameError::HciStatus(status),
                    },
                )
            }
            &&& after.classic.classic_connections == device.classic.classic_connections
            &&& after.le == device.le
        }),
{
    lemma_commands_none(log_before, device.controller_id);
}

/// The LMP features of a peer are kept as its page zero. Where their last bit
/// announces more, page zero of the extended ones is asked for next, and the
/// number of pages is not known yet; else there is only this one.
pub proof fn lemma_peer_lmp_features(
    device: DeviceView,
    after: DeviceView,
    status: u8,
    handle: u16,
    features: [u8; 8],
    log_before: Seq<HostAction>,
    log_after: Seq<HostAction>,
)
    requires
        heard(
            device,
            Event::ReadRemoteSupportedFeaturesComplete {
                status,
                connection_handle: handle,
                lmp_features: features,
            },
            after,
            log_before,
            log_after,
        ),
    ensures
        ({
            let known = device.classic.classic_connections.contains_key(handle);
            let former = device.classic.classic_connections[handle];
            let more = features@[7] >= 128;
            let sent = sent_between(log_before, log_after);
            &&& only_commands(log_before, log_after, device.controller_id)
            &&& !known ==> after == device
            &&& known && status == 0 ==> after == with_record(
                device,
                handle,
                ClassicConnectionInfoView {
                    peer_lmp_features: former.peer_lmp_features.insert(0, features),
                    peer_lmp_max_page_number: if more {
                        None
                    } else {
                        Some(0)
                    },
                    ..former
                },
            )
            &&& known && status != 0 ==> after == features_unread(device, handle, None, status)
            &&& known && status == 0 && more ==> sent =~= seq![
                Command::ReadRemoteExtendedFeatures { connection_handle: handle, page_number: 0 },
            ]
            &&& !(known && status == 0 && more) ==> sent.len() == 0
        }),
{
    let top = features@[7];
    assert((top & 0x80 != 0) == (top >= 128)) by (bit_vector);
    assert(features[7] == top);
    lemma_sent_between(
        log_before,
        log_after,
        device.controller_id,
        device.features_read_sends(status, handle, features),
    );
}

/// A device that could not read the LMP features of a peer.
pub open spec fn features_unread(
    device: DeviceView,
    handle: u16,
    page: Option<u8>,
    status: u8,
) -> DeviceView {
    DeviceView {
        le: LeView {
            connection_feature_errors: device.le.connection_feature_errors.push(
                ConnectionFeatureError {
                    transport: ConnectionFeatureTransport::Classic,
                    connection_handle: handle,
                    page_number: page,
                    status,
                },
            ),
            ..device.le
        },
        ..device
    }
}

/// A page of a peer's LMP features is kept under its number, with the number of
/// the last page, and the next page is asked for until the last one has come.
pub proof fn lemma_peer_lmp_page(
    device: DeviceView,
    after: DeviceView,
    status: u8,
    handle: u16,
    page: u8,
    last: u8,
    features: [u8; 8],
    log_before: Seq<HostAction>,
    log_after: Seq<HostAction>,
)
    requires
        heard(
            device,
            Event::ReadRemoteExtendedFeaturesComplete {
                status,
                connection_handle: handle,
                page_number: page,
                maximum_page_number: last,
                extended_lmp_features: features,
            },
            after,
            log_before,
            log_after,
        ),
    ensures
        ({
            let known = device.classic.classic_connections.contains_key(handle);
            let former = device.classic.classic_connections[handle];
            let sent = sent_between(log_before, log_after);
            &&& only_commands(log_before, log_after, device.controller_id)
            &&& !known ==> after == device
            &&& known && status == 0 ==> after == with_record(
                device,
                handle,
                ClassicConnectionInfoView {
                    peer_lmp_features: former.peer_lmp_features.insert(page, features),
                    peer_lmp_max_page_number: Some(last),
                    ..former
                },
            )
            &&& known && status != 0 ==> after == features_unread(
                device,
                handle,
                Some(page),
                status,
            )
            &&& known && status == 0 && page < last ==> {
                &&& sent.len() == 1
                &&& sent[0] matches Command::ReadRemoteExtendedFeatures {
                    connection_handle,
                    page_number,
                } && connection_handle == handle && page_number == page + 1
            }
            &&& !(known && status == 0 && page < last) ==> sent.len() == 0
        }),
{
    lemma_sent_between(
        log_before,
        log_after,
        device.controller_id,
        device.feature_page_sends(status, handle, page, last),
    );
}

/// Whether a Classic connection stands as it was established: nothing is known
/// of its peer but the address, and the mode is active.
pub open spec fn stands_fresh(
    connection: ClassicConnectionInfoView,
    handle: u16,
    peer: Address,
    encryption: u8,
) -> bool {
    &&& connection.connection_handle == handle
    &&& connection.peer_address == peer
    &&& connection.encryption_enabled == encryption
    &&& connection.encryption_key_size == 0
    &&& connection.peer_name is None
    &&& connection.qos_service_type is None
    &&& connection.classic_mode == 0 && connection.classic_interval == 0
    &&& connection.peer_lmp_features.dom() =~= Set::empty()
    &&& connection.peer_lmp_max_page_number is None
    &&& connection.peer_host_supported_features is None
}

/// A new Classic connection is known, selected and announced, and encrypted
/// where the event says so. Without a role noted for its peer, the device is its
/// central. A link of another type is no Classic connection.
pub proof fn lemma_classic_connection_complete(
    device: DeviceView,
    after: DeviceView,
    status: u8,
    handle: u16,
    peer: Address,
    link_type: u8,
    encryption: u8,
    log_before: Seq<HostAction>,
    log_after: Seq<HostAction>,
)
    requires
        heard(
            device,
            Event::ConnectionComplete {
                status,
                connection_handle: handle,
                bd_addr: peer,
                link_type,
                encryption_enabled: encryption,
            },
            after,
            log_before,
            log_after,
        ),
    ensures
        log_after == log_before,
        link_type != 1 ==> after == device,
        link_type == 1 && status == 0 ==> {
            let connection = after.classic.classic_connections[handle];
            &&& stands_fresh(connection, handle, peer, encryption)
            &&& (forall|index: int|
                0 <= index < device.classic.pending_classic_roles.len() ==> (
                #[trigger] device.classic.pending_classic_roles[index]).0 != peer)
                ==> connection.role == 0
            &&& after.classic.classic_connections == device.classic.classic_connections.insert(
                handle,
                connection,
            )
            &&& after.classic.classic_connection_handle == Some(handle)
            &&& after.classic.classic_connection_role == Some(connection.role)
            &&& after.le.encrypted_handles.contains(handle) <==> encryption != 0
            &&& forall|other: u16|
                other != handle ==> (#[trigger] after.le.encrypted_handles.contains(other)
                    <==> device.le.encrypted_handles.contains(other))
            &&& after.follow_up == Some(
                FollowUp::RegisterClassicConnection { connection_handle: handle },
            )
            &&& after.journal.device_events == device.journal.device_events.push(
                DeviceEventView::ClassicConnectionEstablished(connection),
            )
            &&& after.le.le_connections == device.le.le_connections
        },
        link_type == 1 && status != 0 ==> {
            &&& after.journal.device_events == device.journal.device_events.push(
                DeviceEventView::ConnectionFailed {
                    transport: DeviceConnectionTransport::Classic,
                    peer_address: peer,
                    status,
                },
            )
            &&& after.classic.classic_connections == device.classic.classic_connections
            &&& after.le == device.le
            &&& after.follow_up == device.follow_up
        },
{
    lemma_commands_none(log_before, device.controller_id);
    let roles = device.classic.pending_classic_roles;
    let filed = crate::commands::addresses(roles);
    filed.index_of_first_ensures(peer);
    if forall|index: int| 0 <= index < roles.len() ==> (#[trigger] roles[index]).0 != peer {
        if filed.contains(peer) {
            let place = choose|place: int| 0 <= place < filed.len() && filed[place] == peer;
            assert(roles[place].0 == peer);
        }
    }
}

/// The least member of a set is what `least` gives.
proof fn lemma_is_least(members: Set<u16>, key: u16)
    requires
        members.contains(key),
        forall|other: u16| #[trigger] members.contains(other) ==> key <= other,
    ensures
        least(members) == key,
        members != Set::<u16>::empty(),
{
    let found = least(members);
    assert(members.contains(found) && forall|other: u16|
        members.contains(other) ==> found <= other);
}

/// A role change concerns the connection to the peer: its record takes the new
/// role, and so does the selection where it is selected. All other connections
/// keep theirs.
pub proof fn lemma_role_change(
    device: DeviceView,
    after: DeviceView,
    status: u8,
    peer: Address,
    role: u8,
    handle: u16,
    log_before: Seq<HostAction>,
    log_after: Seq<HostAction>,
)
    requires
        heard(
            device,
            Event::RoleChange { status, bd_addr: peer, new_role: role },
            after,
            log_before,
            log_after,
        ),
        device.classic.classic_connections.contains_key(handle),
        device.classic.classic_connections[handle].peer_address == peer,
        forall|other: u16| #[trigger]
            device.classic.classic_connections.contains_key(other)
                && device.classic.classic_connections[other].peer_address == peer ==> handle
                <= other,
    ensures
        log_after == log_before,
        status != 0 ==> after == device,
        status == 0 ==> after == with_classic(
            device,
            ClassicView {
                classic_connections: device.classic.classic_connections.insert(
                    handle,
                    ClassicConnectionInfoView {
                        role,
                        ..device.classic.classic_connections[handle]
                    },
                ),
                classic_connection_role: if device.classic.classic_connection_handle == Some(
                    handle,
                ) {
                    Some(role)
                } else {
                    device.classic.classic_connection_role
                },
                ..device.classic
            },
        ),
{
    lemma_commands_none(log_before, device.controller_id);
    let members = device.classic.handles_of(peer);
    lemma_is_least(members, handle);
}

/// What a peer's host supports is kept with its connection and announced.
pub proof fn lemma_host_features(
    device: DeviceView,
    after: DeviceView,
    peer: Address,
    features: [u8; 8],
    handle: u16,
    log_before: Seq<HostAction>,
    log_after: Seq<HostAction>,
)
    requires
        heard(
            device,
            Event::RemoteHostSupportedFeaturesNotification {
                bd_addr: peer,
                host_supported_features: features,
            },
            after,
            log_before,
            log_after,
        ),
        device.classic.classic_connections.contains_key(handle),
        device.classic.classic_connections[handle].peer_address == peer,
        forall|other: u16| #[trigger]
            device.classic.classic_connections.contains_key(other)
                && device.classic.classic_connections[other].peer_address == peer ==> handle
                <= other,
    ensures
        log_after == log_before,
        after == journaled(
            with_record(
                device,
                handle,
                ClassicConnectionInfoView {
                    peer_host_supported_features: Some(features),
                    ..device.classic.classic_connections[handle]
                },
            ),
            DeviceEventView::RemoteHostSupportedFeatures {
                peer_address: peer,
                host_supported_features: features,
            },
        ),
{
    lemma_commands_none(log_before, device.controller_id);
    let members = device.classic.handles_of(peer);
    lemma_is_least(members, handle);
}

/// A request for a connection is announced. A Classic one is accepted at once,
/// as peripheral, exactly where Classic is enabled and the configuration accepts
/// any; else it waits for the application. A synchronous one always waits.
pub proof fn lemma_connection_request(
    device: DeviceView,
    after: DeviceView,
    peer: Address,
    class_of_device: u32,
    link_type: u8,
    log_before: Seq<HostAction>,
    log_after: Seq<HostAction>,
)
    requires
        heard(
            device,
            Event::ConnectionRequest { bd_addr: peer, class_of_device, link_type },
            after,
            log_before,
            log_after,
        ),
    ensures
        ({
            let accepted = link_type == 1 && device.config.classic_enabled
                && device.config.classic_accept_any;
            let sent = sent_between(log_before, log_after);
            &&& only_commands(log_before, log_after, device.controller_id)
            &&& after.journal.device_events == device.journal.device_events.push(
                DeviceEventView::ConnectionRequest {
                    peer_address: peer,
                    class_of_device,
                    link_type,
                },
            )
            &&& accepted ==> {
                &&& sent =~= seq![Command::AcceptConnectionRequest { bd_addr: peer, role: 1 }]
                &&& after.classic.classic_connection_requests
                    == device.classic.classic_connection_requests
                &&& after.classic.synchronous_requests == device.classic.synchronous_requests
                &&& exists|index: int|
                    0 <= index < after.classic.pending_classic_roles.len() && (
                    #[trigger] after.classic.pending_classic_roles[index]) == (peer, 1u8)
            }
            &&& !accepted ==> {
                &&& sent.len() == 0
                &&& after.classic.pending_classic_roles == device.classic.pending_classic_roles
                &&& after.classic.classic_connection_requests == if link_type == 1 {
                    device.classic.classic_connection_requests.push(peer)
                } else {
                    device.classic.classic_connection_requests
                }
                &&& after.classic.synchronous_requests == if link_type == 1 {
                    device.classic.synchronous_requests
                } else {
                    device.classic.synchronous_requests.push((peer, link_type))
                }
            }
            &&& after.classic.classic_connections == device.classic.classic_connections
            &&& after.le == device.le
        }),
{
    lemma_sent_between(
        log_before,
        log_after,
        device.controller_id,
        device.event_step(
            Event::ConnectionRequest { bd_addr: peer, class_of_device, link_type },
        ).sent,
    );
    let roles = device.classic.pending_classic_roles;
    let filed = crate::commands::addresses(roles);
    filed.index_of_first_ensures(peer);
    if link_type == 1 && device.config.classic_enabled && device.config.classic_accept_any {
        match crate::commands::first_at(roles, peer) {
            Some(index) => {
                assert(after.classic.pending_classic_roles[index] == (peer, 1u8));
            },
            None => {
                assert(after.classic.pending_classic_roles[roles.len() as int] == (peer, 1u8));
            },
        }
    }
}

/// A synchronous connection is known as it was reported and announced; one that
/// could not be established is announced as such.
pub proof fn lemma_synchronous_connection_complete(
    device: DeviceView,
    after: DeviceView,
    status: u8,
    handle: u16,
    peer: Address,
    link_type: u8,
    air_mode: u8,
    log_before: Seq<HostAction>,
    log_after: Seq<HostAction>,
)
    requires
        heard(
            device,
            Event::SynchronousConnectionComplete {
                status,
                connection_handle: handle,
                bd_addr: peer,
                link_type,
                air_mode,
            },
            after,
            log_before,
            log_after,
        ),
    ensures
        log_after == log_before,
        status == 0 ==> {
            let connection = SynchronousConnectionInfo {
                connection_handle: handle,
                peer_address: peer,
                link_type,
                air_mode,
            };
            after == journaled(
                with_classic(
                    device,
                    ClassicView {
                        synchronous_connections: device.classic.synchronous_connections.push(
                            connection,
                        ),
                        ..device.classic
                    },
                ),
                DeviceEventView::SynchronousConnectionEstablished(connection),
            )
        },
        status != 0 ==> after == journaled(
            device,
            DeviceEventView::ConnectionFailed {
                transport: DeviceConnectionTransport::Synchronous { link_type },
                peer_address: peer,
                status,
            },
        ),
{
    lemma_commands_none(log_before, device.controller_id);
}

/// Whether the records of one handle alone may have changed.
pub open spec fn only_records_of(device: DeviceView, after: DeviceView, handle: u16) -> bool {
    &&& after.le.le_connections.dom() =~= device.le.le_connections.dom()
    &&& after.classic.classic_connections.dom() =~= device.classic.classic_connections.dom()
    &&& forall|other: u16|
        other != handle ==> (#[trigger] after.le.le_connections[other])
            == device.le.le_connections[other]
    &&& forall|other: u16|
        other != handle ==> (#[trigger] after.classic.classic_connections[other])
            == device.classic.classic_connections[other]
    &&& after == (DeviceView {
        le: LeView { le_connections: after.le.le_connections, ..device.le },
        classic: ClassicView {
            classic_connections: after.classic.classic_connections,
            ..device.classic
        },
        journal: after.journal,
        ..device
    })
}

/// A mode change is kept, with its interval, in the record of its connection.
pub proof fn lemma_mode_change(
    device: DeviceView,
    after: DeviceView,
    status: u8,
    handle: u16,
    mode: u8,
    interval: u16,
    log_before: Seq<HostAction>,
    log_after: Seq<HostAction>,
)
    requires
        heard(
            device,
            Event::ModeChange {
                status,
                connection_handle: handle,
                current_mode: mode,
                interval,
            },
            after,
            log_before,
            log_after,
        ),
    ensures
        log_after == log_before,
        status != 0 ==> after == device,
        status == 0 ==> {
            &&& only_records_of(device, after, handle)
            &&& after.journal == device.journal
            &&& device.le.le_connections.contains_key(handle) ==> after.le.le_connections[handle]
                == (LeConnectionInfoView {
                classic_mode: mode,
                classic_interval: interval,
                ..device.le.le_connections[handle]
            })
            &&& device.classic.classic_connections.contains_key(handle)
                ==> after.classic.classic_connections[handle] == (ClassicConnectionInfoView {
                classic_mode: mode,
                classic_interval: interval,
                ..device.classic.classic_connections[handle]
            })
        },
{
    lemma_commands_none(log_before, device.controller_id);
}

/// A quality of service that was set up is kept in the record of its connection
/// and announced; one that was not is announced as such.
pub proof fn lemma_qos_setup(
    device: DeviceView,
    after: DeviceView,
    status: u8,
    handle: u16,
    service_type: u8,
    log_before: Seq<HostAction>,
    log_after: Seq<HostAction>,
)
    requires
        heard(
            device,
            Event::QosSetupComplete { status, connection_handle: handle, service_type },
            after,
            log_before,
            log_after,
        ),
    ensures
        log_after == log_before,
        status != 0 ==> after == journaled(
            device,
            DeviceEventView::QosSetupFailed { connection_handle: handle, status },
        ),
        status == 0 ==> {
            &&& only_records_of(device, after, handle)
            &&& after.journal.device_events == device.journal.device_events.push(
                DeviceEventView::QosSetup { connection_handle: handle, service_type },
            )
            &&& device.le.le_connections.contains_key(handle) ==> after.le.le_connections[handle]
                == (LeConnectionInfoView {
                qos_service_type: Some(service_type),
                ..device.le.le_connections[handle]
            })
            &&& device.classic.classic_connections.contains_key(handle)
                ==> after.classic.classic_connections[handle] == (ClassicConnectionInfoView {
                qos_service_type: Some(service_type),
                ..device.classic.classic_connections[handle]
            })
        },
{
    lemma_commands_none(log_before, device.controller_id);
}

/// A disconnection of something that was live is announced with its reason, and
/// what outside services hold is released. A failed one is announced with its
/// status.
pub proof fn lemma_disconnection_complete(
    device: DeviceView,
    after: DeviceView,
    status: u8,
    handle: u16,
    reason: u8,
    log_before: Seq<HostAction>,
    log_after: Seq<HostAction>,
)
    requires
        heard(
            device,
            Event::DisconnectionComplete { status, connection_handle: handle, reason },
            after,
            log_before,
            log_after,
        ),
    ensures
        log_after == log_before,
        ({
            let live = device.le.le_connections.contains_key(handle)
                || device.classic.classic_connections.contains_key(handle)
                || device.iso.cis_links.contains_key(handle) || exists|index: int|
                0 <= index < device.classic.synchronous_connections.len() && (
                #[trigger] device.classic.synchronous_connections[index]).connection_handle
                    == handle;
            &&& !after.le.pending_disconnections.contains(handle)
            &&& !live ==> after.journal == device.journal
            &&& live && status == 0 ==> after.journal.device_events
                == device.journal.device_events.push(
                DeviceEventView::Disconnected { connection_handle: handle, reason },
            )
            &&& live && status != 0 ==> after.journal.device_events
                == device.journal.device_events.push(
                DeviceEventView::DisconnectionFailed { connection_handle: handle, status },
            )
            &&& status == 0 ==> {
                &&& after.follow_up == Some(
                    FollowUp::ReleaseConnection { connection_handle: handle },
                )
                &&& !after.le.le_connections.contains_key(handle)
                &&& !after.classic.classic_connections.contains_key(handle)
                &&& !after.iso.cis_links.contains_key(handle)
                &&& !after.le.encrypted_handles.contains(handle)
            }
            &&& status != 0 ==> {
                &&& after.le.le_connections == device.le.le_connections
                &&& after.classic == device.classic
                &&& after.iso == device.iso
                &&& after.pools == device.pools
                &&& after.follow_up == device.follow_up
            }
        }),
{
    lemma_commands_none(log_before, device.controller_id);
}

} // verus!
