//! What pairing and encryption events leave behind, and what answers them.

use crate::address::Address;
use crate::classic::ClassicPairingEvent;
use crate::connection::LongTermKeyRequestInfo;
use crate::device::{DeviceView, FollowUp};
use crate::events::DeviceEventView;
use crate::hci::{Event, HciPacket, LeMetaEvent};
use crate::state::{ClassicView, JournalView, SecurityView};
use crate::transport::{lemma_commands_none, HostAction};
use vstd::prelude::*;

verus! {

/// How an event of the controller shows on a device that is ready.
pub open spec fn heard(
    device: DeviceView,
    event: Event,
    after: DeviceView,
    log_before: Seq<HostAction>,
    log_after: Seq<HostAction>,
) -> bool {
    &&& device.setup.status.controller_ready
    &&& device.packet_handled(after, HciPacket::Event(event), log_before, log_after)
}

/// A device whose journal holds one more event, and which is else the same.
pub open spec fn journaled(device: DeviceView, event: DeviceEventView) -> DeviceView {
    DeviceView {
        journal: JournalView {
            device_events: device.journal.device_events.push(event),
            ..device.journal
        },
        ..device
    }
}

/// Whether a pairing event is the last one that the application can take, and
/// the last one in the journal, and nothing else has changed.
pub open spec fn told(device: DeviceView, after: DeviceView, event: ClassicPairingEvent) -> bool {
    after == journaled(
        DeviceView {
            classic: ClassicView {
                classic_pairing_events: device.classic.classic_pairing_events.push(event),
                ..device.classic
            },
            ..device
        },
        DeviceEventView::ClassicPairing(event),
    )
}

/// The number that two users are asked to compare is the one that the controller
/// gave, and the peer is the one that it named.
pub proof fn lemma_numeric_comparison(
    device: DeviceView,
    after: DeviceView,
    peer: Address,
    value: u32,
    log_before: Seq<HostAction>,
    log_after: Seq<HostAction>,
)
    requires
        heard(
            device,
            Event::UserConfirmationRequest { bd_addr: peer, numeric_value: value },
            after,
            log_before,
            log_after,
        ),
    ensures
        told(
            device,
            after,
            ClassicPairingEvent::UserConfirmationRequest {
                peer_address: peer,
                numeric_value: value,
            },
        ),
        log_after == log_before,
{
    lemma_commands_none(log_before, device.controller_id);
}

/// Two numbers that differ are told apart.
pub proof fn lemma_compared_numbers_differ(
    device: DeviceView,
    first: DeviceView,
    second: DeviceView,
    peer: Address,
    value: u32,
    other: u32,
    log: Seq<HostAction>,
)
    requires
        value != other,
        heard(
            device,
            Event::UserConfirmationRequest { bd_addr: peer, numeric_value: value },
            first,
            log,
            log,
        ),
        heard(
            device,
            Event::UserConfirmationRequest { bd_addr: peer, numeric_value: other },
            second,
            log,
            log,
        ),
    ensures
        first.classic.classic_pairing_events.last() != second.classic.classic_pairing_events.last(),
        first.journal.device_events.last() != second.journal.device_events.last(),
{
    lemma_numeric_comparison(device, first, peer, value, log, log);
    lemma_numeric_comparison(device, second, peer, other, log, log);
}

/// The passkey that is shown is the one that the controller gave.
pub proof fn lemma_passkey_shown(
    device: DeviceView,
    after: DeviceView,
    peer: Address,
    passkey: u32,
    log_before: Seq<HostAction>,
    log_after: Seq<HostAction>,
)
    requires
        heard(
            device,
            Event::UserPasskeyNotification { bd_addr: peer, passkey },
            after,
            log_before,
            log_after,
        ),
    ensures
        told(
            device,
            after,
            ClassicPairingEvent::UserPasskeyNotification { peer_address: peer, passkey },
        ),
        log_after == log_before,
{
    lemma_commands_none(log_before, device.controller_id);
}

/// Requests that name a peer alone are told with that peer, each as what it is.
pub proof fn lemma_peer_requests(
    device: DeviceView,
    pin: DeviceView,
    capability: DeviceView,
    passkey: DeviceView,
    oob: DeviceView,
    peer: Address,
    log: Seq<HostAction>,
    after_pin: Seq<HostAction>,
    after_capability: Seq<HostAction>,
    after_passkey: Seq<HostAction>,
    after_oob: Seq<HostAction>,
)
    requires
        heard(device, Event::PinCodeRequest { bd_addr: peer }, pin, log, after_pin),
        heard(
            device,
            Event::IoCapabilityRequest { bd_addr: peer },
            capability,
            log,
            after_capability,
        ),
        heard(device, Event::UserPasskeyRequest { bd_addr: peer }, passkey, log, after_passkey),
        heard(device, Event::RemoteOobDataRequest { bd_addr: peer }, oob, log, after_oob),
    ensures
        told(device, pin, ClassicPairingEvent::PinCodeRequest { peer_address: peer }),
        told(device, capability, ClassicPairingEvent::IoCapabilityRequest { peer_address: peer }),
        told(device, passkey, ClassicPairingEvent::UserPasskeyRequest { peer_address: peer }),
        told(device, oob, ClassicPairingEvent::RemoteOobDataRequest { peer_address: peer }),
        after_pin == log,
        after_capability == log,
        after_passkey == log,
        after_oob == log,
{
    lemma_commands_none(log, device.controller_id);
}

/// What a peer can do, and what it requires, is told as the controller gave it.
pub proof fn lemma_peer_capabilities(
    device: DeviceView,
    after: DeviceView,
    peer: Address,
    io_capability: u8,
    oob_data_present: u8,
    authentication_requirements: u8,
    log_before: Seq<HostAction>,
    log_after: Seq<HostAction>,
)
    requires
        heard(
            device,
            Event::IoCapabilityResponse {
                bd_addr: peer,
                io_capability,
                oob_data_present,
                authentication_requirements,
            },
            after,
            log_before,
            log_after,
        ),
    ensures
        told(
            device,
            after,
            ClassicPairingEvent::IoCapabilityResponse {
                peer_address: peer,
                io_capability,
                authentication_requirements,
            },
        ),
        log_after == log_before,
{
    lemma_commands_none(log_before, device.controller_id);
}

/// The end of authentication and of Simple Pairing is told with its status.
pub proof fn lemma_pairing_outcomes(
    device: DeviceView,
    authenticated: DeviceView,
    paired: DeviceView,
    status: u8,
    handle: u16,
    peer: Address,
    log: Seq<HostAction>,
    after_authenticated: Seq<HostAction>,
    after_paired: Seq<HostAction>,
)
    requires
        heard(
            device,
            Event::AuthenticationComplete { status, connection_handle: handle },
            authenticated,
            log,
            after_authenticated,
        ),
        heard(
            device,
            Event::SimplePairingComplete { status, bd_addr: peer },
            paired,
            log,
            after_paired,
        ),
    ensures
        told(
            device,
            authenticated,
            ClassicPairingEvent::AuthenticationComplete { status, connection_handle: handle },
        ),
        told(
            device,
            paired,
            ClassicPairingEvent::SimplePairingComplete { status, peer_address: peer },
        ),
        after_authenticated == log,
        after_paired == log,
{
    lemma_commands_none(log, device.controller_id);
}

/// A request for a link key is told to the application, or, where the device
/// pairs by itself, left to its owner with the peer that asks. Nothing is sent
/// yet.
pub proof fn lemma_link_key_wanted(
    device: DeviceView,
    after: DeviceView,
    peer: Address,
    log_before: Seq<HostAction>,
    log_after: Seq<HostAction>,
)
    requires
        heard(device, Event::LinkKeyRequest { bd_addr: peer }, after, log_before, log_after),
    ensures
        !device.security.pairing_enabled ==> told(
            device,
            after,
            ClassicPairingEvent::LinkKeyRequest { peer_address: peer },
        ),
        device.security.pairing_enabled ==> after == (DeviceView {
            follow_up: Some(FollowUp::FindLinkKey { peer_address: peer }),
            ..device
        }),
        log_after == log_before,
{
    lemma_commands_none(log_before, device.controller_id);
}

/// A new link key is told to the application, or, where the device pairs by
/// itself, left to its owner to store: the key, its kind and the peer as they
/// came.
pub proof fn lemma_link_key_given(
    device: DeviceView,
    after: DeviceView,
    peer: Address,
    link_key: [u8; 16],
    key_type: u8,
    log_before: Seq<HostAction>,
    log_after: Seq<HostAction>,
)
    requires
        heard(
            device,
            Event::LinkKeyNotification { bd_addr: peer, link_key, key_type },
            after,
            log_before,
            log_after,
        ),
    ensures
        !device.security.pairing_enabled ==> told(
            device,
            after,
            ClassicPairingEvent::LinkKeyNotification { peer_address: peer, link_key, key_type },
        ),
        device.security.pairing_enabled ==> after == (DeviceView {
            follow_up: Some(FollowUp::StoreLinkKey { peer_address: peer, link_key, key_type }),
            ..device
        }),
        log_after == log_before,
{
    lemma_commands_none(log_before, device.controller_id);
}

/// A request for a long term key is kept with its random number and diversifier,
/// or, where a key may be known, left to the owner with them.
pub proof fn lemma_long_term_key_wanted(
    device: DeviceView,
    after: DeviceView,
    handle: u16,
    random_number: [u8; 8],
    diversifier: u16,
    log_before: Seq<HostAction>,
    log_after: Seq<HostAction>,
)
    requires
        heard(
            device,
            Event::LeMeta(
                LeMetaEvent::LongTermKeyRequest {
                    connection_handle: handle,
                    random_number,
                    encryption_diversifier: diversifier,
                },
            ),
            after,
            log_before,
            log_after,
        ),
    ensures
        ({
            let request = LongTermKeyRequestInfo {
                connection_handle: handle,
                random_number,
                encryption_diversifier: diversifier,
            };
            if device.security.pairing_enabled || device.security.key_store_open {
                after == (DeviceView {
                    follow_up: Some(FollowUp::FindLongTermKey { request }),
                    ..device
                })
            } else {
                after == (DeviceView {
                    security: SecurityView {
                        long_term_key_requests: device.security.long_term_key_requests.push(
                            request,
                        ),
                        ..device.security
                    },
                    ..device
                })
            }
        }),
        log_after == log_before,
{
    lemma_commands_none(log_before, device.controller_id);
}

/// A successful change of encryption shows in the set of encrypted handles and
/// in the record of the connection, whichever kind it is of; other connections
/// and their encryption stay as they were.
pub proof fn lemma_encryption_shows(
    device: DeviceView,
    after: DeviceView,
    handle: u16,
    enabled: u8,
    key_size: u8,
    other: u16,
    log_before: Seq<HostAction>,
    log_after: Seq<HostAction>,
)
    requires
        other != handle,
        heard(
            device,
            Event::EncryptionChangeV2 {
                status: 0,
                connection_handle: handle,
                encryption_enabled: enabled,
                encryption_key_size: key_size,
            },
            after,
            log_before,
            log_after,
        ),
    ensures
        after.le.encrypted_handles.contains(handle) == (enabled != 0),
        after.le.encrypted_handles.contains(other) == device.le.encrypted_handles.contains(other),
        after.le.le_connections.dom() == device.le.le_connections.dom(),
        after.classic.classic_connections.dom() == device.classic.classic_connections.dom(),
        device.le.le_connections.contains_key(handle) ==> {
            let record = after.le.le_connections[handle];
            record.encryption_enabled == enabled && record.encryption_key_size == key_size
        },
        device.classic.classic_connections.contains_key(handle) ==> {
            let record = after.classic.classic_connections[handle];
            record.encryption_enabled == enabled && record.encryption_key_size == key_size
        },
        after.le.le_connections[other] == device.le.le_connections[other],
        after.classic.classic_connections[other] == device.classic.classic_connections[other],
        if device.security.pairing_enabled || device.classic.classic_connections.contains_key(
            handle,
        ) {
            &&& after.follow_up == Some(
                FollowUp::AdvancePairing {
                    connection_handle: handle,
                    encryption_enabled: enabled,
                    encryption_key_size: key_size,
                },
            )
            &&& after.journal == device.journal
        } else {
            &&& after.follow_up == device.follow_up
            &&& after.journal.device_events == device.journal.device_events.push(
                DeviceEventView::EncryptionChange {
                    status: 0,
                    connection_handle: handle,
                    encryption_enabled: enabled,
                    encryption_key_size: key_size,
                },
            )
        },
        log_after == log_before,
{
    lemma_commands_none(log_before, device.controller_id);
    assert(after.le.le_connections.dom() =~= device.le.le_connections.dom());
    assert(after.classic.classic_connections.dom() =~= device.classic.classic_connections.dom());
}

/// The older event tells the same with a key size of zero.
pub proof fn lemma_encryption_events_agree(
    device: DeviceView,
    older: DeviceView,
    newer: DeviceView,
    status: u8,
    handle: u16,
    enabled: u8,
    log: Seq<HostAction>,
    after_older: Seq<HostAction>,
    after_newer: Seq<HostAction>,
)
    requires
        heard(
            device,
            Event::EncryptionChange {
                status,
                connection_handle: handle,
                encryption_enabled: enabled,
            },
            older,
            log,
            after_older,
        ),
        heard(
            device,
            Event::EncryptionChangeV2 {
                status,
                connection_handle: handle,
                encryption_enabled: enabled,
                encryption_key_size: 0,
            },
            newer,
            log,
            after_newer,
        ),
    ensures
        older == newer,
        after_older == after_newer,
{
}

/// A failed change of encryption changes no connection: it is announced with its
/// status.
pub proof fn lemma_failed_encryption_is_announced(
    device: DeviceView,
    after: DeviceView,
    status: u8,
    handle: u16,
    enabled: u8,
    key_size: u8,
    log_before: Seq<HostAction>,
    log_after: Seq<HostAction>,
)
    requires
        status != 0,
        heard(
            device,
            Event::EncryptionChangeV2 {
                status,
                connection_handle: handle,
                encryption_enabled: enabled,
                encryption_key_size: key_size,
            },
            after,
            log_before,
            log_after,
        ),
    ensures
        after == journaled(
            device,
            DeviceEventView::EncryptionChange {
                status,
                connection_handle: handle,
                encryption_enabled: enabled,
                encryption_key_size: key_size,
            },
        ),
        log_after == log_before,
{
    lemma_commands_none(log_before, device.controller_id);
}

/// A refreshed key is announced as such, and one that could not be refreshed with
/// the reason.
pub proof fn lemma_key_refresh_is_announced(
    device: DeviceView,
    after: DeviceView,
    status: u8,
    handle: u16,
    log_before: Seq<HostAction>,
    log_after: Seq<HostAction>,
)
    requires
        heard(
            device,
            Event::EncryptionKeyRefreshComplete { status, connection_handle: handle },
            after,
            log_before,
            log_after,
        ),
    ensures
        status == 0 ==> after == journaled(
            device,
            DeviceEventView::EncryptionKeyRefresh { connection_handle: handle },
        ),
        status != 0 ==> after == journaled(
            device,
            DeviceEventView::EncryptionKeyRefreshFailed { connection_handle: handle, status },
        ),
        log_after == log_before,
{
    lemma_commands_none(log_before, device.controller_id);
}

} // verus!
