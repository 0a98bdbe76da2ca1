//! What LE connection events leave behind.

use crate::address::Address;
use crate::connection::{
    ConnectionFeatureError, ConnectionFeatureTransport, LeConnectionControlEvent,
    LeConnectionInfoView, LeConnectionParameters, LeDataLength, LePhy,
};
use crate::device::{DeviceView, FollowUp};
use crate::events::{DeviceConnectionTransport, DeviceEventView};
use crate::hci::{Event, LeMetaEvent, ReturnParameters};
use crate::pairing_laws::{heard, journaled};
use crate::state::{GapView, JournalView, LeView};
use crate::transport::{lemma_commands_none, HostAction};
use vstd::prelude::*;

verus! {

/// How an LE meta event shows on a device that is ready: nothing is handed over.
pub open spec fn heard_le(
    device: DeviceView,
    event: LeMetaEvent,
    after: DeviceView,
    log_before: Seq<HostAction>,
    log_after: Seq<HostAction>,
) -> bool {
    heard(device, Event::LeMeta(event), after, log_before, log_after)
}

/// Whether an LE connection stands as it was established: with its own
/// parameters, on the 1M PHY, not encrypted, and with nothing known of its peer.
pub open spec fn stands_fresh(
    connection: LeConnectionInfoView,
    handle: u16,
    role: u8,
    peer: Address,
    interval: u16,
    latency: u16,
    timeout: u16,
) -> bool {
    &&& connection.connection_handle == handle
    &&& connection.role == role
    &&& connection.peer_address == peer
    &&& connection.parameters.connection_interval == interval
    &&& connection.parameters.peripheral_latency == latency
    &&& connection.parameters.supervision_timeout == timeout
    &&& connection.parameters.subrate_factor == 1
    &&& connection.parameters.continuation_number == 0
    &&& connection.phy.tx_phy == 1 && connection.phy.rx_phy == 1
    &&& connection.data_length is None
    &&& connection.rssi is None
    &&& connection.encryption_enabled == 0 && connection.encryption_key_size == 0
    &&& connection.qos_service_type is None
    &&& connection.classic_mode == 0 && connection.classic_interval == 0
    &&& connection.peer_le_features is None
    &&& connection.channel_sounding_capabilities is None
    &&& connection.channel_sounding_configs.dom() =~= Set::empty()
    &&& connection.channel_sounding_procedures.dom() =~= Set::empty()
}

/// Whether a device has taken in a new LE connection: it is known, selected, not
/// encrypted and announced, and all other connections are as they were. A
/// central's attempt to connect is over; a peripheral's advertising is.
pub open spec fn took_connection_in(
    device: DeviceView,
    after: DeviceView,
    handle: u16,
    role: u8,
    peer: Address,
    interval: u16,
    latency: u16,
    timeout: u16,
) -> bool {
    let connection = after.le.le_connections[handle];
    &&& stands_fresh(connection, handle, role, peer, interval, latency, timeout)
    &&& after.le.le_connections == device.le.le_connections.insert(handle, connection)
    &&& after.le.connection_handle == Some(handle)
    &&& after.le.connection_role == Some(role)
    &&& after.le.peer_address == Some(peer)
    &&& !after.le.encrypted_handles.contains(handle)
    &&& forall|other: u16|
        other != handle ==> (#[trigger] after.le.encrypted_handles.contains(other)
            <==> device.le.encrypted_handles.contains(other))
    &&& role == 0 ==> !after.le.le_connecting && after.gap.legacy_advertising
        == device.gap.legacy_advertising
    &&& role != 0 ==> after.le.le_connecting == device.le.le_connecting
        && !after.gap.legacy_advertising
    &&& after.journal.device_events == device.journal.device_events.push(
        DeviceEventView::LeConnectionEstablished(connection),
    )
    &&& after.follow_up == Some(
        FollowUp::RegisterLeConnection { connection_handle: handle, role, peer_address: peer },
    )
    &&& after == (DeviceView {
        le: LeView {
            le_connections: after.le.le_connections,
            connection_handle: after.le.connection_handle,
            connection_role: after.le.connection_role,
            peer_address: after.le.peer_address,
            encrypted_handles: after.le.encrypted_handles,
            le_connecting: after.le.le_connecting,
            ..device.le
        },
        gap: GapView { legacy_advertising: after.gap.legacy_advertising, ..device.gap },
        journal: JournalView {
            device_events: after.journal.device_events,
            ..device.journal
        },
        follow_up: after.follow_up,
        ..device
    })
}

/// Whether a device has given up an LE connection attempt, and says to whom it
/// was and why.
pub open spec fn gave_attempt_up(
    device: DeviceView,
    after: DeviceView,
    peer: Address,
    status: u8,
) -> bool {
    after == journaled(
        DeviceView { le: LeView { le_connecting: false, ..device.le }, ..device },
        DeviceEventView::ConnectionFailed {
            transport: DeviceConnectionTransport::Le,
            peer_address: peer,
            status,
        },
    )
}

/// A successful LE Connection Complete event brings a new connection, and one
/// with an error ends the attempt.
pub proof fn lemma_le_connection_complete(
    device: DeviceView,
    after: DeviceView,
    status: u8,
    handle: u16,
    role: u8,
    peer_address_type: u8,
    peer: Address,
    interval: u16,
    latency: u16,
    timeout: u16,
    central_clock_accuracy: u8,
    log_before: Seq<HostAction>,
    log_after: Seq<HostAction>,
)
    requires
        heard_le(
            device,
            LeMetaEvent::ConnectionComplete {
                status,
                connection_handle: handle,
                role,
                peer_address_type,
                peer_address: peer,
                connection_interval: interval,
                peripheral_latency: latency,
                supervision_timeout: timeout,
                central_clock_accuracy,
            },
            after,
            log_before,
            log_after,
        ),
    ensures
        status == 0 ==> took_connection_in(
            device,
            after,
            handle,
            role,
            peer,
            interval,
            latency,
            timeout,
        ),
        status != 0 ==> gave_attempt_up(device, after, peer, status),
        log_after == log_before,
{
    lemma_commands_none(log_before, device.controller_id);
}

/// The enhanced events bring about the same as the plain one.
pub proof fn lemma_enhanced_connection_complete(
    device: DeviceView,
    after: DeviceView,
    second: bool,
    status: u8,
    handle: u16,
    role: u8,
    peer: Address,
    interval: u16,
    latency: u16,
    timeout: u16,
    log_before: Seq<HostAction>,
    log_after: Seq<HostAction>,
)
    requires
        heard_le(
            device,
            if second {
                LeMetaEvent::EnhancedConnectionCompleteV2 {
                    status,
                    connection_handle: handle,
                    role,
                    peer_address: peer,
                    connection_interval: interval,
                    peripheral_latency: latency,
                    supervision_timeout: timeout,
                }
            } else {
                LeMetaEvent::EnhancedConnectionComplete {
                    status,
                    connection_handle: handle,
                    role,
                    peer_address: peer,
                    connection_interval: interval,
                    peripheral_latency: latency,
                    supervision_timeout: timeout,
                }
            },
            after,
            log_before,
            log_after,
        ),
    ensures
        status == 0 ==> took_connection_in(
            device,
            after,
            handle,
            role,
            peer,
            interval,
            latency,
            timeout,
        ),
        status != 0 ==> gave_attempt_up(device, after, peer, status),
        log_after == log_before,
{
    lemma_commands_none(log_before, device.controller_id);
}

/// Whether a control procedure has ended: its event is recorded and announced,
/// it is no longer pending where a command began it, and one connection's record
/// is replaced where there is a new one. Nothing else changes.
pub open spec fn control_ended(
    device: DeviceView,
    after: DeviceView,
    handle: u16,
    opcode: Option<u16>,
    record: Option<LeConnectionInfoView>,
    event: LeConnectionControlEvent,
) -> bool {
    after == journaled(
        DeviceView {
            le: LeView {
                le_connections: match record {
                    Some(record) => device.le.le_connections.insert(handle, record),
                    None => device.le.le_connections,
                },
                pending_connection_controls: match opcode {
                    Some(opcode) => device.le.pending_connection_controls.remove_value(
                        (handle, opcode),
                    ),
                    None => device.le.pending_connection_controls,
                },
                connection_control_events: device.le.connection_control_events.push(event),
                ..device.le
            },
            ..device
        },
        DeviceEventView::LeConnectionControl(event),
    )
}

/// A connection update sets the interval, the latency and the timeout, keeps the
/// subrate, and leaves the parameters alone where it failed.
pub proof fn lemma_connection_update(
    device: DeviceView,
    after: DeviceView,
    status: u8,
    handle: u16,
    interval: u16,
    latency: u16,
    timeout: u16,
    log_before: Seq<HostAction>,
    log_after: Seq<HostAction>,
)
    requires
        heard_le(
            device,
            LeMetaEvent::ConnectionUpdateComplete {
                status,
                connection_handle: handle,
                connection_interval: interval,
                peripheral_latency: latency,
                supervision_timeout: timeout,
            },
            after,
            log_before,
            log_after,
        ),
    ensures
        ({
            let known = device.le.le_connections.contains_key(handle);
            let former = device.le.le_connections[handle];
            let parameters = LeConnectionParameters {
                connection_interval: interval,
                peripheral_latency: latency,
                supervision_timeout: timeout,
                subrate_factor: if known {
                    former.parameters.subrate_factor
                } else {
                    1
                },
                continuation_number: if known {
                    former.parameters.continuation_number
                } else {
                    0
                },
            };
            control_ended(
                device,
                after,
                handle,
                Some(0x2013),
                if known && status == 0 {
                    Some(LeConnectionInfoView { parameters, ..former })
                } else {
                    None
                },
                LeConnectionControlEvent::ConnectionParametersUpdate {
                    status,
                    connection_handle: handle,
                    parameters,
                },
            )
        }),
        log_after == log_before,
{
    lemma_commands_none(log_before, device.controller_id);
}

/// A subrate change sets everything but the interval, which it keeps.
pub proof fn lemma_subrate_change(
    device: DeviceView,
    after: DeviceView,
    status: u8,
    handle: u16,
    factor: u16,
    latency: u16,
    continuation: u16,
    timeout: u16,
    log_before: Seq<HostAction>,
    log_after: Seq<HostAction>,
)
    requires
        heard_le(
            device,
            LeMetaEvent::SubrateChange {
                status,
                connection_handle: handle,
                subrate_factor: factor,
                peripheral_latency: latency,
                continuation_number: continuation,
                supervision_timeout: timeout,
            },
            after,
            log_before,
            log_after,
        ),
    ensures
        ({
            let known = device.le.le_connections.contains_key(handle);
            let former = device.le.le_connections[handle];
            let parameters = LeConnectionParameters {
                connection_interval: if known {
                    former.parameters.connection_interval
                } else {
                    0
                },
                peripheral_latency: latency,
                supervision_timeout: timeout,
                subrate_factor: factor,
                continuation_number: continuation,
            };
            control_ended(
                device,
                after,
                handle,
                Some(0x207E),
                if known && status == 0 {
                    Some(LeConnectionInfoView { parameters, ..former })
                } else {
                    None
                },
                LeConnectionControlEvent::ConnectionParametersUpdate {
                    status,
                    connection_handle: handle,
                    parameters,
                },
            )
        }),
        log_after == log_before,
{
    lemma_commands_none(log_before, device.controller_id);
}

/// A connection rate change sets all five parameters.
pub proof fn lemma_connection_rate_change(
    device: DeviceView,
    after: DeviceView,
    status: u8,
    handle: u16,
    interval: u16,
    factor: u16,
    latency: u16,
    continuation: u16,
    timeout: u16,
    log_before: Seq<HostAction>,
    log_after: Seq<HostAction>,
)
    requires
        heard_le(
            device,
            LeMetaEvent::ConnectionRateChange {
                status,
                connection_handle: handle,
                connection_interval: interval,
                subrate_factor: factor,
                peripheral_latency: latency,
                continuation_number: continuation,
                supervision_timeout: timeout,
            },
            after,
            log_before,
            log_after,
        ),
    ensures
        ({
            let known = device.le.le_connections.contains_key(handle);
            let former = device.le.le_connections[handle];
            let parameters = LeConnectionParameters {
                connection_interval: interval,
                peripheral_latency: latency,
                supervision_timeout: timeout,
                subrate_factor: factor,
                continuation_number: continuation,
            };
            control_ended(
                device,
                after,
                handle,
                Some(0x20A1),
                if known && status == 0 {
                    Some(LeConnectionInfoView { parameters, ..former })
                } else {
                    None
                },
                LeConnectionControlEvent::ConnectionParametersUpdate {
                    status,
                    connection_handle: handle,
                    parameters,
                },
            )
        }),
        log_after == log_before,
{
    lemma_commands_none(log_before, device.controller_id);
}

/// A data length change is kept as told: octets and times, for sending and for
/// receiving.
pub proof fn lemma_data_length_change(
    device: DeviceView,
    after: DeviceView,
    handle: u16,
    tx_octets: u16,
    tx_time: u16,
    rx_octets: u16,
    rx_time: u16,
    log_before: Seq<HostAction>,
    log_after: Seq<HostAction>,
)
    requires
        heard_le(
            device,
            LeMetaEvent::DataLengthChange {
                connection_handle: handle,
                max_tx_octets: tx_octets,
                max_tx_time: tx_time,
                max_rx_octets: rx_octets,
                max_rx_time: rx_time,
            },
            after,
            log_before,
            log_after,
        ),
    ensures
        ({
            let data_length = LeDataLength {
                max_tx_octets: tx_octets,
                max_tx_time: tx_time,
                max_rx_octets: rx_octets,
                max_rx_time: rx_time,
            };
            control_ended(
                device,
                after,
                handle,
                None,
                if device.le.le_connections.contains_key(handle) {
                    Some(
                        LeConnectionInfoView {
                            data_length: Some(data_length),
                            ..device.le.le_connections[handle]
                        },
                    )
                } else {
                    None
                },
                LeConnectionControlEvent::DataLengthChange {
                    connection_handle: handle,
                    data_length,
                },
            )
        }),
        log_after == log_before,
{
    lemma_commands_none(log_before, device.controller_id);
}

/// A PHY update and a PHY that was read both tell the PHY of each direction, and
/// neither changes the record where it failed.
pub proof fn lemma_phy_told(
    device: DeviceView,
    after: DeviceView,
    read: bool,
    packets: u8,
    status: u8,
    handle: u16,
    tx_phy: u8,
    rx_phy: u8,
    log_before: Seq<HostAction>,
    log_after: Seq<HostAction>,
)
    requires
        heard(
            device,
            if read {
                Event::CommandComplete {
                    num_hci_command_packets: packets,
                    command_opcode: 0x2030,
                    return_parameters: ReturnParameters::LeReadPhy {
                        status,
                        connection_handle: handle,
                        tx_phy,
                        rx_phy,
                    },
                }
            } else {
                Event::LeMeta(
                    LeMetaEvent::PhyUpdateComplete {
                        status,
                        connection_handle: handle,
                        tx_phy,
                        rx_phy,
                    },
                )
            },
            after,
            log_before,
            log_after,
        ),
    ensures
        ({
            let phy = LePhy { tx_phy, rx_phy };
            control_ended(
                device,
                after,
                handle,
                if read {
                    Some(0x2030u16)
                } else {
                    Some(0x2032u16)
                },
                if status == 0 && device.le.le_connections.contains_key(handle) {
                    Some(LeConnectionInfoView { phy, ..device.le.le_connections[handle] })
                } else {
                    None
                },
                if read {
                    LeConnectionControlEvent::PhyRead { status, connection_handle: handle, phy }
                } else {
                    LeConnectionControlEvent::PhyUpdate { status, connection_handle: handle, phy }
                },
            )
        }),
        log_after == log_before,
{
    lemma_commands_none(log_before, device.controller_id);
}

/// A signal strength that was read is kept with its connection, and left alone
/// where the reading failed.
pub proof fn lemma_rssi_told(
    device: DeviceView,
    after: DeviceView,
    packets: u8,
    status: u8,
    handle: u16,
    rssi: i8,
    log_before: Seq<HostAction>,
    log_after: Seq<HostAction>,
)
    requires
        heard(
            device,
            Event::CommandComplete {
                num_hci_command_packets: packets,
                command_opcode: 0x1405,
                return_parameters: ReturnParameters::ReadRssi { status, handle, rssi },
            },
            after,
            log_before,
            log_after,
        ),
    ensures
        control_ended(
            device,
            after,
            handle,
            Some(0x1405),
            if status == 0 && device.le.le_connections.contains_key(handle) {
                Some(
                    LeConnectionInfoView { rssi: Some(rssi), ..device.le.le_connections[handle] },
                )
            } else {
                None
            },
            LeConnectionControlEvent::RssiRead { status, connection_handle: handle, rssi },
        ),
        log_after == log_before,
{
    lemma_commands_none(log_before, device.controller_id);
}

/// The answer to a data length request names the connection that it carries, low
/// byte first.
pub proof fn lemma_data_length_answer(
    device: DeviceView,
    after: DeviceView,
    packets: u8,
    data: Vec<u8>,
    handle: u16,
    log_before: Seq<HostAction>,
    log_after: Seq<HostAction>,
)
    requires
        data@.len() >= 3,
        data@[1] == handle % 256,
        data@[2] == handle / 256,
        heard(
            device,
            Event::CommandComplete {
                num_hci_command_packets: packets,
                command_opcode: 0x2022,
                return_parameters: ReturnParameters::Raw { data },
            },
            after,
            log_before,
            log_after,
        ),
    ensures
        control_ended(
            device,
            after,
            handle,
            Some(0x2022),
            None,
            LeConnectionControlEvent::DataLengthRequestComplete {
                status: data@[0],
                connection_handle: handle,
            },
        ),
        log_after == log_before,
{
    lemma_commands_none(log_before, device.controller_id);
    assert(data@[1] + 256 * data@[2] == handle);
}

/// Whether a refused control command is settled: the oldest procedure of its
/// kind is given up, and the refusal names that procedure's connection.
pub open spec fn control_given_up(
    device: DeviceView,
    after: DeviceView,
    opcode: u16,
    status: u8,
) -> bool {
    let pending = device.le.pending_connection_controls;
    let later = after.le.pending_connection_controls;
    let event = LeConnectionControlEvent::CommandStatus {
        command_opcode: opcode,
        status,
        connection_handle: match after.le.connection_control_events.last() {
            LeConnectionControlEvent::CommandStatus { connection_handle, .. } => connection_handle,
            _ => None,
        },
    };
    &&& after == journaled(
        DeviceView {
            le: LeView {
                pending_connection_controls: later,
                connection_control_events: device.le.connection_control_events.push(event),
                ..device.le
            },
            ..device
        },
        DeviceEventView::LeConnectionControl(event),
    )
    &&& match event->CommandStatus_connection_handle {
        Some(handle) => exists|index: int|
            {
                &&& 0 <= index < pending.len()
                &&& #[trigger] pending[index] == (handle, opcode)
                &&& later == pending.remove(index)
                &&& forall|earlier: int|
                    0 <= earlier < index ==> (#[trigger] pending[earlier]).1 != opcode
            },
        None => {
            &&& later == pending
            &&& forall|index: int|
                0 <= index < pending.len() ==> (#[trigger] pending[index]).1 != opcode
        },
    }
}

/// What a refusal finds pending.
proof fn lemma_first_pending(pending: Seq<(u16, u16)>, opcode: u16)
    ensures
        match crate::le_link::first_with_opcode(pending, opcode) {
            Some(index) => {
                &&& 0 <= index < pending.len()
                &&& pending[index].1 == opcode
                &&& forall|earlier: int|
                    0 <= earlier < index ==> (#[trigger] pending[earlier]).1 != opcode
            },
            None => forall|index: int|
                0 <= index < pending.len() ==> (#[trigger] pending[index]).1 != opcode,
        },
{
    let opcodes = pending.map_values(|entry: (u16, u16)| entry.1);
    opcodes.index_of_first_ensures(opcode);
    assert forall|index: int| 0 <= index < pending.len() implies (#[trigger] pending[index]).1
        == opcodes[index] by {}
    if crate::le_link::first_with_opcode(pending, opcode) is None {
        assert forall|index: int| 0 <= index < pending.len() implies (#[trigger] pending[index]).1
            != opcode by {
            if opcodes[index] == opcode {
                assert(opcodes.contains(opcode));
            }
        }
    }
}

/// A connection update, a PHY change, a subrate request or a connection rate
/// request that is not taken up gives the oldest such procedure up.
pub proof fn lemma_declined_control(
    device: DeviceView,
    after: DeviceView,
    packets: u8,
    status: u8,
    opcode: u16,
    log_before: Seq<HostAction>,
    log_after: Seq<HostAction>,
)
    requires
        opcode == 0x2013 || opcode == 0x2032 || opcode == 0x207E || opcode == 0x20A1,
        heard(
            device,
            Event::CommandStatus {
                status,
                num_hci_command_packets: packets,
                command_opcode: opcode,
            },
            after,
            log_before,
            log_after,
        ),
    ensures
        status != 0 ==> control_given_up(device, after, opcode, status),
        status == 0 ==> after == device,
        log_after == log_before,
{
    lemma_commands_none(log_before, device.controller_id);
    let pending = device.le.pending_connection_controls;
    lemma_first_pending(pending, opcode);
    if status != 0 {
        match crate::le_link::first_with_opcode(pending, opcode) {
            Some(index) => {
                assert(pending[index] == (pending[index].0, opcode));
            },
            None => {},
        }
    }
}

/// A PHY reading, a data length request, an RSSI reading, a connection update or
/// a connection rate request that ends with an error gives the oldest such
/// procedure up.
pub proof fn lemma_refused_control(
    device: DeviceView,
    after: DeviceView,
    packets: u8,
    status: u8,
    opcode: u16,
    log_before: Seq<HostAction>,
    log_after: Seq<HostAction>,
)
    requires
        opcode == 0x2030 || opcode == 0x2022 || opcode == 0x1405 || opcode == 0x2013 || opcode
            == 0x20A1,
        heard(
            device,
            Event::CommandComplete {
                num_hci_command_packets: packets,
                command_opcode: opcode,
                return_parameters: ReturnParameters::Status { status },
            },
            after,
            log_before,
            log_after,
        ),
    ensures
        status != 0 ==> control_given_up(device, after, opcode, status),
        status == 0 ==> after == device,
        log_after == log_before,
{
    lemma_commands_none(log_before, device.controller_id);
    let pending = device.le.pending_connection_controls;
    lemma_first_pending(pending, opcode);
    if status != 0 {
        match crate::le_link::first_with_opcode(pending, opcode) {
            Some(index) => {
                assert(pending[index] == (pending[index].0, opcode));
            },
            None => {},
        }
    }
}

/// The LE features of a peer are kept with its connection; where they could not
/// be read, that is noted.
pub proof fn lemma_peer_features(
    device: DeviceView,
    after: DeviceView,
    status: u8,
    handle: u16,
    features: [u8; 8],
    log_before: Seq<HostAction>,
    log_after: Seq<HostAction>,
)
    requires
        heard_le(
            device,
            LeMetaEvent::ReadRemoteFeaturesComplete {
                status,
                connection_handle: handle,
                le_features: features,
            },
            after,
            log_before,
            log_after,
        ),
    ensures
        !device.le.le_connections.contains_key(handle) ==> after == device,
        device.le.le_connections.contains_key(handle) && status == 0 ==> after == (DeviceView {
            le: LeView {
                le_connections: device.le.le_connections.insert(
                    handle,
                    LeConnectionInfoView {
                        peer_le_features: Some(features),
                        ..device.le.le_connections[handle]
                    },
                ),
                ..device.le
            },
            ..device
        }),
        device.le.le_connections.contains_key(handle) && status != 0 ==> after == (DeviceView {
            le: LeView {
                connection_feature_errors: device.le.connection_feature_errors.push(
                    ConnectionFeatureError {
                        transport: ConnectionFeatureTransport::Le,
                        connection_handle: handle,
                        page_number: None,
                        status,
                    },
                ),
                ..device.le
            },
            ..device
        }),
        log_after == log_before,
{
    lemma_commands_none(log_before, device.controller_id);
}

} // verus!
