use bumble_host::hci::{
    LeMetaEvent, HCI_LE_CONNECTION_UPDATE_COMMAND, HCI_LE_READ_PHY_COMMAND,
};
use bumble_host::hci::ReturnParameters;
use bumble_host::transport::OutgoingPacket;
use bumble_host::{
    pump, Address, AddressType, Command, Device, DeviceConnectionTransport, DeviceEvent, Event,
    FollowUp, HciPacket, LeConnectionControlEvent, LeConnectionParameters,
    LeConnectionUpdateParameters, LePhy, QueuedTransport,
};

fn peer(last: u8) -> Address {
    Address::from_bytes([last, 0, 0, 0, 0, 0xC0], AddressType::RANDOM_DEVICE)
}

fn connected(handle: u16, role: u8, address: Address) -> HciPacket {
    HciPacket::Event(Event::LeMeta(LeMetaEvent::ConnectionComplete {
        status: 0,
        connection_handle: handle,
        role,
        peer_address_type: 1,
        peer_address: address,
        connection_interval: 24,
        peripheral_latency: 1,
        supervision_timeout: 72,
        central_clock_accuracy: 0,
    }))
}

fn disconnected(status: u8, handle: u16, reason: u8) -> HciPacket {
    HciPacket::Event(Event::DisconnectionComplete {
        status,
        connection_handle: handle,
        reason,
    })
}

/// Deliver packets one after the other, and forget what they leave to be done.
fn deliver(device: &mut Device, link: &mut QueuedTransport, packets: Vec<HciPacket>) {
    for packet in packets {
        link.incoming.push(packet);
        assert!(device.poll(link));
        device.take_follow_up();
    }
}

fn sent(link: &mut QueuedTransport) -> Vec<Command> {
    link.outgoing
        .drain(..)
        .map(|packet| match packet {
            OutgoingPacket::Command { command, .. } => command,
            _ => unreachable!(),
        })
        .collect()
}

#[test]
fn le_connection_is_recorded_selected_and_announced() {
    let mut device = Device::new(3);
    let mut link = QueuedTransport::new();
    assert!(device.connect_le(&mut link, peer(1)));
    assert!(!device.connect_le(&mut link, peer(2)));
    assert!(device.is_le_connecting());
    assert_eq!(
        link.outgoing,
        vec![OutgoingPacket::Command {
            controller_id: 3,
            command: Command::LeCreateConnection {
                le_scan_interval: 0x0010,
                le_scan_window: 0x0010,
                initiator_filter_policy: 0,
                peer_address_type: 1,
                peer_address: peer(1),
                own_address_type: 1,
                connection_interval_min: 24,
                connection_interval_max: 40,
                max_latency: 0,
                supervision_timeout: 42,
                min_ce_length: 0,
                max_ce_length: 0,
            },
        }]
    );

    link.incoming.push(connected(0x40, 0, peer(1)));
    assert!(device.poll(&mut link));
    assert!(matches!(
        device.take_follow_up(),
        Some(FollowUp::RegisterLeConnection {
            connection_handle: 0x40,
            role: 0,
            ..
        })
    ));
    assert!(!device.is_le_connecting());
    assert_eq!(device.connection_handle(), Some(0x40));
    assert_eq!(device.connection_role(), Some(0));
    assert_eq!(device.peer_address(), Some(&peer(1)));
    let connection = device.le_connection(0x40).unwrap();
    assert_eq!(
        connection.parameters,
        LeConnectionParameters {
            connection_interval: 24,
            peripheral_latency: 1,
            supervision_timeout: 72,
            subrate_factor: 1,
            continuation_number: 0,
        }
    );
    assert_eq!(connection.phy, LePhy { tx_phy: 1, rx_phy: 1 });
    let events = device.take_device_events();
    assert_eq!(events.len(), 1);
    assert!(matches!(
        &events[0],
        DeviceEvent::LeConnectionEstablished(connection) if connection.connection_handle == 0x40
    ));
    assert!(device.take_device_events().is_empty());
}

#[test]
fn failed_le_connection_is_announced_and_can_be_tried_again() {
    let mut device = Device::new(0);
    let mut link = QueuedTransport::new();
    assert!(device.connect_le_extended(&mut link, peer(1)));
    deliver(
        &mut device,
        &mut link,
        vec![HciPacket::Event(Event::LeMeta(
            LeMetaEvent::EnhancedConnectionComplete {
                status: 0x3E,
                connection_handle: 0,
                role: 0,
                peer_address: peer(1),
                connection_interval: 0,
                peripheral_latency: 0,
                supervision_timeout: 0,
            },
        ))],
    );
    assert!(!device.is_connected());
    assert_eq!(
        device.take_device_events(),
        vec![DeviceEvent::ConnectionFailed {
            transport: DeviceConnectionTransport::Le,
            peer_address: peer(1),
            status: 0x3E,
        }]
    );
    assert!(!device.is_le_connecting());
    assert!(device.connect_le(&mut link, peer(1)));
    assert!(device.cancel_le_connection(&mut link));
    assert!(!device.cancel_le_connection(&mut link));
}

#[test]
fn disconnection_forgets_one_handle_and_moves_the_selection() {
    let mut device = Device::new(0);
    let mut link = QueuedTransport::new();
    deliver(
        &mut device,
        &mut link,
        vec![
            connected(0x42, 0, peer(2)),
            connected(0x40, 1, peer(1)),
            connected(0x41, 0, peer(3)),
        ],
    );
    assert_eq!(device.connection_handle(), Some(0x41));
    let handles: Vec<u16> = device
        .le_connections()
        .iter()
        .map(|connection| connection.connection_handle)
        .collect();
    assert_eq!(handles, vec![0x40, 0x41, 0x42]);
    assert_eq!(device.connection_handle_for_peer(&peer(2)), Some(0x42));
    assert_eq!(device.connection_handle_for_peer(&peer(9)), None);

    assert!(device.disconnect(&mut link, 0x13));
    assert!(device.is_disconnecting());
    assert!(device.is_disconnecting_on_handle(0x41));
    assert_eq!(
        sent(&mut link),
        vec![Command::Disconnect {
            connection_handle: 0x41,
            reason: 0x13,
        }]
    );
    device.take_device_events();
    link.incoming.push(disconnected(0, 0x41, 0x16));
    assert!(device.poll(&mut link));
    assert!(matches!(
        device.take_follow_up(),
        Some(FollowUp::ReleaseConnection {
            connection_handle: 0x41
        })
    ));
    assert!(!device.is_connected_on_handle(0x41));
    assert!(device.is_connected_on_handle(0x40));
    assert!(device.is_connected_on_handle(0x42));
    assert_eq!(device.connection_handle(), Some(0x40));
    assert_eq!(device.connection_role(), Some(1));
    assert!(!device.is_disconnecting());
    assert_eq!(
        device.take_device_events(),
        vec![DeviceEvent::Disconnected {
            connection_handle: 0x41,
            reason: 0x16,
        }]
    );
}

#[test]
fn failed_disconnection_leaves_the_connection() {
    let mut device = Device::new(0);
    let mut link = QueuedTransport::new();
    deliver(&mut device, &mut link, vec![connected(0x40, 0, peer(1))]);
    assert!(device.disconnect_handle(&mut link, 0x40, 0x13));
    device.take_device_events();
    deliver(
        &mut device,
        &mut link,
        vec![disconnected(0x0C, 0x40, 0), disconnected(0x0C, 0x77, 0)],
    );
    assert!(device.is_connected_on_handle(0x40));
    assert!(!device.is_disconnecting());
    assert_eq!(
        device.take_device_events(),
        vec![DeviceEvent::DisconnectionFailed {
            connection_handle: 0x40,
            status: 0x0C,
        }]
    );
}

#[test]
fn transport_loss_flushes_and_ends_every_connection_in_order() {
    let mut device = Device::new(0);
    let mut link = QueuedTransport::new();
    deliver(
        &mut device,
        &mut link,
        vec![
            connected(0x42, 0, peer(2)),
            connected(0x40, 0, peer(1)),
            HciPacket::Event(Event::SynchronousConnectionComplete {
                status: 0,
                connection_handle: 0x41,
                bd_addr: peer(4),
                link_type: 2,
                air_mode: 3,
            }),
        ],
    );
    device.take_device_events();
    device.on_transport_lost();
    assert_eq!(
        device.take_device_events(),
        vec![
            DeviceEvent::Flush,
            DeviceEvent::Disconnected {
                connection_handle: 0x40,
                reason: 0,
            },
            DeviceEvent::Disconnected {
                connection_handle: 0x41,
                reason: 0,
            },
            DeviceEvent::Disconnected {
                connection_handle: 0x42,
                reason: 0,
            },
        ]
    );
    assert!(!device.is_connected());
    assert!(device.synchronous_connections().is_empty());
    assert_eq!(device.connection_handle(), None);
}

#[test]
fn connection_update_is_answered_once_and_kept() {
    let mut device = Device::new(0);
    let mut link = QueuedTransport::new();
    let parameters = LeConnectionUpdateParameters {
        connection_interval_min: 6,
        connection_interval_max: 12,
        max_latency: 0,
        supervision_timeout: 100,
        min_ce_length: 0,
        max_ce_length: 0,
    };
    assert!(!device.update_connection_parameters_on_handle(&mut link, 0x40, parameters));
    assert!(link.outgoing.is_empty());
    deliver(&mut device, &mut link, vec![connected(0x40, 0, peer(1))]);
    assert!(device.update_connection_parameters_on_handle(&mut link, 0x40, parameters));
    assert_eq!(
        sent(&mut link),
        vec![Command::LeConnectionUpdate {
            connection_handle: 0x40,
            connection_interval_min: 6,
            connection_interval_max: 12,
            max_latency: 0,
            supervision_timeout: 100,
            min_ce_length: 0,
            max_ce_length: 0,
        }]
    );
    deliver(
        &mut device,
        &mut link,
        vec![HciPacket::Event(Event::LeMeta(
            LeMetaEvent::ConnectionUpdateComplete {
                status: 0,
                connection_handle: 0x40,
                connection_interval: 9,
                peripheral_latency: 0,
                supervision_timeout: 100,
            },
        ))],
    );
    assert_eq!(
        device.take_connection_control_events(),
        vec![LeConnectionControlEvent::ConnectionParametersUpdate {
            status: 0,
            connection_handle: 0x40,
            parameters: LeConnectionParameters {
                connection_interval: 9,
                peripheral_latency: 0,
                supervision_timeout: 100,
                subrate_factor: 1,
                continuation_number: 0,
            },
        }]
    );
    // The request was settled: a later refusal names no connection.
    deliver(
        &mut device,
        &mut link,
        vec![HciPacket::Event(Event::CommandStatus {
            status: 0x0C,
            num_hci_command_packets: 1,
            command_opcode: HCI_LE_CONNECTION_UPDATE_COMMAND,
        })],
    );
    assert_eq!(
        device.take_connection_control_events(),
        vec![LeConnectionControlEvent::CommandStatus {
            command_opcode: HCI_LE_CONNECTION_UPDATE_COMMAND,
            status: 0x0C,
            connection_handle: None,
        }]
    );
}

#[test]
fn phy_and_data_length_requests_are_checked() {
    let mut device = Device::new(0);
    let mut link = QueuedTransport::new();
    deliver(&mut device, &mut link, vec![connected(0x40, 0, peer(1))]);
    assert!(!device.set_data_length_on_handle(&mut link, 0x40, 0x1A, 0x0148));
    assert!(!device.set_data_length_on_handle(&mut link, 0x40, 0xFC, 0x0148));
    assert!(!device.set_data_length_on_handle(&mut link, 0x40, 0x1B, 0x0147));
    assert!(!device.set_data_length_on_handle(&mut link, 0x40, 0x1B, 0x4291));
    assert!(device.set_data_length_on_handle(&mut link, 0x40, 0xFB, 0x4290));
    assert!(device.set_phy_on_handle(&mut link, 0x40, Some(2), None, 0));
    device.set_default_phy(&mut link, None, None);
    assert!(device.read_phy_on_handle(&mut link, 0x40));
    assert_eq!(
        sent(&mut link),
        vec![
            Command::LeSetDataLength {
                connection_handle: 0x40,
                tx_octets: 0xFB,
                tx_time: 0x4290,
            },
            Command::LeSetPhy {
                connection_handle: 0x40,
                all_phys: 2,
                tx_phys: 2,
                rx_phys: 0,
                phy_options: 0,
            },
            Command::LeSetDefaultPhy {
                all_phys: 3,
                tx_phys: 0,
                rx_phys: 0,
            },
            Command::LeReadPhy {
                connection_handle: 0x40,
            },
        ]
    );
    deliver(
        &mut device,
        &mut link,
        vec![HciPacket::Event(Event::CommandComplete {
            num_hci_command_packets: 1,
            command_opcode: HCI_LE_READ_PHY_COMMAND,
            return_parameters: ReturnParameters::LeReadPhy {
                status: 0,
                connection_handle: 0x40,
                tx_phy: 2,
                rx_phy: 3,
            },
        })],
    );
    assert_eq!(
        device.le_connection(0x40).unwrap().phy,
        LePhy { tx_phy: 2, rx_phy: 3 }
    );
}

#[test]
fn selection_follows_the_application() {
    let mut device = Device::new(0);
    let mut link = QueuedTransport::new();
    deliver(
        &mut device,
        &mut link,
        vec![connected(0x40, 0, peer(1)), connected(0x41, 1, peer(2))],
    );
    assert!(device.select_connection(0x40));
    assert_eq!(device.peer_address(), Some(&peer(1)));
    assert!(!device.select_connection(0x50));
    assert_eq!(device.connection_handle(), Some(0x40));
}

#[test]
fn packets_wait_behind_what_is_left_to_be_done() {
    let mut device = Device::new(0);
    let mut link = QueuedTransport::new();
    link.incoming.push(connected(0x40, 0, peer(1)));
    link.incoming.push(connected(0x41, 0, peer(2)));
    assert!(device.poll(&mut link));
    assert!(device.is_connected_on_handle(0x40));
    assert!(!device.is_connected_on_handle(0x41));
    assert!(device.take_follow_up().is_some());
    device.resume(&mut link);
    assert!(device.is_connected_on_handle(0x41));
    assert!(device.take_follow_up().is_some());
    device.resume(&mut link);
    assert!(device.take_follow_up().is_none());
}

#[test]
fn pump_ends_when_nothing_flows() {
    let mut devices = [Device::new(0), Device::new(1)];
    let mut link = QueuedTransport::new();
    link.incoming.push(HciPacket::Event(Event::Vendor {
        data: vec![1, 2, 3],
    }));
    pump(&mut link, &mut devices);
    assert_eq!(devices[0].take_vendor_events(), vec![vec![1, 2, 3]]);
    assert!(devices[1].take_vendor_events().is_empty());
    assert_eq!(
        devices[0].take_device_events(),
        vec![DeviceEvent::VendorEvent(vec![1, 2, 3])]
    );
}

#[test]
fn listeners_get_free_identifiers() {
    let mut device = Device::new(0);
    let first = device.add_event_listener();
    let second = device.add_event_listener();
    assert_eq!((first, second), (1, 2));
    assert!(device.remove_event_listener(first));
    assert!(!device.remove_event_listener(first));
    assert_eq!(device.add_event_listener(), 3);
}
