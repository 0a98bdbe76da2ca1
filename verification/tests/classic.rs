use bumble_host::classic::{inquiry_responses, ClassicInquiryResultInfo, RemoteNameError};
use bumble_host::hci::HCI_REMOTE_NAME_REQUEST_COMMAND;
use bumble_host::transport::OutgoingPacket;
use bumble_host::{
    Address, AddressType, ClassicPairingEvent, Command, ConnectionFeatureError,
    ConnectionFeatureTransport, Device, DeviceEvent, DevicePowerError, Event, FollowUp, HciPacket,
    QueuedTransport, RemoteNameResult,
};

fn peer(last: u8) -> Address {
    Address::from_bytes([last, 0, 0, 0, 0, 0], AddressType::PUBLIC_DEVICE)
}

fn connected(handle: u16, address: Address, encryption_enabled: u8) -> HciPacket {
    HciPacket::Event(Event::ConnectionComplete {
        status: 0,
        connection_handle: handle,
        bd_addr: address,
        link_type: 1,
        encryption_enabled,
    })
}

fn named(address: Address, name: &[u8]) -> HciPacket {
    let mut remote_name = [0u8; 248];
    remote_name[..name.len()].copy_from_slice(name);
    HciPacket::Event(Event::RemoteNameRequestComplete {
        status: 0,
        bd_addr: address,
        remote_name,
    })
}

fn deliver(device: &mut Device, link: &mut QueuedTransport, packets: Vec<HciPacket>) {
    for packet in packets {
        link.incoming.push(packet);
        assert!(device.poll(link));
        device.take_follow_up();
    }
}

fn sent(link: &mut QueuedTransport) -> Vec<Command> {
    link.outgoing
        .drain(..)
        .map(|packet| match packet {
            OutgoingPacket::Command { command, .. } => command,
            _ => unreachable!(),
        })
        .collect()
}

#[test]
fn connecting_device_is_central_and_accepting_one_takes_its_role() {
    let mut device = Device::new(0);
    let mut link = QueuedTransport::new();
    device.connect_classic(&mut link, peer(1));
    device.accept_classic(&mut link, peer(2));
    device.accept_classic_with_role(&mut link, peer(3), 0);
    deliver(
        &mut device,
        &mut link,
        vec![
            connected(0x20, peer(1), 0),
            connected(0x21, peer(2), 0),
            connected(0x22, peer(3), 0),
            connected(0x23, peer(4), 0),
        ],
    );
    let role = |handle: u16| device.classic_connection(handle).unwrap().role;
    assert_eq!(role(0x20), 0);
    assert_eq!(role(0x21), 1);
    assert_eq!(role(0x22), 0);
    assert_eq!(role(0x23), 0);
    assert_eq!(device.classic_connection_handle(), Some(0x23));
    assert_eq!(
        device.classic_connection_handle_for_peer(&peer(2)),
        Some(0x21)
    );
    assert!(device.select_classic_connection(0x21));
    assert_eq!(device.classic_connection_role(), Some(1));
    let handles: Vec<u16> = device
        .classic_connections()
        .iter()
        .map(|connection| connection.connection_handle)
        .collect();
    assert_eq!(handles, vec![0x20, 0x21, 0x22, 0x23]);
}

#[test]
fn remote_name_stops_at_zero_and_reaches_every_connection_of_the_peer() {
    let mut device = Device::new(0);
    let mut link = QueuedTransport::new();
    deliver(&mut device, &mut link, vec![connected(0x20, peer(1), 0)]);
    device.request_remote_name(&mut link, peer(1));
    assert!(device.request_remote_name_on_handle(&mut link, 0x20));
    assert!(!device.request_remote_name_on_handle(&mut link, 0x99));
    assert!(device.is_remote_name_pending(&peer(1)));
    assert_eq!(device.pending_remote_name_count(), 2);
    deliver(&mut device, &mut link, vec![named(peer(1), "Größe".as_bytes())]);
    assert_eq!(device.pending_remote_name_count(), 1);
    assert_eq!(
        device.classic_connection(0x20).unwrap().peer_name,
        Some("Größe".to_owned())
    );
    assert_eq!(
        device.take_classic_remote_names(),
        vec![(0, peer(1), "Größe".to_owned())]
    );
    assert_eq!(
        device.take_classic_remote_name_results(),
        vec![RemoteNameResult {
            peer_address: peer(1),
            result: Ok("Größe".to_owned()),
        }]
    );
    deliver(&mut device, &mut link, vec![named(peer(1), b"x")]);
    assert!(!device.is_remote_name_pending(&peer(1)));
}

#[test]
fn undecodable_remote_name_is_a_failure() {
    let mut device = Device::new(0);
    let mut link = QueuedTransport::new();
    device.request_remote_name(&mut link, peer(1));
    deliver(&mut device, &mut link, vec![named(peer(1), &[b'o', b'k', 0xFF, b'x'])]);
    let results = device.take_classic_remote_name_results();
    assert_eq!(results.len(), 1);
    assert!(matches!(
        results[0].result,
        Err(RemoteNameError::InvalidUtf8 {
            valid_up_to: 2,
            error_len: Some(1)
        })
    ));
    assert!(device.take_classic_remote_names().is_empty());
    // The last character breaks off.
    deliver(&mut device, &mut link, vec![named(peer(1), &[b'o', 0xE2, 0x82])]);
    assert!(matches!(
        device.take_classic_remote_name_results()[0].result,
        Err(RemoteNameError::InvalidUtf8 {
            valid_up_to: 1,
            error_len: None
        })
    ));
}

#[test]
fn refused_remote_name_command_fails_the_oldest_request() {
    let mut device = Device::new(0);
    let mut link = QueuedTransport::new();
    device.request_remote_name(&mut link, peer(1));
    device.request_remote_name(&mut link, peer(2));
    deliver(
        &mut device,
        &mut link,
        vec![HciPacket::Event(Event::CommandStatus {
            status: 0x0C,
            num_hci_command_packets: 1,
            command_opcode: HCI_REMOTE_NAME_REQUEST_COMMAND,
        })],
    );
    assert!(!device.is_remote_name_pending(&peer(1)));
    assert!(device.is_remote_name_pending(&peer(2)));
    assert_eq!(
        device.take_classic_remote_name_results(),
        vec![RemoteNameResult {
            peer_address: peer(1),
            result: Err(RemoteNameError::HciStatus(0x0C)),
        }]
    );
}

#[test]
fn inquiry_is_restarted_until_discovery_stops() {
    let mut device = Device::new(0);
    let mut link = QueuedTransport::new();
    device.start_discovery(&mut link, true);
    assert!(device.is_discovering());
    assert!(device.discovery_auto_restart_enabled());
    let start = sent(&mut link);
    assert_eq!(start.len(), 2);
    assert!(matches!(start[0], Command::WriteInquiryMode { .. }));
    assert!(matches!(start[1], Command::Inquiry { .. }));

    deliver(
        &mut device,
        &mut link,
        vec![HciPacket::Event(Event::InquiryComplete { status: 0 })],
    );
    assert_eq!(sent(&mut link), start);
    device.stop_discovery(&mut link);
    assert_eq!(sent(&mut link), vec![Command::InquiryCancel]);
    assert!(!device.is_discovering());
    deliver(
        &mut device,
        &mut link,
        vec![HciPacket::Event(Event::InquiryComplete { status: 0 })],
    );
    assert!(link.outgoing.is_empty());
    assert_eq!(device.take_classic_inquiry_complete(), vec![0, 0]);
}

#[test]
fn inquiry_event_is_split_into_responses() {
    let responses = inquiry_responses(&[peer(1), peer(2)], &[0x240404], &[-40, -50]);
    assert_eq!(
        responses,
        vec![
            ClassicInquiryResultInfo {
                peer_address: peer(1),
                class_of_device: 0x240404,
                rssi: Some(-40),
                extended_inquiry_response: vec![],
            },
            ClassicInquiryResultInfo {
                peer_address: peer(2),
                class_of_device: 0,
                rssi: Some(-50),
                extended_inquiry_response: vec![],
            },
        ]
    );
    let mut device = Device::new(0);
    let mut link = QueuedTransport::new();
    for result in responses {
        deliver(
            &mut device,
            &mut link,
            vec![HciPacket::Event(Event::InquiryResponse { result })],
        );
    }
    assert_eq!(device.take_classic_inquiry_results(), vec![peer(1), peer(2)]);
    assert_eq!(device.take_classic_inquiry_result_details().len(), 2);
    assert_eq!(device.take_device_events().len(), 2);
}

#[test]
fn discoverability_needs_a_name_that_fits() {
    let mut device = Device::new(0);
    let mut link = QueuedTransport::new();
    assert_eq!(device.set_discoverable(&mut link, false), Ok(()));
    assert!(link.outgoing.is_empty());
    device.config.classic_enabled = true;
    device.config.name = "n".repeat(239);
    assert_eq!(
        device.set_discoverable(&mut link, true),
        Err(DevicePowerError::LocalNameTooLong {
            actual: 239,
            maximum: 238,
        })
    );
    assert!(link.outgoing.is_empty());
    device.config.name = "ab".to_owned();
    assert_eq!(device.set_discoverable(&mut link, true), Ok(()));
    let mut response = [0u8; 240];
    response[..4].copy_from_slice(&[3, 0x09, b'a', b'b']);
    assert_eq!(device.classic_inquiry_response(), Some(&response));
    assert_eq!(
        sent(&mut link),
        vec![
            Command::WriteExtendedInquiryResponse {
                fec_required: 0,
                extended_inquiry_response: response,
            },
            Command::WriteScanEnable { scan_enable: 3 },
        ]
    );
    device.set_connectable(&mut link, false);
    assert_eq!(
        sent(&mut link),
        vec![Command::WriteScanEnable { scan_enable: 1 }]
    );
}

#[test]
fn pairing_events_of_one_session_are_taken() {
    let mut device = Device::new(0);
    let mut link = QueuedTransport::new();
    deliver(
        &mut device,
        &mut link,
        vec![
            HciPacket::Event(Event::PinCodeRequest { bd_addr: peer(1) }),
            HciPacket::Event(Event::PinCodeRequest { bd_addr: peer(2) }),
            HciPacket::Event(Event::AuthenticationComplete {
                status: 0,
                connection_handle: 0x20,
            }),
        ],
    );
    assert_eq!(
        device.take_classic_pairing_events_for(0x20, &peer(1)),
        vec![
            ClassicPairingEvent::PinCodeRequest {
                peer_address: peer(1)
            },
            ClassicPairingEvent::AuthenticationComplete {
                status: 0,
                connection_handle: 0x20,
            },
        ]
    );
    assert_eq!(
        device.take_classic_pairing_events(),
        vec![ClassicPairingEvent::PinCodeRequest {
            peer_address: peer(2)
        }]
    );
}

#[test]
fn classic_encryption_is_looked_into_before_it_is_announced() {
    let mut device = Device::new(0);
    let mut link = QueuedTransport::new();
    deliver(&mut device, &mut link, vec![connected(0x20, peer(1), 0)]);
    assert!(device.set_classic_encryption(&mut link, true));
    assert!(!device.set_classic_encryption_on_handle(&mut link, 0x21, true));
    assert!(device.authenticate_classic_on_handle(&mut link, 0x20));
    device.take_device_events();
    link.incoming.push(HciPacket::Event(Event::EncryptionChangeV2 {
        status: 0,
        connection_handle: 0x20,
        encryption_enabled: 2,
        encryption_key_size: 16,
    }));
    assert!(device.poll(&mut link));
    assert!(device.is_classic_encrypted());
    assert!(device.take_device_events().is_empty());
    match device.take_follow_up() {
        Some(FollowUp::AdvancePairing {
            connection_handle,
            encryption_enabled,
            encryption_key_size,
        }) => device.announce_encryption_change(
            0,
            connection_handle,
            encryption_enabled,
            encryption_key_size,
        ),
        _ => unreachable!(),
    }
    assert_eq!(
        device.take_device_events(),
        vec![DeviceEvent::EncryptionChange {
            status: 0,
            connection_handle: 0x20,
            encryption_enabled: 2,
            encryption_key_size: 16,
        }]
    );
    assert!(device.is_classic_encrypted_on_handle(0x20));
}

#[test]
fn remote_features_are_read_page_by_page() {
    let mut device = Device::new(0);
    let mut link = QueuedTransport::new();
    deliver(&mut device, &mut link, vec![connected(0x20, peer(1), 0)]);
    assert!(device.read_remote_classic_features_on_handle(&mut link, 0x20));
    assert!(!device.read_remote_classic_features_on_handle(&mut link, 0x21));
    assert_eq!(
        sent(&mut link),
        vec![Command::ReadRemoteSupportedFeatures {
            connection_handle: 0x20
        }]
    );
    let page = |page_number: u8, status: u8| {
        HciPacket::Event(Event::ReadRemoteExtendedFeaturesComplete {
            status,
            connection_handle: 0x20,
            page_number,
            maximum_page_number: 1,
            extended_lmp_features: [page_number + 1; 8],
        })
    };
    deliver(
        &mut device,
        &mut link,
        vec![
            HciPacket::Event(Event::ReadRemoteSupportedFeaturesComplete {
                status: 0,
                connection_handle: 0x20,
                lmp_features: [0x80; 8],
            }),
            page(0, 0),
            page(1, 0),
            page(1, 0x0C),
        ],
    );
    let ask = |page_number: u8| Command::ReadRemoteExtendedFeatures {
        connection_handle: 0x20,
        page_number,
    };
    assert_eq!(sent(&mut link), vec![ask(0), ask(1)]);
    let connection = device.classic_connection(0x20).unwrap();
    assert_eq!(connection.peer_lmp_max_page_number, Some(1));
    assert_eq!(connection.peer_lmp_features.get(&0), Some(&[1; 8]));
    assert_eq!(connection.peer_lmp_features.get(&1), Some(&[2; 8]));
    assert_eq!(
        device.take_connection_feature_errors(),
        vec![ConnectionFeatureError {
            transport: ConnectionFeatureTransport::Classic,
            connection_handle: 0x20,
            page_number: Some(1),
            status: 0x0C,
        }]
    );
}

#[test]
fn connection_requests_are_accepted_as_configured() {
    let mut device = Device::new(0);
    let mut link = QueuedTransport::new();
    let request = |link_type: u8| {
        HciPacket::Event(Event::ConnectionRequest {
            bd_addr: peer(1),
            class_of_device: 0x240404,
            link_type,
        })
    };
    device.config.classic_enabled = true;
    device.config.classic_accept_any = false;
    deliver(&mut device, &mut link, vec![request(1), request(2)]);
    assert!(link.outgoing.is_empty());
    assert_eq!(device.take_classic_connection_requests(), vec![peer(1)]);
    assert_eq!(device.take_synchronous_requests(), vec![(peer(1), 2)]);
    device.config.classic_accept_any = true;
    deliver(&mut device, &mut link, vec![request(1)]);
    assert_eq!(
        sent(&mut link),
        vec![Command::AcceptConnectionRequest {
            bd_addr: peer(1),
            role: 1,
        }]
    );
    assert!(device.take_classic_connection_requests().is_empty());
    assert_eq!(device.take_device_events().len(), 3);
}

#[test]
fn role_mode_and_quality_changes_reach_the_connection() {
    let mut device = Device::new(0);
    let mut link = QueuedTransport::new();
    deliver(
        &mut device,
        &mut link,
        vec![
            connected(0x20, peer(1), 0),
            HciPacket::Event(Event::RoleChange {
                status: 0,
                bd_addr: peer(1),
                new_role: 1,
            }),
            HciPacket::Event(Event::ModeChange {
                status: 0,
                connection_handle: 0x20,
                current_mode: 2,
                interval: 80,
            }),
            HciPacket::Event(Event::QosSetupComplete {
                status: 0,
                connection_handle: 0x20,
                service_type: 2,
            }),
        ],
    );
    let connection = device.classic_connection(0x20).unwrap();
    assert_eq!(connection.role, 1);
    assert_eq!(connection.classic_mode, 2);
    assert_eq!(connection.classic_interval, 80);
    assert_eq!(connection.qos_service_type, Some(2));
    assert!(device.enter_sniff_mode_on_handle(&mut link, 0x20, 80, 4, 1));
    assert!(!device.exit_sniff_mode_on_handle(&mut link, 0x21));
}
