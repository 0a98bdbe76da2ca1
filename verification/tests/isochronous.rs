use bumble_host::hci::{
    IsoDataPacket, LeMetaEvent, ReturnParameters, HCI_LE_CREATE_BIG_COMMAND,
    HCI_LE_CREATE_CIS_COMMAND, HCI_LE_READ_ISO_TX_SYNC_COMMAND,
    HCI_LE_REMOVE_ISO_DATA_PATH_COMMAND, HCI_LE_SETUP_ISO_DATA_PATH_COMMAND,
    HCI_LE_SET_CIG_PARAMETERS_COMMAND,
};
use bumble_host::iso::{iso_fragments, IsoSduAssembler};
use bumble_host::transport::OutgoingPacket;
use bumble_host::{
    Address, AddressType, BigParameters, BigSyncParameters, CigParameters, CisControlEvent,
    CisParameters, CisRequestInfo, Command, Device, Event, HciPacket, IsoControlEvent,
    IsoDataPathParameters, IsoSdu, IsoTxSyncInfo, PeriodicAdvertisingSyncInfo, QueuedTransport,
};

fn peer(last: u8) -> Address {
    Address::from_bytes([last, 0, 0, 0, 0, 0xC0], AddressType::RANDOM_DEVICE)
}

fn event(event: LeMetaEvent) -> HciPacket {
    HciPacket::Event(Event::LeMeta(event))
}

fn connected(handle: u16) -> HciPacket {
    event(LeMetaEvent::EnhancedConnectionComplete {
        status: 0,
        connection_handle: handle,
        role: 0,
        peer_address: peer(1),
        connection_interval: 24,
        peripheral_latency: 0,
        supervision_timeout: 72,
    })
}

fn cis_established(status: u8, handle: u16) -> HciPacket {
    event(LeMetaEvent::CisEstablished {
        status,
        connection_handle: handle,
        cig_sync_delay: 1,
        cis_sync_delay: 2,
        transport_latency_c_to_p: 3,
        transport_latency_p_to_c: 4,
        phy_c_to_p: 1,
        phy_p_to_c: 1,
        nse: 2,
        bn_c_to_p: 1,
        bn_p_to_c: 1,
        ft_c_to_p: 1,
        ft_p_to_c: 1,
        max_pdu_c_to_p: 120,
        max_pdu_p_to_c: 120,
        iso_interval: 8,
    })
}

fn completed(command_opcode: u16, return_parameters: ReturnParameters) -> HciPacket {
    HciPacket::Event(Event::CommandComplete {
        num_hci_command_packets: 1,
        command_opcode,
        return_parameters,
    })
}

fn refused(command_opcode: u16) -> HciPacket {
    HciPacket::Event(Event::CommandStatus {
        status: 0x0C,
        num_hci_command_packets: 1,
        command_opcode,
    })
}

fn deliver(device: &mut Device, link: &mut QueuedTransport, packets: Vec<HciPacket>) {
    for packet in packets {
        link.incoming.push(packet);
        assert!(device.poll(link));
        device.take_follow_up();
    }
}

fn sent(link: &mut QueuedTransport) -> Vec<Command> {
    link.outgoing
        .drain(..)
        .map(|packet| match packet {
            OutgoingPacket::Command { command, .. } => command,
            _ => unreachable!(),
        })
        .collect()
}

#[test]
fn group_parameters_are_normalized_and_bounded() {
    let mut silent = CisParameters::new(5);
    silent.max_sdu_c_to_p = 0;
    let normalized = silent.normalized();
    assert_eq!(normalized.phy_c_to_p, silent.phy_c_to_p);
    assert_eq!(normalized.rtn_c_to_p, 0);
    assert_eq!(normalized.rtn_p_to_c, silent.rtn_p_to_c);
    assert_eq!(normalized.normalized(), normalized);

    let mut device = Device::new(0);
    let mut link = QueuedTransport::new();
    assert!(!device.configure_cig(&mut link, 1, &[]));
    let mut parameters = CigParameters::new(1, vec![CisParameters::new(1)], 10_000, 0x0100_0000);
    assert!(!device.configure_cig_with_parameters(&mut link, &parameters));
    parameters.sdu_interval_p_to_c = 0x00FF_FFFF;
    assert!(device.configure_cig_with_parameters(&mut link, &parameters));
    assert!(device.configure_cig(&mut link, 2, &[7, 8]));
    let commands = sent(&mut link);
    assert_eq!(commands.len(), 2);
    assert!(matches!(
        &commands[1],
        Command::LeSetCigParameters {
            cig_id: 2,
            sdu_interval_c_to_p: 10_000,
            sdu_interval_p_to_c: 10_000,
            cis_id,
            ..
        } if *cis_id == vec![7, 8]
    ));
}

#[test]
fn configured_group_hands_out_its_handles() {
    let mut device = Device::new(0);
    let mut link = QueuedTransport::new();
    deliver(
        &mut device,
        &mut link,
        vec![completed(
            HCI_LE_SET_CIG_PARAMETERS_COMMAND,
            ReturnParameters::Raw {
                data: vec![0, 1, 2, 0x60, 0x00, 0x61, 0x00],
            },
        )],
    );
    assert_eq!(device.take_configured_cis_handles(), vec![0x60, 0x61]);
    assert_eq!(
        device.take_cis_control_events(),
        vec![CisControlEvent::CigConfigured {
            status: 0,
            cig_id: 1,
            connection_handles: vec![0x60, 0x61],
        }]
    );
}

#[test]
fn streams_are_asked_for_on_known_connections_only() {
    let mut device = Device::new(0);
    let mut link = QueuedTransport::new();
    assert!(!device.create_cis(&mut link, 0x60));
    deliver(&mut device, &mut link, vec![connected(0x40)]);
    assert!(!device.create_cis_pairs(&mut link, &[]));
    assert!(!device.create_cis_pairs(&mut link, &[(0x60, 0x40), (0x61, 0x41)]));
    assert!(link.outgoing.is_empty());
    assert!(device.create_cis(&mut link, 0x60));
    assert_eq!(
        sent(&mut link),
        vec![Command::LeCreateCis {
            cis_connection_handle: vec![0x60],
            acl_connection_handle: vec![0x40],
        }]
    );
    deliver(
        &mut device,
        &mut link,
        vec![
            refused(HCI_LE_CREATE_CIS_COMMAND),
            event(LeMetaEvent::CisRequest {
                acl_connection_handle: 0x40,
                cis_connection_handle: 0x62,
                cig_id: 1,
                cis_id: 2,
            }),
            cis_established(0x3E, 0x60),
        ],
    );
    assert_eq!(
        device.take_cis_requests(),
        vec![CisRequestInfo {
            acl_connection_handle: 0x40,
            cis_connection_handle: 0x62,
            cig_id: 1,
            cis_id: 2,
        }]
    );
    assert!(device.established_cis_handles().is_empty());
    let events = device.take_cis_control_events();
    assert_eq!(
        events[0],
        CisControlEvent::CommandStatus {
            command_opcode: HCI_LE_CREATE_CIS_COMMAND,
            status: 0x0C,
        }
    );
    assert!(matches!(
        events[1],
        CisControlEvent::Established { status: 0x3E, .. }
    ));
}

#[test]
fn data_path_is_set_up_and_removed_once() {
    let mut device = Device::new(0);
    let mut link = QueuedTransport::new();
    assert!(!device.setup_iso_data_path(&mut link, 0x60, 0));
    deliver(&mut device, &mut link, vec![cis_established(0, 0x60)]);
    assert_eq!(device.established_cis_handles(), vec![0x60]);
    assert!(!device.setup_iso_data_path(&mut link, 0x60, 2));
    assert!(device.setup_iso_data_path(&mut link, 0x60, 1));
    assert!(device.setup_iso_data_path(&mut link, 0x60, 1));
    assert_eq!(sent(&mut link).len(), 1);
    assert!(device.iso_data_path(0x60, 1).is_none());
    deliver(
        &mut device,
        &mut link,
        vec![completed(
            HCI_LE_SETUP_ISO_DATA_PATH_COMMAND,
            ReturnParameters::StatusAndConnectionHandle {
                status: 0,
                connection_handle: 0x60,
            },
        )],
    );
    assert_eq!(
        device.iso_data_path(0x60, 1),
        Some(&IsoDataPathParameters::hci(1))
    );
    assert!(!device.remove_iso_data_path(&mut link, 0x60, 0));
    assert!(!device.remove_iso_data_path(&mut link, 0x60, 4));
    // Only the installed direction is removed.
    assert!(device.remove_iso_data_path(&mut link, 0x60, 3));
    assert!(device.remove_iso_data_path(&mut link, 0x60, 3));
    assert_eq!(
        sent(&mut link),
        vec![Command::LeRemoveIsoDataPath {
            connection_handle: 0x60,
            data_path_direction: 2,
        }]
    );
    deliver(
        &mut device,
        &mut link,
        vec![completed(
            HCI_LE_REMOVE_ISO_DATA_PATH_COMMAND,
            ReturnParameters::StatusAndConnectionHandle {
                status: 0,
                connection_handle: 0x60,
            },
        )],
    );
    assert!(device.iso_data_path(0x60, 1).is_none());
    assert_eq!(
        device.take_iso_control_events(),
        vec![
            IsoControlEvent::DataPathSetup {
                status: 0,
                connection_handle: 0x60,
                parameters: IsoDataPathParameters::hci(1),
            },
            IsoControlEvent::DataPathRemoved {
                status: 0,
                connection_handle: 0x60,
                directions: 2,
            },
        ]
    );
}

#[test]
fn transmit_timing_is_kept() {
    let mut device = Device::new(0);
    let mut link = QueuedTransport::new();
    deliver(&mut device, &mut link, vec![cis_established(0, 0x60)]);
    assert!(device.read_iso_tx_sync(&mut link, 0x60));
    let sync = IsoTxSyncInfo {
        connection_handle: 0x60,
        packet_sequence_number: 9,
        tx_time_stamp: 77,
        time_offset: 3,
    };
    deliver(
        &mut device,
        &mut link,
        vec![completed(
            HCI_LE_READ_ISO_TX_SYNC_COMMAND,
            ReturnParameters::LeReadIsoTxSync {
                status: 0,
                connection_handle: 0x60,
                packet_sequence_number: 9,
                tx_time_stamp: 77,
                time_offset: 3,
            },
        )],
    );
    assert_eq!(device.iso_tx_sync(0x60), Some(&sync));
    assert_eq!(
        device.take_iso_control_events(),
        vec![IsoControlEvent::TxSync {
            status: 0,
            connection_handle: 0x60,
            sync: Some(sync),
        }]
    );
}

#[test]
fn units_are_numbered_and_split() {
    let mut device = Device::new(0);
    let mut link = QueuedTransport::new();
    assert!(!device.send_iso_sdu(&mut link, 0x60, &[1]));
    deliver(&mut device, &mut link, vec![cis_established(0, 0x60)]);
    assert!(!device.send_iso_sdu(&mut link, 0x60, &[0; 0x1000]));
    let unit: Vec<u8> = (0..1000u32).map(|number| number as u8).collect();
    assert!(device.send_iso_sdu(&mut link, 0x60, &[1, 2]));
    assert!(device.send_iso_sdu(&mut link, 0x60, &unit));
    let packets: Vec<IsoDataPacket> = link
        .outgoing
        .drain(..)
        .map(|packet| match packet {
            OutgoingPacket::Iso { packet, .. } => packet,
            _ => unreachable!(),
        })
        .collect();
    assert_eq!(packets.len(), 3);
    assert_eq!(packets[0].packet_sequence_number, Some(0));
    assert_eq!(packets[0].pb_flag, 0b10);
    assert_eq!(packets[0].data_total_length, 6);
    assert_eq!(packets[1].packet_sequence_number, Some(1));
    assert_eq!(packets[1].pb_flag, 0b00);
    assert_eq!(packets[1].data_total_length, 960);
    assert_eq!(packets[1].iso_sdu_length, Some(1000));
    assert_eq!(packets[2].pb_flag, 0b11);
    assert_eq!(packets[2].data_total_length, 44);
    assert_eq!(packets[2].packet_sequence_number, None);

    // What was split is joined again at the other end.
    let mut receiver = Device::new(1);
    let mut other_link = QueuedTransport::new();
    deliver(
        &mut receiver,
        &mut other_link,
        vec![cis_established(0, 0x60)],
    );
    for packet in packets {
        other_link.incoming.push(HciPacket::IsoData(packet));
    }
    assert!(receiver.poll(&mut other_link));
    assert!(receiver.take_iso_sdus(0x61).is_empty());
    assert_eq!(
        receiver.take_iso_sdus(0x60),
        vec![
            IsoSdu {
                connection_handle: 0x60,
                packet_sequence_number: 0,
                packet_status_flag: 0,
                data: vec![1, 2],
            },
            IsoSdu {
                connection_handle: 0x60,
                packet_sequence_number: 1,
                packet_status_flag: 0,
                data: unit,
            },
        ]
    );
}

#[test]
fn fragments_fit_and_join() {
    let unit: Vec<u8> = (0..30).collect();
    let packets = iso_fragments(0x60, 4, &unit, 12);
    let flags: Vec<u8> = packets.iter().map(|packet| packet.pb_flag).collect();
    assert_eq!(flags, vec![0b00, 0b01, 0b11]);
    assert!(packets
        .iter()
        .all(|packet| packet.data_total_length <= 12));
    let mut assembler = IsoSduAssembler {
        pending: None,
        expected_length: 0,
    };
    let mut joined = None;
    for packet in packets {
        assert!(joined.is_none());
        joined = assembler.push(packet);
    }
    assert_eq!(joined.unwrap().data, unit);
}

#[test]
fn unit_with_a_lost_fragment_does_not_come_out() {
    let unit: Vec<u8> = (0..50).collect();
    for lost in 0..5 {
        let mut packets = iso_fragments(0x60, 4, &unit, 12);
        assert_eq!(packets.len(), 5);
        packets.remove(lost);
        let mut assembler = IsoSduAssembler {
            pending: None,
            expected_length: 0,
        };
        for packet in packets {
            assert_eq!(assembler.push(packet), None);
        }
        assert_eq!(assembler.pending.is_some(), lost == 4);
        let mut joined = None;
        for packet in iso_fragments(0x60, 5, &unit, 12) {
            assert!(joined.is_none());
            joined = assembler.push(packet);
        }
        assert_eq!(joined.unwrap().packet_sequence_number, 5);
    }
}

#[test]
fn overlong_and_headless_fragments_are_dropped() {
    let mut assembler = IsoSduAssembler {
        pending: None,
        expected_length: 0,
    };
    let fragment = |pb_flag: u8, length: Option<u16>, data: Vec<u8>| IsoDataPacket {
        connection_handle: 0x60,
        pb_flag,
        ts_flag: 0,
        data_total_length: 0,
        time_stamp: None,
        packet_sequence_number: length,
        iso_sdu_length: length,
        packet_status_flag: Some(0),
        iso_sdu_fragment: data,
    };
    assert_eq!(assembler.push(fragment(0b11, None, vec![1])), None);
    assert_eq!(assembler.push(fragment(0b00, Some(2), vec![1])), None);
    assert_eq!(assembler.push(fragment(0b01, None, vec![2, 3])), None);
    assert_eq!(assembler.push(fragment(0b11, None, vec![])), None);
    assert_eq!(assembler.push(fragment(0b10, Some(2), vec![1])), None);
    assert_eq!(assembler.push(fragment(0b10, None, vec![1])), None);
    assert!(assembler.push(fragment(0b10, Some(1), vec![1])).is_some());
}

#[test]
fn broadcast_group_lives_and_ends() {
    let mut device = Device::new(0);
    let mut link = QueuedTransport::new();
    let parameters = BigParameters::new(3, 1, 2);
    let mut wrong = parameters;
    wrong.num_bis = 32;
    assert!(!device.create_big(&mut link, wrong));
    wrong = parameters;
    wrong.big_handle = 0xF0;
    assert!(!device.create_big(&mut link, wrong));
    wrong = parameters;
    wrong.phy = 8;
    assert!(!device.create_big(&mut link, wrong));
    assert!(link.outgoing.is_empty());
    assert!(device.create_big(&mut link, parameters));
    assert!(device.is_big_pending(3));
    assert!(!device.create_big(&mut link, parameters));
    assert!(!device.terminate_big(&mut link, 3, 0x16));
    deliver(
        &mut device,
        &mut link,
        vec![event(LeMetaEvent::CreateBigComplete {
            status: 0,
            big_handle: 3,
            connection_handle: vec![0x70, 0x71],
        })],
    );
    assert!(!device.is_big_pending(3));
    assert_eq!(device.big_bis_handles(3), Some(&[0x70, 0x71][..]));
    assert_eq!(device.established_bis_handles(), vec![0x70, 0x71]);
    assert!(!device.setup_iso_data_path(&mut link, 0x70, 1));
    assert!(device.setup_iso_data_path(&mut link, 0x70, 0));
    assert!(device.terminate_big(&mut link, 3, 0x16));
    deliver(
        &mut device,
        &mut link,
        vec![event(LeMetaEvent::TerminateBigComplete {
            big_handle: 3,
            reason: 0x16,
        })],
    );
    assert_eq!(device.take_terminated_bigs(), vec![(3, 0x16)]);
    assert!(device.established_bis_handles().is_empty());
    assert_eq!(device.big_bis_handles(3), None);
}

#[test]
fn refused_broadcast_group_can_be_asked_for_again() {
    let mut device = Device::new(0);
    let mut link = QueuedTransport::new();
    assert!(device.create_big(&mut link, BigParameters::new(3, 1, 2)));
    deliver(
        &mut device,
        &mut link,
        vec![refused(HCI_LE_CREATE_BIG_COMMAND)],
    );
    assert!(!device.is_big_pending(3));
    assert_eq!(device.take_big_errors(), vec![(3, 0x0C)]);
    assert!(device.create_big(&mut link, BigParameters::new(3, 1, 2)));
}

#[test]
fn broadcast_receiver_needs_distinct_streams_of_a_known_train() {
    let mut device = Device::new(0);
    let mut link = QueuedTransport::new();
    assert!(!device.create_big_sync(&mut link, BigSyncParameters::new(5, 0x30, vec![1])));
    deliver(
        &mut device,
        &mut link,
        vec![event(LeMetaEvent::PeriodicAdvertisingSyncEstablished {
            status: 0,
            sync: PeriodicAdvertisingSyncInfo {
                sync_handle: 0x30,
                advertising_sid: 4,
                advertiser_address_type: 1,
                advertiser_address: peer(6),
                advertiser_phy: 1,
                interval: 0xA0,
                advertiser_clock_accuracy: 0,
            },
        })],
    );
    for bis in [vec![], vec![0], vec![32], vec![1, 2, 1]] {
        assert!(!device.create_big_sync(&mut link, BigSyncParameters::new(5, 0x30, bis)));
    }
    assert!(link.outgoing.is_empty());
    assert!(device.create_big_sync(&mut link, BigSyncParameters::new(5, 0x30, vec![2, 1])));
    assert!(device.is_big_sync_pending(5));
    deliver(
        &mut device,
        &mut link,
        vec![event(LeMetaEvent::BigSyncEstablished {
            status: 0,
            big_handle: 5,
            connection_handle: vec![0x72],
        })],
    );
    assert_eq!(device.big_sync_bis_handles(5), Some(&[0x72][..]));
    // A received stream takes data in, never out.
    assert!(!device.send_iso_sdu(&mut link, 0x72, &[1]));
    assert!(device.setup_iso_data_path(&mut link, 0x72, 1));
    assert!(device.terminate_big_sync(&mut link, 5));
    deliver(
        &mut device,
        &mut link,
        vec![event(LeMetaEvent::BigSyncLost {
            big_handle: 5,
            reason: 0x08,
        })],
    );
    assert_eq!(device.big_sync_bis_handles(5), None);
}
