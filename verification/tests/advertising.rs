use bumble_host::hci::{AdvertisingReport, ExtendedAdvertisingReport, LeMetaEvent};
use bumble_host::search::carried_name;
use bumble_host::transport::OutgoingPacket;
use bumble_host::{
    Address, AddressType, Advertisement, AdvertisementDataAccumulator, Command, Device, DeviceEvent,
    Event, ExtendedAdvertisingConfig, FollowUp, HciPacket, PeerLookupError, PeerLookupResult,
    PeerLookupTransport, PeriodicAdvertisement, PeriodicAdvertisingConfig,
    PeriodicAdvertisingSyncInfo, QueuedTransport,
};

const ADV_IND: u8 = 0;
const ADV_DIRECT_IND: u8 = 1;
const ADV_NONCONN_IND: u8 = 3;
const SCAN_RSP: u8 = 4;

fn peer(last: u8) -> Address {
    Address::from_bytes([last, 0, 0, 0, 0, 0xC0], AddressType::RANDOM_DEVICE)
}

fn legacy(event_type: u8, data: &[u8]) -> AdvertisingReport {
    AdvertisingReport {
        event_type,
        address_type: 1,
        address: peer(1),
        data: data.to_vec(),
        rssi: -60,
    }
}

fn extended(event_type: u16) -> ExtendedAdvertisingReport {
    ExtendedAdvertisingReport {
        event_type,
        address_type: 1,
        address: peer(1),
        primary_phy: 1,
        secondary_phy: 2,
        advertising_sid: 9,
        tx_power: 4,
        rssi: -70,
        periodic_advertising_interval: 0,
        direct_address_type: 0,
        direct_address: peer(0),
        data: vec![1, 2],
    }
}

fn event(event: LeMetaEvent) -> HciPacket {
    HciPacket::Event(Event::LeMeta(event))
}

fn deliver(device: &mut Device, link: &mut QueuedTransport, packets: Vec<HciPacket>) {
    for packet in packets {
        link.incoming.push(packet);
        assert!(device.poll(link));
        device.take_follow_up();
    }
}

fn sent(link: &mut QueuedTransport) -> Vec<Command> {
    link.outgoing
        .drain(..)
        .map(|packet| match packet {
            OutgoingPacket::Command { command, .. } => command,
            _ => unreachable!(),
        })
        .collect()
}

#[test]
fn legacy_advertising_holds_thirty_one_bytes() {
    let mut device = Device::new(0);
    let mut link = QueuedTransport::new();
    assert!(!device.start_advertising(&mut link, &[0; 32]));
    assert!(link.outgoing.is_empty());
    assert!(!device.is_advertising());
    assert!(device.start_advertising(&mut link, &[7; 31]));
    assert!(device.is_advertising());
    assert_eq!(
        sent(&mut link),
        vec![
            Command::LeSetAdvertisingParameters {
                advertising_interval_min: 0x0800,
                advertising_interval_max: 0x0800,
                advertising_type: 0,
                own_address_type: 1,
                peer_address_type: 0,
                peer_address: Address::from_bytes([0; 6], AddressType::PUBLIC_DEVICE),
                advertising_channel_map: 7,
                advertising_filter_policy: 0,
            },
            Command::LeSetAdvertisingData {
                advertising_data: vec![7; 31],
            },
            Command::LeSetAdvertisingEnable {
                advertising_enable: 1
            },
        ]
    );
    device.stop_advertising(&mut link);
    assert!(!device.is_advertising());
    assert_eq!(
        sent(&mut link),
        vec![Command::LeSetAdvertisingEnable {
            advertising_enable: 0
        }]
    );
}

#[test]
fn configured_advertising_needs_ordered_intervals() {
    let mut device = Device::new(0);
    let mut link = QueuedTransport::new();
    device.config.advertising_data = vec![2, 1, 6];
    device.config.scan_response_data = vec![9];
    assert!(!device.start_configured_advertising(&mut link, 31, 64));
    assert!(!device.start_configured_advertising(&mut link, -64, 64));
    assert!(!device.start_configured_advertising(&mut link, 64, 0x4001));
    assert!(!device.start_configured_advertising(&mut link, 64, i64::MAX));
    assert!(!device.start_configured_advertising(&mut link, 65, 64));
    assert!(link.outgoing.is_empty());
    assert!(device.start_configured_advertising(&mut link, 32, 64));
    let commands = sent(&mut link);
    assert!(matches!(
        commands[2],
        Command::LeSetAdvertisingParameters {
            advertising_interval_min: 32,
            advertising_interval_max: 64,
            ..
        }
    ));
    assert_eq!(
        commands[0],
        Command::LeSetAdvertisingData {
            advertising_data: vec![2, 1, 6]
        }
    );
    assert_eq!(
        commands[1],
        Command::LeSetScanResponseData {
            scan_response_data: vec![9]
        }
    );
}

#[test]
fn extended_advertising_data_is_loaded_in_pieces() {
    let mut device = Device::new(0);
    let mut link = QueuedTransport::new();
    let config = ExtendedAdvertisingConfig::connectable_scannable(0x12, peer(5));
    assert_eq!(config.sid, 2);
    let data: Vec<u8> = (0..600u32).map(|number| number as u8).collect();
    assert!(!device.start_extended_advertising(&mut link, &config, &[0; 0x0673], &[]));
    assert!(device.start_extended_advertising(&mut link, &config, &data, &[]));
    assert!(device.is_advertising());
    let commands = sent(&mut link);
    assert_eq!(
        commands[0],
        Command::LeSetAdvertisingSetRandomAddress {
            advertising_handle: 0x12,
            random_address: peer(5),
        }
    );
    assert!(matches!(
        commands[1],
        Command::LeSetExtendedAdvertisingParameters { .. }
    ));
    let mut operations = Vec::new();
    let mut loaded = Vec::new();
    for command in &commands {
        if let Command::LeSetExtendedAdvertisingData {
            advertising_handle,
            operation,
            advertising_data,
            ..
        } = command
        {
            assert_eq!(*advertising_handle, 0x12);
            assert!(advertising_data.len() <= 251);
            operations.push(*operation);
            loaded.extend_from_slice(advertising_data);
        }
    }
    assert_eq!(operations, vec![1, 0, 2]);
    assert_eq!(loaded, data);
    assert_eq!(
        commands[5],
        Command::LeSetExtendedScanResponseData {
            advertising_handle: 0x12,
            operation: 3,
            fragment_preference: 1,
            scan_response_data: vec![],
        }
    );
    assert_eq!(
        commands[6],
        Command::LeSetExtendedAdvertisingEnable {
            enable: 1,
            advertising_handles: vec![0x12],
            durations: vec![0],
            max_extended_advertising_events: vec![0],
        }
    );
    assert_eq!(commands.len(), 7);
    deliver(
        &mut device,
        &mut link,
        vec![event(LeMetaEvent::AdvertisingSetTerminated {
            advertising_handle: 0x12,
        })],
    );
    assert!(!device.is_advertising());
}

#[test]
fn extended_advertising_rejects_a_large_set_identifier() {
    let mut device = Device::new(0);
    let mut link = QueuedTransport::new();
    let mut config = ExtendedAdvertisingConfig::connectable_scannable(1, peer(5));
    config.sid = 0x10;
    assert!(!device.start_extended_advertising(&mut link, &config, &[], &[]));
    assert!(link.outgoing.is_empty());
}

#[test]
fn periodic_advertising_is_checked_and_started() {
    let mut device = Device::new(0);
    let mut link = QueuedTransport::new();
    let mut config = PeriodicAdvertisingConfig::new(3);
    assert_eq!((config.interval_min, config.interval_max), (0xA0, 0xA0));
    config.interval_min = 5;
    assert!(!device.start_periodic_advertising(&mut link, config, &[]));
    config.interval_min = 0xA1;
    assert!(!device.start_periodic_advertising(&mut link, config, &[]));
    config.interval_min = 6;
    config.include_adi = true;
    assert!(!device.start_periodic_advertising(&mut link, config, &[0; 0x0673]));
    assert!(link.outgoing.is_empty());
    assert!(device.start_periodic_advertising(&mut link, config, &[8; 252]));
    assert_eq!(
        sent(&mut link),
        vec![
            Command::LeSetPeriodicAdvertisingParameters {
                advertising_handle: 3,
                periodic_advertising_interval_min: 6,
                periodic_advertising_interval_max: 0xA0,
                periodic_advertising_properties: 0,
            },
            Command::LeSetPeriodicAdvertisingData {
                advertising_handle: 3,
                operation: 1,
                advertising_data: vec![8; 251],
            },
            Command::LeSetPeriodicAdvertisingData {
                advertising_handle: 3,
                operation: 2,
                advertising_data: vec![8],
            },
            Command::LeSetPeriodicAdvertisingEnable {
                enable: 3,
                advertising_handle: 3,
            },
        ]
    );
}

#[test]
fn extended_report_is_read_bit_by_bit() {
    let advertisement = Advertisement::from_extended_report(&extended(0b100_1011));
    assert!(advertisement.is_connectable);
    assert!(advertisement.is_scannable);
    assert!(!advertisement.is_directed);
    assert!(advertisement.is_scan_response);
    assert!(!advertisement.is_legacy);
    assert!(!advertisement.is_complete);
    assert!(advertisement.is_truncated);
    assert_eq!(advertisement.sid, 9);
    assert_eq!(advertisement.data_bytes, vec![1, 2]);
    let advertisement = Advertisement::from_extended_report(&extended(0b001_0100));
    assert!(!advertisement.is_connectable);
    assert!(advertisement.is_directed);
    assert!(advertisement.is_legacy);
    assert!(advertisement.is_complete);
    let mut anonymous = extended(0);
    anonymous.address_type = 0xFF;
    assert!(Advertisement::from_extended_report(&anonymous).is_anonymous);
    let directed = Advertisement::from_legacy_report(&legacy(ADV_DIRECT_IND, &[]));
    assert!(directed.is_connectable && directed.is_directed && !directed.is_scannable);
    assert_eq!(directed.tx_power, Advertisement::TX_POWER_NOT_AVAILABLE);
}

#[test]
fn active_scan_joins_an_advertisement_with_its_response() {
    let mut accumulator = AdvertisementDataAccumulator::new(false);
    assert_eq!(accumulator.update_legacy(&legacy(ADV_IND, &[1, 2])), None);
    let joined = accumulator
        .update_legacy(&legacy(SCAN_RSP, &[3]))
        .unwrap();
    assert!(joined.is_connectable && joined.is_scannable && joined.is_scan_response);
    assert_eq!(joined.data_bytes, vec![3]);
    assert_eq!(joined.data.bytes, vec![1, 2, 3]);
    // A second response has no advertisement to join.
    assert_eq!(accumulator.update_legacy(&legacy(SCAN_RSP, &[3])), None);
    // An unanswered advertisement is reported when the next one comes.
    assert_eq!(accumulator.update_legacy(&legacy(ADV_IND, &[1])), None);
    assert!(accumulator.update_legacy(&legacy(ADV_IND, &[1])).is_some());
    // What cannot be scanned is reported at once.
    let mut accumulator = AdvertisementDataAccumulator::new(false);
    assert!(accumulator
        .update_legacy(&legacy(ADV_NONCONN_IND, &[1]))
        .is_some());
}

#[test]
fn every_advertiser_has_one_accumulator() {
    let mut device = Device::new(0);
    let mut link = QueuedTransport::new();
    device.start_scanning(&mut link, true, false);
    let from = |last: u8, event_type: u8, data: &[u8]| {
        let mut report = legacy(event_type, data);
        report.address = peer(last);
        event(LeMetaEvent::AdvertisingReport { report })
    };
    deliver(
        &mut device,
        &mut link,
        vec![
            from(1, ADV_IND, &[1]),
            from(2, ADV_IND, &[2]),
            from(1, SCAN_RSP, &[3]),
            from(2, SCAN_RSP, &[4]),
            from(1, ADV_IND, &[5]),
        ],
    );
    let joined: Vec<(Address, Vec<u8>)> = device
        .take_advertisements()
        .into_iter()
        .map(|advertisement| (advertisement.address, advertisement.data.bytes))
        .collect();
    assert_eq!(joined, vec![(peer(1), vec![1, 3]), (peer(2), vec![2, 4])]);
    let filed: Vec<Address> = device
        .gap
        .advertisement_accumulators
        .iter()
        .map(|entry| entry.0)
        .collect();
    assert_eq!(filed, vec![peer(1), peer(2)]);
}

#[test]
fn passive_scan_reports_every_advertisement() {
    let mut device = Device::new(0);
    let mut link = QueuedTransport::new();
    device.start_scanning(&mut link, false, true);
    assert!(device.is_scanning());
    assert_eq!(
        sent(&mut link),
        vec![
            Command::LeSetScanParameters {
                le_scan_type: 0,
                le_scan_interval: 0x0010,
                le_scan_window: 0x0010,
                own_address_type: 1,
                scanning_filter_policy: 0,
            },
            Command::LeSetScanEnable {
                le_scan_enable: 1,
                filter_duplicates: 1,
            },
        ]
    );
    deliver(
        &mut device,
        &mut link,
        vec![
            event(LeMetaEvent::AdvertisingReport {
                report: legacy(ADV_IND, &[1]),
            }),
            event(LeMetaEvent::ExtendedAdvertisingReport {
                report: extended(0b011),
            }),
        ],
    );
    let advertisements = device.take_advertisements();
    assert_eq!(advertisements.len(), 2);
    assert_eq!(advertisements[0].data.bytes, vec![1]);
    assert_eq!(device.take_advertising_reports().len(), 1);
    assert_eq!(device.take_extended_advertising_reports().len(), 1);
    assert_eq!(device.take_device_events().len(), 4);
}

#[test]
fn lookup_by_name_scans_until_it_is_answered() {
    let mut device = Device::new(0);
    let mut link = QueuedTransport::new();
    let first = device.find_peer_by_name(&mut link, "clock", PeerLookupTransport::Le);
    let second = device.find_peer_by_name(&mut link, "lamp", PeerLookupTransport::Le);
    assert_eq!((first, second), (1, 2));
    assert!(device.is_scanning());
    assert_eq!(sent(&mut link).len(), 2);

    link.incoming.push(event(LeMetaEvent::AdvertisingReport {
        report: legacy(ADV_NONCONN_IND, &[]),
    }));
    assert!(device.poll(&mut link));
    let (transport, found) = match device.take_follow_up() {
        Some(FollowUp::CompletePeerLookups {
            transport,
            peer_address,
        }) => (transport, peer_address),
        _ => unreachable!(),
    };
    assert_eq!((transport, found), (PeerLookupTransport::Le, peer(1)));
    device.take_device_events();
    let name = carried_name(Some(b"clock".to_vec()), Some(b"cl".to_vec()));
    assert_eq!(carried_name(None, Some(b"cl".to_vec())), Some(b"cl".to_vec()));
    device.complete_peer_lookups(&mut link, transport, found, &name, None);
    assert!(!device.is_peer_lookup_pending(first));
    assert!(device.is_peer_lookup_pending(second));
    assert!(device.is_scanning());
    let result = PeerLookupResult {
        lookup_id: first,
        transport: PeerLookupTransport::Le,
        peer_address: peer(1),
    };
    assert_eq!(
        device.take_device_events(),
        vec![DeviceEvent::PeerFound(result)]
    );
    assert_eq!(device.take_peer_lookup_results(), vec![result]);
    // The same name again completes nothing.
    device.complete_peer_lookups(&mut link, transport, found, &name, None);
    assert!(device.take_peer_lookup_results().is_empty());

    assert!(device.cancel_peer_lookup(&mut link, second));
    assert!(!device.cancel_peer_lookup(&mut link, second));
    assert_eq!(device.pending_peer_lookup_count(), 0);
    assert!(!device.is_scanning());
    assert_eq!(
        sent(&mut link),
        vec![Command::LeSetScanEnable {
            le_scan_enable: 0,
            filter_duplicates: 0,
        }]
    );
}

#[test]
fn lookup_leaves_the_scan_of_the_application_alone() {
    let mut device = Device::new(0);
    let mut link = QueuedTransport::new();
    device.start_scanning(&mut link, true, false);
    sent(&mut link);
    let lookup = device.find_peer_by_name(&mut link, "x", PeerLookupTransport::Le);
    assert!(device.cancel_peer_lookup(&mut link, lookup));
    assert!(link.outgoing.is_empty());
    assert!(device.is_scanning());

    let lookup = device.find_peer_by_name(&mut link, "x", PeerLookupTransport::Classic);
    assert!(device.is_discovering());
    assert!(device.cancel_peer_lookup(&mut link, lookup));
    assert!(!device.is_discovering());
}

#[test]
fn lookup_by_identity_needs_a_resolver() {
    let mut device = Device::new(0);
    let mut link = QueuedTransport::new();
    assert_eq!(
        device.find_peer_by_identity_address(&mut link, peer(8)),
        Err(PeerLookupError::NoAddressResolver)
    );
    assert!(link.outgoing.is_empty());
    assert_eq!(
        device.refresh_address_resolver(&[(vec![3; 16], peer(8)), (vec![3; 5], peer(7))]),
        1
    );
    let lookup = device
        .find_peer_by_identity_address(&mut link, peer(8))
        .unwrap();
    device.complete_peer_lookups(&mut link, PeerLookupTransport::Le, peer(1), &None, None);
    assert!(device.is_peer_lookup_pending(lookup));
    device.complete_peer_lookups(
        &mut link,
        PeerLookupTransport::Le,
        peer(1),
        &None,
        Some(peer(8)),
    );
    assert_eq!(device.take_peer_lookup_results()[0].peer_address, peer(1));
}

#[test]
fn periodic_trains_are_synchronized_joined_and_lost() {
    let mut device = Device::new(0);
    let mut link = QueuedTransport::new();
    let sync = PeriodicAdvertisingSyncInfo {
        sync_handle: 0x30,
        advertising_sid: 4,
        advertiser_address_type: 1,
        advertiser_address: peer(6),
        advertiser_phy: 1,
        interval: 0xA0,
        advertiser_clock_accuracy: 0,
    };
    let report = |data_status: u8, data: Vec<u8>| {
        event(LeMetaEvent::PeriodicAdvertisingReport {
            sync_handle: 0x30,
            tx_power: 1,
            rssi: -9,
            data_status,
            data,
        })
    };
    deliver(
        &mut device,
        &mut link,
        vec![
            event(LeMetaEvent::PeriodicAdvertisingSyncEstablished { status: 0, sync }),
            event(LeMetaEvent::PeriodicAdvertisingSyncEstablished { status: 0x3E, sync }),
            report(1, vec![1, 2]),
            report(0, vec![3]),
        ],
    );
    assert_eq!(device.periodic_syncs().get(&0x30), Some(&sync));
    assert_eq!(device.take_periodic_sync_errors(), vec![0x3E]);
    assert_eq!(
        device.take_periodic_advertisements(),
        vec![PeriodicAdvertisement {
            sync_handle: 0x30,
            advertiser_address: peer(6),
            advertising_sid: 4,
            tx_power: 1,
            rssi: -9,
            truncated: false,
            data: vec![1, 2, 3],
        }]
    );
    deliver(
        &mut device,
        &mut link,
        vec![event(LeMetaEvent::PeriodicAdvertisingSyncLost {
            sync_handle: 0x30,
        })],
    );
    assert!(device.periodic_syncs().is_empty());
    assert_eq!(device.take_lost_periodic_syncs(), vec![0x30]);
}
