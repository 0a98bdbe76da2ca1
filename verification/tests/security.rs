use bumble_host::bonding::{key_store_choice, KeyStoreChoice};
use bumble_host::hci::LeMetaEvent;
use bumble_host::pairing::{
    stored_classic_link_key, ClassicPairingConnection, ClassicPairingStep, PairingFlowError,
    PairingProgress,
};
use bumble_host::security::KeyField;
use bumble_host::transport::OutgoingPacket;
use bumble_host::{
    Address, AddressType, ClassicPairingEvent, Command, Device, DeviceEvent, DeviceKeyStoreError,
    Event, FollowUp, HciPacket, Key, LongTermKeyRequestInfo, PairingKeys, QueuedTransport,
};

fn peer(last: u8) -> Address {
    Address::from_bytes([last, 0, 0, 0, 0, 0xC0], AddressType::RANDOM_DEVICE)
}

fn connected(handle: u16, role: u8) -> HciPacket {
    HciPacket::Event(Event::LeMeta(LeMetaEvent::EnhancedConnectionComplete {
        status: 0,
        connection_handle: handle,
        role,
        peer_address: peer(1),
        connection_interval: 24,
        peripheral_latency: 0,
        supervision_timeout: 72,
    }))
}

fn classic_connected(handle: u16, encryption_enabled: u8) -> HciPacket {
    HciPacket::Event(Event::ConnectionComplete {
        status: 0,
        connection_handle: handle,
        bd_addr: peer(2),
        link_type: 1,
        encryption_enabled,
    })
}

fn deliver(device: &mut Device, link: &mut QueuedTransport, packets: Vec<HciPacket>) {
    for packet in packets {
        link.incoming.push(packet);
        assert!(device.poll(link));
        device.take_follow_up();
    }
}

fn sent(link: &mut QueuedTransport) -> Vec<Command> {
    link.outgoing
        .drain(..)
        .map(|packet| match packet {
            OutgoingPacket::Command { command, .. } => command,
            _ => unreachable!(),
        })
        .collect()
}

fn key(value: Vec<u8>) -> Key {
    Key {
        value,
        authenticated: true,
        ediv: None,
        rand: None,
    }
}

fn no_keys() -> PairingKeys {
    PairingKeys {
        address_type: None,
        ltk: None,
        ltk_central: None,
        ltk_peripheral: None,
        irk: None,
        csrk: None,
        link_key: None,
        link_key_type: None,
    }
}

#[test]
fn bond_starts_encryption_of_the_central() {
    let mut device = Device::new(0);
    let mut link = QueuedTransport::new();
    assert_eq!(
        device.enable_encryption_with_bond(&mut link, &None),
        Err(DeviceKeyStoreError::NoConnection)
    );
    deliver(
        &mut device,
        &mut link,
        vec![connected(0x41, 1), connected(0x40, 0)],
    );
    assert_eq!(
        device.enable_encryption_with_bond_on_handle(&mut link, 0x41, &None),
        Err(DeviceKeyStoreError::NotCentral {
            connection_handle: 0x41
        })
    );
    assert_eq!(
        device.enable_encryption_with_bond(&mut link, &None),
        Err(DeviceKeyStoreError::BondNotFound {
            peer_address: peer(1)
        })
    );
    assert_eq!(
        device.enable_encryption_with_bond(&mut link, &Some(no_keys())),
        Err(DeviceKeyStoreError::NoLongTermKey {
            peer_address: peer(1)
        })
    );
    let mut keys = no_keys();
    keys.ltk_central = Some(key(vec![5; 15]));
    assert_eq!(
        device.enable_encryption_with_bond(&mut link, &Some(keys)),
        Err(DeviceKeyStoreError::InvalidKeyLength {
            field: KeyField::Ltk,
            expected: 16,
            actual: 15,
        })
    );
    let mut keys = no_keys();
    keys.ltk = Some(Key {
        value: vec![5; 16],
        authenticated: false,
        ediv: Some(0x1234),
        rand: Some(vec![1; 9]),
    });
    assert_eq!(
        device.enable_encryption_with_bond(&mut link, &Some(keys)),
        Err(DeviceKeyStoreError::InvalidKeyLength {
            field: KeyField::LtkRand,
            expected: 8,
            actual: 9,
        })
    );
    assert!(link.outgoing.is_empty());
    let mut keys = no_keys();
    keys.ltk_peripheral = Some(key(vec![6; 16]));
    keys.ltk_central = Some(Key {
        value: vec![5; 16],
        authenticated: false,
        ediv: Some(0x1234),
        rand: Some(vec![1; 8]),
    });
    assert_eq!(
        device.enable_encryption_with_bond(&mut link, &Some(keys)),
        Ok(true)
    );
    assert_eq!(
        sent(&mut link),
        vec![Command::LeEnableEncryption {
            connection_handle: 0x40,
            random_number: [1; 8],
            encrypted_diversifier: 0x1234,
            long_term_key: [5; 16],
        }]
    );
}

#[test]
fn peripheral_uses_its_own_key() {
    let mut device = Device::new(0);
    let mut link = QueuedTransport::new();
    deliver(&mut device, &mut link, vec![connected(0x41, 1)]);
    let mut keys = no_keys();
    keys.ltk_peripheral = Some(key(vec![6; 16]));
    keys.ltk_central = Some(key(vec![5; 16]));
    assert_eq!(
        device.stored_encryption_parameters(0x41, &Some(keys)),
        Ok(([6; 16], 0, [0; 8]))
    );
}

#[test]
fn encryption_is_asked_for_on_known_connections_only() {
    let mut device = Device::new(0);
    let mut link = QueuedTransport::new();
    assert!(!device.enable_encryption(&mut link, [1; 16]));
    assert!(!device.enable_encryption_on_handle(&mut link, 0x40, [1; 16]));
    assert!(!device.reply_long_term_key_request(&mut link, 0x40, [1; 16]));
    assert!(!device.reject_long_term_key_request(&mut link, 0x40));
    assert!(link.outgoing.is_empty());
    deliver(&mut device, &mut link, vec![connected(0x40, 0)]);
    assert!(device.enable_encryption(&mut link, [1; 16]));
    assert!(!device.is_encrypted());
    deliver(
        &mut device,
        &mut link,
        vec![HciPacket::Event(Event::EncryptionChange {
            status: 0,
            connection_handle: 0x40,
            encryption_enabled: 1,
        })],
    );
    assert!(device.is_encrypted());
    assert!(device.is_encrypted_on_handle(0x40));
    deliver(
        &mut device,
        &mut link,
        vec![HciPacket::Event(Event::EncryptionChange {
            status: 0,
            connection_handle: 0x40,
            encryption_enabled: 0,
        })],
    );
    assert!(!device.is_encrypted());
}

#[test]
fn key_requests_are_answered_or_kept() {
    let mut device = Device::new(0);
    let mut link = QueuedTransport::new();
    deliver(&mut device, &mut link, vec![connected(0x40, 1)]);
    let request = LongTermKeyRequestInfo {
        connection_handle: 0x40,
        random_number: [2; 8],
        encryption_diversifier: 7,
    };
    let event = || {
        HciPacket::Event(Event::LeMeta(LeMetaEvent::LongTermKeyRequest {
            connection_handle: 0x40,
            random_number: [2; 8],
            encryption_diversifier: 7,
        }))
    };
    // Without a store the application answers.
    deliver(&mut device, &mut link, vec![event()]);
    assert!(device.take_long_term_key_requests_on_handle(0x41).is_empty());
    assert_eq!(
        device.take_long_term_key_requests_on_handle(0x40),
        vec![request]
    );
    device.set_key_store();
    link.incoming.push(event());
    assert!(device.poll(&mut link));
    assert!(matches!(
        device.take_follow_up(),
        Some(FollowUp::FindLongTermKey { .. })
    ));
    device.answer_long_term_key_request(&mut link, request, None);
    assert_eq!(device.take_long_term_key_requests(), vec![request]);
    assert!(link.outgoing.is_empty());
    device.answer_long_term_key_request(&mut link, request, Some([3; 16]));
    assert_eq!(
        sent(&mut link),
        vec![Command::LeLongTermKeyRequestReply {
            connection_handle: 0x40,
            long_term_key: [3; 16],
        }]
    );
}

#[test]
fn key_store_is_chosen_by_its_description() {
    assert_eq!(key_store_choice(&None), KeyStoreChoice::Memory);
    assert_eq!(
        key_store_choice(&Some("MemoryKeyStore".to_owned())),
        KeyStoreChoice::Memory
    );
    assert_eq!(
        key_store_choice(&Some("JsonKeyStore".to_owned())),
        KeyStoreChoice::DefaultFile
    );
    assert_eq!(
        key_store_choice(&Some("JsonKeyStore:/tmp/a:b".to_owned())),
        KeyStoreChoice::File {
            file_name: "/tmp/a:b".to_owned()
        }
    );
}

#[test]
fn key_store_errors_are_kept_in_order() {
    let mut device = Device::new(0);
    assert!(!device.has_key_store());
    assert!(!device.has_pairing_manager());
    device.enable_pairing();
    assert!(device.has_key_store());
    assert!(device.has_pairing_manager());
    device.record_key_store_error(None, "first".to_owned());
    device.record_key_store_error(Some(0x40), "second".to_owned());
    device.record_pairing_error(0x41, "third".to_owned());
    assert_eq!(
        device.take_key_store_errors(),
        vec![
            (None, "first".to_owned()),
            (Some(0x40), "second".to_owned())
        ]
    );
    assert!(device.take_key_store_errors().is_empty());
    assert_eq!(
        device.take_pairing_errors(),
        vec![(0x41, "third".to_owned())]
    );
}

#[test]
fn resolving_list_is_loaded_with_usable_keys() {
    let mut device = Device::new(0);
    let mut link = QueuedTransport::new();
    let public = Address::from_bytes([7; 6], AddressType::PUBLIC_DEVICE);
    let keys = [
        (vec![1; 16], peer(1)),
        (vec![2; 15], peer(2)),
        (vec![3; 16], public),
    ];
    assert_eq!(
        device.configure_address_resolution(&mut link, &keys, [9; 16]),
        2
    );
    assert_eq!(
        sent(&mut link),
        vec![
            Command::LeClearResolvingList,
            Command::LeAddDeviceToResolvingList {
                peer_identity_address_type: 1,
                peer_identity_address: peer(1),
                peer_irk: [1; 16],
                local_irk: [9; 16],
            },
            Command::LeAddDeviceToResolvingList {
                peer_identity_address_type: 0,
                peer_identity_address: public,
                peer_irk: [3; 16],
                local_irk: [9; 16],
            },
            Command::LeSetAddressResolutionEnable {
                address_resolution_enable: 1
            },
        ]
    );
    device.config.address_resolution_offload = false;
    device.config.address_generation_offload = false;
    assert_eq!(device.refresh_resolving_list(&mut link, &keys), Ok(2));
    assert!(link.outgoing.is_empty());
    device.config.address_generation_offload = true;
    device.config.irk = vec![0; 4];
    assert_eq!(
        device.refresh_resolving_list(&mut link, &keys),
        Err(DeviceKeyStoreError::InvalidKeyLength {
            field: KeyField::Irk,
            expected: 16,
            actual: 4,
        })
    );
    assert!(link.outgoing.is_empty());
    device.config.irk = vec![9; 16];
    assert_eq!(device.refresh_resolving_list(&mut link, &keys), Ok(2));
    let commands = sent(&mut link);
    assert_eq!(commands.len(), 4);
    assert_eq!(
        commands[1],
        Command::LeAddDeviceToResolvingList {
            peer_identity_address_type: 0,
            peer_identity_address: Address::from_bytes([0; 6], AddressType::PUBLIC_DEVICE),
            peer_irk: [0; 16],
            local_irk: [9; 16],
        }
    );
}

#[test]
fn link_key_requests_are_answered_from_the_store() {
    let mut device = Device::new(0);
    let mut link = QueuedTransport::new();
    assert_eq!(stored_classic_link_key(&None), Ok(None));
    let mut keys = no_keys();
    keys.link_key = Some(key(vec![4; 16]));
    assert_eq!(
        stored_classic_link_key(&Some(keys)),
        Ok(Some(([4; 16], true)))
    );
    let mut keys = no_keys();
    keys.link_key = Some(key(vec![4; 3]));
    assert_eq!(
        stored_classic_link_key(&Some(keys)),
        Err(DeviceKeyStoreError::InvalidKeyLength {
            field: KeyField::LinkKey,
            expected: 16,
            actual: 3,
        })
    );
    device.answer_link_key_request(&mut link, peer(2), None);
    device.answer_link_key_request(&mut link, peer(2), Some(([4; 16], true)));
    assert_eq!(
        sent(&mut link),
        vec![
            Command::LinkKeyRequestNegativeReply { bd_addr: peer(2) },
            Command::LinkKeyRequestReply {
                bd_addr: peer(2),
                link_key: [4; 16],
            },
        ]
    );
    assert_eq!(
        device.take_classic_pairing_events(),
        vec![
            ClassicPairingEvent::LinkKeyRequest {
                peer_address: peer(2)
            };
            2
        ]
    );
}

#[test]
fn new_link_key_updates_a_bond() {
    let mut keys = no_keys();
    keys.set_link_key([8; 16], 5);
    assert_eq!(
        keys.link_key,
        Some(Key {
            value: vec![8; 16],
            authenticated: true,
            ediv: None,
            rand: None,
        })
    );
    assert_eq!(keys.link_key_type, Some(5));
    keys.set_link_key([8; 16], 4);
    assert!(!keys.link_key.unwrap().authenticated);
}

#[test]
fn encrypted_classic_connection_is_registered_with_its_key() {
    let mut device = Device::new(0);
    let mut link = QueuedTransport::new();
    device.config.classic_smp_enabled = true;
    assert_eq!(
        device.classic_pairing_step(0x20),
        ClassicPairingStep::Nothing
    );
    assert_eq!(
        device.load_classic_link_key(0x20, &None),
        Err(DeviceKeyStoreError::NoConnection)
    );
    deliver(
        &mut device,
        &mut link,
        vec![classic_connected(0x20, 0), classic_connected(0x21, 1)],
    );
    assert_eq!(
        device.classic_pairing_step(0x20),
        ClassicPairingStep::Disconnect
    );
    assert_eq!(
        device.classic_pairing_step(0x21),
        ClassicPairingStep::LoadLinkKey {
            peer_address: peer(2)
        }
    );
    assert_eq!(device.load_classic_link_key(0x21, &None), Ok(false));
    let mut keys = no_keys();
    keys.link_key = Some(key(vec![4; 16]));
    assert_eq!(device.load_classic_link_key(0x21, &Some(keys)), Ok(true));
    assert_eq!(
        device.classic_pairing_step(0x21),
        ClassicPairingStep::Register(ClassicPairingConnection {
            connection_handle: 0x21,
            initiator: true,
            local_address: *device.static_address(),
            peer_address: peer(2),
            link_key: [4; 16],
            authenticated: true,
        })
    );
    assert_eq!(device.smp_channel(0x21), 7);
    assert_eq!(device.smp_channel(0x40), 6);
    assert_eq!(device.keep_link_key(peer(3), [1; 16], 4), None);
    assert_eq!(device.keep_link_key(peer(2), [1; 16], 4), Some(0x20));
}

#[test]
fn pairing_encrypts_and_ends_once() {
    let mut device = Device::new(0);
    let mut link = QueuedTransport::new();
    deliver(&mut device, &mut link, vec![connected(0x40, 0)]);
    device.take_device_events();
    let mut progress = PairingProgress {
        waiting_for_encryption: true,
        complete: false,
        encryption_key: None,
        failure: None,
        has_keys: false,
    };
    device.begin_pairing(0x40);
    assert_eq!(
        device.advance_pairing(&mut link, 0x40, progress),
        Err(PairingFlowError::NoEncryptionKey)
    );
    device.begin_pairing(0x40);
    progress.encryption_key = Some([5; 16]);
    assert_eq!(device.advance_pairing(&mut link, 0x40, progress), Ok(false));
    assert_eq!(device.advance_pairing(&mut link, 0x40, progress), Ok(false));
    assert_eq!(sent(&mut link).len(), 1);
    progress.waiting_for_encryption = false;
    progress.complete = true;
    assert_eq!(
        device.advance_pairing(&mut link, 0x40, progress),
        Err(PairingFlowError::NoPairingKeys)
    );
    device.begin_pairing(0x40);
    progress.has_keys = true;
    assert_eq!(device.advance_pairing(&mut link, 0x40, progress), Ok(true));
    assert_eq!(device.advance_pairing(&mut link, 0x40, progress), Ok(false));
    device.announce_pairing_complete(0x40, no_keys());
    assert_eq!(
        device.take_device_events(),
        vec![DeviceEvent::PairingComplete {
            connection_handle: 0x40,
            keys: no_keys(),
        }]
    );
    device.begin_pairing(0x40);
    progress.complete = false;
    progress.failure = Some(4);
    assert_eq!(device.advance_pairing(&mut link, 0x40, progress), Ok(false));
    assert_eq!(device.advance_pairing(&mut link, 0x40, progress), Ok(false));
    assert_eq!(
        device.take_device_events(),
        vec![DeviceEvent::PairingFailed {
            connection_handle: 0x40,
            reason: 4,
        }]
    );
}

#[test]
fn long_term_key_comes_from_the_pairing_or_the_bond() {
    let mut device = Device::new(0);
    let mut link = QueuedTransport::new();
    deliver(&mut device, &mut link, vec![connected(0x40, 1)]);
    let request = LongTermKeyRequestInfo {
        connection_handle: 0x40,
        random_number: [0; 8],
        encryption_diversifier: 0,
    };
    let mut keys = no_keys();
    keys.ltk = Some(key(vec![6; 16]));
    let bond = Some(keys);
    device.answer_long_term_key_request_with_bond(&mut link, request, Some([1; 16]), &bond);
    device.answer_long_term_key_request_with_bond(&mut link, request, None, &bond);
    let reply = |long_term_key: [u8; 16]| Command::LeLongTermKeyRequestReply {
        connection_handle: 0x40,
        long_term_key,
    };
    assert_eq!(sent(&mut link), vec![reply([1; 16]), reply([6; 16])]);
    // Without a bond, or with one that holds no key, nothing is wrong.
    device.answer_long_term_key_request_with_bond(&mut link, request, None, &None);
    device.answer_long_term_key_request_with_bond(&mut link, request, None, &Some(no_keys()));
    assert!(device.take_key_store_errors().is_empty());
    let mut keys = no_keys();
    keys.ltk = Some(key(vec![6; 3]));
    device.answer_long_term_key_request_with_bond(&mut link, request, None, &Some(keys));
    assert_eq!(
        device.take_key_store_errors(),
        vec![(
            Some(0x40),
            "LTK must contain 16 bytes, got 3".to_owned()
        )]
    );
    assert!(link.outgoing.is_empty());
    assert_eq!(device.take_long_term_key_requests(), vec![request; 3]);
}

#[test]
fn unusable_link_key_counts_as_none() {
    let mut device = Device::new(0);
    let mut link = QueuedTransport::new();
    deliver(&mut device, &mut link, vec![classic_connected(0x20, 0)]);
    let mut keys = no_keys();
    keys.link_key = Some(key(vec![4; 3]));
    device.answer_link_key_request_with_bond(&mut link, peer(2), &Some(keys));
    assert_eq!(
        device.take_key_store_errors(),
        vec![(
            Some(0x20),
            "Link Key must contain 16 bytes, got 3".to_owned()
        )]
    );
    let mut keys = no_keys();
    keys.link_key = Some(key(vec![4; 16]));
    device.answer_link_key_request_with_bond(&mut link, peer(2), &Some(keys));
    assert_eq!(
        sent(&mut link),
        vec![
            Command::LinkKeyRequestNegativeReply { bd_addr: peer(2) },
            Command::LinkKeyRequestReply {
                bd_addr: peer(2),
                link_key: [4; 16],
            },
        ]
    );
    assert_eq!(device.take_classic_pairing_events().len(), 2);
}
