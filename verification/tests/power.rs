use bumble_host::address::static_address;
use bumble_host::hci::{
    AclDataPacket, LeMetaEvent, ReturnParameters, HCI_READ_BD_ADDR_COMMAND,
    HCI_READ_LOCAL_SUPPORTED_COMMANDS_COMMAND, HCI_RESET_COMMAND,
};
use bumble_host::security::KeyField;
use bumble_host::transport::OutgoingPacket;
use bumble_host::{
    Address, AddressType, Command, ControllerBufferInfo, DataPacketQueue, DataPacketQueueError,
    Device, DeviceConfiguration, DeviceEvent, DeviceKeyStoreError, DevicePowerError, Event,
    HciPacket, LePhyError, PeerLookupError, QueuedTransport,
};

fn drawn() -> Address {
    Address::from_bytes([1, 2, 3, 4, 5, 0xC6], AddressType::RANDOM_DEVICE)
}

fn private(last: u8) -> Address {
    Address::from_bytes([last, 0, 0, 0, 0, 0x40], AddressType::RANDOM_DEVICE)
}

fn quiet_configuration() -> DeviceConfiguration {
    let mut config = DeviceConfiguration::default();
    config.classic_enabled = false;
    config.le_privacy_enabled = false;
    config
}

fn completed(command_opcode: u16, return_parameters: ReturnParameters) -> HciPacket {
    HciPacket::Event(Event::CommandComplete {
        num_hci_command_packets: 1,
        command_opcode,
        return_parameters,
    })
}

fn connected(handle: u16) -> HciPacket {
    HciPacket::Event(Event::LeMeta(LeMetaEvent::EnhancedConnectionComplete {
        status: 0,
        connection_handle: handle,
        role: 0,
        peer_address: private(9),
        connection_interval: 24,
        peripheral_latency: 0,
        supervision_timeout: 72,
    }))
}

fn acl(handle: u16, byte: u8) -> AclDataPacket {
    AclDataPacket {
        connection_handle: handle,
        pb_flag: 0,
        bc_flag: 0,
        data_total_length: 1,
        data: vec![byte],
    }
}

fn sent(link: &mut QueuedTransport) -> Vec<Command> {
    link.outgoing
        .drain(..)
        .map(|packet| match packet {
            OutgoingPacket::Command { command, .. } => command,
            _ => unreachable!(),
        })
        .collect()
}

#[test]
fn configuration_is_checked_before_anything_is_sent() {
    let mut link = QueuedTransport::new();
    let mut config = quiet_configuration();
    config.classic_enabled = true;
    config.class_of_device = 0x0100_0000;
    let mut device = Device::with_config(0, config);
    assert_eq!(
        device.power_on(&mut link, drawn(), private(1)),
        Err(DevicePowerError::ClassOfDeviceOutOfRange { value: 0x0100_0000 })
    );
    device.config.class_of_device = 0;
    device.config.name = "é".repeat(120);
    assert_eq!(
        device.power_on(&mut link, drawn(), private(1)),
        Err(DevicePowerError::LocalNameTooLong {
            actual: 240,
            maximum: 238,
        })
    );
    device.set_classic_inquiry_response(Some([0; 240]));
    device.config.name = "n".repeat(249);
    assert_eq!(
        device.power_on(&mut link, drawn(), private(1)),
        Err(DevicePowerError::LocalNameTooLong {
            actual: 249,
            maximum: 248,
        })
    );
    device.config.name = "ok".to_owned();
    device.config.le_privacy_enabled = true;
    device.config.irk = vec![0; 15];
    assert_eq!(
        device.power_on(&mut link, drawn(), private(1)),
        Err(DevicePowerError::InvalidIrkLength { actual: 15 })
    );
    assert!(link.outgoing.is_empty());
    assert!(!device.is_powered_on());
}

#[test]
fn power_on_draws_an_address_only_where_none_is_configured() {
    let mut link = QueuedTransport::new();
    let mut config = quiet_configuration();
    config.address = Address::from_bytes([0; 6], AddressType::RANDOM_DEVICE);
    let mut device = Device::with_config(0, config);
    assert_eq!(device.power_on(&mut link, drawn(), private(1)), Ok(()));
    assert!(device.is_powered_on());
    assert_eq!(device.static_address(), &drawn());
    assert_eq!(device.random_address(), &drawn());

    let mut config = quiet_configuration();
    config.address = Address::from_bytes([9; 6], AddressType::RANDOM_DEVICE);
    config.le_privacy_enabled = true;
    config.irk = vec![7; 16];
    let mut device = Device::with_config(0, config);
    assert_eq!(device.power_on(&mut link, drawn(), private(1)), Ok(()));
    assert_eq!(
        device.static_address(),
        &Address::from_bytes([9; 6], AddressType::RANDOM_DEVICE)
    );
    assert_eq!(device.random_address(), &private(1));
}

#[test]
fn only_the_reset_answer_is_heard_before_the_controller_is_ready() {
    let mut link = QueuedTransport::new();
    let mut device = Device::with_config(0, quiet_configuration());
    assert_eq!(device.power_on(&mut link, drawn(), private(1)), Ok(()));
    let commands = sent(&mut link);
    assert_eq!(commands[0], Command::Reset);
    assert_eq!(commands[1], Command::ReadBdAddr);
    assert!(!device.controller_ready());
    let address = completed(
        HCI_READ_BD_ADDR_COMMAND,
        ReturnParameters::ReadBdAddr {
            status: 0,
            bd_addr: Address::from_bytes([6; 6], AddressType::PUBLIC_DEVICE),
        },
    );
    link.incoming.push(address);
    device.poll(&mut link);
    device.take_follow_up();
    assert_eq!(device.public_address(), None);
    link.incoming.push(completed(
        HCI_RESET_COMMAND,
        ReturnParameters::Status { status: 0 },
    ));
    assert!(device.poll(&mut link));
    assert!(device.controller_ready());
    assert_eq!(device.reset_status(), Some(0));
}

#[test]
fn initialization_is_started_by_one_answer() {
    let mut link = QueuedTransport::new();
    let mut device = Device::with_config(0, quiet_configuration());
    assert_eq!(device.power_on(&mut link, drawn(), private(1)), Ok(()));
    link.outgoing.clear();
    let answer = || {
        completed(
            HCI_READ_LOCAL_SUPPORTED_COMMANDS_COMMAND,
            ReturnParameters::ReadLocalSupportedCommands {
                status: 0,
                supported_commands: [0; 64],
            },
        )
    };
    link.incoming.push(completed(
        HCI_RESET_COMMAND,
        ReturnParameters::Status { status: 0 },
    ));
    link.incoming.push(answer());
    device.poll(&mut link);
    let started = link.outgoing.len();
    assert!(started > 0);
    link.incoming.push(answer());
    device.poll(&mut link);
    assert_eq!(link.outgoing.len(), started);
    assert!(!device.host_initialization_complete());
}

#[test]
fn power_off_flushes() {
    let mut link = QueuedTransport::new();
    let mut device = Device::with_config(0, quiet_configuration());
    link.incoming.push(connected(0x40));
    device.poll(&mut link);
    device.take_follow_up();
    device.take_device_events();
    device.power_off();
    assert!(!device.is_powered_on());
    assert_eq!(
        device.take_device_events(),
        vec![
            DeviceEvent::Flush,
            DeviceEvent::Disconnected {
                connection_handle: 0x40,
                reason: 0,
            },
        ]
    );
}

#[test]
fn private_address_is_rotated_when_the_device_is_at_rest() {
    let mut link = QueuedTransport::new();
    let mut config = quiet_configuration();
    config.le_rpa_timeout = 100;
    let mut device = Device::with_config(0, config);
    assert_eq!(
        device.update_rpa(&mut link, private(2)),
        Err(DevicePowerError::NotPoweredOn)
    );
    assert_eq!(device.power_on(&mut link, drawn(), private(1)), Ok(()));
    assert_eq!(
        device.update_rpa(&mut link, private(2)),
        Err(DevicePowerError::PrivacyDisabled)
    );
    assert_eq!(
        device.advance_rpa_timeout(&mut link, 1_000, private(2)),
        Ok(None)
    );
    device.config.le_privacy_enabled = true;
    device.config.irk = vec![7; 17];
    assert_eq!(
        device.update_rpa(&mut link, private(2)),
        Err(DevicePowerError::InvalidIrkLength { actual: 17 })
    );
    device.config.irk = vec![7; 16];
    link.outgoing.clear();
    assert_eq!(
        device.advance_rpa_timeout(&mut link, 99, private(2)),
        Ok(None)
    );
    assert_eq!(
        device.advance_rpa_timeout(&mut link, 1, private(2)),
        Ok(Some(private(2)))
    );
    assert_eq!(device.random_address(), &private(2));
    assert_eq!(
        sent(&mut link),
        vec![Command::LeSetRandomAddress {
            random_address: private(2)
        }]
    );
    // A busy device keeps its address, and a new interval starts.
    device.start_scanning(&mut link, true, true);
    link.outgoing.clear();
    assert_eq!(
        device.advance_rpa_timeout(&mut link, u64::MAX, private(3)),
        Ok(None)
    );
    device.stop_scanning(&mut link);
    assert_eq!(
        device.advance_rpa_timeout(&mut link, 99, private(3)),
        Ok(None)
    );
    assert_eq!(device.random_address(), &private(2));
}

#[test]
fn invalid_phy_is_named() {
    let device = Device::new(0);
    assert_eq!(device.supports_le_phy(1), Ok(true));
    assert_eq!(device.supports_le_phy(2), Ok(false));
    assert_eq!(
        device.supports_le_phy(4),
        Err(LePhyError::InvalidPhy { phy: 4 })
    );
}

#[test]
fn errors_are_put_into_words() {
    assert_eq!(
        DevicePowerError::InvalidIrkLength { actual: 0 }.message(),
        "IRK must contain 16 bytes, got 0"
    );
    assert_eq!(
        DevicePowerError::LocalNameTooLong {
            actual: 1024,
            maximum: 248,
        }
        .message(),
        "UTF-8 local name is 1024 bytes, maximum is 248"
    );
    assert_eq!(
        DevicePowerError::ClassOfDeviceOutOfRange { value: 0x0100_00AF }.message(),
        "Class of Device 0x010000AF does not fit in 24 bits"
    );
    assert_eq!(
        DevicePowerError::NotPoweredOn.message(),
        "device is not powered on"
    );
    assert_eq!(
        DevicePowerError::PrivacyDisabled.message(),
        "LE privacy is disabled"
    );
    assert_eq!(
        LePhyError::InvalidPhy { phy: 0x0A }.message(),
        "invalid LE PHY 0x0A"
    );
    assert_eq!(
        PeerLookupError::NoAddressResolver.message(),
        "device has no address resolver"
    );
    assert_eq!(
        DataPacketQueueError::ZeroCapacity.message(),
        "packet queue capacity must be nonzero"
    );
    assert_eq!(
        DataPacketQueueError::UnknownConnection(0x2A).message(),
        "completion for unknown connection 0x002A"
    );
    assert_eq!(
        DataPacketQueueError::CompletionOverflow {
            connection_handle: 0xBEEF,
            completed: 10,
            in_flight: 2,
        }
        .message(),
        "10 packets completed for 0xBEEF, but only 2 are in flight"
    );
    assert_eq!(
        DeviceKeyStoreError::Store.message("disk full"),
        "key store error: disk full"
    );
    assert_eq!(
        DeviceKeyStoreError::NoConnection.message(""),
        "no active LE connection"
    );
    assert_eq!(
        DeviceKeyStoreError::BondNotFound {
            peer_address: drawn()
        }
        .message("C6:05:04:03:02:01"),
        "no bond found for C6:05:04:03:02:01"
    );
    assert_eq!(
        DeviceKeyStoreError::NoLongTermKey {
            peer_address: drawn()
        }
        .message("C6:05:04:03:02:01"),
        "bond for C6:05:04:03:02:01 has no usable LTK"
    );
    assert_eq!(
        DeviceKeyStoreError::InvalidKeyLength {
            field: KeyField::LtkRand,
            expected: 8,
            actual: 7,
        }
        .message(""),
        "LTK RAND must contain 8 bytes, got 7"
    );
    assert_eq!(
        DeviceKeyStoreError::NotCentral {
            connection_handle: 0x41
        }
        .message(""),
        "LE connection 0x0041 is not locally central"
    );
}

#[test]
fn queue_hands_packets_out_in_the_order_they_came() {
    assert_eq!(
        DataPacketQueue::<u8>::new(0).err(),
        Some(DataPacketQueueError::ZeroCapacity)
    );
    let mut queue = DataPacketQueue::new(2).unwrap();
    for number in 0..5u8 {
        queue.enqueue(number, u16::from(number % 2));
    }
    assert_eq!(queue.poll_ready(), Some(0));
    assert_eq!(queue.poll_ready(), Some(1));
    assert_eq!(queue.poll_ready(), None);
    assert_eq!(
        queue.on_packets_completed(1, 9),
        Err(DataPacketQueueError::UnknownConnection(9))
    );
    assert_eq!(queue.on_packets_completed(1, 1), Ok(()));
    assert_eq!(queue.poll_ready(), Some(2));
    assert!(!queue.is_drained(0));
    assert_eq!(queue.flush(0), 1 + 2);
    assert!(queue.is_drained(0));
    assert_eq!(queue.poll_ready(), Some(3));
    assert_eq!(queue.flush_all(), 1);
    assert!(queue.is_drained(1));
}

#[test]
fn pools_are_replaced_only_while_idle() {
    let mut link = QueuedTransport::new();
    let mut device = Device::new(0);
    let one = ControllerBufferInfo {
        data_packet_length: 30,
        total_num_data_packets: 1,
    };
    let none = ControllerBufferInfo {
        data_packet_length: 0,
        total_num_data_packets: 1,
    };
    assert!(device.configure_controller_packet_pools(Some(none), None, None));
    assert_eq!(device.acl_data_packet_length(), 27);
    assert_eq!(device.acl_max_in_flight(), 64);
    assert_eq!(device.iso_max_in_flight(), None);
    assert!(device.configure_controller_packet_pools(Some(one), None, Some(one)));
    assert_eq!(device.acl_data_packet_length(), 30);
    assert_eq!(device.acl_max_in_flight(), 1);
    assert_eq!(device.iso_max_in_flight(), Some(1));
    link.incoming.push(connected(0x40));
    device.poll(&mut link);
    device.take_follow_up();
    device.resume(&mut link);
    assert!(device.send_l2cap_on_handle(&mut link, 0x40, vec![acl(0x40, 1), acl(0x40, 2)]));
    assert_eq!(link.outgoing.len(), 1);
    assert!(!device.acl_output_is_drained(0x40));
    assert!(!device.set_acl_max_in_flight(5));
    assert!(!device.set_acl_data_packet_length(0));
    assert!(!device.configure_controller_packet_pools(Some(one), None, None));
    for _ in 0..2 {
        link.incoming
            .push(HciPacket::Event(Event::NumberOfCompletedPackets {
                connection_handles: vec![0x40],
                num_completed_packets: vec![1],
            }));
        assert!(device.poll(&mut link));
    }
    assert_eq!(link.outgoing.len(), 2);
    assert!(device.acl_output_is_drained(0x40));
    assert_eq!(device.acl_packets_pending(), 0);
    assert!(device.set_acl_max_in_flight(5));
    assert_eq!(device.acl_max_in_flight(), 5);
}

#[test]
fn static_address_has_its_two_highest_bits_set() {
    let mut random = [0; 16];
    for (place, byte) in random.iter_mut().enumerate() {
        *byte = 0x10 + place as u8;
    }
    assert_eq!(
        static_address(&random),
        Address::from_bytes(
            [0x10, 0x11, 0x12, 0x13, 0x14, 0xD5],
            AddressType::RANDOM_DEVICE
        )
    );
}

#[test]
fn features_beyond_the_last_page_are_not_supported() {
    let mut device = Device::new(0);
    device
        .setup
        .local_lmp_features
        .insert(0, [0x01, 0, 0, 0, 0, 0, 0, 0x80]);
    device
        .setup
        .local_lmp_features
        .insert(255, [0x01, 0, 0, 0, 0, 0, 0, 0x80]);
    assert!(device.supports_lmp_features(&[0, 63, 255 * 64, 16383]));
    assert!(!device.supports_lmp_feature(1));
    assert!(!device.supports_lmp_feature(64));
    assert!(!device.supports_lmp_feature(16384));
    assert!(!device.supports_lmp_feature(16384 + 63));
    assert!(!device.supports_lmp_features(&[0, 16384]));
}

#[test]
fn private_addresses_are_drawn_where_they_are_used() {
    let mut link = QueuedTransport::new();
    let mut config = quiet_configuration();
    config.irk = vec![3; 15];
    let mut device = Device::with_config(0, config);
    assert_eq!(device.private_address_key(), None);
    device.config.le_privacy_enabled = true;
    device.config.le_rpa_timeout = 10;
    assert_eq!(device.private_address_key(), None);
    device.config.irk = (0..16).collect();
    let key: Vec<u8> = (0..16).collect();
    assert_eq!(device.private_address_key().unwrap().to_vec(), key);
    assert!(!device.rotates_address(10));
    assert_eq!(device.power_on(&mut link, drawn(), private(1)), Ok(()));
    assert!(!device.rotates_address(9));
    assert!(device.rotates_address(10));
    device.start_scanning(&mut link, true, true);
    assert!(!device.rotates_address(10));
}

#[test]
fn packets_are_released_waiting_or_dropped_over_a_history() {
    let mut queue = DataPacketQueue::new(1).unwrap();
    let mut released = Vec::new();
    queue.enqueue('a', 1);
    queue.enqueue('b', 2);
    queue.enqueue('c', 1);
    released.extend(queue.poll_ready());
    released.extend(queue.poll_ready());
    assert_eq!(queue.flush(1), 2);
    queue.enqueue('d', 1);
    released.extend(queue.poll_ready());
    assert_eq!(queue.on_packets_completed(1, 2), Ok(()));
    queue.enqueue('e', 2);
    released.extend(queue.poll_ready());
    assert_eq!(released, vec!['a', 'b', 'd']);
    assert_eq!(queue.waiting(), 1);
    assert_eq!(queue.flush_all(), 2);
    released.extend(queue.poll_ready());
    assert_eq!(released.len(), 3);
}
