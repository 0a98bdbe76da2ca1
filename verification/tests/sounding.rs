use bumble_host::hci::LeMetaEvent;
use bumble_host::transport::OutgoingPacket;
use bumble_host::{
    Address, AddressType, ChannelSoundingConfig, ChannelSoundingCreateConfigParameters,
    ChannelSoundingError, ChannelSoundingOperation, Command, Device, Event, HciPacket,
    QueuedTransport,
};

fn config(config_id: u8) -> ChannelSoundingConfig {
    ChannelSoundingConfig {
        config_id,
        main_mode_type: 2,
        sub_mode_type: 0xFF,
        min_main_mode_steps: 2,
        max_main_mode_steps: 5,
        main_mode_repetition: 0,
        mode_0_steps: 3,
        role: 0,
        rtt_type: 0,
        cs_sync_phy: 1,
        channel_map: [0x55; 10],
        channel_map_repetition: 1,
        channel_selection_type: 0,
        ch3c_shape: 0,
        ch3c_jump: 3,
        reserved: 0,
        t_ip1_time: 10,
        t_ip2_time: 10,
        t_fcs_time: 15,
        t_pm_time: 10,
    }
}

fn configured(status: u8, action: u8, config_id: u8) -> HciPacket {
    HciPacket::Event(Event::LeMeta(LeMetaEvent::CsConfigComplete {
        status,
        connection_handle: 0x40,
        action,
        config: config(config_id),
    }))
}

fn device_with_connection(link: &mut QueuedTransport) -> Device {
    let mut device = Device::new(0);
    link.incoming.push(HciPacket::Event(Event::LeMeta(
        LeMetaEvent::EnhancedConnectionComplete {
            status: 0,
            connection_handle: 0x40,
            role: 0,
            peer_address: Address::from_bytes([1; 6], AddressType::RANDOM_DEVICE),
            connection_interval: 24,
            peripheral_latency: 0,
            supervision_timeout: 72,
        },
    )));
    assert!(device.poll(link));
    device.take_follow_up();
    device
}

fn deliver(device: &mut Device, link: &mut QueuedTransport, packet: HciPacket) {
    link.incoming.push(packet);
    assert!(device.poll(link));
}

#[test]
fn configurations_get_the_first_free_identifier() {
    let mut link = QueuedTransport::new();
    let mut device = device_with_connection(&mut link);
    let parameters = ChannelSoundingCreateConfigParameters::default();
    let create = |device: &mut Device, link: &mut QueuedTransport, id: Option<u8>| {
        device.create_channel_sounding_config_on_handle(link, 0x40, id, parameters)
    };
    assert_eq!(create(&mut device, &mut link, Some(4)), None);
    assert_eq!(create(&mut device, &mut link, Some(1)), Some(1));
    assert_eq!(create(&mut device, &mut link, Some(1)), None);
    assert_eq!(create(&mut device, &mut link, None), Some(0));
    assert_eq!(create(&mut device, &mut link, None), Some(2));
    assert_eq!(create(&mut device, &mut link, None), Some(3));
    assert_eq!(create(&mut device, &mut link, None), None);
    assert_eq!(link.outgoing.len(), 4);
    assert!(matches!(
        &link.outgoing[0],
        OutgoingPacket::Command {
            command: Command::LeCsCreateConfig {
                connection_handle: 0x40,
                config_id: 1,
                reserved: 0,
                ..
            },
            ..
        }
    ));
    assert_eq!(
        device.create_channel_sounding_config_on_handle(&mut link, 0x41, None, parameters),
        None
    );
    // A refused identifier is free again; an accepted one is not.
    deliver(&mut device, &mut link, configured(0x0C, 1, 2));
    deliver(&mut device, &mut link, configured(0, 1, 3));
    assert_eq!(
        device.take_channel_sounding_errors(),
        vec![ChannelSoundingError {
            operation: ChannelSoundingOperation::Config,
            connection_handle: 0x40,
            config_id: Some(2),
            status: 0x0C,
        }]
    );
    assert_eq!(
        device
            .le_connection(0x40)
            .unwrap()
            .channel_sounding_configs
            .get(&3),
        Some(&config(3))
    );
    assert_eq!(create(&mut device, &mut link, None), Some(2));
    assert_eq!(create(&mut device, &mut link, None), None);
}

#[test]
fn removed_configuration_is_forgotten() {
    let mut link = QueuedTransport::new();
    let mut device = device_with_connection(&mut link);
    assert!(!device.remove_channel_sounding_config_on_handle(&mut link, 0x40, 1));
    deliver(&mut device, &mut link, configured(0, 1, 1));
    assert!(device.remove_channel_sounding_config_on_handle(&mut link, 0x40, 1));
    deliver(&mut device, &mut link, configured(0, 0, 1));
    assert!(device
        .le_connection(0x40)
        .unwrap()
        .channel_sounding_configs
        .is_empty());
    assert!(!device.remove_channel_sounding_config_on_handle(&mut link, 0x40, 1));
}

#[test]
fn security_results_are_kept_and_failures_reported() {
    let mut link = QueuedTransport::new();
    let mut device = device_with_connection(&mut link);
    assert!(device.enable_channel_sounding_security_on_handle(&mut link, 0x40));
    assert!(!device.enable_channel_sounding_security_on_handle(&mut link, 0x41));
    deliver(
        &mut device,
        &mut link,
        HciPacket::Event(Event::LeMeta(LeMetaEvent::CsSecurityEnableComplete {
            status: 0x06,
            connection_handle: 0x40,
        })),
    );
    assert_eq!(
        device.take_channel_sounding_security_results(),
        vec![(0x40, 0x06)]
    );
    assert_eq!(
        device.take_channel_sounding_errors(),
        vec![ChannelSoundingError {
            operation: ChannelSoundingOperation::SecurityEnable,
            connection_handle: 0x40,
            config_id: None,
            status: 0x06,
        }]
    );
}
