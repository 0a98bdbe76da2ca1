use bumble_host::hci::{
    LeMetaEvent, ReturnParameters, SynchronousDataPacket, HCI_READ_RSSI_COMMAND,
};
use bumble_host::transport::OutgoingPacket;
use bumble_host::{
    Address, AddressType, BigInfoReport, ChannelSoundingConfig, ChannelSoundingDefaultSettings,
    ChannelSoundingProcedureParameters, ChannelSoundingSubeventResult,
    ChannelSoundingSubeventResultContinue, Command, Device, DeviceEvent, Event, HciPacket,
    LeConnectionControlEvent, LeConnectionParameters, LeConnectionRateParameters,
    LeSubrateRequestParameters, PeriodicAdvertisingSyncInfo, PeriodicAdvertisingSyncTransferInfo,
    QueuedTransport,
};

fn peer(last: u8) -> Address {
    Address::from_bytes([last, 0, 0, 0, 0, 0xC0], AddressType::RANDOM_DEVICE)
}

fn event(event: LeMetaEvent) -> HciPacket {
    HciPacket::Event(Event::LeMeta(event))
}

fn deliver(device: &mut Device, link: &mut QueuedTransport, packet: HciPacket) {
    link.incoming.push(packet);
    assert!(device.poll(link));
    device.take_follow_up();
}

fn device_with_connection(link: &mut QueuedTransport) -> Device {
    let mut device = Device::new(0);
    deliver(
        &mut device,
        link,
        event(LeMetaEvent::EnhancedConnectionComplete {
            status: 0,
            connection_handle: 0x40,
            role: 0,
            peer_address: peer(1),
            connection_interval: 24,
            peripheral_latency: 0,
            supervision_timeout: 72,
        }),
    );
    device
}

fn sent(link: &mut QueuedTransport) -> Vec<Command> {
    link.outgoing
        .drain(..)
        .map(|packet| match packet {
            OutgoingPacket::Command { command, .. } => command,
            _ => unreachable!(),
        })
        .collect()
}

fn train() -> PeriodicAdvertisingSyncInfo {
    PeriodicAdvertisingSyncInfo {
        sync_handle: 0x30,
        advertising_sid: 4,
        advertiser_address_type: 1,
        advertiser_address: peer(6),
        advertiser_phy: 1,
        interval: 0xA0,
        advertiser_clock_accuracy: 0,
    }
}

#[test]
fn what_was_started_is_stopped() {
    let mut link = QueuedTransport::new();
    let mut device = Device::new(0);
    device.stop_extended_advertising(&mut link, 7);
    device.stop_periodic_advertising(&mut link, 7);
    device.start_extended_scanning(&mut link, true, false);
    device.stop_extended_scanning(&mut link);
    assert!(!device.is_scanning());
    assert_eq!(
        sent(&mut link),
        vec![
            Command::LeSetExtendedAdvertisingEnable {
                enable: 0,
                advertising_handles: vec![7],
                durations: vec![0],
                max_extended_advertising_events: vec![0],
            },
            Command::LeSetPeriodicAdvertisingEnable {
                enable: 0,
                advertising_handle: 7,
            },
            Command::LeSetExtendedScanParameters {
                own_address_type: 1,
                scanning_filter_policy: 0,
                scanning_phys: 1,
                scan_types: vec![1],
                scan_intervals: vec![0x0010],
                scan_windows: vec![0x0010],
            },
            Command::LeSetExtendedScanEnable {
                enable: 1,
                filter_duplicates: 0,
                duration: 0,
                period: 0,
            },
            Command::LeSetExtendedScanEnable {
                enable: 0,
                filter_duplicates: 0,
                duration: 0,
                period: 0,
            },
        ]
    );
}

#[test]
fn periodic_trains_are_asked_for_within_limits() {
    let mut link = QueuedTransport::new();
    let mut device = Device::new(0);
    let mut ask = |sid: u8, skip: u16, timeout: u16| {
        device.create_periodic_advertising_sync(&mut link, peer(6), sid, skip, timeout, true)
    };
    assert!(!ask(0x10, 0, 0x000A));
    assert!(!ask(0x0F, 0x01F4, 0x000A));
    assert!(!ask(0x0F, 0, 0x0009));
    assert!(!ask(0x0F, 0, 0x4001));
    assert!(ask(0x0F, 0x01F3, 0x4000));
    device.cancel_periodic_advertising_sync(&mut link);
    device.set_periodic_advertising_receive_enabled(&mut link, 0x30, true);
    assert_eq!(
        sent(&mut link),
        vec![
            Command::LePeriodicAdvertisingCreateSync {
                options: 1,
                advertising_sid: 0x0F,
                advertiser_address_type: 1,
                advertiser_address: peer(6),
                skip: 0x01F3,
                sync_timeout: 0x4000,
                sync_cte_type: 0,
            },
            Command::LePeriodicAdvertisingCreateSyncCancel,
            Command::LeSetPeriodicAdvertisingReceiveEnable {
                sync_handle: 0x30,
                enable: 1,
            },
        ]
    );
}

#[test]
fn transferred_train_is_kept_and_handed_on() {
    let mut link = QueuedTransport::new();
    let mut device = Device::new(0);
    assert!(!device.transfer_periodic_advertising_sync(&mut link, 0x30, 9));
    assert!(!device.transfer_periodic_advertising_set_info(&mut link, 7, 9));
    let mut device = device_with_connection(&mut link);
    deliver(
        &mut device,
        &mut link,
        event(LeMetaEvent::PeriodicAdvertisingSyncTransferReceived {
            status: 0,
            connection_handle: 0x40,
            service_data: 5,
            sync: train(),
        }),
    );
    assert_eq!(
        device.take_periodic_sync_transfers(),
        vec![PeriodicAdvertisingSyncTransferInfo {
            connection_handle: 0x40,
            service_data: 5,
            sync: train(),
        }]
    );
    assert!(device.transfer_periodic_advertising_sync(&mut link, 0x30, 9));
    assert!(device.transfer_periodic_advertising_set_info(&mut link, 7, 9));
    device.terminate_periodic_advertising_sync(&mut link, 0x30);
    assert!(device.periodic_syncs().is_empty());
    assert_eq!(
        sent(&mut link),
        vec![
            Command::LePeriodicAdvertisingSyncTransfer {
                connection_handle: 0x40,
                service_data: 9,
                sync_handle: 0x30,
            },
            Command::LePeriodicAdvertisingSetInfoTransfer {
                connection_handle: 0x40,
                service_data: 9,
                advertising_handle: 7,
            },
            Command::LePeriodicAdvertisingTerminateSync { sync_handle: 0x30 },
        ]
    );
}

#[test]
fn classic_requests_are_written_out() {
    let mut link = QueuedTransport::new();
    let mut device = Device::new(0);
    device.set_classic_scan_enable(&mut link, false, true);
    device.switch_classic_role(&mut link, peer(2), 1);
    device.cancel_classic_connection(&mut link, peer(2));
    device.set_random_address(&mut link, peer(9));
    assert_eq!(device.random_address(), &peer(9));
    assert_ne!(device.static_address(), &peer(9));
    device.send_hci_command(
        &mut link,
        Command::LeSetRandomAddress {
            random_address: peer(8),
        },
    );
    assert_eq!(device.random_address(), &peer(8));
    link.outgoing.pop();
    assert_eq!(
        sent(&mut link),
        vec![
            Command::WriteScanEnable { scan_enable: 2 },
            Command::SwitchRole {
                bd_addr: peer(2),
                role: 1,
            },
            Command::CreateConnectionCancel { bd_addr: peer(2) },
            Command::LeSetRandomAddress {
                random_address: peer(9)
            },
        ]
    );
}

#[test]
fn rates_and_subrates_are_requested_and_kept() {
    let mut link = QueuedTransport::new();
    let mut device = device_with_connection(&mut link);
    let rate = LeConnectionRateParameters {
        connection_interval_min: 6,
        connection_interval_max: 12,
        subrate_min: 1,
        subrate_max: 2,
        max_latency: 3,
        continuation_number: 4,
        supervision_timeout: 100,
        min_ce_length: 5,
        max_ce_length: 7,
    };
    let subrate = LeSubrateRequestParameters {
        subrate_min: 1,
        subrate_max: 2,
        max_latency: 3,
        continuation_number: 4,
        supervision_timeout: 100,
    };
    assert!(!device.update_connection_rate_on_handle(&mut link, 0x41, rate));
    assert!(!device.request_le_subrate_on_handle(&mut link, 0x41, subrate));
    assert!(device.update_connection_rate_on_handle(&mut link, 0x40, rate));
    assert!(device.request_le_subrate_on_handle(&mut link, 0x40, subrate));
    device.set_default_connection_rate(&mut link, rate);
    device.set_default_subrate(&mut link, subrate);
    assert_eq!(
        sent(&mut link),
        vec![
            Command::LeConnectionRateRequest {
                connection_handle: 0x40,
                connection_interval_min: 6,
                connection_interval_max: 12,
                subrate_min: 1,
                subrate_max: 2,
                max_latency: 3,
                continuation_number: 4,
                supervision_timeout: 100,
                min_ce_length: 5,
                max_ce_length: 7,
            },
            Command::LeSubrateRequest {
                connection_handle: 0x40,
                subrate_min: 1,
                subrate_max: 2,
                max_latency: 3,
                continuation_number: 4,
                supervision_timeout: 100,
            },
            Command::LeSetDefaultRateParameters {
                connection_interval_min: 6,
                connection_interval_max: 12,
                subrate_min: 1,
                subrate_max: 2,
                max_latency: 3,
                continuation_number: 4,
                supervision_timeout: 100,
                min_ce_length: 5,
                max_ce_length: 7,
            },
            Command::LeSetDefaultSubrate {
                subrate_min: 1,
                subrate_max: 2,
                max_latency: 3,
                continuation_number: 4,
                supervision_timeout: 100,
            },
        ]
    );
    deliver(
        &mut device,
        &mut link,
        event(LeMetaEvent::SubrateChange {
            status: 0,
            connection_handle: 0x40,
            subrate_factor: 2,
            peripheral_latency: 3,
            continuation_number: 4,
            supervision_timeout: 100,
        }),
    );
    let parameters = LeConnectionParameters {
        connection_interval: 24,
        peripheral_latency: 3,
        supervision_timeout: 100,
        subrate_factor: 2,
        continuation_number: 4,
    };
    assert_eq!(device.le_connection(0x40).unwrap().parameters, parameters);
    // A change of another connection is reported without an interval.
    deliver(
        &mut device,
        &mut link,
        event(LeMetaEvent::SubrateChange {
            status: 0,
            connection_handle: 0x41,
            subrate_factor: 2,
            peripheral_latency: 3,
            continuation_number: 4,
            supervision_timeout: 100,
        }),
    );
    assert_eq!(
        device.take_connection_control_events()[1],
        LeConnectionControlEvent::ConnectionParametersUpdate {
            status: 0,
            connection_handle: 0x41,
            parameters: LeConnectionParameters {
                connection_interval: 0,
                ..parameters
            },
        }
    );
}

#[test]
fn strength_and_features_of_the_peer_are_read() {
    let mut link = QueuedTransport::new();
    let mut device = device_with_connection(&mut link);
    assert!(!device.read_rssi_on_handle(&mut link, 0x41));
    assert!(device.read_rssi_on_handle(&mut link, 0x40));
    assert!(device.read_remote_le_features_on_handle(&mut link, 0x40));
    assert_eq!(
        sent(&mut link),
        vec![
            Command::ReadRssi { handle: 0x40 },
            Command::LeReadRemoteFeatures {
                connection_handle: 0x40
            },
        ]
    );
    deliver(
        &mut device,
        &mut link,
        HciPacket::Event(Event::CommandComplete {
            num_hci_command_packets: 1,
            command_opcode: HCI_READ_RSSI_COMMAND,
            return_parameters: ReturnParameters::ReadRssi {
                status: 0,
                handle: 0x40,
                rssi: -42,
            },
        }),
    );
    deliver(
        &mut device,
        &mut link,
        event(LeMetaEvent::ReadRemoteFeaturesComplete {
            status: 0,
            connection_handle: 0x40,
            le_features: [3; 8],
        }),
    );
    let connection = device.le_connection(0x40).unwrap();
    assert_eq!(connection.rssi, Some(-42));
    assert_eq!(connection.peer_le_features, Some([3; 8]));
}

#[test]
fn streams_are_accepted_or_rejected() {
    let mut link = QueuedTransport::new();
    let mut device = Device::new(0);
    device.accept_cis(&mut link, 0x60);
    device.reject_cis(&mut link, 0x61, 0x0D);
    assert_eq!(
        sent(&mut link),
        vec![
            Command::LeAcceptCisRequest {
                connection_handle: 0x60
            },
            Command::LeRejectCisRequest {
                connection_handle: 0x61,
                reason: 0x0D,
            },
        ]
    );
}

#[test]
fn sounding_procedures_need_a_configuration() {
    let mut link = QueuedTransport::new();
    let mut device = device_with_connection(&mut link);
    let settings = ChannelSoundingDefaultSettings::default();
    let parameters = ChannelSoundingProcedureParameters::default();
    assert!(device.read_remote_channel_sounding_capabilities_on_handle(&mut link, 0x40));
    assert!(device.set_default_channel_sounding_settings_on_handle(&mut link, 0x40, settings));
    assert!(!device.set_default_channel_sounding_settings_on_handle(&mut link, 0x41, settings));
    assert!(!device.set_channel_sounding_procedure_parameters_on_handle(
        &mut link, 0x40, 1, parameters
    ));
    assert!(!device.enable_channel_sounding_procedure_on_handle(&mut link, 0x40, 1, true));
    deliver(
        &mut device,
        &mut link,
        event(LeMetaEvent::CsConfigComplete {
            status: 0,
            connection_handle: 0x40,
            action: 1,
            config: ChannelSoundingConfig {
                config_id: 1,
                main_mode_type: 2,
                sub_mode_type: 0xFF,
                min_main_mode_steps: 2,
                max_main_mode_steps: 5,
                main_mode_repetition: 0,
                mode_0_steps: 3,
                role: 0,
                rtt_type: 0,
                cs_sync_phy: 1,
                channel_map: [0x55; 10],
                channel_map_repetition: 1,
                channel_selection_type: 0,
                ch3c_shape: 0,
                ch3c_jump: 3,
                reserved: 0,
                t_ip1_time: 10,
                t_ip2_time: 10,
                t_fcs_time: 15,
                t_pm_time: 10,
            },
        }),
    );
    assert!(device.set_channel_sounding_procedure_parameters_on_handle(
        &mut link, 0x40, 1, parameters
    ));
    assert!(device.enable_channel_sounding_procedure_on_handle(&mut link, 0x40, 1, true));
    assert_eq!(
        sent(&mut link),
        vec![
            Command::LeCsReadRemoteSupportedCapabilities {
                connection_handle: 0x40
            },
            Command::LeCsSetDefaultSettings {
                connection_handle: 0x40,
                role_enable: 0x03,
                cs_sync_antenna_selection: 0xFF,
                max_tx_power: 0x04,
            },
            Command::LeCsSetProcedureParameters {
                connection_handle: 0x40,
                config_id: 1,
                max_procedure_len: parameters.max_procedure_len,
                min_procedure_interval: parameters.min_procedure_interval,
                max_procedure_interval: parameters.max_procedure_interval,
                max_procedure_count: parameters.max_procedure_count,
                min_subevent_len: parameters.min_subevent_len,
                max_subevent_len: parameters.max_subevent_len,
                tone_antenna_config_selection: parameters.tone_antenna_config_selection,
                phy: parameters.phy,
                tx_power_delta: parameters.tx_power_delta,
                preferred_peer_antenna: parameters.preferred_peer_antenna,
                snr_control_initiator: parameters.snr_control_initiator,
                snr_control_reflector: parameters.snr_control_reflector,
            },
            Command::LeCsProcedureEnable {
                connection_handle: 0x40,
                config_id: 1,
                enable: 1,
            },
        ]
    );
}

#[test]
fn reports_are_taken_as_they_came() {
    let mut link = QueuedTransport::new();
    let mut device = Device::new(0);
    let result = || ChannelSoundingSubeventResult {
        connection_handle: 0x40,
        config_id: 1,
        start_acl_conn_event_counter: 2,
        procedure_counter: 3,
        frequency_compensation: 4,
        reference_power_level: -5,
        procedure_done_status: 0,
        subevent_done_status: 0,
        abort_reason: 0,
        num_antenna_paths: 1,
        step_mode: vec![0],
        step_channel: vec![9],
        step_data: vec![vec![1, 2]],
    };
    let rest = || ChannelSoundingSubeventResultContinue {
        connection_handle: 0x40,
        config_id: 1,
        procedure_done_status: 0,
        subevent_done_status: 0,
        abort_reason: 0,
        num_antenna_paths: 1,
        step_mode: vec![1],
        step_channel: vec![8],
        step_data: vec![vec![3]],
    };
    let packet = || SynchronousDataPacket {
        connection_handle: 0x41,
        packet_status: 0,
        data: vec![5],
    };
    deliver(
        &mut device,
        &mut link,
        event(LeMetaEvent::CsSubeventResult { result: result() }),
    );
    deliver(
        &mut device,
        &mut link,
        event(LeMetaEvent::CsSubeventResultContinue { result: rest() }),
    );
    deliver(&mut device, &mut link, HciPacket::SyncData(packet()));
    deliver(
        &mut device,
        &mut link,
        event(LeMetaEvent::BiginfoAdvertisingReport {
            sync_handle: 0x30,
            num_bis: 2,
            nse: 4,
            iso_interval: 8,
            bn: 1,
            pto: 0,
            irc: 3,
            max_pdu: 120,
            sdu_interval: 10_000,
            max_sdu: 120,
            phy: 2,
            framing: 0,
            encryption: 1,
        }),
    );
    assert_eq!(
        device.take_channel_sounding_subevent_results(),
        vec![result()]
    );
    assert_eq!(
        device.take_channel_sounding_subevent_result_continuations(),
        vec![rest()]
    );
    assert_eq!(device.take_synchronous_inbox(), vec![packet()]);
    assert_eq!(
        device.take_biginfo_reports(),
        vec![BigInfoReport {
            sync_handle: 0x30,
            num_bis: 2,
            nse: 4,
            iso_interval: 8,
            bn: 1,
            pto: 0,
            irc: 3,
            max_pdu: 120,
            sdu_interval: 10_000,
            max_sdu: 120,
            phy: 2,
            framing: 0,
            encrypted: true,
        }]
    );
    assert_eq!(
        device.take_device_events(),
        vec![
            DeviceEvent::ChannelSoundingSubeventResult(result()),
            DeviceEvent::ChannelSoundingSubeventResultContinue(rest()),
        ]
    );
}
