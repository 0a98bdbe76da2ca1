use bumble_host::bearers::{BearerSubscription, SubscriberError, ValueMessage};
use bumble_host::channels::{
    le_pairing_pdu_step, AttAccess, AttRoute, ChannelPresence, L2capRoute, PairingPduStep,
};
use bumble_host::hci::LeMetaEvent;
use bumble_host::pairing::{resumes_pairing, PairingFlowError};
use bumble_host::services::check_eatt_channel;
use bumble_host::{
    att_bearer_id, eatt_bearer_id, Address, AddressType, AttPdu, AttPduKind, Device,
    EattChannelError, Event, HciPacket, LePsmError, QueuedTransport, ATT_CID,
};

const NO_MANAGER: ChannelPresence = ChannelPresence {
    classic_manager: false,
    classic_channel: false,
    le_manager: false,
    le_channel: false,
};

fn pdu(kind: AttPduKind) -> AttPdu {
    AttPdu {
        kind,
        bytes: vec![0x0A, 3, 0],
    }
}

#[test]
fn bearers_have_distinct_identities() {
    assert_eq!(att_bearer_id(0x40), 0x40);
    assert_eq!(eatt_bearer_id(0x40, 0x41), 0x8000_0000_0040_0041);
    assert_ne!(eatt_bearer_id(0x40, 0x41), eatt_bearer_id(0x41, 0x40));
    assert_ne!(eatt_bearer_id(0, 0x40), att_bearer_id(0x40));
}

#[test]
fn payloads_go_to_the_manager_that_has_their_channel() {
    let mut device = Device::new(0);
    let classic = ChannelPresence {
        classic_manager: true,
        ..NO_MANAGER
    };
    let le = ChannelPresence {
        le_manager: true,
        ..NO_MANAGER
    };
    assert_eq!(
        device.on_l2cap_payload(0x40, 1, vec![1], classic),
        L2capRoute::ClassicChannel { payload: vec![1] }
    );
    assert_eq!(
        device.on_l2cap_payload(0x40, 0x45, vec![1], classic),
        L2capRoute::Kept
    );
    assert_eq!(
        device.on_l2cap_payload(
            0x40,
            0x45,
            vec![2],
            ChannelPresence {
                classic_channel: true,
                ..classic
            }
        ),
        L2capRoute::ClassicChannel { payload: vec![2] }
    );
    assert_eq!(
        device.on_l2cap_payload(0x40, 5, vec![3], le),
        L2capRoute::LeCreditChannel { payload: vec![3] }
    );
    assert_eq!(
        device.on_l2cap_payload(0x40, 4, vec![4], le),
        L2capRoute::Att { payload: vec![4] }
    );
    assert!(device.take_l2cap(0x46).is_empty());
    assert_eq!(device.take_l2cap_on_handle(0x40, 0x45), vec![vec![1]]);
    assert!(device.take_l2cap(0x45).is_empty());
}

#[test]
fn security_messages_go_to_the_pairing_manager() {
    let mut device = Device::new(0);
    assert_eq!(
        device.on_l2cap_payload(0x40, 6, vec![0x0B, 5], NO_MANAGER),
        L2capRoute::Kept
    );
    device.enable_pairing();
    assert_eq!(
        device.on_l2cap_payload(0x41, 6, vec![0x0B, 9], NO_MANAGER),
        L2capRoute::LePairing {
            payload: vec![0x0B, 9]
        }
    );
    assert_eq!(device.take_security_requests_on_handle(0x41), vec![9]);
    assert_eq!(device.take_security_requests(), vec![5]);
    device.config.classic_smp_enabled = true;
    assert_eq!(
        device.on_l2cap_payload(0x20, 7, vec![1], NO_MANAGER),
        L2capRoute::ClassicPairing { payload: vec![1] }
    );
    device.config.classic_smp_enabled = false;
    assert_eq!(
        device.on_l2cap_payload(0x20, 7, vec![1], NO_MANAGER),
        L2capRoute::Kept
    );
    assert_eq!(
        device.on_classic_pairing_pdu(0x20, true, true),
        PairingPduStep::Receive
    );
    assert_eq!(device.take_pairing_errors(), vec![]);
    assert_eq!(
        device.on_classic_pairing_pdu(0x20, false, true),
        PairingPduStep::Refuse { answered: true }
    );
    assert_eq!(
        device.take_pairing_errors(),
        vec![(
            0x20,
            "BR/EDR SMP requires an encrypted connection with a stored Link Key".to_owned()
        )]
    );
    assert_eq!(
        device.on_classic_pairing_pdu(0x20, false, false),
        PairingPduStep::Refuse { answered: false }
    );
    assert_eq!(device.take_pairing_errors().len(), 1);
}

#[test]
fn pairing_request_makes_an_idle_device_the_responder() {
    assert_eq!(le_pairing_pdu_step(true, false), PairingPduStep::Respond);
    assert_eq!(le_pairing_pdu_step(true, true), PairingPduStep::Receive);
    assert_eq!(le_pairing_pdu_step(false, false), PairingPduStep::Receive);
    assert!(resumes_pairing(1, true));
    assert!(!resumes_pairing(0, true));
    assert!(!resumes_pairing(1, false));
}

#[test]
fn requests_go_to_the_server_and_answers_to_the_application() {
    let mut device = Device::new(0);
    assert_eq!(
        device.on_att_pdu(0x40, ATT_CID, pdu(AttPduKind::ReadRequest)),
        AttRoute::Kept
    );
    assert_eq!(
        device.on_att_pdu(0x40, ATT_CID, pdu(AttPduKind::Command)),
        AttRoute::Dropped
    );
    assert!(!device.has_server());
    device.attach_server();
    assert!(device.has_server());
    assert_eq!(
        device.on_att_pdu(0x40, ATT_CID, pdu(AttPduKind::ReadRequest)),
        AttRoute::Request(pdu(AttPduKind::ReadRequest))
    );
    assert_eq!(
        device.on_att_pdu(0x40, ATT_CID, pdu(AttPduKind::Command)),
        AttRoute::Command(pdu(AttPduKind::Command))
    );
    assert_eq!(
        device.on_att_pdu(0x40, 0x50, pdu(AttPduKind::Other)),
        AttRoute::Kept
    );
    assert_eq!(device.take_inbox(), vec![pdu(AttPduKind::ReadRequest)]);
    assert!(device.take_inbox_on_handle(0x40).is_empty());
    assert!(device.take_eatt_inbox_on_bearer(0x40, 0x51).is_empty());
    assert_eq!(
        device.take_eatt_inbox(),
        vec![(0x40, 0x50, pdu(AttPduKind::Other))]
    );
    assert_eq!(
        device.att_access_context(0x40, ATT_CID),
        AttAccess {
            bearer_id: 0x40,
            encrypted: false,
            authenticated: false,
            authorized: false,
        }
    );
}

#[test]
fn one_indication_waits_on_a_bearer() {
    let mut device = Device::new(0);
    let both = |source_cid: u16| BearerSubscription {
        source_cid,
        bits: 3,
        mtu: 23,
    };
    assert_eq!(
        device.subscribed_values(0x40, &[both(4)], 3, &[1], false, true),
        Err(SubscriberError::NoServer)
    );
    device.attach_server();
    device.mark_indicated(0x40, 4);
    device.mark_indicated(0x40, 4);
    assert!(device.indication_pending(0x40, 4));
    let messages = device
        .subscribed_values(0x40, &[both(4), both(0x50)], 3, &[1], false, true)
        .unwrap();
    assert_eq!(
        messages,
        vec![ValueMessage {
            source_cid: 0x50,
            attribute_handle: 3,
            attribute_value: vec![1],
            indication: true,
        }]
    );
    let confirmation = || pdu(AttPduKind::HandleValueConfirmation);
    assert_eq!(
        device.on_att_pdu(0x40, 0x50, confirmation()),
        AttRoute::Kept
    );
    assert_eq!(
        device.on_att_pdu(0x40, 4, confirmation()),
        AttRoute::Confirmed
    );
    assert!(!device.indication_pending(0x40, 4));
    assert_eq!(device.on_att_pdu(0x40, 4, confirmation()), AttRoute::Kept);
}

#[test]
fn values_go_to_subscribers_and_are_cut_to_fit() {
    let mut device = Device::new(0);
    device.attach_server();
    let bearers = [
        BearerSubscription {
            source_cid: 4,
            bits: 2,
            mtu: 23,
        },
        BearerSubscription {
            source_cid: 0x50,
            bits: 1,
            mtu: 10,
        },
        BearerSubscription {
            source_cid: 0x51,
            bits: 3,
            mtu: 33,
        },
    ];
    let lengths = |force: bool| -> Vec<(u16, usize)> {
        device
            .subscribed_values(0x40, &bearers, 9, &[7; 40], force, false)
            .unwrap()
            .iter()
            .map(|message| (message.source_cid, message.attribute_value.len()))
            .collect()
    };
    assert_eq!(lengths(false), vec![(0x50, 20), (0x51, 30)]);
    assert_eq!(lengths(true), vec![(4, 20), (0x50, 20), (0x51, 30)]);
}

#[test]
fn closed_bearers_leave_nothing_behind() {
    let mut device = Device::new(0);
    let mut link = QueuedTransport::new();
    link.incoming.push(HciPacket::Event(Event::LeMeta(
        LeMetaEvent::EnhancedConnectionComplete {
            status: 0,
            connection_handle: 0x40,
            role: 0,
            peer_address: Address::from_bytes([1; 6], AddressType::RANDOM_DEVICE),
            connection_interval: 24,
            peripheral_latency: 0,
            supervision_timeout: 72,
        },
    )));
    assert!(device.poll(&mut link));
    device.take_follow_up();
    assert!(device
        .update_eatt_bearers(0x40, &[0x50, 0x51, 0x50])
        .is_empty());
    assert_eq!(device.eatt_bearers(0x40), vec![0x50, 0x51]);
    assert_eq!(device.att_bearers(0x40), vec![4, 0x50, 0x51]);
    device.mark_indicated(0x40, 0x50);
    device.on_att_pdu(0x40, 0x50, pdu(AttPduKind::Other));
    device.on_att_pdu(0x40, 0x51, pdu(AttPduKind::Other));
    assert_eq!(
        device.update_eatt_bearers(0x40, &[0x51, 0x52]),
        vec![(0x40, 0x50)]
    );
    assert!(!device.indication_pending(0x40, 0x50));
    assert_eq!(
        device.take_eatt_inbox(),
        vec![(0x40, 0x51, pdu(AttPduKind::Other))]
    );
    assert_eq!(device.eatt_bearers(0x40), vec![0x51, 0x52]);
}

#[test]
fn channel_errors_are_kept() {
    let mut device = Device::new(0);
    device.record_le_credit_error(0x40, "no credits".to_owned());
    device.record_classic_channel_error(0x20, "closed".to_owned());
    assert_eq!(
        device.take_le_credit_errors(),
        vec![(0x40, "no credits".to_owned())]
    );
    assert_eq!(
        device.take_classic_channel_errors(),
        vec![(0x20, "closed".to_owned())]
    );
    assert!(device.take_classic_channel_errors().is_empty());
}

#[test]
fn servers_get_the_first_free_multiplexer() {
    let mut device = Device::new(0);
    assert_eq!(
        device.register_le_credit_server(Some(0)),
        Err(LePsmError::Zero)
    );
    assert_eq!(device.register_le_credit_server(Some(0x81)), Ok(0x81));
    assert_eq!(
        device.register_le_credit_server(Some(0x81)),
        Err(LePsmError::InUse { psm: 0x81 })
    );
    assert_eq!(device.register_le_credit_server(None), Ok(0x80));
    assert_eq!(device.register_le_credit_server(None), Ok(0x82));
    assert!(device.unregister_le_credit_server(0x80));
    assert!(!device.unregister_le_credit_server(0x80));
    assert_eq!(device.register_le_credit_server(None), Ok(0x80));
    for psm in 0x83..=0xFF {
        assert_eq!(device.register_le_credit_server(None), Ok(psm));
    }
    assert_eq!(
        device.register_le_credit_server(None),
        Err(LePsmError::NoneFree)
    );
}

#[test]
fn enhanced_att_needs_an_attribute_server() {
    let mut device = Device::new(0);
    assert_eq!(device.register_eatt_server(), Err(LePsmError::NoAttServer));
    device.attach_server();
    assert_eq!(device.register_eatt_server(), Ok(0x27));
    assert_eq!(
        device.register_eatt_server(),
        Err(LePsmError::InUse { psm: 0x27 })
    );
    // The registration outlives a flush.
    device.on_transport_lost();
    assert!(device.unregister_eatt_server());
    assert!(!device.unregister_eatt_server());
    assert_eq!(check_eatt_channel(0x41, Some(0x27)), Ok(()));
    assert_eq!(
        check_eatt_channel(0x41, Some(0x80)),
        Err(EattChannelError::NotEatt { source_cid: 0x41 })
    );
    assert_eq!(
        check_eatt_channel(0x41, None),
        Err(EattChannelError::UnknownChannel { source_cid: 0x41 })
    );
}

#[test]
fn fixed_channels_follow_the_configuration() {
    let mut device = Device::new(0);
    device.config.classic_smp_enabled = false;
    assert_eq!(device.fixed_channels(), vec![4, 6]);
    device.config.classic_smp_enabled = true;
    assert_eq!(device.fixed_channels(), vec![4, 6, 7]);
}

#[test]
fn channel_errors_are_put_into_words() {
    assert_eq!(LePsmError::Zero.message(), "LE PSM cannot be zero");
    assert_eq!(LePsmError::NoneFree.message(), "no free LE PSM");
    assert_eq!(
        LePsmError::InUse { psm: 0xAB }.message(),
        "LE PSM 0x00ab is already in use"
    );
    assert_eq!(
        LePsmError::NoAttServer.message(),
        "cannot register EATT without an ATT server"
    );
    assert_eq!(
        EattChannelError::UnknownChannel { source_cid: 0x41 }.message(),
        "unknown EATT CID 0x0041"
    );
    assert_eq!(
        EattChannelError::NotEatt { source_cid: 0xFEED }.message(),
        "CID 0xfeed is not an EATT bearer"
    );
    assert_eq!(
        SubscriberError::NoServer.message(),
        "cannot send subscribers without an ATT server"
    );
    assert_eq!(
        PairingFlowError::NoEncryptionKey.message(),
        "pairing reached encryption without an STK/LTK"
    );
    assert_eq!(
        PairingFlowError::NoPairingKeys.message(),
        "completed pairing did not retain pairing keys"
    );
}
