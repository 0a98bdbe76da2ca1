use bumble_host::hci::{AclDataPacket, IsoDataPacket, LeMetaEvent};
use bumble_host::{
    pump, Address, AddressType, Command, Device, Event, HciPacket, HostTransport, LinkStep,
    LocalLink, Pump,
};

/// A link that takes commands, and data only where it is told to.
#[derive(Default)]
struct RefusingTransport {
    commands: Vec<Command>,
    events: Vec<HciPacket>,
    units: Vec<IsoDataPacket>,
    refused: usize,
    takes_data: bool,
}

impl HostTransport for RefusingTransport {
    fn handle_command(&mut self, _controller_id: usize, command: Command) {
        self.commands.push(command);
    }

    fn send_acl_packet(&mut self, _controller_id: usize, _packet: AclDataPacket) -> bool {
        self.refused += 1;
        false
    }

    fn send_synchronous_data(
        &mut self,
        _controller_id: usize,
        _connection_handle: u16,
        _packet_status: u8,
        _data: &[u8],
    ) -> bool {
        self.refused += usize::from(!self.takes_data);
        self.takes_data
    }

    fn send_iso_packet(&mut self, _controller_id: usize, packet: IsoDataPacket) -> bool {
        if self.takes_data {
            self.units.push(packet);
        } else {
            self.refused += 1;
        }
        self.takes_data
    }

    fn disconnect(&mut self, _controller_id: usize, _connection_handle: u16, _reason: u8) -> bool {
        self.refused += 1;
        false
    }

    fn drain_host_events(&mut self, _controller_id: usize) -> Vec<HciPacket> {
        core::mem::take(&mut self.events)
    }

    fn advance(&mut self, _step: LinkStep) {}
}

fn device_with_connection(link: &mut RefusingTransport) -> Device {
    let mut device = Device::new(0);
    link.events.push(HciPacket::Event(Event::LeMeta(
        LeMetaEvent::EnhancedConnectionComplete {
            status: 0,
            connection_handle: 0x40,
            role: 0,
            peer_address: Address::from_bytes([1; 6], AddressType::RANDOM_DEVICE),
            connection_interval: 24,
            peripheral_latency: 0,
            supervision_timeout: 72,
        },
    )));
    assert!(device.poll(link));
    device.take_follow_up();
    device
}

#[test]
fn refused_packets_are_given_back() {
    let mut link = RefusingTransport::default();
    let mut device = device_with_connection(&mut link);
    let packet = || AclDataPacket {
        connection_handle: 0x40,
        pb_flag: 0,
        bc_flag: 0,
        data_total_length: 1,
        data: vec![1],
    };
    assert!(device.set_acl_max_in_flight(1));
    assert!(!device.send_l2cap_on_handle(&mut link, 0x40, vec![packet(), packet()]));
    assert_eq!(link.refused, 2);
    assert_eq!(device.acl_packets_pending(), 0);
    assert!(device.acl_output_is_drained(0x40));
}

#[test]
fn refused_unit_keeps_its_number() {
    let mut link = RefusingTransport::default();
    let mut device = device_with_connection(&mut link);
    link.events.push(HciPacket::Event(Event::LeMeta(
        LeMetaEvent::CreateBigComplete {
            status: 0,
            big_handle: 1,
            connection_handle: vec![0x70],
        },
    )));
    assert!(device.poll(&mut link));
    assert!(!device.send_iso_sdu(&mut link, 0x70, &[1]));
    assert_eq!(link.refused, 1);
    link.takes_data = true;
    assert!(device.send_iso_sdu(&mut link, 0x70, &[1]));
    assert!(device.send_iso_sdu(&mut link, 0x70, &[1]));
    let numbers: Vec<Option<u16>> = link
        .units
        .iter()
        .map(|packet| packet.packet_sequence_number)
        .collect();
    assert_eq!(numbers, vec![Some(0), Some(1)]);
}

#[test]
fn refused_disconnection_is_not_awaited() {
    let mut link = RefusingTransport::default();
    let mut device = device_with_connection(&mut link);
    assert!(!device.disconnect(&mut link, 0x13));
    assert_eq!(link.refused, 1);
    assert!(!device.is_disconnecting());
    assert!(device.is_connected_on_handle(0x40));
}

#[test]
fn refused_synchronous_data_is_reported() {
    let mut link = RefusingTransport::default();
    let mut device = device_with_connection(&mut link);
    assert!(!device.send_synchronous(&mut link, 0x41, 0, &[1]));
    assert_eq!(link.refused, 1);
    link.takes_data = true;
    assert!(device.send_synchronous(&mut link, 0x41, 0, &[1]));
}

#[test]
fn operations_take_a_link_of_unknown_kind() {
    let mut link = RefusingTransport::default();
    let mut device = device_with_connection(&mut link);
    let dynamic: &mut LocalLink = &mut link;
    device.start_scanning(dynamic, true, true);
    device.stop_scanning(dynamic);
    assert!(!device.poll(dynamic));
    assert_eq!(link.commands.len(), 3);
}

/// A link that keeps count of what it is asked for.
#[derive(Default)]
struct CountingTransport {
    commands: usize,
    events: Vec<HciPacket>,
    drained: Vec<usize>,
    established: usize,
    advanced: Vec<LinkStep>,
}

impl HostTransport for CountingTransport {
    fn handle_command(&mut self, _controller_id: usize, _command: Command) {
        self.commands += 1;
    }

    fn send_acl_packet(&mut self, _controller_id: usize, _packet: AclDataPacket) -> bool {
        unreachable!()
    }

    fn send_synchronous_data(
        &mut self,
        _controller_id: usize,
        _connection_handle: u16,
        _packet_status: u8,
        _data: &[u8],
    ) -> bool {
        unreachable!()
    }

    fn send_iso_packet(&mut self, _controller_id: usize, _packet: IsoDataPacket) -> bool {
        unreachable!()
    }

    fn drain_host_events(&mut self, controller_id: usize) -> Vec<HciPacket> {
        self.drained.push(controller_id);
        if controller_id == 0 {
            core::mem::take(&mut self.events)
        } else {
            Vec::new()
        }
    }

    fn advance(&mut self, step: LinkStep) {
        if step == LinkStep::EstablishConnections {
            self.established += 1;
        } else {
            self.advanced.push(step);
        }
    }
}

#[test]
fn quiet_round_asks_every_device_once_and_ends_the_pump() {
    let mut link = CountingTransport::default();
    let mut devices = [Device::new(0), Device::new(1)];
    assert_eq!(pump(&mut link, &mut devices), None);
    assert_eq!(link.drained, vec![0, 1]);
    assert_eq!(
        link.advanced,
        vec![
            LinkStep::LinkLayer,
            LinkStep::Classic,
            LinkStep::PeriodicSyncTransfers,
            LinkStep::BigTerminations,
        ]
    );
    assert_eq!(link.commands, 0);
    link.events.push(HciPacket::Event(Event::LeMeta(
        LeMetaEvent::EnhancedConnectionComplete {
            status: 0x3E,
            connection_handle: 0,
            role: 0,
            peer_address: Address::from_bytes([7; 6], AddressType::RANDOM_DEVICE),
            connection_interval: 0,
            peripheral_latency: 0,
            supervision_timeout: 0,
        },
    )));
    assert_eq!(pump(&mut link, &mut devices), None);
    assert_eq!(link.drained, vec![0, 1, 0, 1, 0, 1]);
    assert_eq!(link.advanced.len(), 12);
    assert_eq!(link.established, 0);
}

#[test]
fn connection_attempt_advances_the_link_once() {
    let mut link = CountingTransport::default();
    let mut device = Device::new(0);
    let peer = Address::from_bytes([7; 6], AddressType::RANDOM_DEVICE);
    assert!(device.connect_le(&mut link, peer));
    assert_eq!((link.commands, link.established), (1, 1));
    let peer = Address::from_bytes([7; 6], AddressType::RANDOM_DEVICE);
    assert!(!device.connect_le_extended(&mut link, peer));
    assert_eq!((link.commands, link.established), (1, 1));
}

fn connected(connection_handle: u16) -> HciPacket {
    HciPacket::Event(Event::LeMeta(LeMetaEvent::EnhancedConnectionComplete {
        status: 0,
        connection_handle,
        role: 0,
        peer_address: Address::from_bytes([7; 6], AddressType::RANDOM_DEVICE),
        connection_interval: 24,
        peripheral_latency: 0,
        supervision_timeout: 72,
    }))
}

#[test]
fn pump_names_the_device_that_waits_and_goes_on_with_it() {
    let mut link = CountingTransport::default();
    let mut devices = [Device::new(1), Device::new(0)];
    link.events.push(connected(0x40));
    link.events.push(connected(0x41));
    let mut pump = Pump::new(devices.len());
    assert_eq!(pump.run(&mut link, &mut devices), Some(1));
    assert!(devices[1].is_connected_on_handle(0x40));
    assert!(!devices[1].is_connected_on_handle(0x41));
    assert_eq!(pump.run(&mut link, &mut devices), Some(1));
    assert!(!devices[1].is_connected_on_handle(0x41));
    assert!(devices[1].take_follow_up().is_some());
    assert_eq!(pump.run(&mut link, &mut devices), Some(1));
    assert!(devices[1].is_connected_on_handle(0x41));
    assert!(devices[1].take_follow_up().is_some());
    assert_eq!(pump.run(&mut link, &mut devices), None);
    assert_eq!(link.drained, vec![1, 0, 1, 0]);
    assert_eq!((pump.rounds, pump.active), (2, false));
    assert_eq!(pump.run(&mut link, &mut devices), None);
    assert_eq!(link.drained.len(), 4);
}

#[test]
fn packets_are_processed_one_by_one() {
    let mut link = CountingTransport::default();
    let mut device = Device::new(0);
    assert!(!device.take_packets(&mut link));
    assert!(!device.process_next(&mut link));
    link.events.push(HciPacket::Event(Event::Vendor { data: vec![1] }));
    link.events.push(connected(0x40));
    link.events.push(HciPacket::Event(Event::Vendor { data: vec![2] }));
    assert!(device.take_packets(&mut link));
    assert!(device.process_next(&mut link));
    assert_eq!(device.take_vendor_events(), vec![vec![1]]);
    assert!(device.process_next(&mut link));
    assert!(!device.process_next(&mut link));
    assert!(device.take_follow_up().is_some());
    assert!(device.process_next(&mut link));
    assert_eq!(device.take_vendor_events(), vec![vec![2]]);
    assert!(!device.process_next(&mut link));
}
