//! What a device is configured to do.

use crate::address::{Address, AddressType};
use vstd::prelude::*;

verus! {

pub const DEVICE_DEFAULT_NAME: &'static str = "Bumble";

pub const DEVICE_DEFAULT_CLASS_OF_DEVICE: u32 = 0;

/// Seconds between two rotations of the resolvable private address.
pub const DEVICE_DEFAULT_LE_RPA_TIMEOUT: u64 = 900;

/// The parts of a device's configuration that its host acts on.
#[derive(Debug)]
pub struct DeviceConfiguration {
    pub name: String,
    pub address: Address,
    pub irk: Vec<u8>,
    pub class_of_device: u32,
    pub advertising_data: Vec<u8>,
    pub scan_response_data: Vec<u8>,
    pub le_enabled: bool,
    pub le_simultaneous_enabled: bool,
    pub le_privacy_enabled: bool,
    pub le_rpa_timeout: u64,
    pub cis_enabled: bool,
    pub le_subrate_enabled: bool,
    pub channel_sounding_enabled: bool,
    pub le_shorter_connection_intervals_enabled: bool,
    pub address_resolution_offload: bool,
    pub address_generation_offload: bool,
    pub classic_enabled: bool,
    pub classic_ssp_enabled: bool,
    pub classic_sc_enabled: bool,
    pub classic_smp_enabled: bool,
    pub classic_accept_any: bool,
    pub classic_interlaced_scan_enabled: bool,
    pub discoverable: bool,
    pub connectable: bool,
    /// Which key store to open: the kind, and for a file its name after a colon.
    pub keystore: Option<String>,
}

impl DeviceConfiguration {
    /// Whether this is the configuration of a device that was given none: an
    /// LE-only device without privacy or a fixed address, which advertises the
    /// default name.
    pub open spec fn is_default(self) -> bool {
        &&& self.name@ == DEVICE_DEFAULT_NAME@
        &&& self.address.address_bytes@ == Seq::new(6, |index: int| 0u8)
        &&& self.address.address_type == AddressType::RANDOM_DEVICE
        &&& self.irk@ == Seq::new(16, |index: int| 0u8)
        &&& self.class_of_device == DEVICE_DEFAULT_CLASS_OF_DEVICE
        &&& self.advertising_data@ == seq![7u8, 0x09, 0x42, 0x75, 0x6D, 0x62, 0x6C, 0x65]
        &&& self.scan_response_data@ == Seq::<u8>::empty()
        &&& self.le_enabled
        &&& !self.le_simultaneous_enabled
        &&& !self.le_privacy_enabled
        &&& self.le_rpa_timeout == DEVICE_DEFAULT_LE_RPA_TIMEOUT
        &&& !self.cis_enabled
        &&& !self.le_subrate_enabled
        &&& !self.channel_sounding_enabled
        &&& !self.le_shorter_connection_intervals_enabled
        &&& !self.address_resolution_offload
        &&& !self.address_generation_offload
        &&& !self.classic_enabled
        &&& self.classic_ssp_enabled
        &&& self.classic_sc_enabled
        &&& self.classic_smp_enabled
        &&& self.classic_accept_any
        &&& self.classic_interlaced_scan_enabled
        &&& self.discoverable
        &&& self.connectable
        &&& self.keystore is None
    }
}

impl DeviceConfiguration {
    /// Answer inquiries or not.
    pub fn set_discoverable(&mut self, discoverable: bool)
        ensures
            *final(self) == (DeviceConfiguration { discoverable, ..*old(self) }),
    {
        self.discoverable = discoverable;
    }

    /// Accept pages or not.
    pub fn set_connectable(&mut self, connectable: bool)
        ensures
            *final(self) == (DeviceConfiguration { connectable, ..*old(self) }),
    {
        self.connectable = connectable;
    }
}

impl Default for DeviceConfiguration {
    fn default() -> (config: Self)
        ensures
            config.is_default(),
    {
        let mut irk: Vec<u8> = Vec::new();
        irk.resize(16, 0);
        assert(irk@ =~= Seq::new(16, |index: int| 0u8));
        let address: Address = Address::from_bytes([0;6], AddressType::RANDOM_DEVICE);
        assert(address.address_bytes@ =~= Seq::new(6, |index: int| 0u8));
        let advertising_data: Vec<u8> = vec![7, 0x09, 0x42, 0x75, 0x6D, 0x62, 0x6C, 0x65];
        assert(advertising_data@ =~= seq![7u8, 0x09, 0x42, 0x75, 0x6D, 0x62, 0x6C, 0x65]);
        DeviceConfiguration {
            name: DEVICE_DEFAULT_NAME.to_owned(),
            address,
            irk,
            class_of_device: DEVICE_DEFAULT_CLASS_OF_DEVICE,
            advertising_data,
            scan_response_data: Vec::new(),
            le_enabled: true,
            le_simultaneous_enabled: false,
            le_privacy_enabled: false,
            le_rpa_timeout: DEVICE_DEFAULT_LE_RPA_TIMEOUT,
            cis_enabled: false,
            le_subrate_enabled: false,
            channel_sounding_enabled: false,
            le_shorter_connection_intervals_enabled: false,
            address_resolution_offload: false,
            address_generation_offload: false,
            classic_enabled: false,
            classic_ssp_enabled: true,
            classic_sc_enabled: true,
            classic_smp_enabled: true,
            classic_accept_any: true,
            classic_interlaced_scan_enabled: true,
            discoverable: true,
            connectable: true,
            keystore: None,
        }
    }
}

} // verus!
