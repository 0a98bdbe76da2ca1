//! LE connections and what the host knows of them.

use crate::address::Address;
use crate::channel_sounding::{
    ChannelSoundingCapabilities, ChannelSoundingConfig, ChannelSoundingProcedure,
};
use crate::retain::OfConnection;
use std::collections::BTreeMap;
use vstd::prelude::*;

verus! {

/// The link-layer role of the device that initiated a connection.
pub const ROLE_CENTRAL: u8 = 0;

/// The link-layer role of the device that was connected to.
pub const ROLE_PERIPHERAL: u8 = 1;

/// Current HCI connection parameters for one established LE ACL.
#[derive(Clone, Copy, Debug, PartialEq, Eq, Structural)]
pub struct LeConnectionParameters {
    pub connection_interval: u16,
    pub peripheral_latency: u16,
    pub supervision_timeout: u16,
    pub subrate_factor: u16,
    pub continuation_number: u16,
}

/// Requested bounds for the legacy LE Connection Update procedure, expressed
/// in HCI units (1.25 ms intervals, 10 ms supervision timeout, and 0.625 ms
/// connection-event lengths).
#[derive(Clone, Copy, Debug, PartialEq, Eq, Structural)]
pub struct LeConnectionUpdateParameters {
    pub connection_interval_min: u16,
    pub connection_interval_max: u16,
    pub max_latency: u16,
    pub supervision_timeout: u16,
    pub min_ce_length: u16,
    pub max_ce_length: u16,
}

/// Bluetooth 6.2 connection-rate request, expressed in the command's native
/// HCI units (0.125 ms intervals/event lengths and 10 ms timeout units).
#[derive(Clone, Copy, Debug, PartialEq, Eq, Structural)]
pub struct LeConnectionRateParameters {
    pub connection_interval_min: u16,
    pub connection_interval_max: u16,
    pub subrate_min: u16,
    pub subrate_max: u16,
    pub max_latency: u16,
    pub continuation_number: u16,
    pub supervision_timeout: u16,
    pub min_ce_length: u16,
    pub max_ce_length: u16,
}

/// Negotiated LE data-length values reported by the controller.
#[derive(Clone, Copy, Debug, PartialEq, Eq, Structural)]
pub struct LeDataLength {
    pub max_tx_octets: u16,
    pub max_tx_time: u16,
    pub max_rx_octets: u16,
    pub max_rx_time: u16,
}

/// Current transmit and receive LE PHY identifiers.
#[derive(Clone, Copy, Debug, PartialEq, Eq, Structural)]
pub struct LePhy {
    pub tx_phy: u8,
    pub rx_phy: u8,
}

/// Requested bounds for a connection subrate.
#[derive(Clone, Copy, Debug, PartialEq, Eq, Structural)]
pub struct LeSubrateRequestParameters {
    pub subrate_min: u16,
    pub subrate_max: u16,
    pub max_latency: u16,
    pub continuation_number: u16,
    pub supervision_timeout: u16,
}

/// Completion journal for LE connection-control requests.
///
/// Results are retained in order for callers to drain.
#[derive(Clone, Copy, Debug, PartialEq, Eq, Structural)]
pub enum LeConnectionControlEvent {
    ConnectionParametersUpdate {
        status: u8,
        connection_handle: u16,
        parameters: LeConnectionParameters,
    },
    DataLengthRequestComplete { status: u8, connection_handle: u16 },
    DataLengthChange { connection_handle: u16, data_length: LeDataLength },
    PhyRead { status: u8, connection_handle: u16, phy: LePhy },
    PhyUpdate { status: u8, connection_handle: u16, phy: LePhy },
    RssiRead { status: u8, connection_handle: u16, rssi: i8 },
    CommandStatus { command_opcode: u16, status: u8, connection_handle: Option<u16> },
}

#[derive(Clone, Copy, Debug, PartialEq, Eq, Structural)]
pub enum ConnectionFeatureTransport {
    Le,
    Classic,
}

#[derive(Clone, Copy, Debug, PartialEq, Eq, Structural)]
pub struct ConnectionFeatureError {
    pub transport: ConnectionFeatureTransport,
    pub connection_handle: u16,
    pub page_number: Option<u8>,
    pub status: u8,
}

impl OfConnection for ConnectionFeatureError {
    open spec fn connection(&self) -> u16 {
        self.connection_handle
    }

    fn get_connection(&self) -> (connection_handle: u16) {
        self.connection_handle
    }
}

/// Controller version information learned during the host reset flow.
#[derive(Clone, Copy, Debug, PartialEq, Eq, Structural)]
pub struct LocalVersionInformation {
    pub hci_version: u8,
    pub hci_subversion: u16,
    pub lmp_version: u8,
    pub company_identifier: u16,
    pub lmp_subversion: u16,
}

/// One controller-owned HCI packet pool learned during the host reset.
#[derive(Clone, Copy, Debug, PartialEq, Eq, Structural)]
pub struct ControllerBufferInfo {
    pub data_packet_length: u16,
    pub total_num_data_packets: u16,
}

/// Controller suggestion used as the default LE connection data length.
#[derive(Clone, Copy, Debug, PartialEq, Eq, Structural)]
pub struct LeSuggestedDefaultDataLength {
    pub suggested_max_tx_octets: u16,
    pub suggested_max_tx_time: u16,
}

/// Host-owned metadata for one established LE ACL connection.
#[derive(Debug, PartialEq, Eq)]
pub struct LeConnectionInfo {
    pub connection_handle: u16,
    pub role: u8,
    pub peer_address: Address,
    pub parameters: LeConnectionParameters,
    pub data_length: Option<LeDataLength>,
    pub phy: LePhy,
    pub rssi: Option<i8>,
    pub encryption_enabled: u8,
    pub encryption_key_size: u8,
    pub qos_service_type: Option<u8>,
    pub classic_mode: u8,
    pub classic_interval: u16,
    pub peer_le_features: Option<[u8; 8]>,
    pub channel_sounding_capabilities: Option<ChannelSoundingCapabilities>,
    pub channel_sounding_configs: BTreeMap<u8, ChannelSoundingConfig>,
    pub channel_sounding_procedures: BTreeMap<u8, ChannelSoundingProcedure>,
}

/// The content of a [`LeConnectionInfo`].
#[verifier::ext_equal]
pub struct LeConnectionInfoView {
    pub connection_handle: u16,
    pub role: u8,
    pub peer_address: Address,
    pub parameters: LeConnectionParameters,
    pub data_length: Option<LeDataLength>,
    pub phy: LePhy,
    pub rssi: Option<i8>,
    pub encryption_enabled: u8,
    pub encryption_key_size: u8,
    pub qos_service_type: Option<u8>,
    pub classic_mode: u8,
    pub classic_interval: u16,
    pub peer_le_features: Option<[u8; 8]>,
    pub channel_sounding_capabilities: Option<ChannelSoundingCapabilities>,
    pub channel_sounding_configs: Map<u8, ChannelSoundingConfig>,
    pub channel_sounding_procedures: Map<u8, ChannelSoundingProcedure>,
}

impl View for LeConnectionInfo {
    type V = LeConnectionInfoView;

    open spec fn view(&self) -> LeConnectionInfoView {
        LeConnectionInfoView {
            connection_handle: self.connection_handle,
            role: self.role,
            peer_address: self.peer_address,
            parameters: self.parameters,
            data_length: self.data_length,
            phy: self.phy,
            rssi: self.rssi,
            encryption_enabled: self.encryption_enabled,
            encryption_key_size: self.encryption_key_size,
            qos_service_type: self.qos_service_type,
            classic_mode: self.classic_mode,
            classic_interval: self.classic_interval,
            peer_le_features: self.peer_le_features,
            channel_sounding_capabilities: self.channel_sounding_capabilities,
            channel_sounding_configs: self.channel_sounding_configs@,
            channel_sounding_procedures: self.channel_sounding_procedures@,
        }
    }
}

impl Clone for LeConnectionInfo {
    fn clone(&self) -> (copy: Self)
        ensures
            copy@ == self@,
    {
        LeConnectionInfo {
            connection_handle: self.connection_handle,
            role: self.role,
            peer_address: self.peer_address,
            parameters: self.parameters,
            data_length: self.data_length,
            phy: self.phy,
            rssi: self.rssi,
            encryption_enabled: self.encryption_enabled,
            encryption_key_size: self.encryption_key_size,
            qos_service_type: self.qos_service_type,
            classic_mode: self.classic_mode,
            classic_interval: self.classic_interval,
            peer_le_features: self.peer_le_features,
            channel_sounding_capabilities: self.channel_sounding_capabilities,
            channel_sounding_configs: self.channel_sounding_configs.clone(),
            channel_sounding_procedures: self.channel_sounding_procedures.clone(),
        }
    }
}

impl LeConnectionInfoView {
    /// The record of a connection that was just established.
    pub open spec fn established(
        connection_handle: u16,
        role: u8,
        peer_address: Address,
        connection_interval: u16,
        peripheral_latency: u16,
        supervision_timeout: u16,
    ) -> Self {
        LeConnectionInfoView {
            connection_handle,
            role,
            peer_address,
            parameters: LeConnectionParameters {
                connection_interval,
                peripheral_latency,
                supervision_timeout,
                subrate_factor: 1,
                continuation_number: 0,
            },
            data_length: None,
            phy: LePhy { tx_phy: 1, rx_phy: 1 },
            rssi: None,
            encryption_enabled: 0,
            encryption_key_size: 0,
            qos_service_type: None,
            classic_mode: 0,
            classic_interval: 0,
            peer_le_features: None,
            channel_sounding_capabilities: None,
            channel_sounding_configs: Map::empty(),
            channel_sounding_procedures: Map::empty(),
        }
    }
}

impl LeConnectionInfo {
    /// The record of a connection that was just established.
    pub fn established(
        connection_handle: u16,
        role: u8,
        peer_address: Address,
        connection_interval: u16,
        peripheral_latency: u16,
        supervision_timeout: u16,
    ) -> (connection: Self)
        ensures
            connection@ == LeConnectionInfoView::established(
                connection_handle,
                role,
                peer_address,
                connection_interval,
                peripheral_latency,
                supervision_timeout,
            ),
    {
        LeConnectionInfo {
            connection_handle,
            role,
            peer_address,
            parameters: LeConnectionParameters {
                connection_interval,
                peripheral_latency,
                supervision_timeout,
                subrate_factor: 1,
                continuation_number: 0,
            },
            data_length: None,
            phy: LePhy { tx_phy: 1, rx_phy: 1 },
            rssi: None,
            encryption_enabled: 0,
            encryption_key_size: 0,
            qos_service_type: None,
            classic_mode: 0,
            classic_interval: 0,
            peer_le_features: None,
            channel_sounding_capabilities: None,
            channel_sounding_configs: BTreeMap::new(),
            channel_sounding_procedures: BTreeMap::new(),
        }
    }
}

/// Controller request for the key needed to complete LE link encryption.
#[derive(Clone, Copy, Debug, PartialEq, Eq)]
pub struct LongTermKeyRequestInfo {
    pub connection_handle: u16,
    pub random_number: [u8; 8],
    pub encryption_diversifier: u16,
}

impl OfConnection for LongTermKeyRequestInfo {
    open spec fn connection(&self) -> u16 {
        self.connection_handle
    }

    fn get_connection(&self) -> (connection_handle: u16) {
        self.connection_handle
    }
}

} // verus!
