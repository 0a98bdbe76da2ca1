//! The HCI traffic that the host exchanges with its controller.
//!
//! Commands, events and data packets are plain values: each variant holds the
//! parameters that the host writes or reads.

use crate::address::Address;
use crate::iso::CodingFormat;
use vstd::prelude::*;

verus! {

pub const HCI_REMOTE_NAME_REQUEST_COMMAND: u16 = 0x0419;

pub const HCI_SET_EVENT_MASK_COMMAND: u16 = 0x0C01;

pub const HCI_RESET_COMMAND: u16 = 0x0C03;

pub const HCI_SET_EVENT_MASK_PAGE_2_COMMAND: u16 = 0x0C63;

pub const HCI_READ_LOCAL_VERSION_INFORMATION_COMMAND: u16 = 0x1001;

pub const HCI_READ_LOCAL_SUPPORTED_COMMANDS_COMMAND: u16 = 0x1002;

pub const HCI_READ_LOCAL_SUPPORTED_FEATURES_COMMAND: u16 = 0x1003;

pub const HCI_READ_LOCAL_EXTENDED_FEATURES_COMMAND: u16 = 0x1004;

pub const HCI_READ_BUFFER_SIZE_COMMAND: u16 = 0x1005;

pub const HCI_READ_BD_ADDR_COMMAND: u16 = 0x1009;

pub const HCI_READ_RSSI_COMMAND: u16 = 0x1405;

pub const HCI_LE_SET_EVENT_MASK_COMMAND: u16 = 0x2001;

pub const HCI_LE_READ_BUFFER_SIZE_COMMAND: u16 = 0x2002;

pub const HCI_LE_READ_LOCAL_SUPPORTED_FEATURES_COMMAND: u16 = 0x2003;

pub const HCI_LE_CONNECTION_UPDATE_COMMAND: u16 = 0x2013;

pub const HCI_LE_SET_DATA_LENGTH_COMMAND: u16 = 0x2022;

pub const HCI_LE_READ_SUGGESTED_DEFAULT_DATA_LENGTH_COMMAND: u16 = 0x2023;

pub const HCI_LE_WRITE_SUGGESTED_DEFAULT_DATA_LENGTH_COMMAND: u16 = 0x2024;

pub const HCI_LE_READ_PHY_COMMAND: u16 = 0x2030;

pub const HCI_LE_SET_PHY_COMMAND: u16 = 0x2032;

pub const HCI_LE_READ_MAXIMUM_ADVERTISING_DATA_LENGTH_COMMAND: u16 = 0x203A;

pub const HCI_LE_READ_NUMBER_OF_SUPPORTED_ADVERTISING_SETS_COMMAND: u16 = 0x203B;

pub const HCI_LE_READ_BUFFER_SIZE_V2_COMMAND: u16 = 0x2060;

pub const HCI_LE_READ_ISO_TX_SYNC_COMMAND: u16 = 0x2061;

pub const HCI_LE_SET_CIG_PARAMETERS_COMMAND: u16 = 0x2062;

pub const HCI_LE_CREATE_CIS_COMMAND: u16 = 0x2064;

pub const HCI_LE_ACCEPT_CIS_REQUEST_COMMAND: u16 = 0x2066;

pub const HCI_LE_REJECT_CIS_REQUEST_COMMAND: u16 = 0x2067;

pub const HCI_LE_CREATE_BIG_COMMAND: u16 = 0x2068;

pub const HCI_LE_BIG_CREATE_SYNC_COMMAND: u16 = 0x206B;

pub const HCI_LE_SETUP_ISO_DATA_PATH_COMMAND: u16 = 0x206E;

pub const HCI_LE_REMOVE_ISO_DATA_PATH_COMMAND: u16 = 0x206F;

pub const HCI_LE_SUBRATE_REQUEST_COMMAND: u16 = 0x207E;

pub const HCI_LE_READ_ALL_LOCAL_SUPPORTED_FEATURES_COMMAND: u16 = 0x2087;

pub const HCI_LE_CS_READ_LOCAL_SUPPORTED_CAPABILITIES_COMMAND: u16 = 0x2089;

pub const HCI_LE_CONNECTION_RATE_REQUEST_COMMAND: u16 = 0x20A1;

/// A command that the host sends to its controller.
#[derive(Debug, PartialEq, Eq)]
pub enum Command {
    Reset,
    Disconnect { connection_handle: u16, reason: u8 },
    SetEventMask { event_mask: [u8; 8] },
    SetEventMaskPage2 { event_mask_page_2: [u8; 8] },
    LeSetEventMask { le_event_mask: [u8; 8] },
    ReadBufferSize,
    LeReadBufferSizeV2,
    LeReadBufferSize,
    LeReadSuggestedDefaultDataLength,
    LeWriteSuggestedDefaultDataLength { suggested_max_tx_octets: u16, suggested_max_tx_time: u16 },
    LeReadNumberOfSupportedAdvertisingSets,
    LeReadMaximumAdvertisingDataLength,
    ReadLocalSupportedCommands,
    ReadLocalVersionInformation,
    ReadLocalSupportedFeatures,
    ReadLocalExtendedFeatures { page_number: u8 },
    LeReadAllLocalSupportedFeatures,
    LeReadLocalSupportedFeatures,
    ReadBdAddr,
    WritePageScanType { page_scan_type: u8 },
    WriteInquiryScanType { scan_type: u8 },
    WriteLeHostSupport { le_supported_host: u8, simultaneous_le_host: u8 },
    LeSetRandomAddress { random_address: Address },
    LeSetAddressResolutionEnable { address_resolution_enable: u8 },
    LeSetHostFeature { bit_number: u8, bit_value: u8 },
    LeCsReadLocalSupportedCapabilities,
    WriteLocalName { local_name: [u8; 248] },
    WriteClassOfDevice { class_of_device: u32 },
    WriteSimplePairingMode { simple_pairing_mode: u8 },
    WriteSecureConnectionsHostSupport { secure_connections_host_support: u8 },
    WriteScanEnable { scan_enable: u8 },
    WriteExtendedInquiryResponse { fec_required: u8, extended_inquiry_response: [u8; 240] },
    LeReadRemoteFeatures { connection_handle: u16 },
    ReadRemoteSupportedFeatures { connection_handle: u16 },
    ReadRemoteExtendedFeatures { connection_handle: u16, page_number: u8 },
    LeConnectionUpdate {
        connection_handle: u16,
        connection_interval_min: u16,
        connection_interval_max: u16,
        max_latency: u16,
        supervision_timeout: u16,
        min_ce_length: u16,
        max_ce_length: u16,
    },
    LeConnectionRateRequest {
        connection_handle: u16,
        connection_interval_min: u16,
        connection_interval_max: u16,
        subrate_min: u16,
        subrate_max: u16,
        max_latency: u16,
        continuation_number: u16,
        supervision_timeout: u16,
        min_ce_length: u16,
        max_ce_length: u16,
    },
    LeSetDefaultRateParameters {
        connection_interval_min: u16,
        connection_interval_max: u16,
        subrate_min: u16,
        subrate_max: u16,
        max_latency: u16,
        continuation_number: u16,
        supervision_timeout: u16,
        min_ce_length: u16,
        max_ce_length: u16,
    },
    LeSetDefaultSubrate {
        subrate_min: u16,
        subrate_max: u16,
        max_latency: u16,
        continuation_number: u16,
        supervision_timeout: u16,
    },
    LeSubrateRequest {
        connection_handle: u16,
        subrate_min: u16,
        subrate_max: u16,
        max_latency: u16,
        continuation_number: u16,
        supervision_timeout: u16,
    },
    LeSetDataLength { connection_handle: u16, tx_octets: u16, tx_time: u16 },
    LeReadPhy { connection_handle: u16 },
    LeSetPhy { connection_handle: u16, all_phys: u8, tx_phys: u8, rx_phys: u8, phy_options: u16 },
    LeSetDefaultPhy { all_phys: u8, tx_phys: u8, rx_phys: u8 },
    ReadRssi { handle: u16 },
    LeCsReadRemoteSupportedCapabilities { connection_handle: u16 },
    LeCsSetDefaultSettings {
        connection_handle: u16,
        role_enable: u8,
        cs_sync_antenna_selection: u8,
        max_tx_power: u8,
    },
    LeCsCreateConfig {
        connection_handle: u16,
        config_id: u8,
        create_context: u8,
        main_mode_type: u8,
        sub_mode_type: u8,
        min_main_mode_steps: u8,
        max_main_mode_steps: u8,
        main_mode_repetition: u8,
        mode_0_steps: u8,
        role: u8,
        rtt_type: u8,
        cs_sync_phy: u8,
        channel_map: [u8; 10],
        channel_map_repetition: u8,
        channel_selection_type: u8,
        ch3c_shape: u8,
        ch3c_jump: u8,
        reserved: u8,
    },
    LeCsRemoveConfig { connection_handle: u16, config_id: u8 },
    LeCsSecurityEnable { connection_handle: u16 },
    LeCsSetProcedureParameters {
        connection_handle: u16,
        config_id: u8,
        max_procedure_len: u16,
        min_procedure_interval: u16,
        max_procedure_interval: u16,
        max_procedure_count: u16,
        min_subevent_len: u32,
        max_subevent_len: u32,
        tone_antenna_config_selection: u8,
        phy: u8,
        tx_power_delta: u8,
        preferred_peer_antenna: u8,
        snr_control_initiator: u8,
        snr_control_reflector: u8,
    },
    LeCsProcedureEnable { connection_handle: u16, config_id: u8, enable: u8 },
    SniffMode {
        connection_handle: u16,
        sniff_max_interval: u16,
        sniff_min_interval: u16,
        sniff_attempt: u16,
        sniff_timeout: u16,
    },
    ExitSniffMode { connection_handle: u16 },
    LeSetAdvertisingParameters {
        advertising_interval_min: u16,
        advertising_interval_max: u16,
        advertising_type: u8,
        own_address_type: u8,
        peer_address_type: u8,
        peer_address: Address,
        advertising_channel_map: u8,
        advertising_filter_policy: u8,
    },
    LeSetAdvertisingData { advertising_data: Vec<u8> },
    LeSetScanResponseData { scan_response_data: Vec<u8> },
    LeSetAdvertisingEnable { advertising_enable: u8 },
    LeSetAdvertisingSetRandomAddress { advertising_handle: u8, random_address: Address },
    LeSetExtendedAdvertisingParameters {
        advertising_handle: u8,
        advertising_event_properties: u16,
        primary_advertising_interval_min: u32,
        primary_advertising_interval_max: u32,
        primary_advertising_channel_map: u8,
        own_address_type: u8,
        peer_address_type: u8,
        peer_address: Address,
        advertising_filter_policy: u8,
        advertising_tx_power: u8,
        primary_advertising_phy: u8,
        secondary_advertising_max_skip: u8,
        secondary_advertising_phy: u8,
        advertising_sid: u8,
        scan_request_notification_enable: u8,
    },
    LeSetExtendedAdvertisingData {
        advertising_handle: u8,
        operation: u8,
        fragment_preference: u8,
        advertising_data: Vec<u8>,
    },
    LeSetExtendedScanResponseData {
        advertising_handle: u8,
        operation: u8,
        fragment_preference: u8,
        scan_response_data: Vec<u8>,
    },
    LeSetExtendedAdvertisingEnable {
        enable: u8,
        advertising_handles: Vec<u8>,
        durations: Vec<u16>,
        max_extended_advertising_events: Vec<u8>,
    },
    LeSetPeriodicAdvertisingParameters {
        advertising_handle: u8,
        periodic_advertising_interval_min: u16,
        periodic_advertising_interval_max: u16,
        periodic_advertising_properties: u16,
    },
    LeSetPeriodicAdvertisingData {
        advertising_handle: u8,
        operation: u8,
        advertising_data: Vec<u8>,
    },
    LeSetPeriodicAdvertisingEnable { enable: u8, advertising_handle: u8 },
    LePeriodicAdvertisingCreateSync {
        options: u8,
        advertising_sid: u8,
        advertiser_address_type: u8,
        advertiser_address: Address,
        skip: u16,
        sync_timeout: u16,
        sync_cte_type: u8,
    },
    LePeriodicAdvertisingCreateSyncCancel,
    LePeriodicAdvertisingTerminateSync { sync_handle: u16 },
    LeSetPeriodicAdvertisingReceiveEnable { sync_handle: u16, enable: u8 },
    LePeriodicAdvertisingSyncTransfer {
        connection_handle: u16,
        service_data: u16,
        sync_handle: u16,
    },
    LePeriodicAdvertisingSetInfoTransfer {
        connection_handle: u16,
        service_data: u16,
        advertising_handle: u8,
    },
    LeSetScanParameters {
        le_scan_type: u8,
        le_scan_interval: u16,
        le_scan_window: u16,
        own_address_type: u8,
        scanning_filter_policy: u8,
    },
    LeSetScanEnable { le_scan_enable: u8, filter_duplicates: u8 },
    LeSetExtendedScanParameters {
        own_address_type: u8,
        scanning_filter_policy: u8,
        scanning_phys: u8,
        scan_types: Vec<u8>,
        scan_intervals: Vec<u16>,
        scan_windows: Vec<u16>,
    },
    LeSetExtendedScanEnable { enable: u8, filter_duplicates: u8, duration: u16, period: u16 },
    LeCreateConnection {
        le_scan_interval: u16,
        le_scan_window: u16,
        initiator_filter_policy: u8,
        peer_address_type: u8,
        peer_address: Address,
        own_address_type: u8,
        connection_interval_min: u16,
        connection_interval_max: u16,
        max_latency: u16,
        supervision_timeout: u16,
        min_ce_length: u16,
        max_ce_length: u16,
    },
    LeExtendedCreateConnection {
        initiator_filter_policy: u8,
        own_address_type: u8,
        peer_address_type: u8,
        peer_address: Address,
        initiating_phys: u8,
        scan_intervals: Vec<u16>,
        scan_windows: Vec<u16>,
        connection_interval_mins: Vec<u16>,
        connection_interval_maxs: Vec<u16>,
        max_latencies: Vec<u16>,
        supervision_timeouts: Vec<u16>,
        min_ce_lengths: Vec<u16>,
        max_ce_lengths: Vec<u16>,
    },
    LeCreateConnectionCancel,
    CreateConnectionCancel { bd_addr: Address },
    LeEnableEncryption {
        connection_handle: u16,
        random_number: [u8; 8],
        encrypted_diversifier: u16,
        long_term_key: [u8; 16],
    },
    LeLongTermKeyRequestReply { connection_handle: u16, long_term_key: [u8; 16] },
    LeLongTermKeyRequestNegativeReply { connection_handle: u16 },
    LeClearResolvingList,
    LeAddDeviceToResolvingList {
        peer_identity_address_type: u8,
        peer_identity_address: Address,
        peer_irk: [u8; 16],
        local_irk: [u8; 16],
    },
    WriteInquiryMode { inquiry_mode: u8 },
    Inquiry { lap: u32, inquiry_length: u8, num_responses: u8 },
    InquiryCancel,
    RemoteNameRequest {
        bd_addr: Address,
        page_scan_repetition_mode: u8,
        reserved: u8,
        clock_offset: u16,
    },
    AuthenticationRequested { connection_handle: u16 },
    SetConnectionEncryption { connection_handle: u16, encryption_enable: u8 },
    LeSetCigParameters {
        cig_id: u8,
        sdu_interval_c_to_p: u32,
        sdu_interval_p_to_c: u32,
        worst_case_sca: u8,
        packing: u8,
        framing: u8,
        max_transport_latency_c_to_p: u16,
        max_transport_latency_p_to_c: u16,
        cis_id: Vec<u8>,
        max_sdu_c_to_p: Vec<u16>,
        max_sdu_p_to_c: Vec<u16>,
        phy_c_to_p: Vec<u8>,
        phy_p_to_c: Vec<u8>,
        rtn_c_to_p: Vec<u8>,
        rtn_p_to_c: Vec<u8>,
    },
    LeCreateCis { cis_connection_handle: Vec<u16>, acl_connection_handle: Vec<u16> },
    LeAcceptCisRequest { connection_handle: u16 },
    LeRejectCisRequest { connection_handle: u16, reason: u8 },
    LeCreateBig {
        big_handle: u8,
        advertising_handle: u8,
        num_bis: u8,
        sdu_interval: u32,
        max_sdu: u16,
        max_transport_latency: u16,
        rtn: u8,
        phy: u8,
        packing: u8,
        framing: u8,
        encryption: u8,
        broadcast_code: [u8; 16],
    },
    LeTerminateBig { big_handle: u8, reason: u8 },
    LeBigCreateSync {
        big_handle: u8,
        sync_handle: u16,
        encryption: u8,
        broadcast_code: [u8; 16],
        mse: u8,
        big_sync_timeout: u16,
        bis: Vec<u8>,
    },
    LeBigTerminateSync { big_handle: u8 },
    LeSetupIsoDataPath {
        connection_handle: u16,
        data_path_direction: u8,
        data_path_id: u8,
        codec_id: CodingFormat,
        controller_delay: u32,
        codec_configuration: Vec<u8>,
    },
    LeRemoveIsoDataPath { connection_handle: u16, data_path_direction: u8 },
    LeReadIsoTxSync { connection_handle: u16 },
    CreateConnection {
        bd_addr: Address,
        packet_type: u16,
        page_scan_repetition_mode: u8,
        reserved: u8,
        clock_offset: u16,
        allow_role_switch: u8,
    },
    AcceptConnectionRequest { bd_addr: Address, role: u8 },
    SwitchRole { bd_addr: Address, role: u8 },
    LinkKeyRequestReply { bd_addr: Address, link_key: [u8; 16] },
    LinkKeyRequestNegativeReply { bd_addr: Address },
    /// A command that an application composed itself.
    Other { op_code: u16, parameters: Vec<u8> },
}

/// The return parameters of a completed command.
#[derive(Debug, PartialEq, Eq)]
pub enum ReturnParameters {
    Status { status: u8 },
    StatusAndConnectionHandle { status: u8, connection_handle: u16 },
    Raw { data: Vec<u8> },
    ReadLocalSupportedCommands { status: u8, supported_commands: [u8; 64] },
    ReadLocalVersionInformation {
        status: u8,
        hci_version: u8,
        hci_subversion: u16,
        lmp_version: u8,
        company_identifier: u16,
        lmp_subversion: u16,
    },
    ReadLocalExtendedFeatures {
        status: u8,
        page_number: u8,
        maximum_page_number: u8,
        extended_lmp_features: [u8; 8],
    },
    ReadLocalSupportedFeatures { status: u8, lmp_features: [u8; 8] },
    LeReadAllLocalSupportedFeatures { status: u8, max_page: u8, le_features: [u8; 248] },
    LeReadLocalSupportedFeatures { status: u8, le_features: [u8; 8] },
    ReadBufferSize {
        status: u8,
        hc_acl_data_packet_length: u16,
        hc_synchronous_data_packet_length: u8,
        hc_total_num_acl_data_packets: u16,
        hc_total_num_synchronous_data_packets: u16,
    },
    LeReadBufferSize {
        status: u8,
        le_acl_data_packet_length: u16,
        total_num_le_acl_data_packets: u8,
    },
    LeReadBufferSizeV2 {
        status: u8,
        le_acl_data_packet_length: u16,
        total_num_le_acl_data_packets: u8,
        iso_data_packet_length: u16,
        total_num_iso_data_packets: u8,
    },
    LeReadSuggestedDefaultDataLength {
        status: u8,
        suggested_max_tx_octets: u16,
        suggested_max_tx_time: u16,
    },
    LeReadNumberOfSupportedAdvertisingSets { status: u8, num_supported_advertising_sets: u8 },
    LeReadMaximumAdvertisingDataLength { status: u8, max_advertising_data_length: u16 },
    LeCsReadLocalSupportedCapabilities {
        status: u8,
        capabilities: crate::channel_sounding::ChannelSoundingCapabilities,
    },
    ReadBdAddr { status: u8, bd_addr: Address },
    LeReadIsoTxSync {
        status: u8,
        connection_handle: u16,
        packet_sequence_number: u16,
        tx_time_stamp: u32,
        time_offset: u32,
    },
    LeReadPhy { status: u8, connection_handle: u16, tx_phy: u8, rx_phy: u8 },
    ReadRssi { status: u8, handle: u16, rssi: i8 },
}

/// One report of a legacy advertisement.
#[derive(Debug, PartialEq, Eq)]
pub struct AdvertisingReport {
    pub event_type: u8,
    pub address_type: u8,
    pub address: Address,
    pub data: Vec<u8>,
    pub rssi: i8,
}

/// The content of a [`AdvertisingReport`].
#[verifier::ext_equal]
pub struct AdvertisingReportView {
    pub event_type: u8,
    pub address_type: u8,
    pub address: Address,
    pub data: Seq<u8>,
    pub rssi: i8,
}

impl View for AdvertisingReport {
    type V = AdvertisingReportView;

    open spec fn view(&self) -> AdvertisingReportView {
        AdvertisingReportView {
            event_type: self.event_type,
            address_type: self.address_type,
            address: self.address,
            data: self.data@,
            rssi: self.rssi,
        }
    }
}

impl Clone for AdvertisingReport {
    fn clone(&self) -> (copy: Self)
        ensures
            copy@ == self@,
    {
        AdvertisingReport {
            event_type: self.event_type,
            address_type: self.address_type,
            address: self.address,
            data: self.data.clone(),
            rssi: self.rssi,
        }
    }
}

/// One report of an extended advertisement.
#[derive(Debug, PartialEq, Eq)]
pub struct ExtendedAdvertisingReport {
    pub event_type: u16,
    pub address_type: u8,
    pub address: Address,
    pub primary_phy: u8,
    pub secondary_phy: u8,
    pub advertising_sid: u8,
    pub tx_power: i8,
    pub rssi: i8,
    pub periodic_advertising_interval: u16,
    pub direct_address_type: u8,
    pub direct_address: Address,
    pub data: Vec<u8>,
}

/// The content of a [`ExtendedAdvertisingReport`].
#[verifier::ext_equal]
pub struct ExtendedAdvertisingReportView {
    pub event_type: u16,
    pub address_type: u8,
    pub address: Address,
    pub primary_phy: u8,
    pub secondary_phy: u8,
    pub advertising_sid: u8,
    pub tx_power: i8,
    pub rssi: i8,
    pub periodic_advertising_interval: u16,
    pub direct_address_type: u8,
    pub direct_address: Address,
    pub data: Seq<u8>,
}

impl View for ExtendedAdvertisingReport {
    type V = ExtendedAdvertisingReportView;

    open spec fn view(&self) -> ExtendedAdvertisingReportView {
        ExtendedAdvertisingReportView {
            event_type: self.event_type,
            address_type: self.address_type,
            address: self.address,
            primary_phy: self.primary_phy,
            secondary_phy: self.secondary_phy,
            advertising_sid: self.advertising_sid,
            tx_power: self.tx_power,
            rssi: self.rssi,
            periodic_advertising_interval: self.periodic_advertising_interval,
            direct_address_type: self.direct_address_type,
            direct_address: self.direct_address,
            data: self.data@,
        }
    }
}

impl Clone for ExtendedAdvertisingReport {
    fn clone(&self) -> (copy: Self)
        ensures
            copy@ == self@,
    {
        ExtendedAdvertisingReport {
            event_type: self.event_type,
            address_type: self.address_type,
            address: self.address,
            primary_phy: self.primary_phy,
            secondary_phy: self.secondary_phy,
            advertising_sid: self.advertising_sid,
            tx_power: self.tx_power,
            rssi: self.rssi,
            periodic_advertising_interval: self.periodic_advertising_interval,
            direct_address_type: self.direct_address_type,
            direct_address: self.direct_address,
            data: self.data.clone(),
        }
    }
}

/// An LE meta event.
#[derive(Debug, PartialEq, Eq)]
pub enum LeMetaEvent {
    ConnectionComplete {
        status: u8,
        connection_handle: u16,
        role: u8,
        peer_address_type: u8,
        peer_address: Address,
        connection_interval: u16,
        peripheral_latency: u16,
        supervision_timeout: u16,
        central_clock_accuracy: u8,
    },
    EnhancedConnectionComplete {
        status: u8,
        connection_handle: u16,
        role: u8,
        peer_address: Address,
        connection_interval: u16,
        peripheral_latency: u16,
        supervision_timeout: u16,
    },
    EnhancedConnectionCompleteV2 {
        status: u8,
        connection_handle: u16,
        role: u8,
        peer_address: Address,
        connection_interval: u16,
        peripheral_latency: u16,
        supervision_timeout: u16,
    },
    ConnectionUpdateComplete {
        status: u8,
        connection_handle: u16,
        connection_interval: u16,
        peripheral_latency: u16,
        supervision_timeout: u16,
    },
    SubrateChange {
        status: u8,
        connection_handle: u16,
        subrate_factor: u16,
        peripheral_latency: u16,
        continuation_number: u16,
        supervision_timeout: u16,
    },
    ConnectionRateChange {
        status: u8,
        connection_handle: u16,
        connection_interval: u16,
        subrate_factor: u16,
        peripheral_latency: u16,
        continuation_number: u16,
        supervision_timeout: u16,
    },
    DataLengthChange {
        connection_handle: u16,
        max_tx_octets: u16,
        max_tx_time: u16,
        max_rx_octets: u16,
        max_rx_time: u16,
    },
    PhyUpdateComplete { status: u8, connection_handle: u16, tx_phy: u8, rx_phy: u8 },
    ReadRemoteFeaturesComplete { status: u8, connection_handle: u16, le_features: [u8; 8] },
    CsReadRemoteSupportedCapabilitiesComplete {
        status: u8,
        connection_handle: u16,
        capabilities: crate::channel_sounding::ChannelSoundingCapabilities,
    },
    CsSecurityEnableComplete { status: u8, connection_handle: u16 },
    CsConfigComplete {
        status: u8,
        connection_handle: u16,
        action: u8,
        config: crate::channel_sounding::ChannelSoundingConfig,
    },
    CsProcedureEnableComplete {
        status: u8,
        connection_handle: u16,
        procedure: crate::channel_sounding::ChannelSoundingProcedure,
    },
    CsSubeventResult { result: crate::channel_sounding::ChannelSoundingSubeventResult },
    CsSubeventResultContinue {
        result: crate::channel_sounding::ChannelSoundingSubeventResultContinue,
    },
    AdvertisingReport { report: AdvertisingReport },
    ExtendedAdvertisingReport { report: ExtendedAdvertisingReport },
    LongTermKeyRequest {
        connection_handle: u16,
        random_number: [u8; 8],
        encryption_diversifier: u16,
    },
    PeriodicAdvertisingSyncEstablished {
        status: u8,
        sync: crate::advertising::PeriodicAdvertisingSyncInfo,
    },
    PeriodicAdvertisingSyncTransferReceived {
        status: u8,
        connection_handle: u16,
        service_data: u16,
        sync: crate::advertising::PeriodicAdvertisingSyncInfo,
    },
    PeriodicAdvertisingReport {
        sync_handle: u16,
        tx_power: i8,
        rssi: i8,
        data_status: u8,
        data: Vec<u8>,
    },
    PeriodicAdvertisingSyncLost { sync_handle: u16 },
    AdvertisingSetTerminated { advertising_handle: u8 },
    BiginfoAdvertisingReport {
        sync_handle: u16,
        num_bis: u8,
        nse: u8,
        iso_interval: u16,
        bn: u8,
        pto: u8,
        irc: u8,
        max_pdu: u16,
        sdu_interval: u32,
        max_sdu: u16,
        phy: u8,
        framing: u8,
        encryption: u8,
    },
    CreateBigComplete { status: u8, big_handle: u8, connection_handle: Vec<u16> },
    TerminateBigComplete { big_handle: u8, reason: u8 },
    BigSyncEstablished { status: u8, big_handle: u8, connection_handle: Vec<u16> },
    BigSyncLost { big_handle: u8, reason: u8 },
    CisRequest {
        acl_connection_handle: u16,
        cis_connection_handle: u16,
        cig_id: u8,
        cis_id: u8,
    },
    CisEstablished {
        status: u8,
        connection_handle: u16,
        cig_sync_delay: u32,
        cis_sync_delay: u32,
        transport_latency_c_to_p: u32,
        transport_latency_p_to_c: u32,
        phy_c_to_p: u8,
        phy_p_to_c: u8,
        nse: u8,
        bn_c_to_p: u8,
        bn_p_to_c: u8,
        ft_c_to_p: u8,
        ft_p_to_c: u8,
        max_pdu_c_to_p: u16,
        max_pdu_p_to_c: u16,
        iso_interval: u16,
    },
    /// A meta event that the host does not act on.
    Other { subevent_code: u8 },
}

/// An event that the controller sends to its host.
#[derive(Debug, PartialEq, Eq)]
pub enum Event {
    CommandComplete {
        num_hci_command_packets: u8,
        command_opcode: u16,
        return_parameters: ReturnParameters,
    },
    CommandStatus { status: u8, num_hci_command_packets: u8, command_opcode: u16 },
    LeMeta(LeMetaEvent),
    DisconnectionComplete { status: u8, connection_handle: u16, reason: u8 },
    InquiryComplete { status: u8 },
    /// One response of an inquiry, with the metadata that came with it.
    InquiryResponse { result: crate::classic::ClassicInquiryResultInfo },
    RemoteNameRequestComplete { status: u8, bd_addr: Address, remote_name: [u8; 248] },
    ReadRemoteSupportedFeaturesComplete {
        status: u8,
        connection_handle: u16,
        lmp_features: [u8; 8],
    },
    ReadRemoteExtendedFeaturesComplete {
        status: u8,
        connection_handle: u16,
        page_number: u8,
        maximum_page_number: u8,
        extended_lmp_features: [u8; 8],
    },
    ConnectionComplete {
        status: u8,
        connection_handle: u16,
        bd_addr: Address,
        link_type: u8,
        encryption_enabled: u8,
    },
    RoleChange { status: u8, bd_addr: Address, new_role: u8 },
    ConnectionRequest { bd_addr: Address, class_of_device: u32, link_type: u8 },
    SynchronousConnectionComplete {
        status: u8,
        connection_handle: u16,
        bd_addr: Address,
        link_type: u8,
        air_mode: u8,
    },
    AuthenticationComplete { status: u8, connection_handle: u16 },
    ModeChange { status: u8, connection_handle: u16, current_mode: u8, interval: u16 },
    PinCodeRequest { bd_addr: Address },
    LinkKeyRequest { bd_addr: Address },
    LinkKeyNotification { bd_addr: Address, link_key: [u8; 16], key_type: u8 },
    IoCapabilityRequest { bd_addr: Address },
    IoCapabilityResponse {
        bd_addr: Address,
        io_capability: u8,
        oob_data_present: u8,
        authentication_requirements: u8,
    },
    UserConfirmationRequest { bd_addr: Address, numeric_value: u32 },
    UserPasskeyRequest { bd_addr: Address },
    RemoteOobDataRequest { bd_addr: Address },
    SimplePairingComplete { status: u8, bd_addr: Address },
    UserPasskeyNotification { bd_addr: Address, passkey: u32 },
    NumberOfCompletedPackets { connection_handles: Vec<u16>, num_completed_packets: Vec<u16> },
    EncryptionChange { status: u8, connection_handle: u16, encryption_enabled: u8 },
    EncryptionChangeV2 {
        status: u8,
        connection_handle: u16,
        encryption_enabled: u8,
        encryption_key_size: u8,
    },
    EncryptionKeyRefreshComplete { status: u8, connection_handle: u16 },
    QosSetupComplete { status: u8, connection_handle: u16, service_type: u8 },
    RemoteHostSupportedFeaturesNotification {
        bd_addr: Address,
        host_supported_features: [u8; 8],
    },
    Vendor { data: Vec<u8> },
    /// An event that the host does not act on.
    Other { event_code: u8 },
}

/// A fragment of an L2CAP frame on an ACL connection.
#[derive(Debug, PartialEq, Eq)]
pub struct AclDataPacket {
    pub connection_handle: u16,
    pub pb_flag: u8,
    pub bc_flag: u8,
    pub data_total_length: u16,
    pub data: Vec<u8>,
}

/// A packet of a synchronous connection.
#[derive(Debug, PartialEq, Eq)]
pub struct SynchronousDataPacket {
    pub connection_handle: u16,
    pub packet_status: u8,
    pub data: Vec<u8>,
}

/// A fragment of an SDU on an isochronous stream.
#[derive(Debug, PartialEq, Eq)]
pub struct IsoDataPacket {
    pub connection_handle: u16,
    pub pb_flag: u8,
    pub ts_flag: u8,
    pub data_total_length: u16,
    pub time_stamp: Option<u32>,
    pub packet_sequence_number: Option<u16>,
    pub iso_sdu_length: Option<u16>,
    pub packet_status_flag: Option<u8>,
    pub iso_sdu_fragment: Vec<u8>,
}

/// What the controller hands to its host.
#[derive(Debug, PartialEq, Eq)]
pub enum HciPacket {
    Event(Event),
    AclData(AclDataPacket),
    SyncData(SynchronousDataPacket),
    IsoData(IsoDataPacket),
}

} // verus!
