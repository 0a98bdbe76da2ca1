//! Reset-time discovery of the controller's capabilities and the host
//! initialization that follows it.

use crate::channel_sounding::ChannelSoundingCapabilities;
use crate::connection::{
    ControllerBufferInfo, LeSuggestedDefaultDataLength, LocalVersionInformation,
};
use crate::content::optional_bytes;
use crate::hci::{
    Command, ReturnParameters, HCI_LE_CS_READ_LOCAL_SUPPORTED_CAPABILITIES_COMMAND,
    HCI_LE_READ_ALL_LOCAL_SUPPORTED_FEATURES_COMMAND, HCI_LE_READ_BUFFER_SIZE_COMMAND,
    HCI_LE_READ_BUFFER_SIZE_V2_COMMAND, HCI_LE_READ_LOCAL_SUPPORTED_FEATURES_COMMAND,
    HCI_LE_READ_MAXIMUM_ADVERTISING_DATA_LENGTH_COMMAND,
    HCI_LE_READ_NUMBER_OF_SUPPORTED_ADVERTISING_SETS_COMMAND,
    HCI_LE_READ_SUGGESTED_DEFAULT_DATA_LENGTH_COMMAND, HCI_LE_SET_EVENT_MASK_COMMAND,
    HCI_LE_WRITE_SUGGESTED_DEFAULT_DATA_LENGTH_COMMAND, HCI_READ_BUFFER_SIZE_COMMAND,
    HCI_READ_LOCAL_EXTENDED_FEATURES_COMMAND, HCI_READ_LOCAL_SUPPORTED_COMMANDS_COMMAND,
    HCI_READ_LOCAL_SUPPORTED_FEATURES_COMMAND, HCI_READ_LOCAL_VERSION_INFORMATION_COMMAND,
    HCI_RESET_COMMAND, HCI_SET_EVENT_MASK_COMMAND, HCI_SET_EVENT_MASK_PAGE_2_COMMAND,
};
use crate::pools::{PacketPools, PoolsView};
use crate::retain::{remove_value, take_first};
use crate::transport::{
    command_if, commands, lemma_commands_concat, lemma_commands_none, push_when, send_all,
    HostTransport,
};
use std::collections::BTreeMap;
use vstd::prelude::*;

verus! {

broadcast use vstd::laws_cmp::group_laws_cmp;

/// HCI identifier for the mandatory LE 1M PHY.
pub const LE_1M_PHY: u8 = 0x01;

/// HCI identifier for the optional LE 2M PHY.
pub const LE_2M_PHY: u8 = 0x02;

/// HCI identifier for the optional LE Coded PHY.
pub const LE_CODED_PHY: u8 = 0x03;

/// LE feature-bit identifiers.
pub const LE_FEATURE_2M_PHY: u8 = 8;

pub const LE_FEATURE_CODED_PHY: u8 = 11;

pub const LE_FEATURE_EXTENDED_ADVERTISING: u8 = 12;

pub const LE_FEATURE_PERIODIC_ADVERTISING: u8 = 13;

/// LMP feature-bit identifiers used by the Classic scan setup.
pub const LMP_FEATURE_INTERLACED_INQUIRY_SCAN: u16 = 28;

pub const LMP_FEATURE_INTERLACED_PAGE_SCAN: u16 = 29;

/// Classic event mask installed after a reset.
pub const HOST_EVENT_MASK: [u8; 8] = [0xFF, 0x9F, 0xFF, 0xBF, 0x07, 0xF8, 0xBF, 0x3D];

/// Page-2 event mask enabling Encryption Change V2.
pub const HOST_EVENT_MASK_PAGE_2: [u8; 8] = [0, 0, 0, 2, 0, 0, 0, 0];

/// Complete LE Meta event mask installed for controllers newer than Bluetooth 4.0.
pub const HOST_LE_EVENT_MASK: [u8; 8] = [0xFF, 0xFF, 0xF7, 0xFF, 0x0F, 0xED, 0x7B, 0x00];

/// Conservative LE Meta event mask used for Bluetooth 4.0 and older controllers.
pub const HOST_LE_EVENT_MASK_LEGACY: [u8; 8] = [0x1F, 0, 0, 0, 0, 0, 0, 0];

/// The maximum TX octets that the host asks the controller to suggest.
pub const HOST_SUGGESTED_MAX_TX_OCTETS: u16 = 251;

/// The maximum TX time that the host asks the controller to suggest.
pub const HOST_SUGGESTED_MAX_TX_TIME: u16 = 2_120;

/// Legacy advertising-data capacity retained when the extended query is unavailable.
pub const HOST_DEFAULT_MAXIMUM_ADVERTISING_DATA_LENGTH: u16 = 31;

/// Invalid physical-layer identifiers.
#[derive(Clone, Copy, Debug, PartialEq, Eq, Structural)]
pub enum LePhyError {
    InvalidPhy { phy: u8 },
}

/// A command whose support the host asks for before it sends it.
#[derive(Clone, Copy, Debug, PartialEq, Eq, Structural)]
pub enum OptionalCommand {
    ReadLocalVersionInformation,
    ReadLocalSupportedFeatures,
    ReadLocalExtendedFeatures,
    ReadBufferSize,
    SetEventMaskPage2,
    LeReadBufferSize,
    LeReadLocalSupportedFeatures,
    LeReadSuggestedDefaultDataLength,
    LeWriteSuggestedDefaultDataLength,
    LeReadMaximumAdvertisingDataLength,
    LeReadNumberOfSupportedAdvertisingSets,
    LeReadBufferSizeV2,
    LeReadAllLocalSupportedFeatures,
}

impl OptionalCommand {
    /// The octet of the Supported Commands bitmap that speaks of the command.
    pub open spec fn spec_octet(self) -> int {
        match self {
            OptionalCommand::ReadLocalVersionInformation => 14,
            OptionalCommand::ReadLocalSupportedFeatures => 14,
            OptionalCommand::ReadLocalExtendedFeatures => 14,
            OptionalCommand::ReadBufferSize => 14,
            OptionalCommand::SetEventMaskPage2 => 22,
            OptionalCommand::LeReadBufferSize => 25,
            OptionalCommand::LeReadLocalSupportedFeatures => 25,
            OptionalCommand::LeReadSuggestedDefaultDataLength => 33,
            OptionalCommand::LeWriteSuggestedDefaultDataLength => 34,
            OptionalCommand::LeReadMaximumAdvertisingDataLength => 36,
            OptionalCommand::LeReadNumberOfSupportedAdvertisingSets => 36,
            OptionalCommand::LeReadBufferSizeV2 => 41,
            OptionalCommand::LeReadAllLocalSupportedFeatures => 47,
        }
    }

    /// The bit of that octet, as a mask.
    pub open spec fn spec_mask(self) -> u8 {
        match self {
            OptionalCommand::ReadLocalVersionInformation => 0x08,
            OptionalCommand::ReadLocalSupportedFeatures => 0x20,
            OptionalCommand::ReadLocalExtendedFeatures => 0x40,
            OptionalCommand::ReadBufferSize => 0x80,
            OptionalCommand::SetEventMaskPage2 => 0x04,
            OptionalCommand::LeReadBufferSize => 0x02,
            OptionalCommand::LeReadLocalSupportedFeatures => 0x04,
            OptionalCommand::LeReadSuggestedDefaultDataLength => 0x80,
            OptionalCommand::LeWriteSuggestedDefaultDataLength => 0x01,
            OptionalCommand::LeReadMaximumAdvertisingDataLength => 0x40,
            OptionalCommand::LeReadNumberOfSupportedAdvertisingSets => 0x80,
            OptionalCommand::LeReadBufferSizeV2 => 0x20,
            OptionalCommand::LeReadAllLocalSupportedFeatures => 0x04,
        }
    }

    /// The octet and the mask of the command's bit.
    fn position(self) -> (position: (usize, u8))
        ensures
            position.0 == self.spec_octet(),
            position.0 < 64,
            position.1 == self.spec_mask(),
    {
        match self {
            OptionalCommand::ReadLocalVersionInformation => (14, 0x08),
            OptionalCommand::ReadLocalSupportedFeatures => (14, 0x20),
            OptionalCommand::ReadLocalExtendedFeatures => (14, 0x40),
            OptionalCommand::ReadBufferSize => (14, 0x80),
            OptionalCommand::SetEventMaskPage2 => (22, 0x04),
            OptionalCommand::LeReadBufferSize => (25, 0x02),
            OptionalCommand::LeReadLocalSupportedFeatures => (25, 0x04),
            OptionalCommand::LeReadSuggestedDefaultDataLength => (33, 0x80),
            OptionalCommand::LeWriteSuggestedDefaultDataLength => (34, 0x01),
            OptionalCommand::LeReadMaximumAdvertisingDataLength => (36, 0x40),
            OptionalCommand::LeReadNumberOfSupportedAdvertisingSets => (36, 0x80),
            OptionalCommand::LeReadBufferSizeV2 => (41, 0x20),
            OptionalCommand::LeReadAllLocalSupportedFeatures => (47, 0x04),
        }
    }
}

/// The single-valued results of discovery and initialization.
#[derive(Clone, Copy, Debug)]
pub struct SetupStatus {
    pub local_supported_commands: Option<[u8; 64]>,
    pub local_supported_commands_status: Option<u8>,
    pub local_version: Option<LocalVersionInformation>,
    pub local_version_status: Option<u8>,
    pub local_lmp_features_max_page: Option<u8>,
    pub local_le_features_max_page: Option<u8>,
    pub local_le_features_status: Option<u8>,
    pub controller_ready: bool,
    pub reset_status: Option<u8>,
    pub host_initialization_started: bool,
    pub host_initialization_complete: bool,
    pub event_mask_status: Option<u8>,
    pub event_mask_page_2_status: Option<u8>,
    pub le_event_mask_status: Option<u8>,
    pub classic_buffer_status: Option<u8>,
    pub classic_acl_buffer: Option<ControllerBufferInfo>,
    pub le_buffer_status: Option<u8>,
    pub le_acl_buffer: Option<ControllerBufferInfo>,
    pub iso_buffer: Option<ControllerBufferInfo>,
    pub suggested_default_data_length_read_status: Option<u8>,
    pub suggested_default_data_length: Option<LeSuggestedDefaultDataLength>,
    pub suggested_default_data_length_write_required: bool,
    pub suggested_default_data_length_write_status: Option<u8>,
    pub number_of_supported_advertising_sets_status: Option<u8>,
    pub number_of_supported_advertising_sets: u8,
    pub maximum_advertising_data_length_status: Option<u8>,
    pub maximum_advertising_data_length: u16,
    pub local_channel_sounding_capabilities: Option<ChannelSoundingCapabilities>,
    pub local_channel_sounding_capabilities_status: Option<u8>,
}

/// What the host has learned of its controller since the last reset.
#[derive(Debug)]
pub struct HostSetup {
    pub status: SetupStatus,
    pub local_lmp_features: BTreeMap<u8, [u8; 8]>,
    pub local_lmp_feature_statuses: BTreeMap<u8, u8>,
    pub pending_local_lmp_feature_pages: Vec<u8>,
    pub local_le_features: Option<Vec<u8>>,
}

/// The content of a [`HostSetup`].
#[verifier::ext_equal]
pub struct SetupView {
    pub status: SetupStatus,
    pub lmp_features: Map<u8, [u8; 8]>,
    pub lmp_feature_statuses: Map<u8, u8>,
    pub pending_lmp_pages: Seq<u8>,
    pub le_features: Option<Seq<u8>>,
}

impl View for HostSetup {
    type V = SetupView;

    open spec fn view(&self) -> SetupView {
        SetupView {
            status: self.status,
            lmp_features: self.local_lmp_features@,
            lmp_feature_statuses: self.local_lmp_feature_statuses@,
            pending_lmp_pages: self.pending_local_lmp_feature_pages@,
            le_features: optional_bytes(self.local_le_features),
        }
    }
}

/// Whether an LE feature bit is set in a feature bitmap.
pub open spec fn le_feature_bit(features: Option<Seq<u8>>, feature: u8) -> bool {
    &&& features is Some
    &&& feature as int / 8 < features->0.len()
    &&& features->0[feature as int / 8] & (1u8 << (feature % 8)) != 0
}

impl SetupStatus {
    /// The state of a host that has not heard from its controller.
    pub open spec fn spec_initial(controller_ready: bool) -> SetupStatus {
        SetupStatus {
            local_supported_commands: None,
            local_supported_commands_status: None,
            local_version: None,
            local_version_status: None,
            local_lmp_features_max_page: None,
            local_le_features_max_page: None,
            local_le_features_status: None,
            controller_ready,
            reset_status: None,
            host_initialization_started: false,
            host_initialization_complete: false,
            event_mask_status: None,
            event_mask_page_2_status: None,
            le_event_mask_status: None,
            classic_buffer_status: None,
            classic_acl_buffer: None,
            le_buffer_status: None,
            le_acl_buffer: None,
            iso_buffer: None,
            suggested_default_data_length_read_status: None,
            suggested_default_data_length: None,
            suggested_default_data_length_write_required: false,
            suggested_default_data_length_write_status: None,
            number_of_supported_advertising_sets_status: None,
            number_of_supported_advertising_sets: 0,
            maximum_advertising_data_length_status: None,
            maximum_advertising_data_length: HOST_DEFAULT_MAXIMUM_ADVERTISING_DATA_LENGTH,
            local_channel_sounding_capabilities: None,
            local_channel_sounding_capabilities_status: None,
        }
    }

    /// The state of a host that has not heard from its controller.
    pub fn initial(controller_ready: bool) -> (status: SetupStatus)
        ensures
            status == SetupStatus::spec_initial(controller_ready),
    {
        SetupStatus {
            local_supported_commands: None,
            local_supported_commands_status: None,
            local_version: None,
            local_version_status: None,
            local_lmp_features_max_page: None,
            local_le_features_max_page: None,
            local_le_features_status: None,
            controller_ready,
            reset_status: None,
            host_initialization_started: false,
            host_initialization_complete: false,
            event_mask_status: None,
            event_mask_page_2_status: None,
            le_event_mask_status: None,
            classic_buffer_status: None,
            classic_acl_buffer: None,
            le_buffer_status: None,
            le_acl_buffer: None,
            iso_buffer: None,
            suggested_default_data_length_read_status: None,
            suggested_default_data_length: None,
            suggested_default_data_length_write_required: false,
            suggested_default_data_length_write_status: None,
            number_of_supported_advertising_sets_status: None,
            number_of_supported_advertising_sets: 0,
            maximum_advertising_data_length_status: None,
            maximum_advertising_data_length: HOST_DEFAULT_MAXIMUM_ADVERTISING_DATA_LENGTH,
            local_channel_sounding_capabilities: None,
            local_channel_sounding_capabilities_status: None,
        }
    }

    /// Whether the controller is known to support a command.
    pub open spec fn spec_supports(self, command: OptionalCommand) -> bool {
        self.local_supported_commands is Some
            && self.local_supported_commands->0[command.spec_octet()] & command.spec_mask() != 0
    }

    /// Whether the controller is known to support a command.
    pub fn supports(&self, command: OptionalCommand) -> (supported: bool)
        ensures
            supported == self.spec_supports(command),
    {
        match &self.local_supported_commands {
            Some(commands) => {
                let (octet, mask): (usize, u8) = command.position();
                commands[octet] & mask != 0
            },
            None => false,
        }
    }

    /// Whether the suggested default data length is both read and written.
    pub open spec fn spec_manages_suggested_length(self) -> bool {
        self.spec_supports(OptionalCommand::LeReadSuggestedDefaultDataLength)
            && self.spec_supports(OptionalCommand::LeWriteSuggestedDefaultDataLength)
    }

    pub fn manages_suggested_default_data_length(&self) -> (manages: bool)
        ensures
            manages == self.spec_manages_suggested_length(),
    {
        self.supports(OptionalCommand::LeReadSuggestedDefaultDataLength) && self.supports(
            OptionalCommand::LeWriteSuggestedDefaultDataLength,
        )
    }

    /// Whether the controller reports its LE buffers in either form.
    pub open spec fn spec_reports_le_buffers(self) -> bool {
        self.spec_supports(OptionalCommand::LeReadBufferSizeV2) || self.spec_supports(
            OptionalCommand::LeReadBufferSize,
        )
    }

    /// Whether every initialization command has been answered.
    pub open spec fn all_answered(self) -> bool {
        &&& self.event_mask_status is Some
        &&& self.le_event_mask_status is Some
        &&& self.spec_supports(OptionalCommand::SetEventMaskPage2)
            ==> self.event_mask_page_2_status is Some
        &&& self.spec_supports(OptionalCommand::ReadBufferSize)
            ==> self.classic_buffer_status is Some
        &&& self.spec_reports_le_buffers() ==> self.le_buffer_status is Some
        &&& self.spec_manages_suggested_length()
            ==> self.suggested_default_data_length_read_status is Some
        &&& self.suggested_default_data_length_write_required
            ==> self.suggested_default_data_length_write_status is Some
        &&& self.spec_supports(OptionalCommand::LeReadNumberOfSupportedAdvertisingSets)
            ==> self.number_of_supported_advertising_sets_status is Some
        &&& self.spec_supports(OptionalCommand::LeReadMaximumAdvertisingDataLength)
            ==> self.maximum_advertising_data_length_status is Some
    }

    fn is_all_answered(&self) -> (answered: bool)
        ensures
            answered == self.all_answered(),
    {
        !(self.event_mask_status.is_none() || self.le_event_mask_status.is_none() || (self.supports(
            OptionalCommand::SetEventMaskPage2,
        ) && self.event_mask_page_2_status.is_none()) || (self.supports(
            OptionalCommand::ReadBufferSize,
        ) && self.classic_buffer_status.is_none()) || ((self.supports(
            OptionalCommand::LeReadBufferSizeV2,
        ) || self.supports(OptionalCommand::LeReadBufferSize)) && self.le_buffer_status.is_none())
            || (self.manages_suggested_default_data_length()
            && self.suggested_default_data_length_read_status.is_none()) || (
        self.suggested_default_data_length_write_required
            && self.suggested_default_data_length_write_status.is_none()) || (self.supports(
            OptionalCommand::LeReadNumberOfSupportedAdvertisingSets,
        ) && self.number_of_supported_advertising_sets_status.is_none()) || (self.supports(
            OptionalCommand::LeReadMaximumAdvertisingDataLength,
        ) && self.maximum_advertising_data_length_status.is_none()))
    }

    /// Whether initialization is complete and nothing that it needs has failed.
    ///
    /// The two advertising queries may fail.
    pub open spec fn spec_succeeded(self) -> bool {
        &&& self.host_initialization_complete
        &&& self.event_mask_status == Some(0u8)
        &&& self.le_event_mask_status == Some(0u8)
        &&& self.spec_supports(OptionalCommand::SetEventMaskPage2) ==> self.event_mask_page_2_status
            == Some(0u8)
        &&& self.spec_supports(OptionalCommand::ReadBufferSize) ==> self.classic_buffer_status
            == Some(0u8)
        &&& self.spec_reports_le_buffers() ==> self.le_buffer_status == Some(0u8)
        &&& self.spec_manages_suggested_length()
            ==> self.suggested_default_data_length_read_status == Some(0u8) && (
        self.suggested_default_data_length_write_required
            ==> self.suggested_default_data_length_write_status == Some(0u8))
    }

    /// Whether initialization completed successfully.
    pub fn succeeded(&self) -> (succeeded: bool)
        ensures
            succeeded == self.spec_succeeded(),
    {
        if !self.host_initialization_complete || self.event_mask_status != Some(0u8)
            || self.le_event_mask_status != Some(0u8) {
            return false;
        }
        if self.supports(OptionalCommand::SetEventMaskPage2) && self.event_mask_page_2_status
            != Some(0u8) {
            return false;
        }
        if self.supports(OptionalCommand::ReadBufferSize) && self.classic_buffer_status
            != Some(0u8) {
            return false;
        }
        if (self.supports(OptionalCommand::LeReadBufferSizeV2) || self.supports(
            OptionalCommand::LeReadBufferSize,
        )) && self.le_buffer_status != Some(0u8) {
            return false;
        }
        if self.manages_suggested_default_data_length() && (
        self.suggested_default_data_length_read_status != Some(0u8) || (
        self.suggested_default_data_length_write_required
            && self.suggested_default_data_length_write_status != Some(0u8))) {
            return false;
        }
        true
    }
}

impl SetupView {
    /// What is known after a reset has been requested.
    pub open spec fn initial(controller_ready: bool) -> SetupView {
        SetupView {
            status: SetupStatus::spec_initial(controller_ready),
            lmp_features: Map::empty(),
            lmp_feature_statuses: Map::empty(),
            pending_lmp_pages: Seq::empty(),
            le_features: None,
        }
    }

    /// Whether an absolute LMP feature bit is set: sixty-four bits per page, on
    /// pages up to the last one that there can be.
    pub open spec fn lmp_feature(self, feature: u16) -> bool {
        let page = (feature / 64) as u8;
        let bit = feature % 64;
        &&& feature / 64 <= u8::MAX
        &&& self.lmp_features.contains_key(page)
        &&& self.lmp_features[page][(bit / 8) as int] & (1u8 << ((bit % 8) as u8)) != 0
    }

    /// Whether every LMP feature page that will come has come: one has failed,
    /// or all up to the last one have been read.
    pub open spec fn lmp_pages_complete(self) -> bool {
        &&& self.pending_lmp_pages.len() == 0
        &&& self.lmp_feature_statuses.dom().len() > 0
        &&& {
            ||| exists|page: u8| #[trigger]
                self.lmp_feature_statuses.contains_key(page) && self.lmp_feature_statuses[page] != 0
            ||| {
                &&& self.status.local_lmp_features_max_page is Some
                &&& forall|page: u8|
                    page <= self.status.local_lmp_features_max_page->0
                        ==> #[trigger] self.lmp_feature_statuses.contains_key(page)
            }
        }
    }

    /// Whether everything that the controller can tell has been told.
    pub open spec fn discovery_complete(self) -> bool {
        &&& self.status.local_supported_commands is Some
        &&& self.status.spec_supports(OptionalCommand::ReadLocalVersionInformation)
            ==> self.status.local_version_status is Some
        &&& (self.status.spec_supports(OptionalCommand::LeReadAllLocalSupportedFeatures)
            || self.status.spec_supports(OptionalCommand::LeReadLocalSupportedFeatures))
            ==> self.status.local_le_features_status is Some
        &&& if self.status.spec_supports(OptionalCommand::ReadLocalExtendedFeatures) {
            self.lmp_pages_complete()
        } else {
            self.status.spec_supports(OptionalCommand::ReadLocalSupportedFeatures)
                ==> self.lmp_feature_statuses.contains_key(0)
        }
    }

    /// The LE event mask for the controller's version.
    pub open spec fn le_event_mask(self) -> [u8; 8] {
        if self.status.local_version is Some && self.status.local_version->0.hci_version <= 6 {
            HOST_LE_EVENT_MASK_LEGACY
        } else {
            HOST_LE_EVENT_MASK
        }
    }

    /// The commands that begin host initialization.
    pub open spec fn start_commands(self) -> Seq<Command> {
        seq![Command::SetEventMask { event_mask: HOST_EVENT_MASK }] + command_if(
            self.status.spec_supports(OptionalCommand::SetEventMaskPage2),
            Command::SetEventMaskPage2 { event_mask_page_2: HOST_EVENT_MASK_PAGE_2 },
        ) + seq![Command::LeSetEventMask { le_event_mask: self.le_event_mask() }] + command_if(
            self.status.spec_supports(OptionalCommand::ReadBufferSize),
            Command::ReadBufferSize,
        ) + command_if(
            self.status.spec_supports(OptionalCommand::LeReadBufferSizeV2),
            Command::LeReadBufferSizeV2,
        ) + command_if(
            !self.status.spec_supports(OptionalCommand::LeReadBufferSizeV2)
                && self.status.spec_supports(OptionalCommand::LeReadBufferSize),
            Command::LeReadBufferSize,
        ) + command_if(
            self.status.spec_manages_suggested_length(),
            Command::LeReadSuggestedDefaultDataLength,
        ) + command_if(
            self.status.spec_supports(OptionalCommand::LeReadNumberOfSupportedAdvertisingSets),
            Command::LeReadNumberOfSupportedAdvertisingSets,
        ) + command_if(
            self.status.spec_supports(OptionalCommand::LeReadMaximumAdvertisingDataLength),
            Command::LeReadMaximumAdvertisingDataLength,
        )
    }

    /// Whether initialization is due: discovery is complete and it has not
    /// begun yet.
    pub open spec fn start_due(self) -> bool {
        !self.status.host_initialization_started && self.discovery_complete()
    }

    /// The state after initialization was begun where it was due.
    pub open spec fn after_start(self) -> SetupView {
        if self.start_due() {
            SetupView {
                status: SetupStatus { host_initialization_started: true, ..self.status },
                ..self
            }
        } else {
            self
        }
    }

    /// What is sent on beginning initialization where it is due.
    pub open spec fn start_sends(self) -> Seq<Command> {
        if self.start_due() {
            self.start_commands()
        } else {
            Seq::empty()
        }
    }

    /// Whether initialization has just been answered in full.
    pub open spec fn finish_due(self) -> bool {
        &&& self.status.host_initialization_started
        &&& !self.status.host_initialization_complete
        &&& self.status.all_answered()
    }

    /// The state after initialization was finished where it was due.
    pub open spec fn after_finish(self) -> SetupView {
        if self.finish_due() {
            SetupView {
                status: SetupStatus { host_initialization_complete: true, ..self.status },
                ..self
            }
        } else {
            self
        }
    }

    /// The scan types that the controller supports interlaced.
    pub open spec fn scan_type_commands(self, interlaced: bool) -> Seq<Command> {
        command_if(
            interlaced && self.lmp_feature(LMP_FEATURE_INTERLACED_PAGE_SCAN),
            Command::WritePageScanType { page_scan_type: 1 },
        ) + command_if(
            interlaced && self.lmp_feature(LMP_FEATURE_INTERLACED_INQUIRY_SCAN),
            Command::WriteInquiryScanType { scan_type: 1 },
        )
    }

    /// What is sent on finishing initialization where it is due.
    pub open spec fn finish_sends(self, interlaced: bool) -> Seq<Command> {
        if self.finish_due() && self.after_finish().status.spec_succeeded() {
            self.scan_type_commands(interlaced)
        } else {
            Seq::empty()
        }
    }

    /// The first questions, once the supported commands are known.
    pub open spec fn discovery_commands(self) -> Seq<Command> {
        command_if(
            self.status.spec_supports(OptionalCommand::ReadLocalVersionInformation),
            Command::ReadLocalVersionInformation,
        ) + command_if(
            self.status.spec_supports(OptionalCommand::LeReadAllLocalSupportedFeatures),
            Command::LeReadAllLocalSupportedFeatures,
        ) + command_if(
            !self.status.spec_supports(OptionalCommand::LeReadAllLocalSupportedFeatures)
                && self.status.spec_supports(OptionalCommand::LeReadLocalSupportedFeatures),
            Command::LeReadLocalSupportedFeatures,
        ) + command_if(
            self.status.spec_supports(OptionalCommand::ReadLocalExtendedFeatures),
            Command::ReadLocalExtendedFeatures { page_number: 0 },
        ) + command_if(
            !self.status.spec_supports(OptionalCommand::ReadLocalExtendedFeatures)
                && self.status.spec_supports(OptionalCommand::ReadLocalSupportedFeatures),
            Command::ReadLocalSupportedFeatures,
        )
    }
}

impl HostSetup {
    /// What is known before the controller has been asked.
    pub fn new(controller_ready: bool) -> (setup: Self)
        ensures
            setup@ == SetupView::initial(controller_ready),
    {
        HostSetup {
            status: SetupStatus::initial(controller_ready),
            local_lmp_features: BTreeMap::new(),
            local_lmp_feature_statuses: BTreeMap::new(),
            pending_local_lmp_feature_pages: Vec::new(),
            local_le_features: None,
        }
    }

    /// Whether one absolute LMP feature bit is set.
    pub fn supports_lmp_feature(&self, feature: u16) -> (supported: bool)
        ensures
            supported == self@.lmp_feature(feature),
    {
        if feature / 64 > 255 {
            return false;
        }
        let page: u8 = (feature / 64) as u8;
        let bit: u16 = feature % 64;
        match self.local_lmp_features.get(&page) {
            Some(features) => features[(bit / 8) as usize] & (1u8 << ((bit % 8) as u8)) != 0,
            None => false,
        }
    }

    /// Whether one controller LE feature bit is set.
    pub fn supports_le_feature(&self, feature: u8) -> (supported: bool)
        ensures
            supported == le_feature_bit(self@.le_features, feature),
    {
        match &self.local_le_features {
            Some(features) => {
                let octet: usize = (feature / 8) as usize;
                octet < features.len() && features[octet] & (1u8 << (feature % 8)) != 0
            },
            None => false,
        }
    }

    /// Whether some LMP feature page could not be read.
    fn some_page_failed(&self) -> (failed: bool)
        ensures
            failed == exists|page: u8| #[trigger]
                self@.lmp_feature_statuses.contains_key(page) && self@.lmp_feature_statuses[page]
                    != 0,
    {
        let mut next: u16 = 0;
        while next < 256
            invariant
                next <= 256,
                forall|page: u8|
                    page < next && #[trigger] self@.lmp_feature_statuses.contains_key(page)
                        ==> self@.lmp_feature_statuses[page] == 0,
            decreases 256 - next,
        {
            let page: u8 = next as u8;
            if let Some(status) = self.local_lmp_feature_statuses.get(&page) {
                if *status != 0 {
                    assert(self@.lmp_feature_statuses.contains_key(page));
                    return true;
                }
            }
            next += 1;
        }
        false
    }

    /// Whether every LMP feature page up to the given one has been answered.
    fn all_pages_answered(&self, last: u8) -> (answered: bool)
        ensures
            answered == forall|page: u8|
                page <= last ==> #[trigger] self@.lmp_feature_statuses.contains_key(page),
    {
        let mut next: u16 = 0;
        while next <= last as u16
            invariant
                next <= last + 1,
                forall|page: u8|
                    page < next ==> #[trigger] self@.lmp_feature_statuses.contains_key(page),
            decreases last + 1 - next,
        {
            let page: u8 = next as u8;
            if !self.local_lmp_feature_statuses.contains_key(&page) {
                assert(!self@.lmp_feature_statuses.contains_key(page));
                return false;
            }
            next += 1;
        }
        true
    }

    /// Whether everything that the controller can tell has been told.
    pub fn capability_discovery_complete(&self) -> (complete: bool)
        ensures
            complete == self@.discovery_complete(),
    {
        if self.status.local_supported_commands.is_none() {
            return false;
        }
        if self.status.supports(OptionalCommand::ReadLocalVersionInformation)
            && self.status.local_version_status.is_none() {
            return false;
        }
        if (self.status.supports(OptionalCommand::LeReadAllLocalSupportedFeatures)
            || self.status.supports(OptionalCommand::LeReadLocalSupportedFeatures))
            && self.status.local_le_features_status.is_none() {
            return false;
        }
        if self.status.supports(OptionalCommand::ReadLocalExtendedFeatures) {
            if self.pending_local_lmp_feature_pages.len() != 0
                || self.local_lmp_feature_statuses.len() == 0 {
                return false;
            }
            if self.some_page_failed() {
                return true;
            }
            match self.status.local_lmp_features_max_page {
                Some(last) => self.all_pages_answered(last),
                None => false,
            }
        } else {
            !(self.status.supports(OptionalCommand::ReadLocalSupportedFeatures)
                && !self.local_lmp_feature_statuses.contains_key(&0))
        }
    }

    /// The commands that begin host initialization.
    fn start_command_list(&self) -> (list: Vec<Command>)
        ensures
            list@ == self@.start_commands(),
    {
        let old_controller: bool = match &self.status.local_version {
            Some(version) => version.hci_version <= 6,
            None => false,
        };
        let le_event_mask: [u8; 8] = if old_controller {
            HOST_LE_EVENT_MASK_LEGACY
        } else {
            HOST_LE_EVENT_MASK
        };
        let mut list: Vec<Command> = Vec::new();
        list.push(Command::SetEventMask { event_mask: HOST_EVENT_MASK });
        assert(list@ =~= seq![Command::SetEventMask { event_mask: HOST_EVENT_MASK }]);
        push_when(
            &mut list,
            self.status.supports(OptionalCommand::SetEventMaskPage2),
            Command::SetEventMaskPage2 { event_mask_page_2: HOST_EVENT_MASK_PAGE_2 },
        );
        push_when(&mut list, true, Command::LeSetEventMask { le_event_mask });
        push_when(
            &mut list,
            self.status.supports(OptionalCommand::ReadBufferSize),
            Command::ReadBufferSize,
        );
        push_when(
            &mut list,
            self.status.supports(OptionalCommand::LeReadBufferSizeV2),
            Command::LeReadBufferSizeV2,
        );
        push_when(
            &mut list,
            !self.status.supports(OptionalCommand::LeReadBufferSizeV2) && self.status.supports(
                OptionalCommand::LeReadBufferSize,
            ),
            Command::LeReadBufferSize,
        );
        push_when(
            &mut list,
            self.status.manages_suggested_default_data_length(),
            Command::LeReadSuggestedDefaultDataLength,
        );
        push_when(
            &mut list,
            self.status.supports(OptionalCommand::LeReadNumberOfSupportedAdvertisingSets),
            Command::LeReadNumberOfSupportedAdvertisingSets,
        );
        push_when(
            &mut list,
            self.status.supports(OptionalCommand::LeReadMaximumAdvertisingDataLength),
            Command::LeReadMaximumAdvertisingDataLength,
        );
        list
    }

    /// Begin host initialization once discovery is complete.
    pub fn maybe_start<L: HostTransport + ?Sized>(&mut self, link: &mut L, controller_id: usize)
        ensures
            final(self)@ == old(self)@.after_start(),
            final(link).log() == old(link).log() + commands(
                controller_id,
                old(self)@.start_sends(),
            ),
    {
        if self.status.host_initialization_started || !self.capability_discovery_complete() {
            proof {
                lemma_commands_none(link.log(), controller_id);
            }
            return ;
        }
        let list: Vec<Command> = self.start_command_list();
        self.status.host_initialization_started = true;
        send_all(link, controller_id, list);
    }

    /// Ask for the scan types that the controller supports interlaced.
    pub fn apply_supported_classic_scan_types<L: HostTransport + ?Sized>(
        &self,
        link: &mut L,
        controller_id: usize,
        interlaced: bool,
    )
        ensures
            final(link).log() == old(link).log() + commands(
                controller_id,
                self@.scan_type_commands(interlaced),
            ),
    {
        let mut list: Vec<Command> = Vec::new();
        push_when(
            &mut list,
            interlaced && self.supports_lmp_feature(LMP_FEATURE_INTERLACED_PAGE_SCAN),
            Command::WritePageScanType { page_scan_type: 1 },
        );
        push_when(
            &mut list,
            interlaced && self.supports_lmp_feature(LMP_FEATURE_INTERLACED_INQUIRY_SCAN),
            Command::WriteInquiryScanType { scan_type: 1 },
        );
        assert(list@ =~= self@.scan_type_commands(interlaced));
        send_all(link, controller_id, list);
    }

    /// Finish host initialization once every command has been answered.
    pub fn maybe_finish<L: HostTransport + ?Sized>(
        &mut self,
        link: &mut L,
        controller_id: usize,
        interlaced: bool,
    )
        ensures
            final(self)@ == old(self)@.after_finish(),
            final(link).log() == old(link).log() + commands(
                controller_id,
                old(self)@.finish_sends(interlaced),
            ),
    {
        let ghost log = link.log();
        proof {
            lemma_commands_none(log, controller_id);
        }
        if !self.status.host_initialization_started || self.status.host_initialization_complete
            || !self.status.is_all_answered() {
            return ;
        }
        self.status.host_initialization_complete = true;
        if self.status.succeeded() {
            self.apply_supported_classic_scan_types(link, controller_id, interlaced);
        }
    }
}

/// What one completed setup command brings about.
pub struct SetupStep {
    pub setup: SetupView,
    pub pools: PoolsView,
    pub commands: Seq<Command>,
}

/// A change followed by the beginning of initialization where that is due.
pub open spec fn then_start(setup: SetupView, pools: PoolsView, sent: Seq<Command>) -> SetupStep {
    SetupStep { setup: setup.after_start(), pools, commands: sent + setup.start_sends() }
}

/// A change followed by the end of initialization where that is due.
pub open spec fn then_finish(
    setup: SetupView,
    pools: PoolsView,
    sent: Seq<Command>,
    interlaced: bool,
) -> SetupStep {
    SetupStep {
        setup: setup.after_finish(),
        pools,
        commands: sent + setup.finish_sends(interlaced),
    }
}

impl SetupView {
    pub open spec fn with_status(self, status: SetupStatus) -> SetupView {
        SetupView { status, ..self }
    }

    /// The supported commands have been read.
    pub open spec fn with_supported_commands(
        self,
        status: u8,
        supported_commands: [u8; 64],
    ) -> SetupView {
        if status == 0 {
            let known = SetupStatus {
                local_supported_commands_status: Some(status),
                local_supported_commands: Some(supported_commands),
                ..self.status
            };
            SetupView {
                status: known,
                pending_lmp_pages: if known.spec_supports(
                    OptionalCommand::ReadLocalExtendedFeatures,
                ) {
                    self.pending_lmp_pages.push(0)
                } else {
                    self.pending_lmp_pages
                },
                ..self
            }
        } else {
            self.with_status(
                SetupStatus { local_supported_commands_status: Some(status), ..self.status },
            )
        }
    }

    /// A page of LMP features has been read.
    pub open spec fn with_lmp_page(
        self,
        status: u8,
        page_number: u8,
        maximum_page_number: u8,
        features: [u8; 8],
    ) -> SetupView {
        let pending = self.pending_lmp_pages.remove_value(page_number);
        SetupView {
            status: SetupStatus {
                local_lmp_features_max_page: if status == 0 {
                    Some(maximum_page_number)
                } else {
                    self.status.local_lmp_features_max_page
                },
                ..self.status
            },
            lmp_feature_statuses: self.lmp_feature_statuses.insert(page_number, status),
            lmp_features: if status == 0 {
                self.lmp_features.insert(page_number, features)
            } else {
                self.lmp_features
            },
            pending_lmp_pages: if status == 0 && page_number < maximum_page_number {
                pending.push((page_number + 1) as u8)
            } else {
                pending
            },
            ..self
        }
    }

    /// The only page of LMP features of an older controller has been read.
    pub open spec fn with_lmp_features(self, status: u8, features: [u8; 8]) -> SetupView {
        SetupView {
            status: SetupStatus {
                local_lmp_features_max_page: if status == 0 {
                    Some(0)
                } else {
                    self.status.local_lmp_features_max_page
                },
                ..self.status
            },
            lmp_feature_statuses: self.lmp_feature_statuses.insert(0, status),
            lmp_features: if status == 0 {
                self.lmp_features.insert(0, features)
            } else {
                self.lmp_features
            },
            ..self
        }
    }

    /// The LE features have been read.
    pub open spec fn with_le_features(
        self,
        status: u8,
        max_page: Option<u8>,
        features: Seq<u8>,
    ) -> SetupView {
        SetupView {
            status: SetupStatus {
                local_le_features_status: Some(status),
                local_le_features_max_page: if status == 0 {
                    max_page
                } else {
                    self.status.local_le_features_max_page
                },
                ..self.status
            },
            le_features: if status == 0 {
                Some(features)
            } else {
                self.le_features
            },
            ..self
        }
    }

    /// A page of LMP features could not be read: the first one asked for.
    pub open spec fn with_lmp_page_failure(self, status: u8) -> SetupView {
        if self.pending_lmp_pages.len() > 0 {
            SetupView {
                lmp_feature_statuses: self.lmp_feature_statuses.insert(
                    self.pending_lmp_pages[0],
                    status,
                ),
                pending_lmp_pages: self.pending_lmp_pages.skip(1),
                ..self
            }
        } else {
            self
        }
    }

    /// The suggested default data length has been read.
    pub open spec fn with_suggested_length(self, status: u8, octets: u16, time: u16) -> SetupView {
        self.with_status(
            SetupStatus {
                suggested_default_data_length_read_status: Some(status),
                suggested_default_data_length: if status == 0 {
                    Some(
                        LeSuggestedDefaultDataLength {
                            suggested_max_tx_octets: octets,
                            suggested_max_tx_time: time,
                        },
                    )
                } else {
                    self.status.suggested_default_data_length
                },
                suggested_default_data_length_write_required: if status == 0 {
                    octets != HOST_SUGGESTED_MAX_TX_OCTETS || time != HOST_SUGGESTED_MAX_TX_TIME
                } else {
                    self.status.suggested_default_data_length_write_required
                },
                ..self.status
            },
        )
    }
}

/// What a setup command's completion with a bare status brings about.
pub open spec fn status_step(
    setup: SetupView,
    pools: PoolsView,
    interlaced: bool,
    command_opcode: u16,
    status: u8,
) -> Option<SetupStep> {
    let none = Seq::<Command>::empty();
    let old = setup.status;
    if command_opcode == HCI_RESET_COMMAND {
        Some(
            SetupStep {
                setup: setup.with_status(
                    SetupStatus {
                        reset_status: Some(status),
                        controller_ready: status == 0,
                        ..old
                    },
                ),
                pools,
                commands: none,
            },
        )
    } else if command_opcode == HCI_READ_LOCAL_VERSION_INFORMATION_COMMAND {
        Some(
            then_start(
                setup.with_status(SetupStatus { local_version_status: Some(status), ..old }),
                pools,
                none,
            ),
        )
    } else if command_opcode == HCI_READ_LOCAL_SUPPORTED_FEATURES_COMMAND {
        Some(
            then_start(
                SetupView {
                    lmp_feature_statuses: setup.lmp_feature_statuses.insert(0, status),
                    ..setup
                },
                pools,
                none,
            ),
        )
    } else if command_opcode == HCI_READ_LOCAL_EXTENDED_FEATURES_COMMAND {
        Some(then_start(setup.with_lmp_page_failure(status), pools, none))
    } else if command_opcode == HCI_READ_LOCAL_SUPPORTED_COMMANDS_COMMAND {
        Some(
            SetupStep {
                setup: setup.with_status(
                    SetupStatus { local_supported_commands_status: Some(status), ..old },
                ),
                pools,
                commands: none,
            },
        )
    } else if command_opcode == HCI_LE_READ_LOCAL_SUPPORTED_FEATURES_COMMAND || command_opcode
        == HCI_LE_READ_ALL_LOCAL_SUPPORTED_FEATURES_COMMAND {
        Some(
            then_start(
                setup.with_status(SetupStatus { local_le_features_status: Some(status), ..old }),
                pools,
                none,
            ),
        )
    } else if command_opcode == HCI_SET_EVENT_MASK_COMMAND {
        Some(
            then_finish(
                setup.with_status(SetupStatus { event_mask_status: Some(status), ..old }),
                pools,
                none,
                interlaced,
            ),
        )
    } else if command_opcode == HCI_SET_EVENT_MASK_PAGE_2_COMMAND {
        Some(
            then_finish(
                setup.with_status(SetupStatus { event_mask_page_2_status: Some(status), ..old }),
                pools,
                none,
                interlaced,
            ),
        )
    } else if command_opcode == HCI_LE_SET_EVENT_MASK_COMMAND {
        Some(
            then_finish(
                setup.with_status(SetupStatus { le_event_mask_status: Some(status), ..old }),
                pools,
                none,
                interlaced,
            ),
        )
    } else if command_opcode == HCI_READ_BUFFER_SIZE_COMMAND {
        Some(
            then_finish(
                setup.with_status(SetupStatus { classic_buffer_status: Some(status), ..old }),
                pools,
                none,
                interlaced,
            ),
        )
    } else if command_opcode == HCI_LE_READ_BUFFER_SIZE_COMMAND || command_opcode
        == HCI_LE_READ_BUFFER_SIZE_V2_COMMAND {
        Some(
            then_finish(
                setup.with_status(SetupStatus { le_buffer_status: Some(status), ..old }),
                pools,
                none,
                interlaced,
            ),
        )
    } else if command_opcode == HCI_LE_READ_SUGGESTED_DEFAULT_DATA_LENGTH_COMMAND {
        Some(
            then_finish(
                setup.with_status(
                    SetupStatus { suggested_default_data_length_read_status: Some(status), ..old },
                ),
                pools,
                none,
                interlaced,
            ),
        )
    } else if command_opcode == HCI_LE_WRITE_SUGGESTED_DEFAULT_DATA_LENGTH_COMMAND {
        Some(
            then_finish(
                setup.with_status(
                    SetupStatus {
                        suggested_default_data_length_write_status: Some(status),
                        suggested_default_data_length: if status == 0 {
                            Some(
                                LeSuggestedDefaultDataLength {
                                    suggested_max_tx_octets: HOST_SUGGESTED_MAX_TX_OCTETS,
                                    suggested_max_tx_time: HOST_SUGGESTED_MAX_TX_TIME,
                                },
                            )
                        } else {
                            old.suggested_default_data_length
                        },
                        ..old
                    },
                ),
                pools,
                none,
                interlaced,
            ),
        )
    } else if command_opcode == HCI_LE_READ_NUMBER_OF_SUPPORTED_ADVERTISING_SETS_COMMAND {
        Some(
            then_finish(
                setup.with_status(
                    SetupStatus {
                        number_of_supported_advertising_sets_status: Some(status),
                        ..old
                    },
                ),
                pools,
                none,
                interlaced,
            ),
        )
    } else if command_opcode == HCI_LE_READ_MAXIMUM_ADVERTISING_DATA_LENGTH_COMMAND {
        Some(
            then_finish(
                setup.with_status(
                    SetupStatus { maximum_advertising_data_length_status: Some(status), ..old },
                ),
                pools,
                none,
                interlaced,
            ),
        )
    } else if command_opcode == HCI_LE_CS_READ_LOCAL_SUPPORTED_CAPABILITIES_COMMAND {
        Some(
            SetupStep {
                setup: setup.with_status(
                    SetupStatus { local_channel_sounding_capabilities_status: Some(status), ..old },
                ),
                pools,
                commands: none,
            },
        )
    } else {
        None
    }
}

/// What a setup command's completion brings about; `None` where the command is
/// not one of setup.
pub open spec fn setup_step(
    setup: SetupView,
    pools: PoolsView,
    interlaced: bool,
    command_opcode: u16,
    parameters: ReturnParameters,
) -> Option<SetupStep> {
    let none = Seq::<Command>::empty();
    let old = setup.status;
    match parameters {
        ReturnParameters::Status { status } => status_step(
            setup,
            pools,
            interlaced,
            command_opcode,
            status,
        ),
        ReturnParameters::ReadLocalSupportedCommands { status, supported_commands } => if command_opcode
            != HCI_READ_LOCAL_SUPPORTED_COMMANDS_COMMAND {
            None
        } else {
            let known = setup.with_supported_commands(status, supported_commands);
            if status == 0 {
                Some(then_start(known, pools, known.discovery_commands()))
            } else {
                Some(SetupStep { setup: known, pools, commands: none })
            }
        },
        ReturnParameters::ReadLocalVersionInformation {
            status,
            hci_version,
            hci_subversion,
            lmp_version,
            company_identifier,
            lmp_subversion,
        } => if command_opcode != HCI_READ_LOCAL_VERSION_INFORMATION_COMMAND {
            None
        } else {
            Some(
                then_start(
                    setup.with_status(
                        SetupStatus {
                            local_version_status: Some(status),
                            local_version: if status == 0 {
                                Some(
                                    LocalVersionInformation {
                                        hci_version,
                                        hci_subversion,
                                        lmp_version,
                                        company_identifier,
                                        lmp_subversion,
                                    },
                                )
                            } else {
                                old.local_version
                            },
                            ..old
                        },
                    ),
                    pools,
                    none,
                ),
            )
        },
        ReturnParameters::ReadLocalExtendedFeatures {
            status,
            page_number,
            maximum_page_number,
            extended_lmp_features,
        } => if command_opcode != HCI_READ_LOCAL_EXTENDED_FEATURES_COMMAND {
            None
        } else {
            Some(
                then_start(
                    setup.with_lmp_page(
                        status,
                        page_number,
                        maximum_page_number,
                        extended_lmp_features,
                    ),
                    pools,
                    command_if(
                        status == 0 && page_number < maximum_page_number,
                        Command::ReadLocalExtendedFeatures { page_number: (page_number + 1) as u8 },
                    ),
                ),
            )
        },
        ReturnParameters::ReadLocalSupportedFeatures { status, lmp_features } => if command_opcode
            != HCI_READ_LOCAL_SUPPORTED_FEATURES_COMMAND {
            None
        } else {
            Some(then_start(setup.with_lmp_features(status, lmp_features), pools, none))
        },
        ReturnParameters::LeReadAllLocalSupportedFeatures { status, max_page, le_features } => if command_opcode
            != HCI_LE_READ_ALL_LOCAL_SUPPORTED_FEATURES_COMMAND {
            None
        } else {
            Some(
                then_start(
                    setup.with_le_features(status, Some(max_page), le_features@),
                    pools,
                    none,
                ),
            )
        },
        ReturnParameters::LeReadLocalSupportedFeatures { status, le_features } => if command_opcode
            != HCI_LE_READ_LOCAL_SUPPORTED_FEATURES_COMMAND {
            None
        } else {
            Some(then_start(setup.with_le_features(status, None, le_features@), pools, none))
        },
        ReturnParameters::ReadBufferSize {
            status,
            hc_acl_data_packet_length,
            hc_total_num_acl_data_packets,
            ..
        } => if command_opcode != HCI_READ_BUFFER_SIZE_COMMAND {
            None
        } else {
            let buffer = ControllerBufferInfo {
                data_packet_length: hc_acl_data_packet_length,
                total_num_data_packets: hc_total_num_acl_data_packets,
            };
            Some(
                then_finish(
                    setup.with_status(
                        SetupStatus {
                            classic_buffer_status: Some(status),
                            classic_acl_buffer: if status == 0 {
                                Some(buffer)
                            } else {
                                old.classic_acl_buffer
                            },
                            ..old
                        },
                    ),
                    if status == 0 {
                        pools.with_classic(buffer)
                    } else {
                        pools
                    },
                    none,
                    interlaced,
                ),
            )
        },
        ReturnParameters::LeReadBufferSize {
            status,
            le_acl_data_packet_length,
            total_num_le_acl_data_packets,
        } => if command_opcode != HCI_LE_READ_BUFFER_SIZE_COMMAND {
            None
        } else {
            let buffer = ControllerBufferInfo {
                data_packet_length: le_acl_data_packet_length,
                total_num_data_packets: total_num_le_acl_data_packets as u16,
            };
            Some(
                then_finish(
                    setup.with_status(
                        SetupStatus {
                            le_buffer_status: Some(status),
                            le_acl_buffer: if status == 0 {
                                Some(buffer)
                            } else {
                                old.le_acl_buffer
                            },
                            ..old
                        },
                    ),
                    if status == 0 {
                        pools.with_le(Some(buffer))
                    } else {
                        pools
                    },
                    none,
                    interlaced,
                ),
            )
        },
        ReturnParameters::LeReadBufferSizeV2 {
            status,
            le_acl_data_packet_length,
            total_num_le_acl_data_packets,
            iso_data_packet_length,
            total_num_iso_data_packets,
        } => if command_opcode != HCI_LE_READ_BUFFER_SIZE_V2_COMMAND {
            None
        } else {
            let le_buffer = ControllerBufferInfo {
                data_packet_length: le_acl_data_packet_length,
                total_num_data_packets: total_num_le_acl_data_packets as u16,
            };
            let iso_buffer = ControllerBufferInfo {
                data_packet_length: iso_data_packet_length,
                total_num_data_packets: total_num_iso_data_packets as u16,
            };
            Some(
                then_finish(
                    setup.with_status(
                        SetupStatus {
                            le_buffer_status: Some(status),
                            le_acl_buffer: if status == 0 {
                                Some(le_buffer)
                            } else {
                                old.le_acl_buffer
                            },
                            iso_buffer: if status == 0 {
                                Some(iso_buffer)
                            } else {
                                old.iso_buffer
                            },
                            ..old
                        },
                    ),
                    if status == 0 {
                        pools.with_le(Some(le_buffer)).with_iso(Some(iso_buffer))
                    } else {
                        pools
                    },
                    none,
                    interlaced,
                ),
            )
        },
        ReturnParameters::LeReadSuggestedDefaultDataLength {
            status,
            suggested_max_tx_octets,
            suggested_max_tx_time,
        } => if command_opcode != HCI_LE_READ_SUGGESTED_DEFAULT_DATA_LENGTH_COMMAND {
            None
        } else {
            let known = setup.with_suggested_length(
                status,
                suggested_max_tx_octets,
                suggested_max_tx_time,
            );
            Some(
                then_finish(
                    known,
                    pools,
                    command_if(
                        status == 0 && known.status.suggested_default_data_length_write_required,
                        Command::LeWriteSuggestedDefaultDataLength {
                            suggested_max_tx_octets: HOST_SUGGESTED_MAX_TX_OCTETS,
                            suggested_max_tx_time: HOST_SUGGESTED_MAX_TX_TIME,
                        },
                    ),
                    interlaced,
                ),
            )
        },
        ReturnParameters::LeReadNumberOfSupportedAdvertisingSets {
            status,
            num_supported_advertising_sets,
        } => if command_opcode != HCI_LE_READ_NUMBER_OF_SUPPORTED_ADVERTISING_SETS_COMMAND {
            None
        } else {
            Some(
                then_finish(
                    setup.with_status(
                        SetupStatus {
                            number_of_supported_advertising_sets_status: Some(status),
                            number_of_supported_advertising_sets: if status == 0 {
                                num_supported_advertising_sets
                            } else {
                                old.number_of_supported_advertising_sets
                            },
                            ..old
                        },
                    ),
                    pools,
                    none,
                    interlaced,
                ),
            )
        },
        ReturnParameters::LeReadMaximumAdvertisingDataLength {
            status,
            max_advertising_data_length,
        } => if command_opcode != HCI_LE_READ_MAXIMUM_ADVERTISING_DATA_LENGTH_COMMAND {
            None
        } else {
            Some(
                then_finish(
                    setup.with_status(
                        SetupStatus {
                            maximum_advertising_data_length_status: Some(status),
                            maximum_advertising_data_length: if status == 0 {
                                max_advertising_data_length
                            } else {
                                old.maximum_advertising_data_length
                            },
                            ..old
                        },
                    ),
                    pools,
                    none,
                    interlaced,
                ),
            )
        },
        ReturnParameters::LeCsReadLocalSupportedCapabilities { status, capabilities } => if command_opcode
            != HCI_LE_CS_READ_LOCAL_SUPPORTED_CAPABILITIES_COMMAND {
            None
        } else {
            Some(
                SetupStep {
                    setup: setup.with_status(
                        SetupStatus {
                            local_channel_sounding_capabilities_status: Some(status),
                            local_channel_sounding_capabilities: if status == 0 {
                                Some(capabilities)
                            } else {
                                old.local_channel_sounding_capabilities
                            },
                            ..old
                        },
                    ),
                    pools,
                    commands: none,
                },
            )
        },
        _ => None,
    }
}

impl HostSetup {
    /// Begin initialization where that is due.
    fn start_after<L: HostTransport + ?Sized>(&mut self, link: &mut L, controller_id: usize)
        ensures
            final(self)@ == old(self)@.after_start(),
            final(link).log() == old(link).log() + commands(
                controller_id,
                Seq::<Command>::empty() + old(self)@.start_sends(),
            ),
    {
        self.maybe_start(link, controller_id);
        assert(Seq::<Command>::empty() + old(self)@.start_sends() =~= old(self)@.start_sends());
    }

    /// Finish initialization where that is due.
    fn finish_after<L: HostTransport + ?Sized>(
        &mut self,
        link: &mut L,
        controller_id: usize,
        interlaced: bool,
    )
        ensures
            final(self)@ == old(self)@.after_finish(),
            final(link).log() == old(link).log() + commands(
                controller_id,
                Seq::<Command>::empty() + old(self)@.finish_sends(interlaced),
            ),
    {
        self.maybe_finish(link, controller_id, interlaced);
        assert(Seq::<Command>::empty() + old(self)@.finish_sends(interlaced) =~= old(
            self,
        )@.finish_sends(interlaced));
    }

    /// Take in a completion with a bare status. Returns whether the command is
    /// one of setup.
    fn on_status<L: HostTransport + ?Sized>(
        &mut self,
        link: &mut L,
        controller_id: usize,
        interlaced: bool,
        command_opcode: u16,
        status: u8,
        Ghost(pools): Ghost<PoolsView>,
    ) -> (handled: bool)
        ensures
            match status_step(old(self)@, pools, interlaced, command_opcode, status) {
                Some(step) => {
                    &&& handled
                    &&& final(self)@ == step.setup
                    &&& pools == step.pools
                    &&& final(link).log() == old(link).log() + commands(
                        controller_id,
                        step.commands,
                    )
                },
                None => !handled && final(self)@ == old(self)@ && final(link).log() == old(
                    link,
                ).log(),
            },
    {
        proof {
            lemma_commands_none(link.log(), controller_id);
        }
        if command_opcode == HCI_RESET_COMMAND {
            self.status.reset_status = Some(status);
            self.status.controller_ready = status == 0;
            true
        } else if command_opcode == HCI_READ_LOCAL_VERSION_INFORMATION_COMMAND {
            self.status.local_version_status = Some(status);
            self.start_after(link, controller_id);
            true
        } else if command_opcode == HCI_READ_LOCAL_SUPPORTED_FEATURES_COMMAND {
            self.local_lmp_feature_statuses.insert(0, status);
            self.start_after(link, controller_id);
            true
        } else if command_opcode == HCI_READ_LOCAL_EXTENDED_FEATURES_COMMAND {
            if let Some(page_number) = take_first(&mut self.pending_local_lmp_feature_pages) {
                self.local_lmp_feature_statuses.insert(page_number, status);
            }
            self.start_after(link, controller_id);
            true
        } else if command_opcode == HCI_READ_LOCAL_SUPPORTED_COMMANDS_COMMAND {
            self.status.local_supported_commands_status = Some(status);
            true
        } else if command_opcode == HCI_LE_READ_LOCAL_SUPPORTED_FEATURES_COMMAND || command_opcode
            == HCI_LE_READ_ALL_LOCAL_SUPPORTED_FEATURES_COMMAND {
            self.status.local_le_features_status = Some(status);
            self.start_after(link, controller_id);
            true
        } else if command_opcode == HCI_SET_EVENT_MASK_COMMAND {
            self.status.event_mask_status = Some(status);
            self.finish_after(link, controller_id, interlaced);
            true
        } else if command_opcode == HCI_SET_EVENT_MASK_PAGE_2_COMMAND {
            self.status.event_mask_page_2_status = Some(status);
            self.finish_after(link, controller_id, interlaced);
            true
        } else if command_opcode == HCI_LE_SET_EVENT_MASK_COMMAND {
            self.status.le_event_mask_status = Some(status);
            self.finish_after(link, controller_id, interlaced);
            true
        } else if command_opcode == HCI_READ_BUFFER_SIZE_COMMAND {
            self.status.classic_buffer_status = Some(status);
            self.finish_after(link, controller_id, interlaced);
            true
        } else if command_opcode == HCI_LE_READ_BUFFER_SIZE_COMMAND || command_opcode
            == HCI_LE_READ_BUFFER_SIZE_V2_COMMAND {
            self.status.le_buffer_status = Some(status);
            self.finish_after(link, controller_id, interlaced);
            true
        } else if command_opcode == HCI_LE_READ_SUGGESTED_DEFAULT_DATA_LENGTH_COMMAND {
            self.status.suggested_default_data_length_read_status = Some(status);
            self.finish_after(link, controller_id, interlaced);
            true
        } else if command_opcode == HCI_LE_WRITE_SUGGESTED_DEFAULT_DATA_LENGTH_COMMAND {
            self.status.suggested_default_data_length_write_status = Some(status);
            if status == 0 {
                self.status.suggested_default_data_length = Some(
                    LeSuggestedDefaultDataLength {
                        suggested_max_tx_octets: HOST_SUGGESTED_MAX_TX_OCTETS,
                        suggested_max_tx_time: HOST_SUGGESTED_MAX_TX_TIME,
                    },
                );
            }
            self.finish_after(link, controller_id, interlaced);
            true
        } else if command_opcode == HCI_LE_READ_NUMBER_OF_SUPPORTED_ADVERTISING_SETS_COMMAND {
            self.status.number_of_supported_advertising_sets_status = Some(status);
            self.finish_after(link, controller_id, interlaced);
            true
        } else if command_opcode == HCI_LE_READ_MAXIMUM_ADVERTISING_DATA_LENGTH_COMMAND {
            self.status.maximum_advertising_data_length_status = Some(status);
            self.finish_after(link, controller_id, interlaced);
            true
        } else if command_opcode == HCI_LE_CS_READ_LOCAL_SUPPORTED_CAPABILITIES_COMMAND {
            self.status.local_channel_sounding_capabilities_status = Some(status);
            true
        } else {
            false
        }
    }
}

impl HostSetup {
    /// The first questions, once the supported commands are known.
    fn discovery_command_list(&self) -> (list: Vec<Command>)
        ensures
            list@ == self@.discovery_commands(),
    {
        let status: &SetupStatus = &self.status;
        let mut list: Vec<Command> = Vec::new();
        push_when(
            &mut list,
            status.supports(OptionalCommand::ReadLocalVersionInformation),
            Command::ReadLocalVersionInformation,
        );
        assert(list@ =~= command_if(
            self@.status.spec_supports(OptionalCommand::ReadLocalVersionInformation),
            Command::ReadLocalVersionInformation,
        ));
        push_when(
            &mut list,
            status.supports(OptionalCommand::LeReadAllLocalSupportedFeatures),
            Command::LeReadAllLocalSupportedFeatures,
        );
        push_when(
            &mut list,
            !status.supports(OptionalCommand::LeReadAllLocalSupportedFeatures) && status.supports(
                OptionalCommand::LeReadLocalSupportedFeatures,
            ),
            Command::LeReadLocalSupportedFeatures,
        );
        push_when(
            &mut list,
            status.supports(OptionalCommand::ReadLocalExtendedFeatures),
            Command::ReadLocalExtendedFeatures { page_number: 0 },
        );
        push_when(
            &mut list,
            !status.supports(OptionalCommand::ReadLocalExtendedFeatures) && status.supports(
                OptionalCommand::ReadLocalSupportedFeatures,
            ),
            Command::ReadLocalSupportedFeatures,
        );
        list
    }

    /// Take in the supported commands and ask the first questions.
    fn on_supported_commands<L: HostTransport + ?Sized>(
        &mut self,
        link: &mut L,
        controller_id: usize,
        status: u8,
        supported_commands: [u8; 64],
    )
        ensures
            ({
                let known = old(self)@.with_supported_commands(status, supported_commands);
                if status == 0 {
                    &&& final(self)@ == known.after_start()
                    &&& final(link).log() == old(link).log() + commands(
                        controller_id,
                        known.discovery_commands() + known.start_sends(),
                    )
                } else {
                    final(self)@ == known && final(link).log() == old(link).log()
                }
            }),
    {
        let ghost log = link.log();
        self.status.local_supported_commands_status = Some(status);
        if status == 0 {
            self.status.local_supported_commands = Some(supported_commands);
            if self.status.supports(OptionalCommand::ReadLocalExtendedFeatures) {
                self.pending_local_lmp_feature_pages.push(0);
            }
            let ghost known = self@;
            let list: Vec<Command> = self.discovery_command_list();
            send_all(link, controller_id, list);
            self.maybe_start(link, controller_id);
            proof {
                lemma_commands_concat(
                    log,
                    controller_id,
                    known.discovery_commands(),
                    known.start_sends(),
                );
            }
        }
    }

    /// Take in a page of LMP features and ask for the next one.
    fn on_lmp_page<L: HostTransport + ?Sized>(
        &mut self,
        link: &mut L,
        controller_id: usize,
        status: u8,
        page_number: u8,
        maximum_page_number: u8,
        features: [u8; 8],
    )
        ensures
            ({
                let known = old(self)@.with_lmp_page(
                    status,
                    page_number,
                    maximum_page_number,
                    features,
                );
                &&& final(self)@ == known.after_start()
                &&& final(link).log() == old(link).log() + commands(
                    controller_id,
                    command_if(
                        status == 0 && page_number < maximum_page_number,
                        Command::ReadLocalExtendedFeatures { page_number: (page_number + 1) as u8 },
                    ) + known.start_sends(),
                )
            }),
    {
        let ghost log = link.log();
        let ghost known = self@.with_lmp_page(status, page_number, maximum_page_number, features);
        let _ = remove_value(&mut self.pending_local_lmp_feature_pages, page_number);
        self.local_lmp_feature_statuses.insert(page_number, status);
        let mut list: Vec<Command> = Vec::new();
        if status == 0 {
            self.local_lmp_features.insert(page_number, features);
            self.status.local_lmp_features_max_page = Some(maximum_page_number);
            if page_number < maximum_page_number {
                self.pending_local_lmp_feature_pages.push(page_number + 1);
                list.push(Command::ReadLocalExtendedFeatures { page_number: page_number + 1 });
            }
        }
        let ghost asked = command_if(
            status == 0 && page_number < maximum_page_number,
            Command::ReadLocalExtendedFeatures { page_number: (page_number + 1) as u8 },
        );
        assert(list@ =~= asked);
        assert(self@ == known);
        send_all(link, controller_id, list);
        self.maybe_start(link, controller_id);
        proof {
            lemma_commands_concat(log, controller_id, asked, known.start_sends());
        }
    }

    /// Take in the LE features.
    fn on_le_features<L: HostTransport + ?Sized>(
        &mut self,
        link: &mut L,
        controller_id: usize,
        status: u8,
        max_page: Option<u8>,
        features: &[u8],
    )
        ensures
            ({
                let known = old(self)@.with_le_features(status, max_page, features@);
                &&& final(self)@ == known.after_start()
                &&& final(link).log() == old(link).log() + commands(
                    controller_id,
                    Seq::<Command>::empty() + known.start_sends(),
                )
            }),
    {
        self.status.local_le_features_status = Some(status);
        if status == 0 {
            let mut bytes: Vec<u8> = Vec::new();
            bytes.extend_from_slice(features);
            assert(bytes@ =~= features@);
            self.local_le_features = Some(bytes);
            self.status.local_le_features_max_page = max_page;
        }
        self.start_after(link, controller_id);
    }

    /// Take in the suggested default data length and correct it.
    fn on_suggested_length<L: HostTransport + ?Sized>(
        &mut self,
        link: &mut L,
        controller_id: usize,
        interlaced: bool,
        status: u8,
        suggested_max_tx_octets: u16,
        suggested_max_tx_time: u16,
    )
        ensures
            ({
                let known = old(self)@.with_suggested_length(
                    status,
                    suggested_max_tx_octets,
                    suggested_max_tx_time,
                );
                &&& final(self)@ == known.after_finish()
                &&& final(link).log() == old(link).log() + commands(
                    controller_id,
                    command_if(
                        status == 0 && known.status.suggested_default_data_length_write_required,
                        Command::LeWriteSuggestedDefaultDataLength {
                            suggested_max_tx_octets: HOST_SUGGESTED_MAX_TX_OCTETS,
                            suggested_max_tx_time: HOST_SUGGESTED_MAX_TX_TIME,
                        },
                    ) + known.finish_sends(interlaced),
                )
            }),
    {
        let ghost log = link.log();
        let mut list: Vec<Command> = Vec::new();
        self.status.suggested_default_data_length_read_status = Some(status);
        if status == 0 {
            self.status.suggested_default_data_length = Some(
                LeSuggestedDefaultDataLength { suggested_max_tx_octets, suggested_max_tx_time },
            );
            self.status.suggested_default_data_length_write_required = suggested_max_tx_octets
                != HOST_SUGGESTED_MAX_TX_OCTETS || suggested_max_tx_time
                != HOST_SUGGESTED_MAX_TX_TIME;
            if self.status.suggested_default_data_length_write_required {
                list.push(
                    Command::LeWriteSuggestedDefaultDataLength {
                        suggested_max_tx_octets: HOST_SUGGESTED_MAX_TX_OCTETS,
                        suggested_max_tx_time: HOST_SUGGESTED_MAX_TX_TIME,
                    },
                );
            }
        }
        let ghost known = self@;
        let ghost corrected = command_if(
            status == 0 && known.status.suggested_default_data_length_write_required,
            Command::LeWriteSuggestedDefaultDataLength {
                suggested_max_tx_octets: HOST_SUGGESTED_MAX_TX_OCTETS,
                suggested_max_tx_time: HOST_SUGGESTED_MAX_TX_TIME,
            },
        );
        assert(list@ =~= corrected);
        send_all(link, controller_id, list);
        self.maybe_finish(link, controller_id, interlaced);
        proof {
            lemma_commands_concat(log, controller_id, corrected, known.finish_sends(interlaced));
        }
    }

    /// Take in the completion of a command. Returns whether the command is one
    /// of setup.
    pub fn on_command_complete<L: HostTransport + ?Sized>(
        &mut self,
        pools: &mut PacketPools,
        link: &mut L,
        controller_id: usize,
        interlaced: bool,
        command_opcode: u16,
        parameters: &ReturnParameters,
    ) -> (handled: bool)
        requires
            old(pools).wf(),
        ensures
            final(pools).wf(),
            match setup_step(old(self)@, old(pools)@, interlaced, command_opcode, *parameters) {
                Some(step) => {
                    &&& handled
                    &&& final(self)@ == step.setup
                    &&& final(pools)@ == step.pools
                    &&& final(link).log() == old(link).log() + commands(
                        controller_id,
                        step.commands,
                    )
                },
                None => {
                    &&& !handled
                    &&& final(self)@ == old(self)@
                    &&& final(pools)@ == old(pools)@
                    &&& final(link).log() == old(link).log()
                },
            },
    {
        proof {
            lemma_commands_none(link.log(), controller_id);
        }
        match parameters {
            ReturnParameters::Status { status } => self.on_status(
                link,
                controller_id,
                interlaced,
                command_opcode,
                *status,
                Ghost(pools@),
            ),
            ReturnParameters::ReadLocalSupportedCommands { status, supported_commands } => {
                if command_opcode != HCI_READ_LOCAL_SUPPORTED_COMMANDS_COMMAND {
                    return false;
                }
                self.on_supported_commands(link, controller_id, *status, *supported_commands);
                true
            },
            ReturnParameters::ReadLocalVersionInformation {
                status,
                hci_version,
                hci_subversion,
                lmp_version,
                company_identifier,
                lmp_subversion,
            } => {
                if command_opcode != HCI_READ_LOCAL_VERSION_INFORMATION_COMMAND {
                    return false;
                }
                self.status.local_version_status = Some(*status);
                if *status == 0 {
                    self.status.local_version = Some(
                        LocalVersionInformation {
                            hci_version: *hci_version,
                            hci_subversion: *hci_subversion,
                            lmp_version: *lmp_version,
                            company_identifier: *company_identifier,
                            lmp_subversion: *lmp_subversion,
                        },
                    );
                }
                self.start_after(link, controller_id);
                true
            },
            ReturnParameters::ReadLocalExtendedFeatures {
                status,
                page_number,
                maximum_page_number,
                extended_lmp_features,
            } => {
                if command_opcode != HCI_READ_LOCAL_EXTENDED_FEATURES_COMMAND {
                    return false;
                }
                self.on_lmp_page(
                    link,
                    controller_id,
                    *status,
                    *page_number,
                    *maximum_page_number,
                    *extended_lmp_features,
                );
                true
            },
            ReturnParameters::ReadLocalSupportedFeatures { status, lmp_features } => {
                if command_opcode != HCI_READ_LOCAL_SUPPORTED_FEATURES_COMMAND {
                    return false;
                }
                self.local_lmp_feature_statuses.insert(0, *status);
                if *status == 0 {
                    self.local_lmp_features.insert(0, *lmp_features);
                    self.status.local_lmp_features_max_page = Some(0);
                }
                self.start_after(link, controller_id);
                true
            },
            ReturnParameters::LeReadAllLocalSupportedFeatures { status, max_page, le_features } => {
                if command_opcode != HCI_LE_READ_ALL_LOCAL_SUPPORTED_FEATURES_COMMAND {
                    return false;
                }
                self.on_le_features(
                    link,
                    controller_id,
                    *status,
                    Some(*max_page),
                    le_features.as_slice(),
                );
                true
            },
            ReturnParameters::LeReadLocalSupportedFeatures { status, le_features } => {
                if command_opcode != HCI_LE_READ_LOCAL_SUPPORTED_FEATURES_COMMAND {
                    return false;
                }
                self.on_le_features(link, controller_id, *status, None, le_features.as_slice());
                true
            },
            ReturnParameters::ReadBufferSize {
                status,
                hc_acl_data_packet_length,
                hc_total_num_acl_data_packets,
                ..
            } => {
                if command_opcode != HCI_READ_BUFFER_SIZE_COMMAND {
                    return false;
                }
                self.status.classic_buffer_status = Some(*status);
                if *status == 0 {
                    let buffer = ControllerBufferInfo {
                        data_packet_length: *hc_acl_data_packet_length,
                        total_num_data_packets: *hc_total_num_acl_data_packets,
                    };
                    self.status.classic_acl_buffer = Some(buffer);
                    pools.install_classic(buffer);
                }
                self.finish_after(link, controller_id, interlaced);
                true
            },
            ReturnParameters::LeReadBufferSize {
                status,
                le_acl_data_packet_length,
                total_num_le_acl_data_packets,
            } => {
                if command_opcode != HCI_LE_READ_BUFFER_SIZE_COMMAND {
                    return false;
                }
                self.status.le_buffer_status = Some(*status);
                if *status == 0 {
                    let buffer = ControllerBufferInfo {
                        data_packet_length: *le_acl_data_packet_length,
                        total_num_data_packets: *total_num_le_acl_data_packets as u16,
                    };
                    self.status.le_acl_buffer = Some(buffer);
                    pools.install_le(Some(buffer));
                }
                self.finish_after(link, controller_id, interlaced);
                true
            },
            ReturnParameters::LeReadBufferSizeV2 {
                status,
                le_acl_data_packet_length,
                total_num_le_acl_data_packets,
                iso_data_packet_length,
                total_num_iso_data_packets,
            } => {
                if command_opcode != HCI_LE_READ_BUFFER_SIZE_V2_COMMAND {
                    return false;
                }
                self.status.le_buffer_status = Some(*status);
                if *status == 0 {
                    let le_buffer = ControllerBufferInfo {
                        data_packet_length: *le_acl_data_packet_length,
                        total_num_data_packets: *total_num_le_acl_data_packets as u16,
                    };
                    let iso_buffer = ControllerBufferInfo {
                        data_packet_length: *iso_data_packet_length,
                        total_num_data_packets: *total_num_iso_data_packets as u16,
                    };
                    self.status.le_acl_buffer = Some(le_buffer);
                    pools.install_le(Some(le_buffer));
                    self.status.iso_buffer = Some(iso_buffer);
                    pools.install_iso(Some(iso_buffer));
                }
                self.finish_after(link, controller_id, interlaced);
                true
            },
            ReturnParameters::LeReadSuggestedDefaultDataLength {
                status,
                suggested_max_tx_octets,
                suggested_max_tx_time,
            } => {
                if command_opcode != HCI_LE_READ_SUGGESTED_DEFAULT_DATA_LENGTH_COMMAND {
                    return false;
                }
                self.on_suggested_length(
                    link,
                    controller_id,
                    interlaced,
                    *status,
                    *suggested_max_tx_octets,
                    *suggested_max_tx_time,
                );
                true
            },
            ReturnParameters::LeReadNumberOfSupportedAdvertisingSets {
                status,
                num_supported_advertising_sets,
            } => {
                if command_opcode != HCI_LE_READ_NUMBER_OF_SUPPORTED_ADVERTISING_SETS_COMMAND {
                    return false;
                }
                self.status.number_of_supported_advertising_sets_status = Some(*status);
                if *status == 0 {
                    self.status.number_of_supported_advertising_sets =
                    *num_supported_advertising_sets;
                }
                self.finish_after(link, controller_id, interlaced);
                true
            },
            ReturnParameters::LeReadMaximumAdvertisingDataLength {
                status,
                max_advertising_data_length,
            } => {
                if command_opcode != HCI_LE_READ_MAXIMUM_ADVERTISING_DATA_LENGTH_COMMAND {
                    return false;
                }
                self.status.maximum_advertising_data_length_status = Some(*status);
                if *status == 0 {
                    self.status.maximum_advertising_data_length = *max_advertising_data_length;
                }
                self.finish_after(link, controller_id, interlaced);
                true
            },
            ReturnParameters::LeCsReadLocalSupportedCapabilities { status, capabilities } => {
                if command_opcode != HCI_LE_CS_READ_LOCAL_SUPPORTED_CAPABILITIES_COMMAND {
                    return false;
                }
                self.status.local_channel_sounding_capabilities_status = Some(*status);
                if *status == 0 {
                    self.status.local_channel_sounding_capabilities = Some(*capabilities);
                }
                true
            },
            _ => false,
        }
    }
}

/// Initialization begins at most once: a host that has begun it sends none of
/// its commands again, whatever completes.
pub proof fn lemma_starts_once(setup: SetupView)
    requires
        setup.status.host_initialization_started,
    ensures
        setup.start_sends() == Seq::<Command>::empty(),
        setup.after_start() == setup,
{
}

/// A host that has finished initialization was asked for, and got, an answer
/// to everything that success rests on.
pub proof fn lemma_finish_only_when_answered(setup: SetupView)
    requires
        !setup.status.host_initialization_complete,
        setup.after_finish().status.host_initialization_complete,
    ensures
        setup.status.host_initialization_started,
        setup.status.all_answered(),
{
}

} // verus!
