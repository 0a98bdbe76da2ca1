//! What a device tells of its state.

use crate::address::Address;
use crate::advertising::PeriodicAdvertisingSyncInfo;
use crate::channel_sounding::ChannelSoundingCapabilities;
use crate::classic::{ClassicConnectionInfo, SynchronousConnectionInfo};
use crate::connection::{
    ControllerBufferInfo, LeConnectionInfo, LeSuggestedDefaultDataLength, LocalVersionInformation,
};
use crate::device::{Device, DeviceView};
use crate::events::DeviceEventListenerId;
use crate::ids::{first_free, spec_next_id};
use crate::iso::{CisLinkInfo, IsoTxSyncInfo};
use crate::lookup::PeerLookupId;
use crate::ordered::{least, lists_u16, sorted, sorted_handles};
use crate::setup::{
    le_feature_bit, LePhyError, LE_1M_PHY, LE_2M_PHY, LE_CODED_PHY, LE_FEATURE_2M_PHY,
    LE_FEATURE_CODED_PHY, LE_FEATURE_PERIODIC_ADVERTISING,
};
use crate::state::{JournalView, LeState, LeView};
use std::collections::BTreeMap;
use vstd::prelude::*;

verus! {

broadcast use vstd::laws_cmp::group_laws_cmp;

impl Device {
    /// Completion status for the power-on Supported Commands read.
    pub fn local_supported_commands_status(&self) -> (value: Option<u8>)
        ensures
            value == self@.setup.status.local_supported_commands_status,
    {
        self.setup.status.local_supported_commands_status
    }

    /// Controller HCI/LMP version information learned during reset.
    pub fn local_version(&self) -> (value: Option<LocalVersionInformation>)
        ensures
            value == self@.setup.status.local_version,
    {
        self.setup.status.local_version
    }

    /// Completion status for the version read.
    pub fn local_version_status(&self) -> (value: Option<u8>)
        ensures
            value == self@.setup.status.local_version_status,
    {
        self.setup.status.local_version_status
    }

    /// Whether controller packets are accepted after the most recent reset.
    pub fn controller_ready(&self) -> (value: bool)
        ensures
            value == self@.setup.status.controller_ready,
    {
        self.setup.status.controller_ready
    }

    /// Terminal status from the most recent HCI Reset completion, if any.
    pub fn reset_status(&self) -> (value: Option<u8>)
        ensures
            value == self@.setup.status.reset_status,
    {
        self.setup.status.reset_status
    }

    /// Whether every reset-time Host initialization command has completed.
    pub fn host_initialization_complete(&self) -> (value: bool)
        ensures
            value == self@.setup.status.host_initialization_complete,
    {
        self.setup.status.host_initialization_complete
    }

    /// Completion status for the event mask.
    pub fn event_mask_status(&self) -> (value: Option<u8>)
        ensures
            value == self@.setup.status.event_mask_status,
    {
        self.setup.status.event_mask_status
    }

    /// Completion status for the second page of the event mask.
    pub fn event_mask_page_2_status(&self) -> (value: Option<u8>)
        ensures
            value == self@.setup.status.event_mask_page_2_status,
    {
        self.setup.status.event_mask_page_2_status
    }

    /// Completion status for the LE event mask.
    pub fn le_event_mask_status(&self) -> (value: Option<u8>)
        ensures
            value == self@.setup.status.le_event_mask_status,
    {
        self.setup.status.le_event_mask_status
    }

    /// Completion status for the Classic buffer read.
    pub fn classic_buffer_status(&self) -> (value: Option<u8>)
        ensures
            value == self@.setup.status.classic_buffer_status,
    {
        self.setup.status.classic_buffer_status
    }

    /// The Classic ACL pool that the controller reported.
    pub fn classic_acl_buffer(&self) -> (value: Option<ControllerBufferInfo>)
        ensures
            value == self@.setup.status.classic_acl_buffer,
    {
        self.setup.status.classic_acl_buffer
    }

    /// Completion status for the LE buffer read.
    pub fn le_buffer_status(&self) -> (value: Option<u8>)
        ensures
            value == self@.setup.status.le_buffer_status,
    {
        self.setup.status.le_buffer_status
    }

    /// The LE ACL pool that the controller reported.
    pub fn le_acl_buffer(&self) -> (value: Option<ControllerBufferInfo>)
        ensures
            value == self@.setup.status.le_acl_buffer,
    {
        self.setup.status.le_acl_buffer
    }

    /// The ISO pool that the controller reported.
    pub fn iso_buffer(&self) -> (value: Option<ControllerBufferInfo>)
        ensures
            value == self@.setup.status.iso_buffer,
    {
        self.setup.status.iso_buffer
    }

    /// Completion status for the suggested data length read.
    pub fn suggested_default_data_length_read_status(&self) -> (value: Option<u8>)
        ensures
            value == self@.setup.status.suggested_default_data_length_read_status,
    {
        self.setup.status.suggested_default_data_length_read_status
    }

    /// Effective controller suggestion after any reset-time corrective write.
    pub fn suggested_default_data_length(&self) -> (value: Option<LeSuggestedDefaultDataLength>)
        ensures
            value == self@.setup.status.suggested_default_data_length,
    {
        self.setup.status.suggested_default_data_length
    }

    /// Completion status for the suggested data length write.
    pub fn suggested_default_data_length_write_status(&self) -> (value: Option<u8>)
        ensures
            value == self@.setup.status.suggested_default_data_length_write_status,
    {
        self.setup.status.suggested_default_data_length_write_status
    }

    /// Completion status for the advertising set count read.
    pub fn number_of_supported_advertising_sets_status(&self) -> (value: Option<u8>)
        ensures
            value == self@.setup.status.number_of_supported_advertising_sets_status,
    {
        self.setup.status.number_of_supported_advertising_sets_status
    }

    /// How many advertising sets the controller supports.
    pub fn number_of_supported_advertising_sets(&self) -> (value: u8)
        ensures
            value == self@.setup.status.number_of_supported_advertising_sets,
    {
        self.setup.status.number_of_supported_advertising_sets
    }

    /// Completion status for the advertising data length read.
    pub fn maximum_advertising_data_length_status(&self) -> (value: Option<u8>)
        ensures
            value == self@.setup.status.maximum_advertising_data_length_status,
    {
        self.setup.status.maximum_advertising_data_length_status
    }

    /// The longest advertising data that the controller supports.
    pub fn maximum_advertising_data_length(&self) -> (value: u16)
        ensures
            value == self@.setup.status.maximum_advertising_data_length,
    {
        self.setup.status.maximum_advertising_data_length
    }

    /// The highest local LMP feature page.
    pub fn local_lmp_features_max_page(&self) -> (value: Option<u8>)
        ensures
            value == self@.setup.status.local_lmp_features_max_page,
    {
        self.setup.status.local_lmp_features_max_page
    }

    /// Highest returned all-page LE feature page, or `None` for legacy reads.
    pub fn local_le_features_max_page(&self) -> (value: Option<u8>)
        ensures
            value == self@.setup.status.local_le_features_max_page,
    {
        self.setup.status.local_le_features_max_page
    }

    /// Completion status for the selected power-on LE feature read.
    pub fn local_le_features_status(&self) -> (value: Option<u8>)
        ensures
            value == self@.setup.status.local_le_features_status,
    {
        self.setup.status.local_le_features_status
    }

    /// Local controller Channel Sounding capabilities learned during power-on.
    pub fn local_channel_sounding_capabilities(&self) -> (value: Option<ChannelSoundingCapabilities>)
        ensures
            value == self@.setup.status.local_channel_sounding_capabilities,
    {
        self.setup.status.local_channel_sounding_capabilities
    }

    /// Completion status for the power-on local Channel Sounding capability read.
    pub fn local_channel_sounding_capabilities_status(&self) -> (value: Option<u8>)
        ensures
            value == self@.setup.status.local_channel_sounding_capabilities_status,
    {
        self.setup.status.local_channel_sounding_capabilities_status
    }

    /// Whether the configured controller setup has been submitted successfully.
    pub fn is_powered_on(&self) -> (value: bool)
        ensures
            value == self@.identity.powered_on,
    {
        self.identity.powered_on
    }

    /// Whether legacy or extended LE scanning is active.
    pub fn is_scanning(&self) -> (value: bool)
        ensures
            value == self@.gap.scanning,
    {
        self.gap.scanning
    }

    /// Whether an LE connection attempt has neither completed nor failed.
    pub fn is_le_connecting(&self) -> (value: bool)
        ensures
            value == self@.le.le_connecting,
    {
        self.le.le_connecting
    }

    /// Which controller this device is attached to.
    pub fn controller_id(&self) -> (value: usize)
        ensures
            value == self@.controller_id,
    {
        self.controller_id
    }

    /// The selected LE connection handle, or the most recently established one.
    pub fn connection_handle(&self) -> (value: Option<u16>)
        ensures
            value == self@.le.connection_handle,
    {
        self.le.connection_handle
    }

    /// The local role on the selected LE connection.
    pub fn connection_role(&self) -> (value: Option<u8>)
        ensures
            value == self@.le.connection_role,
    {
        self.le.connection_role
    }

    /// The selected Classic connection handle.
    pub fn classic_connection_handle(&self) -> (value: Option<u16>)
        ensures
            value == self@.classic.classic_connection_handle,
    {
        self.classic.classic_connection_handle
    }

    /// The local role on the selected Classic connection.
    pub fn classic_connection_role(&self) -> (value: Option<u8>)
        ensures
            value == self@.classic.classic_connection_role,
    {
        self.classic.classic_connection_role
    }

    /// Whether Classic discovery is active.
    pub fn is_discovering(&self) -> (value: bool)
        ensures
            value == self@.classic.classic_discovering,
    {
        self.classic.classic_discovering
    }

    /// Whether Classic discovery starts again when an inquiry ends.
    pub fn discovery_auto_restart_enabled(&self) -> (value: bool)
        ensures
            value == self@.classic.classic_auto_restart_inquiry,
    {
        self.classic.classic_auto_restart_inquiry
    }

    /// Public controller address learned after power-on.
    pub fn public_address(&self) -> (value: Option<&Address>)
        ensures
            match value {
                Some(value) => self@.identity.public_address == Some(*value),
                None => self@.identity.public_address is None,
            },
    {
        match &self.identity.public_address {
            Some(value) => Some(value),
            None => None,
        }
    }

    /// The peer of the selected LE connection.
    pub fn peer_address(&self) -> (value: Option<&Address>)
        ensures
            match value {
                Some(value) => self@.le.peer_address == Some(*value),
                None => self@.le.peer_address is None,
            },
    {
        match &self.le.peer_address {
            Some(value) => Some(value),
            None => None,
        }
    }

    /// Controller Supported Commands bitmap learned during power-on.
    pub fn local_supported_commands(&self) -> (value: Option<&[u8; 64]>)
        ensures
            match value {
                Some(value) => self@.setup.status.local_supported_commands == Some(*value),
                None => self@.setup.status.local_supported_commands is None,
            },
    {
        match &self.setup.status.local_supported_commands {
            Some(value) => Some(value),
            None => None,
        }
    }

    /// Stable random identity configured for this device.
    pub fn static_address(&self) -> (address: &Address)
        ensures
            *address == self@.identity.static_address,
    {
        &self.identity.static_address
    }

    /// Random address currently programmed into the controller.
    pub fn random_address(&self) -> (address: &Address)
        ensures
            *address == self@.identity.random_address,
    {
        &self.identity.random_address
    }

    /// One established LE connection.
    pub fn le_connection(&self, connection_handle: u16) -> (value: Option<&LeConnectionInfo>)
        ensures
            match value {
                Some(value) => self@.le.le_connections.contains_key(connection_handle) && value@ == self@.le.le_connections[connection_handle],
                None => !self@.le.le_connections.contains_key(connection_handle),
            },
    {
        self.le.le_connections.get(&connection_handle)
    }

    /// One established Classic connection.
    pub fn classic_connection(&self, connection_handle: u16) -> (value: Option<&ClassicConnectionInfo>)
        ensures
            match value {
                Some(value) => self@.classic.classic_connections.contains_key(connection_handle) && value@ == self@.classic.classic_connections[connection_handle],
                None => !self@.classic.classic_connections.contains_key(connection_handle),
            },
    {
        self.classic.classic_connections.get(&connection_handle)
    }

    /// One established CIS.
    pub fn cis_link(&self, connection_handle: u16) -> (value: Option<&CisLinkInfo>)
        ensures
            match value {
                Some(value) => self@.iso.cis_links.contains_key(connection_handle) && *value == self@.iso.cis_links[connection_handle],
                None => !self@.iso.cis_links.contains_key(connection_handle),
            },
    {
        self.iso.cis_links.get(&connection_handle)
    }

    /// The last transmit synchronization read of a stream.
    pub fn iso_tx_sync(&self, iso_handle: u16) -> (value: Option<&IsoTxSyncInfo>)
        ensures
            match value {
                Some(value) => self@.iso.iso_tx_syncs.contains_key(iso_handle) && *value == self@.iso.iso_tx_syncs[iso_handle],
                None => !self@.iso.iso_tx_syncs.contains_key(iso_handle),
            },
    {
        self.iso.iso_tx_syncs.get(&iso_handle)
    }

    /// One local LMP feature page learned during reset.
    pub fn local_lmp_feature_page(&self, page_number: u8) -> (value: Option<&[u8; 8]>)
        ensures
            match value {
                Some(value) => self@.setup.lmp_features.contains_key(page_number) && *value == self@.setup.lmp_features[page_number],
                None => !self@.setup.lmp_features.contains_key(page_number),
            },
    {
        self.setup.local_lmp_features.get(&page_number)
    }

    /// The streams of an own broadcast group.
    pub fn big_bis_handles(&self, big_handle: u8) -> (handles: Option<&[u16]>)
        ensures
            match handles {
                Some(handles) => self@.iso.bigs.contains_key(big_handle) && handles@
                    == self@.iso.bigs[big_handle],
                None => !self@.iso.bigs.contains_key(big_handle),
            },
    {
        match self.iso.bigs.get(&big_handle) {
            Some(handles) => Some(handles.as_slice()),
            None => None,
        }
    }

    /// The streams of a synchronized broadcast group.
    pub fn big_sync_bis_handles(&self, big_handle: u8) -> (handles: Option<&[u16]>)
        ensures
            match handles {
                Some(handles) => self@.iso.big_syncs.contains_key(big_handle) && handles@
                    == self@.iso.big_syncs[big_handle],
                None => !self@.iso.big_syncs.contains_key(big_handle),
            },
    {
        match self.iso.big_syncs.get(&big_handle) {
            Some(handles) => Some(handles.as_slice()),
            None => None,
        }
    }

    /// Whether an LE connection is established.
    pub fn is_connected_on_handle(&self, connection_handle: u16) -> (holds: bool)
        ensures
            holds == self@.le.le_connections.contains_key(connection_handle),
    {
        self.le.le_connections.contains_key(&connection_handle)
    }

    /// Whether one handle has a submitted disconnection awaiting completion.
    pub fn is_disconnecting_on_handle(&self, connection_handle: u16) -> (holds: bool)
        ensures
            holds == self@.le.pending_disconnections.contains(connection_handle),
    {
        self.le.pending_disconnections.contains(&connection_handle)
    }

    /// Whether a broadcast group was asked for and not answered.
    pub fn is_big_pending(&self, big_handle: u8) -> (holds: bool)
        ensures
            holds == self@.iso.pending_bigs.contains(big_handle),
    {
        self.iso.pending_bigs.contains(&big_handle)
    }

    /// Whether a broadcast group sync was asked for and not answered.
    pub fn is_big_sync_pending(&self, big_handle: u8) -> (holds: bool)
        ensures
            holds == self@.iso.pending_big_syncs.contains(big_handle),
    {
        self.iso.pending_big_syncs.contains(&big_handle)
    }

    /// Whether a peer lookup is open.
    pub fn is_peer_lookup_pending(&self, lookup_id: PeerLookupId) -> (holds: bool)
        ensures
            holds == self@.lookups.pending_peer_lookups.contains_key(lookup_id),
    {
        self.lookups.pending_peer_lookups.contains_key(&lookup_id)
    }

    /// `true` while at least one LE connection is established.
    pub fn is_connected(&self) -> (connected: bool)
        requires
            self.wf(),
        ensures
            connected == (self@.le.le_connections.dom() != Set::<u16>::empty()),
            connected == (self@.le.connection_handle is Some),
    {
        self.le.connection_handle.is_some()
    }

    /// Whether any submitted disconnection is awaiting a completion event.
    pub fn is_disconnecting(&self) -> (disconnecting: bool)
        ensures
            disconnecting == (self@.le.pending_disconnections != Set::<u16>::empty()),
    {
        let none: bool = self.le.pending_disconnections.is_empty();
        assert(none ==> self@.le.pending_disconnections =~= Set::<u16>::empty());
        !none
    }

    /// How many peer lookups are open.
    pub fn pending_peer_lookup_count(&self) -> (count: usize)
        ensures
            count == self@.lookups.pending_peer_lookups.dom().len(),
    {
        assert(self@.lookups.pending_peer_lookups.dom()
            =~= self.lookups.pending_peer_lookups@.dom());
        self.lookups.pending_peer_lookups.len()
    }

    /// The periodic syncs, by their handles.
    pub fn periodic_syncs(&self) -> (syncs: &BTreeMap<u16, PeriodicAdvertisingSyncInfo>)
        ensures
            syncs@ == self@.gap.periodic_syncs,
    {
        &self.gap.periodic_syncs
    }

    /// The established synchronous connections.
    pub fn synchronous_connections(&self) -> (connections: &[SynchronousConnectionInfo])
        ensures
            connections@ == self@.classic.synchronous_connections,
    {
        self.classic.synchronous_connections.as_slice()
    }

    /// Completion status of one local LMP feature page.
    pub fn local_lmp_feature_status(&self, page_number: u8) -> (status: Option<u8>)
        ensures
            status == if self@.setup.lmp_feature_statuses.contains_key(page_number) {
                Some(self@.setup.lmp_feature_statuses[page_number])
            } else {
                None
            },
    {
        match self.setup.local_lmp_feature_statuses.get(&page_number) {
            Some(status) => Some(*status),
            None => None,
        }
    }

    /// Controller LE feature bitmap learned during power-on: the complete
    /// catalog, or its first eight bytes from older controllers.
    pub fn local_le_features(&self) -> (features: Option<&[u8]>)
        ensures
            match features {
                Some(features) => self@.setup.le_features == Some(features@),
                None => self@.setup.le_features is None,
            },
    {
        match &self.setup.local_le_features {
            Some(features) => Some(features.as_slice()),
            None => None,
        }
    }

    /// Whether one controller LE feature bit is set.
    pub fn supports_le_feature(&self, feature: u8) -> (supported: bool)
        ensures
            supported == le_feature_bit(self@.setup.le_features, feature),
    {
        self.setup.supports_le_feature(feature)
    }

    /// Whether every requested controller LE feature bit is set.
    pub fn supports_le_features(&self, features: &[u8]) -> (supported: bool)
        ensures
            supported == forall|index: int|
                0 <= index < features@.len() ==> le_feature_bit(
                    self@.setup.le_features,
                    #[trigger] features@[index],
                ),
    {
        let mut index: usize = 0;
        while index < features.len()
            invariant
                index <= features@.len(),
                forall|earlier: int|
                    0 <= earlier < index ==> le_feature_bit(
                        self@.setup.le_features,
                        #[trigger] features@[earlier],
                    ),
            decreases features@.len() - index,
        {
            if !self.setup.supports_le_feature(features[index]) {
                assert(!le_feature_bit(self@.setup.le_features, features@[index as int]));
                return false;
            }
            index += 1;
        }
        true
    }

    /// Whether one absolute LMP feature bit is set.
    pub fn supports_lmp_feature(&self, feature: u16) -> (supported: bool)
        ensures
            supported == self@.setup.lmp_feature(feature),
    {
        self.setup.supports_lmp_feature(feature)
    }

    /// Whether every requested LMP feature bit is set.
    pub fn supports_lmp_features(&self, features: &[u16]) -> (supported: bool)
        ensures
            supported == forall|index: int|
                0 <= index < features@.len() ==> self@.setup.lmp_feature(
                    #[trigger] features@[index],
                ),
    {
        let mut index: usize = 0;
        while index < features.len()
            invariant
                index <= features@.len(),
                forall|earlier: int|
                    0 <= earlier < index ==> self@.setup.lmp_feature(
                        #[trigger] features@[earlier],
                    ),
            decreases features@.len() - index,
        {
            if !self.setup.supports_lmp_feature(features[index]) {
                assert(!self@.setup.lmp_feature(features@[index as int]));
                return false;
            }
            index += 1;
        }
        true
    }

    /// Whether the controller supports a PHY, named by its identifier.
    pub fn supports_le_phy(&self, phy: u8) -> (result: Result<bool, LePhyError>)
        ensures
            result == if phy == LE_1M_PHY {
                Ok(true)
            } else if phy == LE_2M_PHY {
                Ok(le_feature_bit(self@.setup.le_features, LE_FEATURE_2M_PHY))
            } else if phy == LE_CODED_PHY {
                Ok(le_feature_bit(self@.setup.le_features, LE_FEATURE_CODED_PHY))
            } else {
                Err(LePhyError::InvalidPhy { phy })
            },
    {
        if phy == LE_1M_PHY {
            Ok(true)
        } else if phy == LE_2M_PHY {
            Ok(self.setup.supports_le_feature(LE_FEATURE_2M_PHY))
        } else if phy == LE_CODED_PHY {
            Ok(self.setup.supports_le_feature(LE_FEATURE_CODED_PHY))
        } else {
            Err(LePhyError::InvalidPhy { phy })
        }
    }

    /// Whether the controller supports LE Periodic Advertising.
    pub fn supports_le_periodic_advertising(&self) -> (supported: bool)
        ensures
            supported == le_feature_bit(
                self@.setup.le_features,
                LE_FEATURE_PERIODIC_ADVERTISING,
            ),
    {
        self.setup.supports_le_feature(LE_FEATURE_PERIODIC_ADVERTISING)
    }

    /// Whether reset-time Host initialization completed successfully.
    pub fn host_initialization_succeeded(&self) -> (succeeded: bool)
        ensures
            succeeded == self@.setup.status.spec_succeeded(),
    {
        self.setup.status.succeeded()
    }

    /// All established LE ACL connections, ordered by handle.
    pub fn le_connections(&self) -> (connections: Vec<&LeConnectionInfo>)
        ensures
            ({
                let handles = sorted(self@.le.le_connections.dom());
                &&& lists_u16(handles, self@.le.le_connections.dom())
                &&& connections@.len() == handles.len()
                &&& forall|index: int|
                    0 <= index < handles.len() ==> (#[trigger] connections@[index])@
                        == self@.le.le_connections[handles[index]]
            }),
    {
        let handles = sorted_handles(&self.le.le_connections);
        assert(self@.le.le_connections.dom() =~= self.le.le_connections@.dom());
        let mut connections: Vec<&LeConnectionInfo> = Vec::new();
        let mut index: usize = 0;
        while index < handles.len()
            invariant
                index <= handles@.len(),
                connections@.len() == index,
                lists_u16(handles@, self.le.le_connections@.dom()),
                self@.le.le_connections.dom() == self.le.le_connections@.dom(),
                forall|place: int|
                    0 <= place < index ==> (#[trigger] connections@[place])@
                        == self@.le.le_connections[handles@[place]],
            decreases handles@.len() - index,
        {
            let handle: u16 = handles[index];
            assert(handles@.contains(handle));
            if let Some(connection) = self.le.le_connections.get(&handle) {
                connections.push(connection);
            }
            index += 1;
        }
        connections
    }

    /// All established Classic ACL connections, ordered by handle.
    pub fn classic_connections(&self) -> (connections: Vec<&ClassicConnectionInfo>)
        ensures
            ({
                let handles = sorted(self@.classic.classic_connections.dom());
                &&& lists_u16(handles, self@.classic.classic_connections.dom())
                &&& connections@.len() == handles.len()
                &&& forall|index: int|
                    0 <= index < handles.len() ==> (#[trigger] connections@[index])@
                        == self@.classic.classic_connections[handles[index]]
            }),
    {
        let handles = sorted_handles(&self.classic.classic_connections);
        assert(self@.classic.classic_connections.dom() =~= self.classic.classic_connections@.dom());
        let mut connections: Vec<&ClassicConnectionInfo> = Vec::new();
        let mut index: usize = 0;
        while index < handles.len()
            invariant
                index <= handles@.len(),
                connections@.len() == index,
                lists_u16(handles@, self.classic.classic_connections@.dom()),
                self@.classic.classic_connections.dom() == self.classic.classic_connections@.dom(),
                forall|place: int|
                    0 <= place < index ==> (#[trigger] connections@[place])@
                        == self@.classic.classic_connections[handles@[place]],
            decreases handles@.len() - index,
        {
            let handle: u16 = handles[index];
            assert(handles@.contains(handle));
            if let Some(connection) = self.classic.classic_connections.get(&handle) {
                connections.push(connection);
            }
            index += 1;
        }
        connections
    }

    /// The established CIS, ordered by handle.
    pub fn established_cis_handles(&self) -> (handles: Vec<u16>)
        ensures
            handles@ == sorted(self@.iso.cis_links.dom()),
            lists_u16(handles@, self@.iso.cis_links.dom()),
    {
        sorted_handles(&self.iso.cis_links)
    }

    /// The established BIS, ordered by handle.
    pub fn established_bis_handles(&self) -> (handles: Vec<u16>)
        ensures
            handles@ == sorted(self@.iso.bis_directions.dom()),
            lists_u16(handles@, self@.iso.bis_directions.dom()),
    {
        sorted_handles(&self.iso.bis_directions)
    }

    /// The LE connection to a peer: the one with the least handle.
    pub fn connection_handle_for_peer(&self, peer_address: &Address) -> (handle: Option<u16>)
        requires
            self.wf(),
        ensures
            handle == self@.le.handle_for(*peer_address),
    {
        self.le.find_handle(*peer_address)
    }

    /// The Classic connection to a peer: the one with the least handle.
    pub fn classic_connection_handle_for_peer(&self, peer_address: &Address) -> (handle: Option<u16>)
        requires
            self.wf(),
        ensures
            handle == self@.classic.handle_for(*peer_address),
    {
        self.classic.find_handle(*peer_address)
    }

    /// Select which LE connection the convenience methods without a handle use.
    /// Returns `false`, with nothing done, where there is no such connection.
    pub fn select_connection(&mut self, connection_handle: u16) -> (selected: bool)
        requires
            old(self).wf(),
        ensures
            final(self).wf(),
            selected == old(self)@.le.le_connections.contains_key(connection_handle),
            final(self)@ == if selected {
                DeviceView { le: old(self)@.le.selected(connection_handle), ..old(self)@ }
            } else {
                old(self)@
            },
    {
        self.le.select(connection_handle)
    }

    /// Select which Classic connection the convenience methods without a handle
    /// use. Returns `false`, with nothing done, where there is no such
    /// connection.
    pub fn select_classic_connection(&mut self, connection_handle: u16) -> (selected: bool)
        requires
            old(self).wf(),
        ensures
            final(self).wf(),
            selected == old(self)@.classic.classic_connections.contains_key(connection_handle),
            final(self)@ == if selected {
                DeviceView { classic: old(self)@.classic.selected(connection_handle), ..old(self)@ }
            } else {
                old(self)@
            },
    {
        self.classic.select(connection_handle)
    }

    /// Register a listener for high-level device events. The returned
    /// identifier can be passed to [`Device::remove_event_listener`].
    pub fn add_event_listener(&mut self) -> (listener_id: DeviceEventListenerId)
        requires
            old(self).wf(),
            old(self)@.journal.event_listeners.dom().len() < u64::MAX,
        ensures
            final(self).wf(),
            first_free(
                old(self)@.journal.event_listeners.dom(),
                old(self)@.journal.next_event_listener_id,
                listener_id,
            ),
            final(self)@ == (DeviceView {
                journal: JournalView {
                    event_listeners: old(self)@.journal.event_listeners.insert(listener_id, ()),
                    next_event_listener_id: spec_next_id(listener_id),
                    ..old(self)@.journal
                },
                ..old(self)@
            }),
    {
        self.journal.add_listener()
    }

    /// Remove a previously registered event listener, and say whether there was
    /// one.
    pub fn remove_event_listener(&mut self, listener_id: DeviceEventListenerId) -> (removed: bool)
        requires
            old(self).wf(),
        ensures
            final(self).wf(),
            removed == old(self)@.journal.event_listeners.contains_key(listener_id),
            final(self)@ == (DeviceView {
                journal: JournalView {
                    event_listeners: old(self)@.journal.event_listeners.remove(listener_id),
                    ..old(self)@.journal
                },
                ..old(self)@
            }),
    {
        self.journal.remove_listener(listener_id)
    }
}

impl LeView {
    /// The connections to a peer.
    pub open spec fn handles_of(self, peer_address: Address) -> Set<u16> {
        self.le_connections.dom().filter(
            |handle: u16| self.le_connections[handle].peer_address == peer_address,
        )
    }

    /// The connection to a peer: the one with the least handle.
    pub open spec fn handle_for(self, peer_address: Address) -> Option<u16> {
        if self.handles_of(peer_address) == Set::<u16>::empty() {
            None
        } else {
            Some(least(self.handles_of(peer_address)))
        }
    }
}

impl LeState {
    /// Find the connection to a peer.
    pub fn find_handle(&self, peer_address: Address) -> (found: Option<u16>)
        requires
            self@.valid(),
        ensures
            found == self@.handle_for(peer_address),
            found matches Some(handle) ==> self@.le_connections.contains_key(handle)
                && self@.le_connections[handle].peer_address == peer_address,
    {
        let keys = sorted_handles(&self.le_connections);
        let ghost members = self@.handles_of(peer_address);
        let ghost records = self.le_connections@;
        assert(self@.le_connections.dom() =~= records.dom());
        let mut index: usize = 0;
        while index < keys.len()
            invariant
                index <= keys@.len(),
                members == self@.handles_of(peer_address),
                records == self.le_connections@,
                self@.valid(),
                self@.le_connections.dom() == records.dom(),
                lists_u16(keys@, records.dom()),
                forall|earlier: int| 0 <= earlier < index ==> !members.contains(keys@[earlier]),
            decreases keys@.len() - index,
        {
            let handle: u16 = keys[index];
            assert(keys@.contains(handle));
            if let Some(connection) = self.le_connections.get(&handle) {
                assert(self@.le_connections[handle] == connection@);
                if connection.peer_address == peer_address {
                    proof {
                        assert(members.contains(handle));
                        assert forall|other: u16| members.contains(other) implies handle
                            <= other by {
                            assert(keys@.contains(other));
                            let place = choose|place: int|
                                0 <= place < keys@.len() && keys@[place] == other;
                            assert(place >= index);
                        }
                        let ghost chosen = least(members);
                        assert(members.contains(chosen));
                        assert(members != Set::<u16>::empty());
                    }
                    return Some(connection.connection_handle);
                }
            }
            index += 1;
        }
        proof {
            assert forall|other: u16| !members.contains(other) by {
                if members.contains(other) {
                    assert(keys@.contains(other));
                    let place = choose|place: int|
                        0 <= place < keys@.len() && keys@[place] == other;
                    assert(!members.contains(keys@[place]));
                }
            }
            assert(members =~= Set::<u16>::empty());
        }
        None
    }
}

} // verus!
