//! The parts of a device's state and their contents.

use crate::address::Address;
use crate::advertising::{
    AccumulatorView, Advertisement, AdvertisementDataAccumulator, AdvertisementView,
    PeriodicAdvertisement, PeriodicAdvertisementView, PeriodicAdvertisingSyncInfo,
    PeriodicAdvertisingSyncTransferInfo,
};
use crate::att::AttPdu;
use crate::channel_sounding::{
    ChannelSoundingError, ChannelSoundingSubeventResult, ChannelSoundingSubeventResultContinue,
    ChannelSoundingSubeventResultContinueView, ChannelSoundingSubeventResultView,
};
use crate::classic::{
    ClassicConnectionInfo, ClassicConnectionInfoView, ClassicInquiryResultInfo,
    ClassicInquiryResultInfoView, ClassicPairingEvent, RemoteNameResult, RemoteNameResultView,
    SynchronousConnectionInfo,
};
use crate::connection::{
    ConnectionFeatureError, LeConnectionControlEvent, LeConnectionInfo, LeConnectionInfoView,
    LongTermKeyRequestInfo,
};
use crate::content::byte_strings;
use crate::events::{DeviceEvent, DeviceEventView};
use crate::hci::{
    AdvertisingReport, AdvertisingReportView, ExtendedAdvertisingReport,
    ExtendedAdvertisingReportView, SynchronousDataPacket,
};
use crate::iso::{
    AssemblyView, BigInfoReport, CisControlEvent, CisControlEventView, CisLinkInfo, CisRequestInfo,
    IsoControlEvent, IsoControlEventView, IsoDataPathParameters, IsoDataPathParametersView, IsoSdu,
    IsoSduAssembler, IsoSduView, IsoTxSyncInfo,
};
use crate::lookup::{PeerLookupRequest, PeerLookupRequestView, PeerLookupResult};
use std::collections::{BTreeMap, BTreeSet};
use vstd::prelude::*;

verus! {

broadcast use vstd::laws_cmp::group_laws_cmp;

/// LE connections, their control procedures and their Channel Sounding.
#[derive(Debug)]
pub struct LeState {
    pub connection_handle: Option<u16>,
    pub connection_role: Option<u8>,
    pub peer_address: Option<Address>,
    pub le_connections: BTreeMap<u16, LeConnectionInfo>,
    pub encrypted_handles: BTreeSet<u16>,
    pub le_connecting: bool,
    pub connection_feature_errors: Vec<ConnectionFeatureError>,
    pub connection_control_events: Vec<LeConnectionControlEvent>,
    pub pending_connection_controls: Vec<(u16, u16)>,
    pub pending_disconnections: BTreeSet<u16>,
    pub pending_channel_sounding_configs: Vec<(u16, u8)>,
    pub channel_sounding_errors: Vec<ChannelSoundingError>,
    pub channel_sounding_security_results: Vec<(u16, u8)>,
    pub channel_sounding_subevent_results: Vec<ChannelSoundingSubeventResult>,
    pub channel_sounding_subevent_result_continuations: Vec<ChannelSoundingSubeventResultContinue>,
}

/// The content of a [`LeState`].
#[verifier::ext_equal]
pub struct LeView {
    pub connection_handle: Option<u16>,
    pub connection_role: Option<u8>,
    pub peer_address: Option<Address>,
    pub le_connections: Map<u16, LeConnectionInfoView>,
    pub encrypted_handles: Set<u16>,
    pub le_connecting: bool,
    pub connection_feature_errors: Seq<ConnectionFeatureError>,
    pub connection_control_events: Seq<LeConnectionControlEvent>,
    pub pending_connection_controls: Seq<(u16, u16)>,
    pub pending_disconnections: Set<u16>,
    pub pending_channel_sounding_configs: Seq<(u16, u8)>,
    pub channel_sounding_errors: Seq<ChannelSoundingError>,
    pub channel_sounding_security_results: Seq<(u16, u8)>,
    pub channel_sounding_subevent_results: Seq<ChannelSoundingSubeventResultView>,
    pub channel_sounding_subevent_result_continuations: Seq<ChannelSoundingSubeventResultContinueView>,
}

impl View for LeState {
    type V = LeView;

    open spec fn view(&self) -> LeView {
        LeView {
            connection_handle: self.connection_handle,
            connection_role: self.connection_role,
            peer_address: self.peer_address,
            le_connections: self.le_connections@.map_values(|entry: LeConnectionInfo| entry@),
            encrypted_handles: self.encrypted_handles@,
            le_connecting: self.le_connecting,
            connection_feature_errors: self.connection_feature_errors@,
            connection_control_events: self.connection_control_events@,
            pending_connection_controls: self.pending_connection_controls@,
            pending_disconnections: self.pending_disconnections@,
            pending_channel_sounding_configs: self.pending_channel_sounding_configs@,
            channel_sounding_errors: self.channel_sounding_errors@,
            channel_sounding_security_results: self.channel_sounding_security_results@,
            channel_sounding_subevent_results: self.channel_sounding_subevent_results@.map_values(|entry: ChannelSoundingSubeventResult| entry@),
            channel_sounding_subevent_result_continuations: self.channel_sounding_subevent_result_continuations@.map_values(|entry: ChannelSoundingSubeventResultContinue| entry@),
        }
    }
}

impl LeView {
    /// The content of a new [`LeState`].
    pub open spec fn initial() -> LeView {
        LeView {
            connection_handle: None,
            connection_role: None,
            peer_address: None,
            le_connections: Map::empty(),
            encrypted_handles: Set::empty(),
            le_connecting: false,
            connection_feature_errors: Seq::empty(),
            connection_control_events: Seq::empty(),
            pending_connection_controls: Seq::empty(),
            pending_disconnections: Set::empty(),
            pending_channel_sounding_configs: Seq::empty(),
            channel_sounding_errors: Seq::empty(),
            channel_sounding_security_results: Seq::empty(),
            channel_sounding_subevent_results: Seq::empty(),
            channel_sounding_subevent_result_continuations: Seq::empty(),
        }
    }
}

impl LeState {
    pub fn new() -> (state: Self)
        ensures
            state@ == LeView::initial(),
    {
        let state = LeState {
            connection_handle: None,
            connection_role: None,
            peer_address: None,
            le_connections: BTreeMap::new(),
            encrypted_handles: BTreeSet::new(),
            le_connecting: false,
            connection_feature_errors: Vec::new(),
            connection_control_events: Vec::new(),
            pending_connection_controls: Vec::new(),
            pending_disconnections: BTreeSet::new(),
            pending_channel_sounding_configs: Vec::new(),
            channel_sounding_errors: Vec::new(),
            channel_sounding_security_results: Vec::new(),
            channel_sounding_subevent_results: Vec::new(),
            channel_sounding_subevent_result_continuations: Vec::new(),
        };
        assert(state@ =~= LeView::initial());
        state
    }
}

/// Classic connections, discovery and pairing.
#[derive(Debug)]
pub struct ClassicState {
    pub classic_connection_handle: Option<u16>,
    pub classic_connection_role: Option<u8>,
    pub classic_connections: BTreeMap<u16, ClassicConnectionInfo>,
    pub classic_link_keys: BTreeMap<u16, ([u8; 16], bool)>,
    pub classic_connection_requests: Vec<Address>,
    pub classic_inquiry_results: Vec<Address>,
    pub classic_inquiry_result_details: Vec<ClassicInquiryResultInfo>,
    pub classic_inquiry_complete: Vec<u8>,
    pub classic_inquiry_response: Option<[u8; 240]>,
    pub classic_discovering: bool,
    pub classic_auto_restart_inquiry: bool,
    pub classic_remote_names: Vec<(u8, Address, String)>,
    pub classic_remote_name_results: Vec<RemoteNameResult>,
    pub pending_remote_name_commands: Vec<Address>,
    pub pending_remote_name_requests: Vec<(Address, usize)>,
    pub classic_pairing_events: Vec<ClassicPairingEvent>,
    pub pending_classic_roles: Vec<(Address, u8)>,
    pub synchronous_connections: Vec<SynchronousConnectionInfo>,
    pub synchronous_requests: Vec<(Address, u8)>,
    pub synchronous_inbox: Vec<SynchronousDataPacket>,
}

/// The content of a [`ClassicState`].
#[verifier::ext_equal]
pub struct ClassicView {
    pub classic_connection_handle: Option<u16>,
    pub classic_connection_role: Option<u8>,
    pub classic_connections: Map<u16, ClassicConnectionInfoView>,
    pub classic_link_keys: Map<u16, ([u8; 16], bool)>,
    pub classic_connection_requests: Seq<Address>,
    pub classic_inquiry_results: Seq<Address>,
    pub classic_inquiry_result_details: Seq<ClassicInquiryResultInfoView>,
    pub classic_inquiry_complete: Seq<u8>,
    pub classic_inquiry_response: Option<[u8; 240]>,
    pub classic_discovering: bool,
    pub classic_auto_restart_inquiry: bool,
    pub classic_remote_names: Seq<(u8, Address, Seq<char>)>,
    pub classic_remote_name_results: Seq<RemoteNameResultView>,
    pub pending_remote_name_commands: Seq<Address>,
    pub pending_remote_name_requests: Seq<(Address, usize)>,
    pub classic_pairing_events: Seq<ClassicPairingEvent>,
    pub pending_classic_roles: Seq<(Address, u8)>,
    pub synchronous_connections: Seq<SynchronousConnectionInfo>,
    pub synchronous_requests: Seq<(Address, u8)>,
    pub synchronous_inbox: Seq<SynchronousDataPacket>,
}

impl View for ClassicState {
    type V = ClassicView;

    open spec fn view(&self) -> ClassicView {
        ClassicView {
            classic_connection_handle: self.classic_connection_handle,
            classic_connection_role: self.classic_connection_role,
            classic_connections: self.classic_connections@.map_values(|entry: ClassicConnectionInfo| entry@),
            classic_link_keys: self.classic_link_keys@,
            classic_connection_requests: self.classic_connection_requests@,
            classic_inquiry_results: self.classic_inquiry_results@,
            classic_inquiry_result_details: self.classic_inquiry_result_details@.map_values(|entry: ClassicInquiryResultInfo| entry@),
            classic_inquiry_complete: self.classic_inquiry_complete@,
            classic_inquiry_response: self.classic_inquiry_response,
            classic_discovering: self.classic_discovering,
            classic_auto_restart_inquiry: self.classic_auto_restart_inquiry,
            classic_remote_names: self.classic_remote_names@.map_values(|entry: (u8, Address, String)| (entry.0, entry.1, entry.2@)),
            classic_remote_name_results: self.classic_remote_name_results@.map_values(|entry: RemoteNameResult| entry@),
            pending_remote_name_commands: self.pending_remote_name_commands@,
            pending_remote_name_requests: self.pending_remote_name_requests@,
            classic_pairing_events: self.classic_pairing_events@,
            pending_classic_roles: self.pending_classic_roles@,
            synchronous_connections: self.synchronous_connections@,
            synchronous_requests: self.synchronous_requests@,
            synchronous_inbox: self.synchronous_inbox@,
        }
    }
}

impl ClassicView {
    /// The content of a new [`ClassicState`].
    pub open spec fn initial() -> ClassicView {
        ClassicView {
            classic_connection_handle: None,
            classic_connection_role: None,
            classic_connections: Map::empty(),
            classic_link_keys: Map::empty(),
            classic_connection_requests: Seq::empty(),
            classic_inquiry_results: Seq::empty(),
            classic_inquiry_result_details: Seq::empty(),
            classic_inquiry_complete: Seq::empty(),
            classic_inquiry_response: None,
            classic_discovering: false,
            classic_auto_restart_inquiry: true,
            classic_remote_names: Seq::empty(),
            classic_remote_name_results: Seq::empty(),
            pending_remote_name_commands: Seq::empty(),
            pending_remote_name_requests: Seq::empty(),
            classic_pairing_events: Seq::empty(),
            pending_classic_roles: Seq::empty(),
            synchronous_connections: Seq::empty(),
            synchronous_requests: Seq::empty(),
            synchronous_inbox: Seq::empty(),
        }
    }
}

impl ClassicState {
    pub fn new() -> (state: Self)
        ensures
            state@ == ClassicView::initial(),
    {
        let state = ClassicState {
            classic_connection_handle: None,
            classic_connection_role: None,
            classic_connections: BTreeMap::new(),
            classic_link_keys: BTreeMap::new(),
            classic_connection_requests: Vec::new(),
            classic_inquiry_results: Vec::new(),
            classic_inquiry_result_details: Vec::new(),
            classic_inquiry_complete: Vec::new(),
            classic_inquiry_response: None,
            classic_discovering: false,
            classic_auto_restart_inquiry: true,
            classic_remote_names: Vec::new(),
            classic_remote_name_results: Vec::new(),
            pending_remote_name_commands: Vec::new(),
            pending_remote_name_requests: Vec::new(),
            classic_pairing_events: Vec::new(),
            pending_classic_roles: Vec::new(),
            synchronous_connections: Vec::new(),
            synchronous_requests: Vec::new(),
            synchronous_inbox: Vec::new(),
        };
        assert(state@ =~= ClassicView::initial());
        state
    }
}

/// Isochronous groups, streams and data paths.
#[derive(Debug)]
pub struct IsoState {
    pub cis_requests: Vec<CisRequestInfo>,
    pub configured_cis_handles: Vec<u16>,
    pub cis_links: BTreeMap<u16, CisLinkInfo>,
    pub cis_control_events: Vec<CisControlEvent>,
    pub iso_data_paths: BTreeMap<u16, BTreeMap<u8, IsoDataPathParameters>>,
    pub pending_iso_data_path_setups: Vec<(u16, IsoDataPathParameters)>,
    pub pending_iso_data_path_removals: Vec<(u16, u8)>,
    pub pending_iso_tx_syncs: Vec<u16>,
    pub iso_tx_syncs: BTreeMap<u16, IsoTxSyncInfo>,
    pub iso_control_events: Vec<IsoControlEvent>,
    pub bigs: BTreeMap<u8, Vec<u16>>,
    pub pending_bigs: BTreeSet<u8>,
    pub pending_big_commands: Vec<u8>,
    pub big_syncs: BTreeMap<u8, Vec<u16>>,
    pub pending_big_syncs: BTreeSet<u8>,
    pub pending_big_sync_commands: Vec<u8>,
    pub bis_directions: BTreeMap<u16, u8>,
    pub biginfo_reports: Vec<BigInfoReport>,
    pub big_errors: Vec<(u8, u8)>,
    pub terminated_bigs: Vec<(u8, u8)>,
    pub iso_sequence_numbers: BTreeMap<u16, u16>,
    pub iso_assemblers: BTreeMap<u16, IsoSduAssembler>,
    pub iso_inbox: Vec<IsoSdu>,
}

/// The content of a [`IsoState`].
#[verifier::ext_equal]
pub struct IsoView {
    pub cis_requests: Seq<CisRequestInfo>,
    pub configured_cis_handles: Seq<u16>,
    pub cis_links: Map<u16, CisLinkInfo>,
    pub cis_control_events: Seq<CisControlEventView>,
    pub iso_data_paths: Map<u16, Map<u8, IsoDataPathParametersView>>,
    pub pending_iso_data_path_setups: Seq<(u16, IsoDataPathParametersView)>,
    pub pending_iso_data_path_removals: Seq<(u16, u8)>,
    pub pending_iso_tx_syncs: Seq<u16>,
    pub iso_tx_syncs: Map<u16, IsoTxSyncInfo>,
    pub iso_control_events: Seq<IsoControlEventView>,
    pub bigs: Map<u8, Seq<u16>>,
    pub pending_bigs: Set<u8>,
    pub pending_big_commands: Seq<u8>,
    pub big_syncs: Map<u8, Seq<u16>>,
    pub pending_big_syncs: Set<u8>,
    pub pending_big_sync_commands: Seq<u8>,
    pub bis_directions: Map<u16, u8>,
    pub biginfo_reports: Seq<BigInfoReport>,
    pub big_errors: Seq<(u8, u8)>,
    pub terminated_bigs: Seq<(u8, u8)>,
    pub iso_sequence_numbers: Map<u16, u16>,
    pub iso_assemblers: Map<u16, AssemblyView>,
    pub iso_inbox: Seq<IsoSduView>,
}

impl View for IsoState {
    type V = IsoView;

    open spec fn view(&self) -> IsoView {
        IsoView {
            cis_requests: self.cis_requests@,
            configured_cis_handles: self.configured_cis_handles@,
            cis_links: self.cis_links@,
            cis_control_events: self.cis_control_events@.map_values(|entry: CisControlEvent| entry@),
            iso_data_paths: self.iso_data_paths@.map_values(|paths: BTreeMap<u8, IsoDataPathParameters>| paths@.map_values(|path: IsoDataPathParameters| path@)),
            pending_iso_data_path_setups: self.pending_iso_data_path_setups@.map_values(|entry: (u16, IsoDataPathParameters)| (entry.0, entry.1@)),
            pending_iso_data_path_removals: self.pending_iso_data_path_removals@,
            pending_iso_tx_syncs: self.pending_iso_tx_syncs@,
            iso_tx_syncs: self.iso_tx_syncs@,
            iso_control_events: self.iso_control_events@.map_values(|entry: IsoControlEvent| entry@),
            bigs: self.bigs@.map_values(|entry: Vec<u16>| entry@),
            pending_bigs: self.pending_bigs@,
            pending_big_commands: self.pending_big_commands@,
            big_syncs: self.big_syncs@.map_values(|entry: Vec<u16>| entry@),
            pending_big_syncs: self.pending_big_syncs@,
            pending_big_sync_commands: self.pending_big_sync_commands@,
            bis_directions: self.bis_directions@,
            biginfo_reports: self.biginfo_reports@,
            big_errors: self.big_errors@,
            terminated_bigs: self.terminated_bigs@,
            iso_sequence_numbers: self.iso_sequence_numbers@,
            iso_assemblers: self.iso_assemblers@.map_values(|entry: IsoSduAssembler| entry@),
            iso_inbox: self.iso_inbox@.map_values(|entry: IsoSdu| entry@),
        }
    }
}

impl IsoView {
    /// The content of a new [`IsoState`].
    pub open spec fn initial() -> IsoView {
        IsoView {
            cis_requests: Seq::empty(),
            configured_cis_handles: Seq::empty(),
            cis_links: Map::empty(),
            cis_control_events: Seq::empty(),
            iso_data_paths: Map::empty(),
            pending_iso_data_path_setups: Seq::empty(),
            pending_iso_data_path_removals: Seq::empty(),
            pending_iso_tx_syncs: Seq::empty(),
            iso_tx_syncs: Map::empty(),
            iso_control_events: Seq::empty(),
            bigs: Map::empty(),
            pending_bigs: Set::empty(),
            pending_big_commands: Seq::empty(),
            big_syncs: Map::empty(),
            pending_big_syncs: Set::empty(),
            pending_big_sync_commands: Seq::empty(),
            bis_directions: Map::empty(),
            biginfo_reports: Seq::empty(),
            big_errors: Seq::empty(),
            terminated_bigs: Seq::empty(),
            iso_sequence_numbers: Map::empty(),
            iso_assemblers: Map::empty(),
            iso_inbox: Seq::empty(),
        }
    }
}

impl IsoState {
    pub fn new() -> (state: Self)
        ensures
            state@ == IsoView::initial(),
    {
        let state = IsoState {
            cis_requests: Vec::new(),
            configured_cis_handles: Vec::new(),
            cis_links: BTreeMap::new(),
            cis_control_events: Vec::new(),
            iso_data_paths: BTreeMap::new(),
            pending_iso_data_path_setups: Vec::new(),
            pending_iso_data_path_removals: Vec::new(),
            pending_iso_tx_syncs: Vec::new(),
            iso_tx_syncs: BTreeMap::new(),
            iso_control_events: Vec::new(),
            bigs: BTreeMap::new(),
            pending_bigs: BTreeSet::new(),
            pending_big_commands: Vec::new(),
            big_syncs: BTreeMap::new(),
            pending_big_syncs: BTreeSet::new(),
            pending_big_sync_commands: Vec::new(),
            bis_directions: BTreeMap::new(),
            biginfo_reports: Vec::new(),
            big_errors: Vec::new(),
            terminated_bigs: Vec::new(),
            iso_sequence_numbers: BTreeMap::new(),
            iso_assemblers: BTreeMap::new(),
            iso_inbox: Vec::new(),
        };
        assert(state@ =~= IsoView::initial());
        state
    }
}

/// Advertising, scanning and periodic synchronization.
#[derive(Debug)]
pub struct GapState {
    pub advertising_reports: Vec<AdvertisingReport>,
    pub extended_advertising_reports: Vec<ExtendedAdvertisingReport>,
    pub advertisement_accumulators: Vec<(Address, AdvertisementDataAccumulator)>,
    pub advertisements: Vec<Advertisement>,
    pub scanning_is_passive: bool,
    pub scanning: bool,
    pub legacy_advertising: bool,
    pub extended_advertising_handles: BTreeSet<u8>,
    pub periodic_syncs: BTreeMap<u16, PeriodicAdvertisingSyncInfo>,
    pub periodic_report_accumulators: BTreeMap<u16, Vec<u8>>,
    pub periodic_advertisements: Vec<PeriodicAdvertisement>,
    pub periodic_sync_errors: Vec<u8>,
    pub lost_periodic_syncs: Vec<u16>,
    pub periodic_sync_transfers: Vec<PeriodicAdvertisingSyncTransferInfo>,
    pub vendor_events: Vec<Vec<u8>>,
}

/// The content of a [`GapState`].
#[verifier::ext_equal]
pub struct GapView {
    pub advertising_reports: Seq<AdvertisingReportView>,
    pub extended_advertising_reports: Seq<ExtendedAdvertisingReportView>,
    pub advertisement_accumulators: Seq<(Address, AccumulatorView)>,
    pub advertisements: Seq<AdvertisementView>,
    pub scanning_is_passive: bool,
    pub scanning: bool,
    pub legacy_advertising: bool,
    pub extended_advertising_handles: Set<u8>,
    pub periodic_syncs: Map<u16, PeriodicAdvertisingSyncInfo>,
    pub periodic_report_accumulators: Map<u16, Seq<u8>>,
    pub periodic_advertisements: Seq<PeriodicAdvertisementView>,
    pub periodic_sync_errors: Seq<u8>,
    pub lost_periodic_syncs: Seq<u16>,
    pub periodic_sync_transfers: Seq<PeriodicAdvertisingSyncTransferInfo>,
    pub vendor_events: Seq<Seq<u8>>,
}

impl View for GapState {
    type V = GapView;

    open spec fn view(&self) -> GapView {
        GapView {
            advertising_reports: self.advertising_reports@.map_values(|entry: AdvertisingReport| entry@),
            extended_advertising_reports: self.extended_advertising_reports@.map_values(|entry: ExtendedAdvertisingReport| entry@),
            advertisement_accumulators: self.advertisement_accumulators@.map_values(|entry: (Address, AdvertisementDataAccumulator)| (entry.0, entry.1@)),
            advertisements: self.advertisements@.map_values(|entry: Advertisement| entry@),
            scanning_is_passive: self.scanning_is_passive,
            scanning: self.scanning,
            legacy_advertising: self.legacy_advertising,
            extended_advertising_handles: self.extended_advertising_handles@,
            periodic_syncs: self.periodic_syncs@,
            periodic_report_accumulators: self.periodic_report_accumulators@.map_values(|entry: Vec<u8>| entry@),
            periodic_advertisements: self.periodic_advertisements@.map_values(|entry: PeriodicAdvertisement| entry@),
            periodic_sync_errors: self.periodic_sync_errors@,
            lost_periodic_syncs: self.lost_periodic_syncs@,
            periodic_sync_transfers: self.periodic_sync_transfers@,
            vendor_events: byte_strings(self.vendor_events@),
        }
    }
}

impl GapView {
    /// The content of a new [`GapState`].
    pub open spec fn initial() -> GapView {
        GapView {
            advertising_reports: Seq::empty(),
            extended_advertising_reports: Seq::empty(),
            advertisement_accumulators: Seq::empty(),
            advertisements: Seq::empty(),
            scanning_is_passive: false,
            scanning: false,
            legacy_advertising: false,
            extended_advertising_handles: Set::empty(),
            periodic_syncs: Map::empty(),
            periodic_report_accumulators: Map::empty(),
            periodic_advertisements: Seq::empty(),
            periodic_sync_errors: Seq::empty(),
            lost_periodic_syncs: Seq::empty(),
            periodic_sync_transfers: Seq::empty(),
            vendor_events: Seq::empty(),
        }
    }
}

impl GapState {
    pub fn new() -> (state: Self)
        ensures
            state@ == GapView::initial(),
    {
        let state = GapState {
            advertising_reports: Vec::new(),
            extended_advertising_reports: Vec::new(),
            advertisement_accumulators: Vec::new(),
            advertisements: Vec::new(),
            scanning_is_passive: false,
            scanning: false,
            legacy_advertising: false,
            extended_advertising_handles: BTreeSet::new(),
            periodic_syncs: BTreeMap::new(),
            periodic_report_accumulators: BTreeMap::new(),
            periodic_advertisements: Vec::new(),
            periodic_sync_errors: Vec::new(),
            lost_periodic_syncs: Vec::new(),
            periodic_sync_transfers: Vec::new(),
            vendor_events: Vec::new(),
        };
        assert(state@ =~= GapView::initial());
        state
    }
}

/// Pending and completed peer lookups.
#[derive(Debug)]
pub struct LookupState {
    pub pending_peer_lookups: BTreeMap<u64, PeerLookupRequest>,
    pub peer_lookup_results: Vec<PeerLookupResult>,
    pub next_peer_lookup_id: u64,
    pub peer_lookup_started_scanning: Option<bool>,
    pub peer_lookup_started_discovery: bool,
}

/// The content of a [`LookupState`].
#[verifier::ext_equal]
pub struct LookupView {
    pub pending_peer_lookups: Map<u64, PeerLookupRequestView>,
    pub peer_lookup_results: Seq<PeerLookupResult>,
    pub next_peer_lookup_id: u64,
    pub peer_lookup_started_scanning: Option<bool>,
    pub peer_lookup_started_discovery: bool,
}

impl View for LookupState {
    type V = LookupView;

    open spec fn view(&self) -> LookupView {
        LookupView {
            pending_peer_lookups: self.pending_peer_lookups@.map_values(|entry: PeerLookupRequest| entry@),
            peer_lookup_results: self.peer_lookup_results@,
            next_peer_lookup_id: self.next_peer_lookup_id,
            peer_lookup_started_scanning: self.peer_lookup_started_scanning,
            peer_lookup_started_discovery: self.peer_lookup_started_discovery,
        }
    }
}

impl LookupView {
    /// The content of a new [`LookupState`].
    pub open spec fn initial() -> LookupView {
        LookupView {
            pending_peer_lookups: Map::empty(),
            peer_lookup_results: Seq::empty(),
            next_peer_lookup_id: 1,
            peer_lookup_started_scanning: None,
            peer_lookup_started_discovery: false,
        }
    }
}

impl LookupState {
    pub fn new() -> (state: Self)
        ensures
            state@ == LookupView::initial(),
    {
        let state = LookupState {
            pending_peer_lookups: BTreeMap::new(),
            peer_lookup_results: Vec::new(),
            next_peer_lookup_id: 1,
            peer_lookup_started_scanning: None,
            peer_lookup_started_discovery: false,
        };
        assert(state@ =~= LookupView::initial());
        state
    }
}

/// What arrived on L2CAP channels and the state of ATT bearers.
#[derive(Debug)]
pub struct ChannelState {
    pub server_attached: bool,
    pub inbox: Vec<(u16, AttPdu)>,
    pub eatt_inbox: Vec<(u16, u16, AttPdu)>,
    pub eatt_bearers: Vec<(u16, u16)>,
    pub pending_att_indications: Vec<(u16, u16)>,
    pub l2cap_inbox: Vec<(u16, u16, Vec<u8>)>,
    pub le_credit_errors: Vec<(u16, String)>,
    pub classic_channel_errors: Vec<(u16, String)>,
    pub le_credit_servers: BTreeSet<u16>,
}

/// The content of a [`ChannelState`].
#[verifier::ext_equal]
pub struct ChannelView {
    pub server_attached: bool,
    pub inbox: Seq<(u16, AttPdu)>,
    pub eatt_inbox: Seq<(u16, u16, AttPdu)>,
    pub eatt_bearers: Seq<(u16, u16)>,
    pub pending_att_indications: Seq<(u16, u16)>,
    pub l2cap_inbox: Seq<(u16, u16, Vec<u8>)>,
    pub le_credit_errors: Seq<(u16, String)>,
    pub classic_channel_errors: Seq<(u16, String)>,
    pub le_credit_servers: Set<u16>,
}

impl View for ChannelState {
    type V = ChannelView;

    open spec fn view(&self) -> ChannelView {
        ChannelView {
            server_attached: self.server_attached,
            inbox: self.inbox@,
            eatt_inbox: self.eatt_inbox@,
            eatt_bearers: self.eatt_bearers@,
            pending_att_indications: self.pending_att_indications@,
            l2cap_inbox: self.l2cap_inbox@,
            le_credit_errors: self.le_credit_errors@,
            classic_channel_errors: self.classic_channel_errors@,
            le_credit_servers: self.le_credit_servers@,
        }
    }
}

impl ChannelView {
    /// The content of a new [`ChannelState`].
    pub open spec fn initial() -> ChannelView {
        ChannelView {
            server_attached: false,
            inbox: Seq::empty(),
            eatt_inbox: Seq::empty(),
            eatt_bearers: Seq::empty(),
            pending_att_indications: Seq::empty(),
            l2cap_inbox: Seq::empty(),
            le_credit_errors: Seq::empty(),
            classic_channel_errors: Seq::empty(),
            le_credit_servers: Set::empty(),
        }
    }
}

impl ChannelState {
    pub fn new() -> (state: Self)
        ensures
            state@ == ChannelView::initial(),
    {
        let state = ChannelState {
            server_attached: false,
            inbox: Vec::new(),
            eatt_inbox: Vec::new(),
            eatt_bearers: Vec::new(),
            pending_att_indications: Vec::new(),
            l2cap_inbox: Vec::new(),
            le_credit_errors: Vec::new(),
            classic_channel_errors: Vec::new(),
            le_credit_servers: BTreeSet::new(),
        };
        assert(state@ =~= ChannelView::initial());
        state
    }
}

/// Pairing progress and key requests.
#[derive(Debug)]
pub struct SecurityState {
    pub pairing_enabled: bool,
    pub key_store_open: bool,
    pub address_resolver_ready: bool,
    pub security_requests: Vec<(u16, u8)>,
    pub pairing_encryption_started: BTreeSet<u16>,
    pub pairing_terminal_handles: BTreeSet<u16>,
    pub pairing_errors: Vec<(u16, String)>,
    pub key_store_errors: Vec<(Option<u16>, String)>,
    pub long_term_key_requests: Vec<LongTermKeyRequestInfo>,
}

/// The content of a [`SecurityState`].
#[verifier::ext_equal]
pub struct SecurityView {
    pub pairing_enabled: bool,
    pub key_store_open: bool,
    pub address_resolver_ready: bool,
    pub security_requests: Seq<(u16, u8)>,
    pub pairing_encryption_started: Set<u16>,
    pub pairing_terminal_handles: Set<u16>,
    pub pairing_errors: Seq<(u16, String)>,
    pub key_store_errors: Seq<(Option<u16>, String)>,
    pub long_term_key_requests: Seq<LongTermKeyRequestInfo>,
}

impl View for SecurityState {
    type V = SecurityView;

    open spec fn view(&self) -> SecurityView {
        SecurityView {
            pairing_enabled: self.pairing_enabled,
            key_store_open: self.key_store_open,
            address_resolver_ready: self.address_resolver_ready,
            security_requests: self.security_requests@,
            pairing_encryption_started: self.pairing_encryption_started@,
            pairing_terminal_handles: self.pairing_terminal_handles@,
            pairing_errors: self.pairing_errors@,
            key_store_errors: self.key_store_errors@,
            long_term_key_requests: self.long_term_key_requests@,
        }
    }
}

impl SecurityView {
    /// The content of a new [`SecurityState`].
    pub open spec fn initial() -> SecurityView {
        SecurityView {
            pairing_enabled: false,
            key_store_open: false,
            address_resolver_ready: false,
            security_requests: Seq::empty(),
            pairing_encryption_started: Set::empty(),
            pairing_terminal_handles: Set::empty(),
            pairing_errors: Seq::empty(),
            key_store_errors: Seq::empty(),
            long_term_key_requests: Seq::empty(),
        }
    }
}

impl SecurityState {
    pub fn new() -> (state: Self)
        ensures
            state@ == SecurityView::initial(),
    {
        let state = SecurityState {
            pairing_enabled: false,
            key_store_open: false,
            address_resolver_ready: false,
            security_requests: Vec::new(),
            pairing_encryption_started: BTreeSet::new(),
            pairing_terminal_handles: BTreeSet::new(),
            pairing_errors: Vec::new(),
            key_store_errors: Vec::new(),
            long_term_key_requests: Vec::new(),
        };
        assert(state@ =~= SecurityView::initial());
        state
    }
}

/// The event journal and who listens to it.
#[derive(Debug)]
pub struct JournalState {
    pub device_events: Vec<DeviceEvent>,
    pub event_listeners: BTreeMap<u64, ()>,
    pub next_event_listener_id: u64,
}

/// The content of a [`JournalState`].
#[verifier::ext_equal]
pub struct JournalView {
    pub device_events: Seq<DeviceEventView>,
    pub event_listeners: Map<u64, ()>,
    pub next_event_listener_id: u64,
}

impl View for JournalState {
    type V = JournalView;

    open spec fn view(&self) -> JournalView {
        JournalView {
            device_events: self.device_events@.map_values(|entry: DeviceEvent| entry@),
            event_listeners: self.event_listeners@,
            next_event_listener_id: self.next_event_listener_id,
        }
    }
}

impl JournalView {
    /// The content of a new [`JournalState`].
    pub open spec fn initial() -> JournalView {
        JournalView {
            device_events: Seq::empty(),
            event_listeners: Map::empty(),
            next_event_listener_id: 1,
        }
    }
}

impl JournalState {
    pub fn new() -> (state: Self)
        ensures
            state@ == JournalView::initial(),
    {
        let state = JournalState {
            device_events: Vec::new(),
            event_listeners: BTreeMap::new(),
            next_event_listener_id: 1,
        };
        assert(state@ =~= JournalView::initial());
        state
    }
}

} // verus!
