//! A host attached to a controller.

use crate::address::Address;
use crate::commands::addresses;
use crate::configuration::DeviceConfiguration;
use crate::connection::LongTermKeyRequestInfo;
use crate::hci::{AclDataPacket, HciPacket};
use crate::lookup::PeerLookupTransport;
use crate::pools::{PacketPools, PoolsView};
use crate::setup::{HostSetup, SetupView};
use crate::state::{
    ChannelState, ChannelView, ClassicState, ClassicView, GapState, GapView, IsoState, IsoView,
    JournalState, JournalView, LeState, LeView, LookupState, LookupView, SecurityState,
    SecurityView,
};
use vstd::prelude::*;

verus! {

/// A device's addresses and power state.
#[derive(Clone, Copy, Debug)]
pub struct Identity {
    pub powered_on: bool,
    pub public_address: Option<Address>,
    pub static_address: Address,
    pub random_address: Address,
    pub rpa_timeout_elapsed_seconds: u64,
}

/// Work that a processed packet leaves to the owner of the outside services:
/// the attribute server, the channel and pairing managers, and the key store.
#[derive(Debug)]
pub enum FollowUp {
    /// Register a new LE connection with the pairing and channel managers.
    RegisterLeConnection { connection_handle: u16, role: u8, peer_address: Address },
    /// Register a new Classic connection with the pairing and channel managers.
    RegisterClassicConnection { connection_handle: u16 },
    /// Release everything that outside services hold for a lost connection.
    ReleaseConnection { connection_handle: u16 },
    /// Read the names in the latest advertisement or inquiry response, resolve
    /// its address, and complete the lookups that they answer.
    CompletePeerLookups { transport: PeerLookupTransport, peer_address: Address },
    /// Find the key for a long term key request.
    FindLongTermKey { request: LongTermKeyRequestInfo },
    /// Find the link key for a peer.
    FindLinkKey { peer_address: Address },
    /// Store a new link key.
    StoreLinkKey { peer_address: Address, link_key: [u8; 16], key_type: u8 },
    /// Open the key store and load the resolving list: the public address is
    /// known now.
    OpenKeyStore,
    /// Tell the pairing manager that a connection's encryption has changed.
    AdvancePairing { connection_handle: u16, encryption_enabled: u8, encryption_key_size: u8 },
    /// Reassemble and route a fragment of an L2CAP frame.
    RouteAcl(AclDataPacket),
}

/// A host attached to a controller through a transport.
#[derive(Debug)]
pub struct Device {
    pub config: DeviceConfiguration,
    pub controller_id: usize,
    pub identity: Identity,
    pub setup: HostSetup,
    pub pools: PacketPools,
    pub le: LeState,
    pub classic: ClassicState,
    pub iso: IsoState,
    pub gap: GapState,
    pub lookups: LookupState,
    pub channels: ChannelState,
    pub security: SecurityState,
    pub journal: JournalState,
    /// Packets that were taken from the transport and not processed yet.
    pub inbound: Vec<HciPacket>,
    /// What the last processed packet leaves to be done.
    pub follow_up: Option<FollowUp>,
}

/// The content of a [`Device`].
#[verifier::ext_equal]
pub struct DeviceView {
    pub config: DeviceConfiguration,
    pub controller_id: usize,
    pub identity: Identity,
    pub setup: SetupView,
    pub pools: PoolsView,
    pub le: LeView,
    pub classic: ClassicView,
    pub iso: IsoView,
    pub gap: GapView,
    pub lookups: LookupView,
    pub channels: ChannelView,
    pub security: SecurityView,
    pub journal: JournalView,
    pub inbound: Seq<HciPacket>,
    pub follow_up: Option<FollowUp>,
}

impl View for Device {
    type V = DeviceView;

    open spec fn view(&self) -> DeviceView {
        DeviceView {
            config: self.config,
            controller_id: self.controller_id,
            identity: self.identity,
            setup: self.setup@,
            pools: self.pools@,
            le: self.le@,
            classic: self.classic@,
            iso: self.iso@,
            gap: self.gap@,
            lookups: self.lookups@,
            channels: self.channels@,
            security: self.security@,
            journal: self.journal@,
            inbound: self.inbound@,
            follow_up: self.follow_up,
        }
    }
}

impl LeView {
    /// Every record is filed under its handle, the selection names a live
    /// connection, with its role and peer, exactly when there is one, and no
    /// Channel Sounding configuration is pending twice.
    pub open spec fn valid(self) -> bool {
        &&& self.le_connections.dom().finite()
        &&& self.pending_channel_sounding_configs.no_duplicates()
        &&& forall|handle: u16| #[trigger]
            self.le_connections.contains_key(handle)
                ==> self.le_connections[handle].connection_handle == handle
        &&& match self.connection_handle {
            Some(handle) => {
                &&& self.le_connections.contains_key(handle)
                &&& self.connection_role == Some(self.le_connections[handle].role)
                &&& self.peer_address == Some(self.le_connections[handle].peer_address)
            },
            None => {
                &&& self.le_connections.dom() == Set::<u16>::empty()
                &&& self.connection_role is None
                &&& self.peer_address is None
            },
        }
    }
}

impl ClassicView {
    /// Every record is filed under its handle, the selection names a live
    /// connection, with its role, exactly when there is one, every peer whose
    /// name is asked for has one entry and is asked for it at least once, and
    /// every peer whose role is noted has one entry.
    pub open spec fn valid(self) -> bool {
        &&& self.classic_connections.dom().finite()
        &&& addresses(self.pending_classic_roles).no_duplicates()
        &&& addresses(self.pending_remote_name_requests).no_duplicates()
        &&& forall|index: int|
            0 <= index < self.pending_remote_name_requests.len()
                ==> (#[trigger] self.pending_remote_name_requests[index]).1 > 0
        &&& forall|handle: u16| #[trigger]
            self.classic_connections.contains_key(handle)
                ==> self.classic_connections[handle].connection_handle == handle
        &&& match self.classic_connection_handle {
            Some(handle) => {
                &&& self.classic_connections.contains_key(handle)
                &&& self.classic_connection_role == Some(self.classic_connections[handle].role)
            },
            None => {
                &&& self.classic_connections.dom() == Set::<u16>::empty()
                &&& self.classic_connection_role is None
            },
        }
    }
}

impl GapView {
    /// Every advertiser has at most one accumulator.
    pub open spec fn valid(self) -> bool {
        addresses(self.advertisement_accumulators).no_duplicates()
    }
}

impl ChannelView {
    /// Every EATT bearer is listed once, and every bearer waits for at most one
    /// confirmation.
    pub open spec fn valid(self) -> bool {
        &&& self.eatt_bearers.no_duplicates()
        &&& self.pending_att_indications.no_duplicates()
    }
}

impl DeviceView {
    /// What holds of every device between two operations.
    pub open spec fn valid(self) -> bool {
        &&& self.le.valid()
        &&& self.classic.valid()
        &&& self.gap.valid()
        &&& self.channels.valid()
        &&& self.journal.next_event_listener_id > 0
        &&& self.lookups.next_peer_lookup_id > 0
        &&& self.lookups.searches_are_needed()
    }

    /// A device that has done nothing yet.
    pub open spec fn initial(controller_id: usize, config: DeviceConfiguration) -> DeviceView {
        DeviceView {
            config,
            controller_id,
            identity: Identity {
                powered_on: false,
                public_address: None,
                static_address: config.address,
                random_address: config.address,
                rpa_timeout_elapsed_seconds: 0,
            },
            setup: SetupView::initial(true),
            pools: PoolsView::initial(),
            le: LeView::initial(),
            classic: ClassicView::initial(),
            iso: IsoView::initial(),
            gap: GapView::initial(),
            lookups: LookupView::initial(),
            channels: ChannelView::initial(),
            security: SecurityView::initial(),
            journal: JournalView::initial(),
            inbound: Seq::empty(),
            follow_up: None,
        }
    }
}

impl Device {
    /// The packet queues are well formed and the rest is valid.
    pub open spec fn wf(&self) -> bool {
        &&& self.pools.wf()
        &&& self@.valid()
    }

    /// The device is well formed but for searches that no lookup needs any
    /// more.
    pub open spec fn wf_but_for_searches(&self) -> bool {
        &&& self.pools.wf()
        &&& self@.le.valid()
        &&& self@.classic.valid()
        &&& self@.gap.valid()
        &&& self@.channels.valid()
        &&& self@.journal.next_event_listener_id > 0
        &&& self@.lookups.next_peer_lookup_id > 0
    }

    /// A client-only device (no attribute server) with the default
    /// configuration.
    pub fn new(controller_id: usize) -> (device: Device)
        ensures
            device.wf(),
            device.config.is_default(),
            device@ == DeviceView::initial(controller_id, device.config),
    {
        Device::with_config(controller_id, DeviceConfiguration::default())
    }

    /// A client-only device with the given configuration.
    pub fn with_config(controller_id: usize, config: DeviceConfiguration) -> (device: Device)
        ensures
            device.wf(),
            device.config == config,
            device@ == DeviceView::initial(controller_id, config),
    {
        let address: Address = config.address;
        let device = Device {
            config,
            controller_id,
            identity: Identity {
                powered_on: false,
                public_address: None,
                static_address: address,
                random_address: address,
                rpa_timeout_elapsed_seconds: 0,
            },
            setup: HostSetup::new(true),
            pools: PacketPools::new(),
            le: LeState::new(),
            classic: ClassicState::new(),
            iso: IsoState::new(),
            gap: GapState::new(),
            lookups: LookupState::new(),
            channels: ChannelState::new(),
            security: SecurityState::new(),
            journal: JournalState::new(),
            inbound: Vec::new(),
            follow_up: None,
        };
        assert(device@ =~= DeviceView::initial(controller_id, config));
        device
    }
}

} // verus!
