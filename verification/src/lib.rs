//! The host side of a Bluetooth stack, verified.
//!
//! A [`Device`] sits on top of a controller. It hands HCI commands and data to
//! a [`HostTransport`], takes packets from it, and keeps what they tell: the
//! connections and their state, the streams, the advertisements, the requests
//! of the peers, and a journal of events.
//!
//! The state of a device is modelled by
//! [`DeviceView`](device::DeviceView). Every operation says, over that model,
//! which state it leaves behind, and, over the transport's log, what it hands
//! over. What holds across operations is stated in [`laws`].
//!
//! Attribute servers, channel managers, pairing managers and key stores live
//! outside. Where a packet concerns one of them, processing pauses and leaves a
//! [`FollowUp`]; its owner performs it and lets the device resume.

pub mod address;
pub mod advertise;
pub mod advertise_laws;
pub mod advertising;
pub mod advertising_laws;
pub mod att;
pub mod bearers;
pub mod bonding;
pub mod channel_sounding;
pub mod channel_laws;
pub mod channels;
pub mod chunks;
pub mod classic;
pub mod classic_laws;
pub mod classic_link;
pub mod classic_ops;
pub mod commands;
pub mod configuration;
pub mod connect;
pub mod connection;
pub mod connection_laws;
pub mod content;
pub mod control;
pub mod data_queue;
pub mod device;
pub mod disconnect;
pub mod disconnection_laws;
pub mod encryption;
pub mod events;
pub mod flow_laws;
pub mod gap_link;
pub mod group_laws;
pub mod hci;
pub mod history;
pub mod ids;
pub mod iso;
pub mod iso_link;
pub mod iso_ops;
pub mod journal;
pub mod laws;
pub mod le_laws;
pub mod le_link;
pub mod lifecycle;
pub mod lifecycle_laws;
pub mod link_state;
pub mod lookup;
pub mod lookup_laws;
pub mod message_laws;
pub mod messages;
pub mod ordered;
pub mod pairing;
pub mod pairing_laws;
pub mod poll;
pub mod pool_ops;
pub mod pools;
pub mod power;
pub mod power_laws;
pub mod process;
pub mod pump;
pub mod queries;
pub mod queue_laws;
pub mod request_laws;
pub mod resolving;
pub mod retain;
pub mod scan_laws;
pub mod search;
pub mod security;
pub mod security_laws;
pub mod services;
pub mod setup;
pub mod setup_laws;
pub mod sounding_laws;
pub mod sounding_ops;
pub mod state;
pub mod stream_laws;
pub mod takes;
pub mod text;
pub mod transport;

pub use address::{Address, AddressType};
pub use advertising::{
    Advertisement, AdvertisementDataAccumulator, ExtendedAdvertisingConfig, PeriodicAdvertisement,
    PeriodicAdvertisingConfig, PeriodicAdvertisingSyncInfo, PeriodicAdvertisingSyncTransferInfo,
};
pub use att::{att_bearer_id, ATT_CID, AttPdu, AttPduKind, eatt_bearer_id, EATT_PSM};
pub use channel_sounding::{
    ChannelSoundingCapabilities, ChannelSoundingConfig, ChannelSoundingCreateConfigParameters,
    ChannelSoundingDefaultSettings, ChannelSoundingError, ChannelSoundingOperation,
    ChannelSoundingProcedure, ChannelSoundingProcedureParameters, ChannelSoundingSubeventResult,
    ChannelSoundingSubeventResultContinue,
};
pub use classic::{
    ClassicConnectionInfo, ClassicInquiryResultInfo, ClassicPairingEvent, RemoteNameError,
    RemoteNameResult, SynchronousConnectionInfo,
};
pub use configuration::DeviceConfiguration;
pub use connection::{
    ConnectionFeatureError, ConnectionFeatureTransport, ControllerBufferInfo,
    LeConnectionControlEvent, LeConnectionInfo, LeConnectionParameters, LeConnectionRateParameters,
    LeConnectionUpdateParameters, LeDataLength, LePhy, LeSubrateRequestParameters,
    LeSuggestedDefaultDataLength, LocalVersionInformation, LongTermKeyRequestInfo,
};
pub use data_queue::{DataPacketQueue, DataPacketQueueError};
pub use device::{Device, FollowUp};
pub use events::{DeviceConnectionTransport, DeviceEvent, DeviceEventListenerId};
pub use hci::{Command, Event, HciPacket};
pub use iso::{
    BigInfoReport, BigParameters, BigSyncParameters, CigParameters, CisControlEvent, CisLinkInfo,
    CisParameters, CisRequestInfo, IsoControlEvent, IsoDataPathParameters, IsoSdu, IsoTxSyncInfo,
};
pub use lookup::{PeerLookupError, PeerLookupId, PeerLookupResult, PeerLookupTransport};
pub use pump::{pump, Pump};
pub use power::DevicePowerError;
pub use security::{DeviceKeyStoreError, Key, PairingKeys};
pub use services::{EattChannelError, LePsmError};
pub use setup::LePhyError;
pub use transport::{HostTransport, LinkStep, LocalLink, QueuedTransport};
