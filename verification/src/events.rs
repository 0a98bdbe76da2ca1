//! The high-level events of a device.

use crate::address::Address;
use crate::advertising::{Advertisement, AdvertisementView};
use crate::channel_sounding::{
    ChannelSoundingSubeventResult, ChannelSoundingSubeventResultContinue,
    ChannelSoundingSubeventResultContinueView, ChannelSoundingSubeventResultView,
};
use crate::classic::{
    ClassicConnectionInfo, ClassicConnectionInfoView, ClassicInquiryResultInfo,
    ClassicInquiryResultInfoView, ClassicPairingEvent, RemoteNameError, SynchronousConnectionInfo,
};
use crate::connection::{LeConnectionControlEvent, LeConnectionInfo, LeConnectionInfoView};
use crate::hci::{
    AdvertisingReport, AdvertisingReportView, ExtendedAdvertisingReport,
    ExtendedAdvertisingReportView,
};
use crate::lookup::PeerLookupResult;
use crate::security::{PairingKeys, PairingKeysView};
use vstd::prelude::*;

verus! {

/// Physical link family associated with a connection lifecycle event.
#[derive(Clone, Copy, Debug, PartialEq, Eq, Structural)]
pub enum DeviceConnectionTransport {
    Le,
    Classic,
    Synchronous { link_type: u8 },
}

/// Typed high-level events emitted by a device.
///
/// Events are retained in a drainable journal after the corresponding host
/// state has been updated.
#[derive(Debug, PartialEq, Eq)]
pub enum DeviceEvent {
    Flush,
    LeConnectionEstablished(LeConnectionInfo),
    ClassicConnectionEstablished(ClassicConnectionInfo),
    SynchronousConnectionEstablished(SynchronousConnectionInfo),
    ConnectionFailed { transport: DeviceConnectionTransport, peer_address: Address, status: u8 },
    Disconnected { connection_handle: u16, reason: u8 },
    DisconnectionFailed { connection_handle: u16, status: u8 },
    ConnectionRequest { peer_address: Address, class_of_device: u32, link_type: u8 },
    Advertisement(Advertisement),
    AdvertisingReport(AdvertisingReport),
    ExtendedAdvertisingReport(ExtendedAdvertisingReport),
    InquiryResult(ClassicInquiryResultInfo),
    InquiryComplete { status: u8 },
    PeerFound(PeerLookupResult),
    RemoteName { status: u8, peer_address: Address, name: String },
    RemoteNameFailure { peer_address: Address, error: RemoteNameError },
    LeConnectionControl(LeConnectionControlEvent),
    ClassicPairing(ClassicPairingEvent),
    PairingComplete { connection_handle: u16, keys: PairingKeys },
    PairingFailed { connection_handle: u16, reason: u8 },
    KeyStoreUpdated,
    EncryptionChange {
        status: u8,
        connection_handle: u16,
        encryption_enabled: u8,
        encryption_key_size: u8,
    },
    EncryptionKeyRefresh { connection_handle: u16 },
    EncryptionKeyRefreshFailed { connection_handle: u16, status: u8 },
    QosSetup { connection_handle: u16, service_type: u8 },
    QosSetupFailed { connection_handle: u16, status: u8 },
    RemoteHostSupportedFeatures { peer_address: Address, host_supported_features: [u8; 8] },
    ChannelSoundingSubeventResult(ChannelSoundingSubeventResult),
    ChannelSoundingSubeventResultContinue(ChannelSoundingSubeventResultContinue),
    VendorEvent(Vec<u8>),
}

/// Stable identifier returned when registering a [`DeviceEvent`] listener.
pub type DeviceEventListenerId = u64;

/// The content of a [`DeviceEvent`].
#[verifier::ext_equal]
pub enum DeviceEventView {
    Flush,
    LeConnectionEstablished(LeConnectionInfoView),
    ClassicConnectionEstablished(ClassicConnectionInfoView),
    SynchronousConnectionEstablished(SynchronousConnectionInfo),
    ConnectionFailed { transport: DeviceConnectionTransport, peer_address: Address, status: u8 },
    Disconnected { connection_handle: u16, reason: u8 },
    DisconnectionFailed { connection_handle: u16, status: u8 },
    ConnectionRequest { peer_address: Address, class_of_device: u32, link_type: u8 },
    Advertisement(AdvertisementView),
    AdvertisingReport(AdvertisingReportView),
    ExtendedAdvertisingReport(ExtendedAdvertisingReportView),
    InquiryResult(ClassicInquiryResultInfoView),
    InquiryComplete { status: u8 },
    PeerFound(PeerLookupResult),
    RemoteName { status: u8, peer_address: Address, name: Seq<char> },
    RemoteNameFailure { peer_address: Address, error: RemoteNameError },
    LeConnectionControl(LeConnectionControlEvent),
    ClassicPairing(ClassicPairingEvent),
    PairingComplete { connection_handle: u16, keys: PairingKeysView },
    PairingFailed { connection_handle: u16, reason: u8 },
    KeyStoreUpdated,
    EncryptionChange { status: u8, connection_handle: u16, encryption_enabled: u8, encryption_key_size: u8 },
    EncryptionKeyRefresh { connection_handle: u16 },
    EncryptionKeyRefreshFailed { connection_handle: u16, status: u8 },
    QosSetup { connection_handle: u16, service_type: u8 },
    QosSetupFailed { connection_handle: u16, status: u8 },
    RemoteHostSupportedFeatures { peer_address: Address, host_supported_features: [u8; 8] },
    ChannelSoundingSubeventResult(ChannelSoundingSubeventResultView),
    ChannelSoundingSubeventResultContinue(ChannelSoundingSubeventResultContinueView),
    VendorEvent(Seq<u8>),
}

impl View for DeviceEvent {
    type V = DeviceEventView;

    open spec fn view(&self) -> DeviceEventView {
        match *self {
            DeviceEvent::Flush => DeviceEventView::Flush,
            DeviceEvent::LeConnectionEstablished(content) => DeviceEventView::LeConnectionEstablished(content@),
            DeviceEvent::ClassicConnectionEstablished(content) => DeviceEventView::ClassicConnectionEstablished(content@),
            DeviceEvent::SynchronousConnectionEstablished(content) => DeviceEventView::SynchronousConnectionEstablished(content),
            DeviceEvent::ConnectionFailed { transport, peer_address, status } => DeviceEventView::ConnectionFailed { transport, peer_address, status },
            DeviceEvent::Disconnected { connection_handle, reason } => DeviceEventView::Disconnected { connection_handle, reason },
            DeviceEvent::DisconnectionFailed { connection_handle, status } => DeviceEventView::DisconnectionFailed { connection_handle, status },
            DeviceEvent::ConnectionRequest { peer_address, class_of_device, link_type } => DeviceEventView::ConnectionRequest { peer_address, class_of_device, link_type },
            DeviceEvent::Advertisement(content) => DeviceEventView::Advertisement(content@),
            DeviceEvent::AdvertisingReport(content) => DeviceEventView::AdvertisingReport(content@),
            DeviceEvent::ExtendedAdvertisingReport(content) => DeviceEventView::ExtendedAdvertisingReport(content@),
            DeviceEvent::InquiryResult(content) => DeviceEventView::InquiryResult(content@),
            DeviceEvent::InquiryComplete { status } => DeviceEventView::InquiryComplete { status },
            DeviceEvent::PeerFound(content) => DeviceEventView::PeerFound(content),
            DeviceEvent::RemoteName { status, peer_address, name } => DeviceEventView::RemoteName { status, peer_address, name: name@ },
            DeviceEvent::RemoteNameFailure { peer_address, error } => DeviceEventView::RemoteNameFailure { peer_address, error },
            DeviceEvent::LeConnectionControl(content) => DeviceEventView::LeConnectionControl(content),
            DeviceEvent::ClassicPairing(content) => DeviceEventView::ClassicPairing(content),
            DeviceEvent::PairingComplete { connection_handle, keys } => DeviceEventView::PairingComplete { connection_handle, keys: keys@ },
            DeviceEvent::PairingFailed { connection_handle, reason } => DeviceEventView::PairingFailed { connection_handle, reason },
            DeviceEvent::KeyStoreUpdated => DeviceEventView::KeyStoreUpdated,
            DeviceEvent::EncryptionChange { status, connection_handle, encryption_enabled, encryption_key_size } => DeviceEventView::EncryptionChange { status, connection_handle, encryption_enabled, encryption_key_size },
            DeviceEvent::EncryptionKeyRefresh { connection_handle } => DeviceEventView::EncryptionKeyRefresh { connection_handle },
            DeviceEvent::EncryptionKeyRefreshFailed { connection_handle, status } => DeviceEventView::EncryptionKeyRefreshFailed { connection_handle, status },
            DeviceEvent::QosSetup { connection_handle, service_type } => DeviceEventView::QosSetup { connection_handle, service_type },
            DeviceEvent::QosSetupFailed { connection_handle, status } => DeviceEventView::QosSetupFailed { connection_handle, status },
            DeviceEvent::RemoteHostSupportedFeatures { peer_address, host_supported_features } => DeviceEventView::RemoteHostSupportedFeatures { peer_address, host_supported_features },
            DeviceEvent::ChannelSoundingSubeventResult(content) => DeviceEventView::ChannelSoundingSubeventResult(content@),
            DeviceEvent::ChannelSoundingSubeventResultContinue(content) => DeviceEventView::ChannelSoundingSubeventResultContinue(content@),
            DeviceEvent::VendorEvent(content) => DeviceEventView::VendorEvent(content@),
        }
    }
}

/// The contents of a list of events.
pub open spec fn event_views(events: Seq<DeviceEvent>) -> Seq<DeviceEventView> {
    events.map_values(|event: DeviceEvent| event@)
}

} // verus!
