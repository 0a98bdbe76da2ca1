//! Classic (BR/EDR) connections, discovery results and pairing events.

use crate::address::Address;
use crate::content::{clone_text, text};
use crate::retain::OfConnection;
use std::collections::BTreeMap;
use vstd::prelude::*;

verus! {

/// An established synchronous connection.
#[derive(Clone, Copy, Debug, PartialEq, Eq)]
pub struct SynchronousConnectionInfo {
    pub connection_handle: u16,
    pub peer_address: Address,
    pub link_type: u8,
    pub air_mode: u8,
}

impl OfConnection for SynchronousConnectionInfo {
    open spec fn connection(&self) -> u16 {
        self.connection_handle
    }

    fn get_connection(&self) -> (connection_handle: u16) {
        self.connection_handle
    }
}

/// Host-owned metadata for one established Classic ACL connection.
#[derive(Debug, PartialEq, Eq)]
pub struct ClassicConnectionInfo {
    pub connection_handle: u16,
    pub role: u8,
    pub peer_address: Address,
    pub peer_name: Option<String>,
    pub encryption_enabled: u8,
    pub encryption_key_size: u8,
    pub qos_service_type: Option<u8>,
    pub classic_mode: u8,
    pub classic_interval: u16,
    pub peer_lmp_features: BTreeMap<u8, [u8; 8]>,
    pub peer_lmp_max_page_number: Option<u8>,
    pub peer_host_supported_features: Option<[u8; 8]>,
}

/// The content of a [`ClassicConnectionInfo`].
#[verifier::ext_equal]
pub struct ClassicConnectionInfoView {
    pub connection_handle: u16,
    pub role: u8,
    pub peer_address: Address,
    pub peer_name: Option<Seq<char>>,
    pub encryption_enabled: u8,
    pub encryption_key_size: u8,
    pub qos_service_type: Option<u8>,
    pub classic_mode: u8,
    pub classic_interval: u16,
    pub peer_lmp_features: Map<u8, [u8; 8]>,
    pub peer_lmp_max_page_number: Option<u8>,
    pub peer_host_supported_features: Option<[u8; 8]>,
}

impl View for ClassicConnectionInfo {
    type V = ClassicConnectionInfoView;

    open spec fn view(&self) -> ClassicConnectionInfoView {
        ClassicConnectionInfoView {
            connection_handle: self.connection_handle,
            role: self.role,
            peer_address: self.peer_address,
            peer_name: text(self.peer_name),
            encryption_enabled: self.encryption_enabled,
            encryption_key_size: self.encryption_key_size,
            qos_service_type: self.qos_service_type,
            classic_mode: self.classic_mode,
            classic_interval: self.classic_interval,
            peer_lmp_features: self.peer_lmp_features@,
            peer_lmp_max_page_number: self.peer_lmp_max_page_number,
            peer_host_supported_features: self.peer_host_supported_features,
        }
    }
}

impl Clone for ClassicConnectionInfo {
    fn clone(&self) -> (copy: Self)
        ensures
            copy@ == self@,
    {
        ClassicConnectionInfo {
            connection_handle: self.connection_handle,
            role: self.role,
            peer_address: self.peer_address,
            peer_name: clone_text(&self.peer_name),
            encryption_enabled: self.encryption_enabled,
            encryption_key_size: self.encryption_key_size,
            qos_service_type: self.qos_service_type,
            classic_mode: self.classic_mode,
            classic_interval: self.classic_interval,
            peer_lmp_features: self.peer_lmp_features.clone(),
            peer_lmp_max_page_number: self.peer_lmp_max_page_number,
            peer_host_supported_features: self.peer_host_supported_features,
        }
    }
}

/// Why a Classic remote-name request did not produce a UTF-8 peer name.
#[derive(Clone, Copy, Debug, PartialEq, Eq, Structural)]
pub enum RemoteNameError {
    HciStatus(u8),
    InvalidUtf8 { valid_up_to: usize, error_len: Option<usize> },
}

/// Completion journal entry for one Classic remote-name request.
#[derive(Debug, PartialEq, Eq)]
pub struct RemoteNameResult {
    pub peer_address: Address,
    pub result: Result<String, RemoteNameError>,
}

/// The content of a [`RemoteNameResult`].
#[verifier::ext_equal]
pub struct RemoteNameResultView {
    pub peer_address: Address,
    pub result: Result<Seq<char>, RemoteNameError>,
}

impl View for RemoteNameResult {
    type V = RemoteNameResultView;

    open spec fn view(&self) -> RemoteNameResultView {
        RemoteNameResultView { peer_address: self.peer_address, result: name_result(self.result) }
    }
}

/// The content of a remote-name result: the name's characters or the error.
pub open spec fn name_result(result: Result<String, RemoteNameError>) -> Result<
    Seq<char>,
    RemoteNameError,
> {
    match result {
        Ok(name) => Ok(name@),
        Err(error) => Err(error),
    }
}

impl Clone for RemoteNameResult {
    fn clone(&self) -> (copy: Self)
        ensures
            copy@ == self@,
    {
        RemoteNameResult {
            peer_address: self.peer_address,
            result: match &self.result {
                Ok(name) => Ok(name.clone()),
                Err(error) => Err(*error),
            },
        }
    }
}

/// One Classic inquiry report, retaining the discovery metadata applications
/// use to identify audio devices and render Extended Inquiry Response data.
#[derive(Debug, PartialEq, Eq)]
pub struct ClassicInquiryResultInfo {
    pub peer_address: Address,
    pub class_of_device: u32,
    pub rssi: Option<i8>,
    pub extended_inquiry_response: Vec<u8>,
}

/// The content of a [`ClassicInquiryResultInfo`].
#[verifier::ext_equal]
pub struct ClassicInquiryResultInfoView {
    pub peer_address: Address,
    pub class_of_device: u32,
    pub rssi: Option<i8>,
    pub extended_inquiry_response: Seq<u8>,
}

impl View for ClassicInquiryResultInfo {
    type V = ClassicInquiryResultInfoView;

    open spec fn view(&self) -> ClassicInquiryResultInfoView {
        ClassicInquiryResultInfoView {
            peer_address: self.peer_address,
            class_of_device: self.class_of_device,
            rssi: self.rssi,
            extended_inquiry_response: self.extended_inquiry_response@,
        }
    }
}

impl Clone for ClassicInquiryResultInfo {
    fn clone(&self) -> (copy: Self)
        ensures
            copy@ == self@,
    {
        ClassicInquiryResultInfo {
            peer_address: self.peer_address,
            class_of_device: self.class_of_device,
            rssi: self.rssi,
            extended_inquiry_response: self.extended_inquiry_response.clone(),
        }
    }
}

/// Split an inquiry event into one report per responding device.
///
/// A device without a class of device in the event has class zero; a device
/// without a signal strength has none.
pub fn inquiry_responses(
    bd_addr: &[Address],
    class_of_device: &[u32],
    rssi: &[i8],
) -> (responses: Vec<ClassicInquiryResultInfo>)
    ensures
        responses@.len() == bd_addr@.len(),
        forall|index: int|
            0 <= index < bd_addr@.len() ==> {
                let response = #[trigger] responses@[index];
                &&& response.peer_address == bd_addr@[index]
                &&& response.class_of_device == if index < class_of_device@.len() {
                    class_of_device@[index]
                } else {
                    0
                }
                &&& response.rssi == if index < rssi@.len() {
                    Some(rssi@[index])
                } else {
                    None
                }
                &&& response.extended_inquiry_response@ == Seq::<u8>::empty()
            },
{
    let mut responses: Vec<ClassicInquiryResultInfo> = Vec::new();
    let mut next: usize = 0;
    while next < bd_addr.len()
        invariant
            next <= bd_addr@.len(),
            responses@.len() == next,
            forall|index: int|
                0 <= index < next ==> {
                    let response = #[trigger] responses@[index];
                    &&& response.peer_address == bd_addr@[index]
                    &&& response.class_of_device == if index < class_of_device@.len() {
                        class_of_device@[index]
                    } else {
                        0
                    }
                    &&& response.rssi == if index < rssi@.len() {
                        Some(rssi@[index])
                    } else {
                        None
                    }
                    &&& response.extended_inquiry_response@ == Seq::<u8>::empty()
                },
        decreases bd_addr@.len() - next,
    {
        responses.push(
            ClassicInquiryResultInfo {
                peer_address: bd_addr[next],
                class_of_device: if next < class_of_device.len() {
                    class_of_device[next]
                } else {
                    0
                },
                rssi: if next < rssi.len() {
                    Some(rssi[next])
                } else {
                    None
                },
                extended_inquiry_response: Vec::new(),
            },
        );
        next += 1;
    }
    responses
}

/// Host-facing events that participate in Classic PIN or Secure Simple
/// Pairing authentication.
#[derive(Clone, Copy, Debug, PartialEq, Eq)]
pub enum ClassicPairingEvent {
    AuthenticationComplete { status: u8, connection_handle: u16 },
    PinCodeRequest { peer_address: Address },
    LinkKeyRequest { peer_address: Address },
    LinkKeyNotification { peer_address: Address, link_key: [u8; 16], key_type: u8 },
    IoCapabilityRequest { peer_address: Address },
    IoCapabilityResponse {
        peer_address: Address,
        io_capability: u8,
        authentication_requirements: u8,
    },
    UserConfirmationRequest { peer_address: Address, numeric_value: u32 },
    UserPasskeyRequest { peer_address: Address },
    RemoteOobDataRequest { peer_address: Address },
    SimplePairingComplete { status: u8, peer_address: Address },
    UserPasskeyNotification { peer_address: Address, passkey: u32 },
}

impl ClassicPairingEvent {
    /// The connection that the event names, where it names one.
    pub open spec fn handle(self) -> Option<u16> {
        match self {
            ClassicPairingEvent::AuthenticationComplete { connection_handle, .. } => Some(
                connection_handle,
            ),
            _ => None,
        }
    }

    /// The peer that the event names, where it names one.
    pub open spec fn peer(self) -> Option<Address> {
        match self {
            ClassicPairingEvent::AuthenticationComplete { .. } => None,
            ClassicPairingEvent::PinCodeRequest { peer_address } => Some(peer_address),
            ClassicPairingEvent::LinkKeyRequest { peer_address } => Some(peer_address),
            ClassicPairingEvent::LinkKeyNotification { peer_address, .. } => Some(peer_address),
            ClassicPairingEvent::IoCapabilityRequest { peer_address } => Some(peer_address),
            ClassicPairingEvent::IoCapabilityResponse { peer_address, .. } => Some(peer_address),
            ClassicPairingEvent::UserConfirmationRequest { peer_address, .. } => Some(
                peer_address,
            ),
            ClassicPairingEvent::UserPasskeyRequest { peer_address } => Some(peer_address),
            ClassicPairingEvent::RemoteOobDataRequest { peer_address } => Some(peer_address),
            ClassicPairingEvent::SimplePairingComplete { peer_address, .. } => Some(peer_address),
            ClassicPairingEvent::UserPasskeyNotification { peer_address, .. } => Some(
                peer_address,
            ),
        }
    }

    /// Whether the event concerns the connection to the given peer.
    pub open spec fn spec_belongs_to(self, connection_handle: u16, peer_address: Address) -> bool {
        self.handle() == Some(connection_handle) || self.peer() == Some(peer_address)
    }

    /// Whether the event concerns the connection to the given peer.
    pub fn belongs_to(&self, connection_handle: u16, peer_address: &Address) -> (belongs: bool)
        ensures
            belongs == self.spec_belongs_to(connection_handle, *peer_address),
    {
        match self {
            ClassicPairingEvent::AuthenticationComplete {
                connection_handle: event_handle,
                ..
            } => *event_handle == connection_handle,
            ClassicPairingEvent::PinCodeRequest { peer_address: event_peer } => *event_peer
                == *peer_address,
            ClassicPairingEvent::LinkKeyRequest { peer_address: event_peer } => *event_peer
                == *peer_address,
            ClassicPairingEvent::LinkKeyNotification { peer_address: event_peer, .. } => *event_peer
                == *peer_address,
            ClassicPairingEvent::IoCapabilityRequest { peer_address: event_peer } => *event_peer
                == *peer_address,
            ClassicPairingEvent::IoCapabilityResponse { peer_address: event_peer, .. } => *event_peer
                == *peer_address,
            ClassicPairingEvent::UserConfirmationRequest { peer_address: event_peer, .. } => *event_peer
                == *peer_address,
            ClassicPairingEvent::UserPasskeyRequest { peer_address: event_peer } => *event_peer
                == *peer_address,
            ClassicPairingEvent::RemoteOobDataRequest { peer_address: event_peer } => *event_peer
                == *peer_address,
            ClassicPairingEvent::SimplePairingComplete { peer_address: event_peer, .. } => *event_peer
                == *peer_address,
            ClassicPairingEvent::UserPasskeyNotification { peer_address: event_peer, .. } => *event_peer
                == *peer_address,
        }
    }
}

} // verus!
