//! Pending searches for a peer by name or identity.

use crate::address::Address;
use vstd::prelude::*;

verus! {

/// Radio family used by a peer-name lookup.
#[derive(Clone, Copy, Debug, PartialEq, Eq, Structural)]
pub enum PeerLookupTransport {
    Le,
    Classic,
}

/// Stable identifier for one pending peer lookup.
pub type PeerLookupId = u64;

/// Completed peer lookup retained by the result journal.
#[derive(Clone, Copy, Debug, PartialEq, Eq)]
pub struct PeerLookupResult {
    pub lookup_id: PeerLookupId,
    pub transport: PeerLookupTransport,
    pub peer_address: Address,
}

/// Failures that prevent a peer lookup from starting.
#[derive(Clone, Copy, Debug, PartialEq, Eq, Structural)]
pub enum PeerLookupError {
    NoAddressResolver,
}

/// What a pending lookup waits for.
#[derive(Debug)]
pub enum PeerLookupRequest {
    Name { name: Vec<u8>, transport: PeerLookupTransport },
    Identity { identity_address: Address },
}

/// The content of a [`PeerLookupRequest`].
#[verifier::ext_equal]
pub enum PeerLookupRequestView {
    Name { name: Seq<u8>, transport: PeerLookupTransport },
    Identity { identity_address: Address },
}

impl View for PeerLookupRequest {
    type V = PeerLookupRequestView;

    open spec fn view(&self) -> PeerLookupRequestView {
        match *self {
            PeerLookupRequest::Name { name, transport } => PeerLookupRequestView::Name {
                name: name@,
                transport,
            },
            PeerLookupRequest::Identity { identity_address } => PeerLookupRequestView::Identity {
                identity_address,
            },
        }
    }
}

impl PeerLookupRequestView {
    /// The radio that the lookup listens on.
    pub open spec fn transport(self) -> PeerLookupTransport {
        match self {
            PeerLookupRequestView::Name { transport, .. } => transport,
            PeerLookupRequestView::Identity { .. } => PeerLookupTransport::Le,
        }
    }
}

impl PeerLookupRequest {
    /// The radio that the lookup listens on.
    pub fn transport(&self) -> (transport: PeerLookupTransport)
        ensures
            transport == self@.transport(),
    {
        match self {
            PeerLookupRequest::Name { transport, .. } => *transport,
            PeerLookupRequest::Identity { .. } => PeerLookupTransport::Le,
        }
    }
}

} // verus!
