//! ATT bearers and the routing of what arrives on L2CAP channels.

use vstd::prelude::*;

verus! {

/// The fixed L2CAP channel id for the Attribute Protocol.
pub const ATT_CID: u16 = 0x0004;

/// LE Protocol/Service Multiplexer assigned to Enhanced ATT.
pub const EATT_PSM: u16 = 0x0027;

/// The fixed L2CAP channel id for LE SMP.
pub const SMP_CID: u16 = 0x0006;

/// The fixed L2CAP channel id for BR/EDR SMP.
pub const SMP_BR_CID: u16 = 0x0007;

/// The fixed L2CAP channel id for BR/EDR signaling.
pub const L2CAP_SIGNALING_CID: u16 = 0x0001;

/// The fixed L2CAP channel id for LE signaling.
pub const L2CAP_LE_SIGNALING_CID: u16 = 0x0005;

/// What kind of message an ATT PDU is.
#[derive(Clone, Copy, Debug, PartialEq, Eq, Structural)]
pub enum AttPduKind {
    ExchangeMtuRequest,
    FindInformationRequest,
    FindByTypeValueRequest,
    ReadRequest,
    ReadBlobRequest,
    ReadMultipleRequest,
    ReadByTypeRequest,
    ReadByGroupTypeRequest,
    ReadMultipleVariableRequest,
    WriteRequest,
    PrepareWriteRequest,
    ExecuteWriteRequest,
    HandleValueConfirmation,
    /// A command: a server input that never produces a response.
    Command,
    /// A response, a notification, an indication or an unknown message.
    Other,
}

/// An ATT PDU: its kind and its bytes.
#[derive(Debug, PartialEq, Eq)]
pub struct AttPdu {
    pub kind: AttPduKind,
    pub bytes: Vec<u8>,
}

impl AttPduKind {
    /// Whether the message expects a response.
    pub open spec fn spec_is_request(self) -> bool {
        match self {
            AttPduKind::HandleValueConfirmation => false,
            AttPduKind::Command => false,
            AttPduKind::Other => false,
            _ => true,
        }
    }
}

/// `true` if the ATT PDU is a request that expects a response.
pub fn is_request(pdu: &AttPdu) -> (request: bool)
    ensures
        request == pdu.kind.spec_is_request(),
{
    match pdu.kind {
        AttPduKind::ExchangeMtuRequest
        | AttPduKind::FindInformationRequest
        | AttPduKind::FindByTypeValueRequest
        | AttPduKind::ReadRequest
        | AttPduKind::ReadBlobRequest
        | AttPduKind::ReadMultipleRequest
        | AttPduKind::ReadByTypeRequest
        | AttPduKind::ReadByGroupTypeRequest
        | AttPduKind::ReadMultipleVariableRequest
        | AttPduKind::WriteRequest
        | AttPduKind::PrepareWriteRequest
        | AttPduKind::ExecuteWriteRequest => true,
        AttPduKind::HandleValueConfirmation | AttPduKind::Command | AttPduKind::Other => false,
    }
}

/// The identity of a connection's fixed ATT bearer.
pub open spec fn spec_att_bearer_id(connection_handle: u16) -> u64 {
    connection_handle as u64
}

/// The identity of an Enhanced ATT bearer.
pub open spec fn spec_eatt_bearer_id(connection_handle: u16, source_cid: u16) -> u64 {
    (1u64 << 63) | ((connection_handle as u64) << 16) | source_cid as u64
}

/// Stable server context identity for a connection's fixed ATT bearer.
pub fn att_bearer_id(connection_handle: u16) -> (id: u64)
    ensures
        id == spec_att_bearer_id(connection_handle),
{
    connection_handle as u64
}

/// Stable server context identity for an Enhanced ATT bearer.
pub fn eatt_bearer_id(connection_handle: u16, source_cid: u16) -> (id: u64)
    ensures
        id == spec_eatt_bearer_id(connection_handle, source_cid),
        id == 0x8000_0000_0000_0000 + connection_handle * 0x1_0000 + source_cid,
{
    proof {
        lemma_eatt_bearer_id(connection_handle, source_cid);
    }
    (1u64 << 63) | ((connection_handle as u64) << 16) | source_cid as u64
}

/// What the identity of an Enhanced ATT bearer is as a number.
pub proof fn lemma_eatt_bearer_id(connection_handle: u16, source_cid: u16)
    ensures
        spec_eatt_bearer_id(connection_handle, source_cid) == 0x8000_0000_0000_0000
            + connection_handle * 0x1_0000 + source_cid,
{
    assert((1u64 << 63) | ((connection_handle as u64) << 16) | source_cid as u64
        == 0x8000_0000_0000_0000u64 + connection_handle as u64 * 0x1_0000u64 + source_cid as u64)
        by (bit_vector);
}

/// No two bearers share an identity.
pub proof fn lemma_bearer_ids_distinct(
    first_handle: u16,
    first_cid: u16,
    second_handle: u16,
    second_cid: u16,
)
    ensures
        spec_att_bearer_id(first_handle) == spec_att_bearer_id(second_handle) ==> first_handle
            == second_handle,
        spec_eatt_bearer_id(first_handle, first_cid) == spec_eatt_bearer_id(
            second_handle,
            second_cid,
        ) ==> first_handle == second_handle && first_cid == second_cid,
        spec_att_bearer_id(first_handle) != spec_eatt_bearer_id(second_handle, second_cid),
{
    lemma_eatt_bearer_id(first_handle, first_cid);
    lemma_eatt_bearer_id(second_handle, second_cid);
}

} // verus!
