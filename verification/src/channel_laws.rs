//! Where payloads and attribute messages go, and which PSMs are handed out.

use crate::att::{AttPdu, AttPduKind};
use crate::bearers::{carries_value, value_room, BearerSubscription, ValueMessage};
use crate::channels::{bearer_id, AttRoute, ChannelPresence};
use crate::device::DeviceView;
use crate::disconnect::OfBearer;
use crate::retain::{lemma_filter_members, not_selected};
use crate::services::{is_psm_choice, LePsmError};
use crate::state::{ChannelView, SecurityView};
use vstd::prelude::*;

verus! {

/// A signaling payload goes to the manager of its transport, and a managed
/// channel's payload to the manager that has the channel, the Classic one first.
/// Of the rest the ATT channel goes to ATT. The security channels go to pairing
/// where that is on, the Classic one only where it is allowed. Everything else is
/// kept.
pub proof fn lemma_payload_way(device: DeviceView, cid: u16, presence: ChannelPresence)
    ensures
        ({
            let classic = presence.classic_manager && (cid == 1 || presence.classic_channel);
            let le = presence.le_manager && (cid == 5 || presence.le_channel);
            let pairing = device.security.pairing_enabled;
            let way = device.l2cap_way(cid, presence);
            &&& way is ClassicChannel <==> classic
            &&& way is LeCreditChannel <==> !classic && le
            &&& way is Att <==> !classic && !le && cid == 4
            &&& way is LePairing <==> !classic && !le && cid == 6 && pairing
            &&& way is ClassicPairing <==> !classic && !le && cid == 7 && pairing
                && device.config.classic_smp_enabled
            &&& way is Kept <==> !classic && !le && cid != 4 && !(cid == 6 && pairing) && !(cid
                == 7 && pairing && device.config.classic_smp_enabled)
        }),
{
}

/// A payload that is kept is kept with its connection and its channel. A Security
/// Request is noted with what it asks for, unless a channel manager takes it.
/// Nothing else changes.
pub proof fn lemma_payload_arrives(
    device: DeviceView,
    handle: u16,
    cid: u16,
    payload: Vec<u8>,
    presence: ChannelPresence,
)
    ensures
        ({
            let after = device.payload_arrived(handle, cid, payload, presence);
            let way = device.l2cap_way(cid, presence);
            let request = cid == 6 && payload@.len() == 2 && payload@[0] == 11;
            let managed = way is ClassicChannel || way is LeCreditChannel;
            &&& way is Kept ==> after.channels.l2cap_inbox == device.channels.l2cap_inbox.push(
                (handle, cid, payload),
            )
            &&& !(way is Kept) ==> after.channels.l2cap_inbox == device.channels.l2cap_inbox
            &&& request && !managed ==> after.security.security_requests
                == device.security.security_requests.push((handle, payload@[1]))
            &&& !request || managed ==> after.security.security_requests
                == device.security.security_requests
            &&& after == (DeviceView {
                security: SecurityView {
                    security_requests: after.security.security_requests,
                    ..device.security
                },
                channels: ChannelView {
                    l2cap_inbox: after.channels.l2cap_inbox,
                    ..device.channels
                },
                ..device
            })
        }),
{
}

/// The bearer of an attribute message is told apart from every other bearer.
pub proof fn lemma_bearers_are_told_apart(
    handle: u16,
    cid: u16,
    other_handle: u16,
    other_cid: u16,
)
    ensures
        bearer_id(handle, cid) == bearer_id(other_handle, other_cid) ==> handle == other_handle
            && cid == other_cid,
        bearer_id(handle, 4) == handle,
        cid != 4 ==> bearer_id(handle, cid) >= 0x8000_0000_0000_0000,
{
    let first = handle as u64;
    let second = other_handle as u64;
    let left = cid as u64;
    let right = other_cid as u64;
    assert((1u64 << 63) | (first << 16) | left == (1u64 << 63) | (second << 16) | right && first
        <= 0xFFFF && second <= 0xFFFF && left <= 0xFFFF && right <= 0xFFFF ==> first == second
        && left == right) by (bit_vector);
    assert((1u64 << 63) | (first << 16) | left >= 0x8000_0000_0000_0000) by (bit_vector);
    assert((1u64 << 63) | (second << 16) | right >= 0x8000_0000_0000_0000) by (bit_vector);
}

/// A confirmation that its bearer waits for is used up by that. A command goes to
/// the server, or nowhere without one. A request goes to the server. Everything
/// else is kept, on the fixed channel or on its own bearer.
pub proof fn lemma_attribute_message(device: DeviceView, handle: u16, cid: u16, pdu: AttPdu)
    ensures
        ({
            let waits = device.channels.pending_att_indications.contains((handle, cid));
            let confirms = pdu.kind is HandleValueConfirmation && waits;
            let command = pdu.kind is Command;
            let request = !(pdu.kind is HandleValueConfirmation || command || pdu.kind is Other);
            let served = device.channels.server_attached;
            let route = device.att_route(handle, cid, pdu);
            let after = device.att_arrived(handle, cid, pdu);
            &&& route is Confirmed <==> confirms
            &&& command ==> route == if served {
                AttRoute::Command(pdu)
            } else {
                AttRoute::Dropped
            }
            &&& request && served ==> route == AttRoute::Request(pdu)
            &&& route is Kept <==> !confirms && !command && !(request && served)
            &&& confirms ==> !after.channels.pending_att_indications.contains((handle, cid))
            &&& !confirms ==> after.channels.pending_att_indications
                == device.channels.pending_att_indications
            &&& route is Kept && cid == 4 ==> {
                &&& after.channels.inbox == device.channels.inbox.push((handle, pdu))
                &&& after.channels.eatt_inbox == device.channels.eatt_inbox
            }
            &&& route is Kept && cid != 4 ==> {
                &&& after.channels.inbox == device.channels.inbox
                &&& after.channels.eatt_inbox == device.channels.eatt_inbox.push(
                    (handle, cid, pdu),
                )
            }
            &&& !(route is Kept) ==> {
                &&& after.channels.inbox == device.channels.inbox
                &&& after.channels.eatt_inbox == device.channels.eatt_inbox
            }
            &&& after == (DeviceView {
                channels: ChannelView {
                    inbox: after.channels.inbox,
                    eatt_inbox: after.channels.eatt_inbox,
                    pending_att_indications: after.channels.pending_att_indications,
                    ..device.channels
                },
                ..device
            })
        }),
{
    let keep = not_selected(OfBearer { connection_handle: handle, source_cid: cid });
    lemma_filter_members(device.channels.pending_att_indications, keep, (handle, cid));
}

/// A confirmation on one bearer leaves the others waiting.
pub proof fn lemma_confirmation_spares_others(
    device: DeviceView,
    handle: u16,
    cid: u16,
    other: (u16, u16),
)
    requires
        other != (handle, cid),
    ensures
        device.indication_confirmed(handle, cid).channels.pending_att_indications.contains(other)
            <==> device.channels.pending_att_indications.contains(other),
        device.indicated(handle, cid).channels.pending_att_indications.contains(other)
            <==> device.channels.pending_att_indications.contains(other),
        device.indicated(handle, cid).channels.pending_att_indications.contains((handle, cid)),
{
    let keep = not_selected(OfBearer { connection_handle: handle, source_cid: cid });
    let pending = device.channels.pending_att_indications;
    lemma_filter_members(pending, keep, other);
    let grown = pending.push((handle, cid));
    assert(grown[pending.len() as int] == (handle, cid));
    if pending.contains(other) {
        let place = choose|place: int| 0 <= place < pending.len() && pending[place] == other;
        assert(grown[place] == other);
    }
    if grown.contains(other) {
        let place = choose|place: int| 0 <= place < grown.len() && grown[place] == other;
        assert(pending[place] == other);
    }
}

/// A notification goes to a bearer that asked for notifications, and an indication
/// to one that asked for indications and waits for no confirmation. Where it is
/// forced nobody need have asked.
pub proof fn lemma_who_gets_a_value(
    device: DeviceView,
    handle: u16,
    bearer: BearerSubscription,
    force: bool,
)
    ensures
        ({
            let notifies = bearer.bits & 1 == 1;
            let indicates = bearer.bits & 2 == 2;
            let waits = device.channels.pending_att_indications.contains(
                (handle, bearer.source_cid),
            );
            &&& device.value_goes_to(handle, force, false)(bearer) <==> force || notifies
            &&& device.value_goes_to(handle, force, true)(bearer) <==> (force || indicates)
                && !waits
        }),
{
    let bits = bearer.bits;
    assert((bits & 1 != 0 <==> bits & 1 == 1) && (bits & 2 != 0 <==> bits & 2 == 2)) by (
    bit_vector);
}

/// A value is sent whole where it fits and is cut where it does not: a bearer takes
/// three bytes less than its MTU, and no MTU is less than 23.
pub proof fn lemma_value_is_carried(
    messages: Seq<ValueMessage>,
    bearers: Seq<BearerSubscription>,
    value_handle: u16,
    value: Seq<u8>,
    indicate: bool,
    place: int,
)
    requires
        carries_value(messages, bearers, value_handle, value, indicate),
        0 <= place < bearers.len(),
    ensures
        ({
            let mtu = bearers[place].mtu;
            let room: int = if mtu >= 23 {
                mtu - 3
            } else {
                20
            };
            let message = messages[place];
            &&& messages.len() == bearers.len()
            &&& message.source_cid == bearers[place].source_cid
            &&& message.attribute_handle == value_handle
            &&& message.indication == indicate
            &&& value.len() <= room ==> message.attribute_value@ == value
            &&& value.len() > room ==> {
                &&& message.attribute_value@.len() == room
                &&& forall|index: int|
                    0 <= index < room ==> #[trigger] message.attribute_value@[index]
                        == value[index]
            }
        }),
{
    assert(value_room(bearers[place].mtu) >= 20);
}

/// A server gets the PSM that it asks for where that is not zero and nobody has
/// it. One that leaves the choice open gets the least free one from 0x80 to 0xFF.
pub proof fn lemma_psm_choice(
    used: Set<u16>,
    requested: Option<u16>,
    result: Result<u16, LePsmError>,
    other: u16,
)
    requires
        is_psm_choice(used, requested, result),
    ensures
        requested is Some ==> {
            let psm = requested->0;
            &&& psm == 0 ==> result == Err::<u16, _>(LePsmError::Zero)
            &&& psm != 0 && used.contains(psm) ==> result == Err::<u16, _>(
                LePsmError::InUse { psm },
            )
            &&& psm != 0 && !used.contains(psm) ==> result == Ok::<u16, LePsmError>(psm)
        },
        requested is None && result is Ok ==> {
            &&& 0x80 <= result->Ok_0 <= 0xFF
            &&& !used.contains(result->Ok_0)
            &&& 0x80 <= other < result->Ok_0 ==> used.contains(other)
        },
        requested is None && result is Err ==> {
            &&& result == Err::<u16, _>(LePsmError::NoneFree)
            &&& 0x80 <= other <= 0xFF ==> used.contains(other)
        },
{
    assert(crate::services::is_dynamic(other) <==> 0x80 <= other <= 0xFF);
}

/// A server is registered under the PSM that it got, and under no other.
pub proof fn lemma_server_registered(
    device: DeviceView,
    result: Result<u16, LePsmError>,
    psm: u16,
)
    ensures
        ({
            let before = device.channels.le_credit_servers;
            let after = device.server_registered(result);
            let gone = device.server_unregistered(psm);
            &&& after.channels.le_credit_servers.contains(psm) <==> before.contains(psm) || result
                == Ok::<u16, LePsmError>(psm)
            &&& !gone.channels.le_credit_servers.contains(psm)
            &&& after == (DeviceView {
                channels: ChannelView {
                    le_credit_servers: after.channels.le_credit_servers,
                    ..device.channels
                },
                ..device
            })
            &&& gone == (DeviceView {
                channels: ChannelView {
                    le_credit_servers: gone.channels.le_credit_servers,
                    ..device.channels
                },
                ..device
            })
        }),
{
}

/// A device answers for ATT and LE security, and for Classic security where that
/// is on.
pub proof fn lemma_fixed_channels(device: DeviceView, cid: u16)
    ensures
        device.fixed_channels().contains(cid) <==> cid == 4 || cid == 6 || (cid == 7
            && device.config.classic_smp_enabled),
{
    let cids = device.fixed_channels();
    assert(cids[0] == 4 && cids[1] == 6);
    if device.config.classic_smp_enabled {
        assert(cids[2] == 7);
    }
}

/// A message that a server answers is one of the requests.
pub proof fn lemma_requests(kind: AttPduKind)
    ensures
        kind.spec_is_request() <==> kind is ExchangeMtuRequest || kind is FindInformationRequest
            || kind is FindByTypeValueRequest || kind is ReadRequest || kind is ReadBlobRequest
            || kind is ReadMultipleRequest || kind is ReadByTypeRequest
            || kind is ReadByGroupTypeRequest || kind is ReadMultipleVariableRequest
            || kind is WriteRequest || kind is PrepareWriteRequest || kind is ExecuteWriteRequest,
{
}

} // verus!
