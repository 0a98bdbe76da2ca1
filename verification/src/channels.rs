//! What arrives on L2CAP channels and where it goes.

use crate::att::{
    att_bearer_id, eatt_bearer_id, is_request, spec_att_bearer_id, spec_eatt_bearer_id, AttPdu,
    AttPduKind, ATT_CID, L2CAP_LE_SIGNALING_CID, L2CAP_SIGNALING_CID, SMP_BR_CID, SMP_CID,
};
use crate::device::{Device, DeviceView};
use crate::disconnect::OfBearer;
use crate::retain::{
    drop_selected, holds, lemma_filter_keeps_distinct, not_of_connection, not_selected,
    of_connection, selected, take_all,
    take_of_connection, take_selected, Selector,
};
use crate::state::{ChannelView, SecurityView};
use vstd::prelude::*;

verus! {

broadcast use vstd::laws_cmp::group_laws_cmp;

/// The code of a Security Request on the SMP channel.
pub const SMP_SECURITY_REQUEST: u8 = 0x0B;

/// What is said of a security message on an unregistered Classic connection.
pub const UNREGISTERED_CLASSIC_SMP: &'static str =
    "BR/EDR SMP requires an encrypted connection with a stored Link Key";

/// What the channel managers know of a channel on a connection.
#[derive(Clone, Copy, Debug, PartialEq, Eq, Structural)]
pub struct ChannelPresence {
    /// The connection has a Classic channel manager.
    pub classic_manager: bool,
    /// That manager has the channel.
    pub classic_channel: bool,
    /// The connection has an LE credit-based channel manager.
    pub le_manager: bool,
    /// That manager has the channel.
    pub le_channel: bool,
}

/// Where a payload that arrived on an L2CAP channel goes.
#[derive(Debug, PartialEq, Eq)]
pub enum L2capRoute {
    /// To the Classic channel manager.
    ClassicChannel { payload: Vec<u8> },
    /// To the LE credit-based channel manager.
    LeCreditChannel { payload: Vec<u8> },
    /// To the pairing manager, from a Classic connection.
    ClassicPairing { payload: Vec<u8> },
    /// To the pairing manager, from an LE connection.
    LePairing { payload: Vec<u8> },
    /// To the Attribute Protocol.
    Att { payload: Vec<u8> },
    /// It was kept for the application.
    Kept,
}

/// What is to be done with a security message.
#[derive(Clone, Copy, Debug, PartialEq, Eq, Structural)]
pub enum PairingPduStep {
    /// The pairing manager gets it.
    Receive,
    /// The local device takes the responder's part, and the manager gets it.
    Respond,
    /// Nobody gets it. Whether it is answered by a failure.
    Refuse { answered: bool },
}

/// Decide on a security message that came on an LE connection: a pairing request
/// while no pairing is under way makes the local device the responder.
pub fn le_pairing_pdu_step(pairing_request: bool, under_way: bool) -> (step: PairingPduStep)
    ensures
        step == if pairing_request && !under_way {
            PairingPduStep::Respond
        } else {
            PairingPduStep::Receive
        },
{
    if pairing_request && !under_way {
        PairingPduStep::Respond
    } else {
        PairingPduStep::Receive
    }
}

/// Where an ATT PDU goes.
#[derive(Debug, PartialEq, Eq)]
pub enum AttRoute {
    /// It confirmed the indication that its bearer was waiting for.
    Confirmed,
    /// To the attribute server, which does not answer it.
    Command(AttPdu),
    /// To the attribute server, which answers it.
    Request(AttPdu),
    /// To nobody: a command without a server.
    Dropped,
    /// It was kept for the application.
    Kept,
}

/// What the attribute server is told of the bearer of a request.
#[derive(Clone, Copy, Debug, PartialEq, Eq, Structural)]
pub struct AttAccess {
    pub bearer_id: u64,
    pub encrypted: bool,
    pub authenticated: bool,
    pub authorized: bool,
}

/// The identity of an ATT bearer.
pub open spec fn bearer_id(connection_handle: u16, source_cid: u16) -> u64 {
    if source_cid == ATT_CID {
        spec_att_bearer_id(connection_handle)
    } else {
        spec_eatt_bearer_id(connection_handle, source_cid)
    }
}

/// Stable server context identity for an ATT bearer.
pub fn any_bearer_id(connection_handle: u16, source_cid: u16) -> (id: u64)
    ensures
        id == bearer_id(connection_handle, source_cid),
{
    if source_cid == ATT_CID {
        att_bearer_id(connection_handle)
    } else {
        eatt_bearer_id(connection_handle, source_cid)
    }
}

/// Which way a payload goes.
#[derive(Clone, Copy, Debug, PartialEq, Eq, Structural)]
pub enum L2capWay {
    ClassicChannel,
    LeCreditChannel,
    ClassicPairing,
    LePairing,
    Att,
    Kept,
}

impl L2capRoute {
    /// Whether this sends a payload a given way.
    pub open spec fn goes(self, way: L2capWay, content: Seq<u8>) -> bool {
        match (self, way) {
            (L2capRoute::ClassicChannel { payload }, L2capWay::ClassicChannel) => payload@
                == content,
            (L2capRoute::LeCreditChannel { payload }, L2capWay::LeCreditChannel) => payload@
                == content,
            (L2capRoute::ClassicPairing { payload }, L2capWay::ClassicPairing) => payload@
                == content,
            (L2capRoute::LePairing { payload }, L2capWay::LePairing) => payload@ == content,
            (L2capRoute::Att { payload }, L2capWay::Att) => payload@ == content,
            (L2capRoute::Kept, L2capWay::Kept) => true,
            _ => false,
        }
    }
}

impl DeviceView {
    /// Which way a payload goes: managed channels come first, then security and
    /// ATT; everything else is kept.
    pub open spec fn l2cap_way(self, cid: u16, presence: ChannelPresence) -> L2capWay {
        if presence.classic_manager && (cid == L2CAP_SIGNALING_CID || presence.classic_channel) {
            L2capWay::ClassicChannel
        } else if presence.le_manager && (cid == L2CAP_LE_SIGNALING_CID || presence.le_channel) {
            L2capWay::LeCreditChannel
        } else if cid == ATT_CID {
            L2capWay::Att
        } else if cid == SMP_BR_CID && self.config.classic_smp_enabled
            && self.security.pairing_enabled {
            L2capWay::ClassicPairing
        } else if cid == SMP_CID && self.security.pairing_enabled {
            L2capWay::LePairing
        } else {
            L2capWay::Kept
        }
    }

    /// Whether a payload is a Security Request.
    pub open spec fn is_security_request(cid: u16, payload: Seq<u8>) -> bool {
        &&& cid == SMP_CID
        &&& payload.len() == 2
        &&& payload[0] == SMP_SECURITY_REQUEST
    }

    /// A device after a payload has arrived on a channel. A Security Request
    /// that no channel manager takes is noted, whoever handles it.
    pub open spec fn payload_arrived(
        self,
        connection_handle: u16,
        cid: u16,
        payload: Vec<u8>,
        presence: ChannelPresence,
    ) -> DeviceView {
        let way = self.l2cap_way(cid, presence);
        let unmanaged = way != L2capWay::ClassicChannel && way != L2capWay::LeCreditChannel;
        DeviceView {
            security: if unmanaged && DeviceView::is_security_request(cid, payload@) {
                SecurityView {
                    security_requests: self.security.security_requests.push(
                        (connection_handle, payload@[1]),
                    ),
                    ..self.security
                }
            } else {
                self.security
            },
            channels: if way == L2capWay::Kept {
                ChannelView {
                    l2cap_inbox: self.channels.l2cap_inbox.push((connection_handle, cid, payload)),
                    ..self.channels
                }
            } else {
                self.channels
            },
            ..self
        }
    }

    /// A device whose bearer no longer waits for a confirmation.
    pub open spec fn indication_confirmed(
        self,
        connection_handle: u16,
        source_cid: u16,
    ) -> DeviceView {
        DeviceView {
            channels: ChannelView {
                pending_att_indications: self.channels.pending_att_indications.filter(
                    not_selected(OfBearer { connection_handle, source_cid }),
                ),
                ..self.channels
            },
            ..self
        }
    }

    /// Whether a bearer waits for the confirmation of an indication.
    pub open spec fn indication_open(self, connection_handle: u16, source_cid: u16) -> bool {
        self.channels.pending_att_indications.contains((connection_handle, source_cid))
    }

    /// Where an ATT PDU goes.
    pub open spec fn att_route(self, connection_handle: u16, source_cid: u16, pdu: AttPdu) -> AttRoute {
        if pdu.kind == AttPduKind::HandleValueConfirmation && self.indication_open(
            connection_handle,
            source_cid,
        ) {
            AttRoute::Confirmed
        } else if pdu.kind == AttPduKind::Command {
            if self.channels.server_attached {
                AttRoute::Command(pdu)
            } else {
                AttRoute::Dropped
            }
        } else if pdu.kind.spec_is_request() && self.channels.server_attached {
            AttRoute::Request(pdu)
        } else {
            AttRoute::Kept
        }
    }

    /// A device after an ATT PDU has arrived on a bearer.
    pub open spec fn att_arrived(
        self,
        connection_handle: u16,
        source_cid: u16,
        pdu: AttPdu,
    ) -> DeviceView {
        match self.att_route(connection_handle, source_cid, pdu) {
            AttRoute::Confirmed => self.indication_confirmed(connection_handle, source_cid),
            AttRoute::Kept => DeviceView {
                channels: if source_cid == ATT_CID {
                    ChannelView {
                        inbox: self.channels.inbox.push((connection_handle, pdu)),
                        ..self.channels
                    }
                } else {
                    ChannelView {
                        eatt_inbox: self.channels.eatt_inbox.push(
                            (connection_handle, source_cid, pdu),
                        ),
                        ..self.channels
                    }
                },
                ..self
            },
            _ => self,
        }
    }
}

impl Device {
    /// A payload has arrived on an L2CAP channel. Returns where it goes.
    pub fn on_l2cap_payload(
        &mut self,
        connection_handle: u16,
        cid: u16,
        payload: Vec<u8>,
        presence: ChannelPresence,
    ) -> (route: L2capRoute)
        requires
            old(self).wf(),
        ensures
            final(self).wf(),
            route.goes(old(self)@.l2cap_way(cid, presence), payload@),
            final(self)@ == old(self)@.payload_arrived(connection_handle, cid, payload, presence),
    {
        if presence.classic_manager && (cid == L2CAP_SIGNALING_CID || presence.classic_channel) {
            return L2capRoute::ClassicChannel { payload };
        }
        if presence.le_manager && (cid == L2CAP_LE_SIGNALING_CID || presence.le_channel) {
            return L2capRoute::LeCreditChannel { payload };
        }
        if cid == ATT_CID {
            return L2capRoute::Att { payload };
        }
        if cid == SMP_CID && payload.len() == 2 && payload[0] == SMP_SECURITY_REQUEST {
            self.security.security_requests.push((connection_handle, payload[1]));
        }
        let ghost content = payload;
        let route = if cid == SMP_BR_CID && self.config.classic_smp_enabled
            && self.security.pairing_enabled {
            L2capRoute::ClassicPairing { payload }
        } else if cid == SMP_CID && self.security.pairing_enabled {
            L2capRoute::LePairing { payload }
        } else {
            self.channels.l2cap_inbox.push((connection_handle, cid, payload));
            L2capRoute::Kept
        };
        assert(self@ =~= old(self)@.payload_arrived(connection_handle, cid, content, presence));
        route
    }

    /// An ATT PDU has arrived on a bearer. Returns where it goes: a
    /// confirmation ends the wait for it, a server is given commands and
    /// requests, and everything else is kept for the application.
    pub fn on_att_pdu(&mut self, connection_handle: u16, source_cid: u16, pdu: AttPdu) -> (route:
        AttRoute)
        requires
            old(self).wf(),
        ensures
            final(self).wf(),
            route == old(self)@.att_route(connection_handle, source_cid, pdu),
            final(self)@ == old(self)@.att_arrived(connection_handle, source_cid, pdu),
    {
        let ghost content = pdu;
        if pdu.kind == AttPduKind::HandleValueConfirmation && self.indication_pending(
            connection_handle,
            source_cid,
        ) {
            let bearer = OfBearer { connection_handle, source_cid };
            proof {
                lemma_filter_keeps_distinct(
                    self@.channels.pending_att_indications,
                    not_selected::<(u16, u16), OfBearer>(bearer),
                );
            }
            drop_selected(&mut self.channels.pending_att_indications, &bearer);
            assert(self@ =~= old(self)@.indication_confirmed(connection_handle, source_cid));
            return AttRoute::Confirmed;
        }
        if pdu.kind == AttPduKind::Command {
            return if self.channels.server_attached {
                AttRoute::Command(pdu)
            } else {
                AttRoute::Dropped
            };
        }
        if is_request(&pdu) && self.channels.server_attached {
            return AttRoute::Request(pdu);
        }
        if source_cid == ATT_CID {
            self.channels.inbox.push((connection_handle, pdu));
        } else {
            self.channels.eatt_inbox.push((connection_handle, source_cid, pdu));
        }
        assert(self@ =~= old(self)@.att_arrived(connection_handle, source_cid, content));
        AttRoute::Kept
    }

    /// Whether a server-sent indication is still awaiting confirmation on a
    /// fixed or enhanced bearer.
    pub fn indication_pending(&self, connection_handle: u16, source_cid: u16) -> (pending: bool)
        ensures
            pending == self@.indication_open(connection_handle, source_cid),
    {
        holds(&self.channels.pending_att_indications, (connection_handle, source_cid))
    }

    /// What the attribute server is told of the bearer of a request.
    pub fn att_access_context(&self, connection_handle: u16, source_cid: u16) -> (context: AttAccess)
        ensures
            context == (AttAccess {
                bearer_id: bearer_id(connection_handle, source_cid),
                encrypted: self@.le.encrypted_handles.contains(connection_handle),
                authenticated: false,
                authorized: false,
            }),
    {
        AttAccess {
            bearer_id: any_bearer_id(connection_handle, source_cid),
            encrypted: self.le.encrypted_handles.contains(&connection_handle),
            authenticated: false,
            authorized: false,
        }
    }

    /// Note that a security message came on a Classic connection that the
    /// pairing manager does not know.
    fn refuse_classic_pairing(&mut self, connection_handle: u16)
        requires
            old(self).wf(),
        ensures
            final(self).wf(),
            final(self)@ == (DeviceView {
                security: SecurityView {
                    pairing_errors: final(self)@.security.pairing_errors,
                    ..old(self)@.security
                },
                ..old(self)@
            }),
            final(self)@.security.pairing_errors.len() == old(self)@.security.pairing_errors.len()
                + 1,
            final(self)@.security.pairing_errors.drop_last() == old(self)@.security.pairing_errors,
            final(self)@.security.pairing_errors.last().0 == connection_handle,
            final(self)@.security.pairing_errors.last().1@ == UNREGISTERED_CLASSIC_SMP@,
    {
        self.record_pairing_error(connection_handle, UNREGISTERED_CLASSIC_SMP.to_owned());
        assert(self@.security.pairing_errors.drop_last() =~= old(self)@.security.pairing_errors);
    }

    /// Decide on a security message that came on a Classic connection. The
    /// pairing manager gets it where it knows the connection. Else the message is
    /// refused, with an error on record and an answer to a pairing request.
    pub fn on_classic_pairing_pdu(
        &mut self,
        connection_handle: u16,
        registered: bool,
        pairing_request: bool,
    ) -> (step: PairingPduStep)
        requires
            old(self).wf(),
        ensures
            final(self).wf(),
            registered ==> step == PairingPduStep::Receive && final(self)@ == old(self)@,
            !registered ==> {
                &&& step == (PairingPduStep::Refuse { answered: pairing_request })
                &&& final(self)@ == (DeviceView {
                    security: SecurityView {
                        pairing_errors: final(self)@.security.pairing_errors,
                        ..old(self)@.security
                    },
                    ..old(self)@
                })
                &&& final(self)@.security.pairing_errors.len() == old(
                    self,
                )@.security.pairing_errors.len() + 1
                &&& final(self)@.security.pairing_errors.drop_last() == old(
                    self,
                )@.security.pairing_errors
                &&& final(self)@.security.pairing_errors.last().0 == connection_handle
                &&& final(self)@.security.pairing_errors.last().1@ == UNREGISTERED_CLASSIC_SMP@
            },
    {
        if registered {
            return PairingPduStep::Receive;
        }
        self.refuse_classic_pairing(connection_handle);
        PairingPduStep::Refuse { answered: pairing_request }
    }

    /// `true` if this device has an attribute server.
    pub fn has_server(&self) -> (has: bool)
        ensures
            has == self@.channels.server_attached,
    {
        self.channels.server_attached
    }

    /// Attach an attribute server.
    pub fn attach_server(&mut self)
        requires
            old(self).wf(),
        ensures
            final(self).wf(),
            final(self)@ == (DeviceView {
                channels: ChannelView { server_attached: true, ..old(self)@.channels },
                ..old(self)@
            }),
    {
        self.channels.server_attached = true;
        assert(self@ =~= (DeviceView {
            channels: ChannelView { server_attached: true, ..old(self)@.channels },
            ..old(self)@
        }));
    }
}

/// Selects the payloads of one channel.
pub struct OfChannel {
    pub cid: u16,
}

impl<A> Selector<(u16, u16, A)> for OfChannel {
    open spec fn selects(&self, entry: (u16, u16, A)) -> bool {
        entry.1 == self.cid
    }

    fn test(&self, entry: &(u16, u16, A)) -> (selected: bool) {
        entry.1 == self.cid
    }
}

/// What an entry of a connection holds.
pub open spec fn second<A>() -> spec_fn((u16, A)) -> A {
    |entry: (u16, A)| entry.1
}

/// What an entry of a channel holds.
pub open spec fn third<A>() -> spec_fn((u16, u16, A)) -> A {
    |entry: (u16, u16, A)| entry.2
}

/// What the entries of connections hold.
pub fn seconds<A>(entries: Vec<(u16, A)>) -> (held: Vec<A>)
    ensures
        held@ == entries@.map_values(second()),
{
    let ghost all = entries@;
    let mut rest: Vec<(u16, A)> = entries;
    let mut held: Vec<A> = Vec::new();
    proof {
        assert(all.skip(0) =~= all);
    }
    while rest.len() > 0
        invariant
            held@.len() + rest@.len() == all.len(),
            rest@ == all.skip(held@.len() as int),
            held@ == all.take(held@.len() as int).map_values(second()),
        decreases rest@.len(),
    {
        let ghost count = held@.len() as int;
        let (_, value) = rest.remove(0);
        held.push(value);
        assert(rest@ =~= all.skip(count + 1));
        assert(held@ =~= all.take(count + 1).map_values(second()));
    }
    assert(all.take(held@.len() as int) =~= all);
    held
}

/// What the entries of channels hold.
pub fn thirds<A>(entries: Vec<(u16, u16, A)>) -> (held: Vec<A>)
    ensures
        held@ == entries@.map_values(third()),
{
    let ghost all = entries@;
    let mut rest: Vec<(u16, u16, A)> = entries;
    let mut held: Vec<A> = Vec::new();
    proof {
        assert(all.skip(0) =~= all);
    }
    while rest.len() > 0
        invariant
            held@.len() + rest@.len() == all.len(),
            rest@ == all.skip(held@.len() as int),
            held@ == all.take(held@.len() as int).map_values(third()),
        decreases rest@.len(),
    {
        let ghost count = held@.len() as int;
        let (_, _, value) = rest.remove(0);
        held.push(value);
        assert(rest@ =~= all.skip(count + 1));
        assert(held@ =~= all.take(count + 1).map_values(third()));
    }
    assert(all.take(held@.len() as int) =~= all);
    held
}

impl Device {
    /// Take the ATT PDUs received so far that were not handled by the server,
    /// oldest first.
    pub fn take_inbox(&mut self) -> (pdus: Vec<AttPdu>)
        requires
            old(self).wf(),
        ensures
            final(self).wf(),
            pdus@ == old(self)@.channels.inbox.map_values(second()),
            final(self)@ == (DeviceView {
                channels: ChannelView { inbox: Seq::empty(), ..old(self)@.channels },
                ..old(self)@
            }),
    {
        let taken = take_all(&mut self.channels.inbox);
        assert(self@ =~= (DeviceView {
            channels: ChannelView { inbox: Seq::empty(), ..old(self)@.channels },
            ..old(self)@
        }));
        seconds(taken)
    }

    /// Take the client-bound ATT PDUs received on one LE connection; those of
    /// others stay.
    pub fn take_inbox_on_handle(&mut self, connection_handle: u16) -> (pdus: Vec<AttPdu>)
        requires
            old(self).wf(),
        ensures
            final(self).wf(),
            pdus@ == old(self)@.channels.inbox.filter(
                of_connection(connection_handle),
            ).map_values(second()),
            final(self)@ == (DeviceView {
                channels: ChannelView {
                    inbox: old(self)@.channels.inbox.filter(not_of_connection(connection_handle)),
                    ..old(self)@.channels
                },
                ..old(self)@
            }),
    {
        let taken = take_of_connection(&mut self.channels.inbox, connection_handle);
        assert(self@ =~= (DeviceView {
            channels: ChannelView {
                inbox: old(self)@.channels.inbox.filter(not_of_connection(connection_handle)),
                ..old(self)@.channels
            },
            ..old(self)@
        }));
        seconds(taken)
    }

    /// Take the payloads received on one unmanaged L2CAP channel of any
    /// connection, oldest first.
    pub fn take_l2cap(&mut self, cid: u16) -> (payloads: Vec<Vec<u8>>)
        requires
            old(self).wf(),
        ensures
            final(self).wf(),
            payloads@ == old(self)@.channels.l2cap_inbox.filter(
                selected(OfChannel { cid }),
            ).map_values(third()),
            final(self)@ == (DeviceView {
                channels: ChannelView {
                    l2cap_inbox: old(self)@.channels.l2cap_inbox.filter(
                        not_selected(OfChannel { cid }),
                    ),
                    ..old(self)@.channels
                },
                ..old(self)@
            }),
    {
        let taken = take_selected(&mut self.channels.l2cap_inbox, &OfChannel { cid });
        assert(self@ =~= (DeviceView {
            channels: ChannelView {
                l2cap_inbox: old(self)@.channels.l2cap_inbox.filter(
                    not_selected(OfChannel { cid }),
                ),
                ..old(self)@.channels
            },
            ..old(self)@
        }));
        thirds(taken)
    }

    /// Take the payloads received on one unmanaged L2CAP channel of one
    /// connection, oldest first.
    pub fn take_l2cap_on_handle(&mut self, connection_handle: u16, cid: u16) -> (payloads: Vec<
        Vec<u8>,
    >)
        requires
            old(self).wf(),
        ensures
            final(self).wf(),
            payloads@ == old(self)@.channels.l2cap_inbox.filter(
                selected(OfBearer { connection_handle, source_cid: cid }),
            ).map_values(third()),
            final(self)@ == (DeviceView {
                channels: ChannelView {
                    l2cap_inbox: old(self)@.channels.l2cap_inbox.filter(
                        not_selected(OfBearer { connection_handle, source_cid: cid }),
                    ),
                    ..old(self)@.channels
                },
                ..old(self)@
            }),
    {
        let taken = take_selected(
            &mut self.channels.l2cap_inbox,
            &OfBearer { connection_handle, source_cid: cid },
        );
        assert(self@ =~= (DeviceView {
            channels: ChannelView {
                l2cap_inbox: old(self)@.channels.l2cap_inbox.filter(
                    not_selected(OfBearer { connection_handle, source_cid: cid }),
                ),
                ..old(self)@.channels
            },
            ..old(self)@
        }));
        thirds(taken)
    }

    /// Take the client-bound ATT PDUs received on one EATT bearer; those of
    /// others stay.
    pub fn take_eatt_inbox_on_bearer(&mut self, connection_handle: u16, source_cid: u16) -> (pdus:
        Vec<AttPdu>)
        requires
            old(self).wf(),
        ensures
            final(self).wf(),
            pdus@ == old(self)@.channels.eatt_inbox.filter(
                selected(OfBearer { connection_handle, source_cid }),
            ).map_values(third()),
            final(self)@ == (DeviceView {
                channels: ChannelView {
                    eatt_inbox: old(self)@.channels.eatt_inbox.filter(
                        not_selected(OfBearer { connection_handle, source_cid }),
                    ),
                    ..old(self)@.channels
                },
                ..old(self)@
            }),
    {
        let taken = take_selected(
            &mut self.channels.eatt_inbox,
            &OfBearer { connection_handle, source_cid },
        );
        assert(self@ =~= (DeviceView {
            channels: ChannelView {
                eatt_inbox: old(self)@.channels.eatt_inbox.filter(
                    not_selected(OfBearer { connection_handle, source_cid }),
                ),
                ..old(self)@.channels
            },
            ..old(self)@
        }));
        thirds(taken)
    }

    /// Take every client-bound EATT PDU with its bearer's coordinates.
    pub fn take_eatt_inbox(&mut self) -> (pdus: Vec<(u16, u16, AttPdu)>)
        requires
            old(self).wf(),
        ensures
            final(self).wf(),
            pdus@ == old(self)@.channels.eatt_inbox,
            final(self)@ == (DeviceView {
                channels: ChannelView { eatt_inbox: Seq::empty(), ..old(self)@.channels },
                ..old(self)@
            }),
    {
        let taken = take_all(&mut self.channels.eatt_inbox);
        assert(self@ =~= (DeviceView {
            channels: ChannelView { eatt_inbox: Seq::empty(), ..old(self)@.channels },
            ..old(self)@
        }));
        taken
    }

    /// Take the errors of LE credit-based channels, oldest first.
    pub fn take_le_credit_errors(&mut self) -> (errors: Vec<(u16, String)>)
        requires
            old(self).wf(),
        ensures
            final(self).wf(),
            errors@ == old(self)@.channels.le_credit_errors,
            final(self)@ == (DeviceView {
                channels: ChannelView { le_credit_errors: Seq::empty(), ..old(self)@.channels },
                ..old(self)@
            }),
    {
        let taken = take_all(&mut self.channels.le_credit_errors);
        assert(self@ =~= (DeviceView {
            channels: ChannelView { le_credit_errors: Seq::empty(), ..old(self)@.channels },
            ..old(self)@
        }));
        taken
    }

    /// Take the errors of Classic channels, oldest first.
    pub fn take_classic_channel_errors(&mut self) -> (errors: Vec<(u16, String)>)
        requires
            old(self).wf(),
        ensures
            final(self).wf(),
            errors@ == old(self)@.channels.classic_channel_errors,
            final(self)@ == (DeviceView {
                channels: ChannelView {
                    classic_channel_errors: Seq::empty(),
                    ..old(self)@.channels
                },
                ..old(self)@
            }),
    {
        let taken = take_all(&mut self.channels.classic_channel_errors);
        assert(self@ =~= (DeviceView {
            channels: ChannelView { classic_channel_errors: Seq::empty(), ..old(self)@.channels },
            ..old(self)@
        }));
        taken
    }

    /// Record an error of an LE credit-based channel.
    pub fn record_le_credit_error(&mut self, connection_handle: u16, message: String)
        requires
            old(self).wf(),
        ensures
            final(self).wf(),
            final(self)@ == (DeviceView {
                channels: ChannelView {
                    le_credit_errors: old(self)@.channels.le_credit_errors.push(
                        (connection_handle, message),
                    ),
                    ..old(self)@.channels
                },
                ..old(self)@
            }),
    {
        self.channels.le_credit_errors.push((connection_handle, message));
        assert(self@ =~= (DeviceView {
            channels: ChannelView {
                le_credit_errors: old(self)@.channels.le_credit_errors.push(
                    (connection_handle, message),
                ),
                ..old(self)@.channels
            },
            ..old(self)@
        }));
    }

    /// Record an error of a Classic channel.
    pub fn record_classic_channel_error(&mut self, connection_handle: u16, message: String)
        requires
            old(self).wf(),
        ensures
            final(self).wf(),
            final(self)@ == (DeviceView {
                channels: ChannelView {
                    classic_channel_errors: old(self)@.channels.classic_channel_errors.push(
                        (connection_handle, message),
                    ),
                    ..old(self)@.channels
                },
                ..old(self)@
            }),
    {
        self.channels.classic_channel_errors.push((connection_handle, message));
        assert(self@ =~= (DeviceView {
            channels: ChannelView {
                classic_channel_errors: old(self)@.channels.classic_channel_errors.push(
                    (connection_handle, message),
                ),
                ..old(self)@.channels
            },
            ..old(self)@
        }));
    }
}

} // verus!
