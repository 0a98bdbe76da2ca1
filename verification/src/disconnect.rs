//! The end of a connection.

use crate::address::Address;
use crate::att::ATT_CID;
use crate::classic::ClassicPairingEvent;
use crate::device::{Device, DeviceView, FollowUp};
use crate::events::{DeviceEvent, DeviceEventView};
use crate::ordered::{first_handle, least};
use crate::retain::{
    drop_connection, drop_selected, lemma_filter_keeps_distinct, not_of_connection, not_selected,
    of_connection, Selector,
};
use crate::state::{
    ChannelState, ChannelView, ClassicState, ClassicView, IsoState, IsoView, LeState, LeView,
    SecurityState, SecurityView,
};
use vstd::prelude::*;

verus! {

broadcast use vstd::laws_cmp::group_laws_cmp;

/// Selects what belongs to one ATT bearer.
pub struct OfBearer {
    pub connection_handle: u16,
    pub source_cid: u16,
}

impl<A> Selector<(u16, u16, A)> for OfBearer {
    open spec fn selects(&self, entry: (u16, u16, A)) -> bool {
        entry.0 == self.connection_handle && entry.1 == self.source_cid
    }

    fn test(&self, entry: &(u16, u16, A)) -> (selected: bool) {
        entry.0 == self.connection_handle && entry.1 == self.source_cid
    }
}

impl Selector<(u16, u16)> for OfBearer {
    open spec fn selects(&self, entry: (u16, u16)) -> bool {
        entry.0 == self.connection_handle && entry.1 == self.source_cid
    }

    fn test(&self, entry: &(u16, u16)) -> (selected: bool) {
        entry.0 == self.connection_handle && entry.1 == self.source_cid
    }
}

/// Selects the Classic pairing events of the connection to a peer.
pub struct PairingOf {
    pub connection_handle: u16,
    pub peer_address: Address,
}

impl Selector<ClassicPairingEvent> for PairingOf {
    open spec fn selects(&self, entry: ClassicPairingEvent) -> bool {
        entry.spec_belongs_to(self.connection_handle, self.peer_address)
    }

    fn test(&self, entry: &ClassicPairingEvent) -> (selected: bool) {
        entry.belongs_to(self.connection_handle, &self.peer_address)
    }
}

impl LeView {
    /// The state without a connection: everything that concerned it is gone,
    /// and the selection moves to the live connection with the least handle.
    pub open spec fn without(self, connection_handle: u16) -> LeView {
        let others = self.le_connections.remove(connection_handle);
        let rest = LeView {
            le_connections: others,
            encrypted_handles: self.encrypted_handles.remove(connection_handle),
            pending_disconnections: self.pending_disconnections.remove(connection_handle),
            pending_connection_controls: self.pending_connection_controls.filter(
                not_of_connection(connection_handle),
            ),
            connection_feature_errors: self.connection_feature_errors.filter(
                not_of_connection(connection_handle),
            ),
            pending_channel_sounding_configs: self.pending_channel_sounding_configs.filter(
                not_of_connection(connection_handle),
            ),
            channel_sounding_errors: self.channel_sounding_errors.filter(
                not_of_connection(connection_handle),
            ),
            channel_sounding_security_results: self.channel_sounding_security_results.filter(
                not_of_connection(connection_handle),
            ),
            ..self
        };
        if self.connection_handle != Some(connection_handle) {
            rest
        } else if others.dom() == Set::<u16>::empty() {
            LeView { connection_handle: None, connection_role: None, peer_address: None, ..rest }
        } else {
            rest.selected(least(others.dom()))
        }
    }
}

impl ClassicView {
    /// The state without a connection: everything that concerned it is gone,
    /// and the selection moves to the live connection with the least handle.
    pub open spec fn without(self, connection_handle: u16) -> ClassicView {
        let others = self.classic_connections.remove(connection_handle);
        let rest = ClassicView {
            classic_connections: others,
            classic_link_keys: self.classic_link_keys.remove(connection_handle),
            classic_pairing_events: if self.classic_connections.contains_key(connection_handle) {
                self.classic_pairing_events.filter(
                    not_selected(
                        PairingOf {
                            connection_handle,
                            peer_address: self.classic_connections[connection_handle].peer_address,
                        },
                    ),
                )
            } else {
                self.classic_pairing_events
            },
            synchronous_connections: self.synchronous_connections.filter(
                not_of_connection(connection_handle),
            ),
            ..self
        };
        if self.classic_connection_handle != Some(connection_handle) {
            rest
        } else if others.dom() == Set::<u16>::empty() {
            ClassicView { classic_connection_handle: None, classic_connection_role: None, ..rest }
        } else {
            rest.selected(least(others.dom()))
        }
    }
}

impl IsoView {
    /// The state without a CIS.
    pub open spec fn without(self, connection_handle: u16) -> IsoView {
        let cleared = self.stream_cleared(connection_handle);
        IsoView { cis_links: self.cis_links.remove(connection_handle), ..cleared }
    }
}

impl ChannelView {
    /// The state without what one ATT bearer held.
    pub open spec fn bearer_removed(self, connection_handle: u16, source_cid: u16) -> ChannelView {
        ChannelView {
            eatt_inbox: self.eatt_inbox.filter(
                not_selected(OfBearer { connection_handle, source_cid }),
            ),
            pending_att_indications: self.pending_att_indications.filter(
                not_selected(OfBearer { connection_handle, source_cid }),
            ),
            ..self
        }
    }

    /// The state without what several ATT bearers held.
    pub open spec fn bearers_removed(self, bearers: Seq<(u16, u16)>) -> ChannelView
        decreases bearers.len(),
    {
        if bearers.len() == 0 {
            self
        } else {
            self.bearers_removed(bearers.drop_last()).bearer_removed(
                bearers.last().0,
                bearers.last().1,
            )
        }
    }

    /// The state without a connection's channels.
    pub open spec fn without(self, connection_handle: u16) -> ChannelView {
        let removed = self.bearer_removed(connection_handle, ATT_CID).bearers_removed(
            self.eatt_bearers.filter(of_connection(connection_handle)),
        );
        ChannelView {
            eatt_bearers: self.eatt_bearers.filter(not_of_connection(connection_handle)),
            inbox: self.inbox.filter(not_of_connection(connection_handle)),
            l2cap_inbox: self.l2cap_inbox.filter(not_of_connection(connection_handle)),
            le_credit_errors: self.le_credit_errors.filter(not_of_connection(connection_handle)),
            classic_channel_errors: self.classic_channel_errors.filter(
                not_of_connection(connection_handle),
            ),
            ..removed
        }
    }
}

impl SecurityView {
    /// The state without a connection's pairing.
    pub open spec fn without(self, connection_handle: u16) -> SecurityView {
        SecurityView {
            security_requests: self.security_requests.filter(not_of_connection(connection_handle)),
            pairing_encryption_started: self.pairing_encryption_started.remove(connection_handle),
            pairing_terminal_handles: self.pairing_terminal_handles.remove(connection_handle),
            pairing_errors: self.pairing_errors.filter(not_of_connection(connection_handle)),
            long_term_key_requests: self.long_term_key_requests.filter(
                not_of_connection(connection_handle),
            ),
            ..self
        }
    }
}

impl DeviceView {
    /// Whether a handle names something live.
    pub open spec fn knows(self, connection_handle: u16) -> bool {
        ||| self.le.le_connections.contains_key(connection_handle)
        ||| self.classic.classic_connections.contains_key(connection_handle)
        ||| self.iso.cis_links.contains_key(connection_handle)
        ||| exists|index: int|
            0 <= index < self.classic.synchronous_connections.len() && (
            #[trigger] self.classic.synchronous_connections[index]).connection_handle
                == connection_handle
    }

    /// A disconnection ended: the connection is gone, or still there.
    pub open spec fn disconnected(
        self,
        status: u8,
        connection_handle: u16,
        reason: u8,
    ) -> DeviceView {
        if status != 0 {
            DeviceView {
                le: LeView {
                    pending_disconnections: self.le.pending_disconnections.remove(
                        connection_handle,
                    ),
                    ..self.le
                },
                journal: if self.knows(connection_handle) {
                    self.journal.emitted(
                        DeviceEventView::DisconnectionFailed { connection_handle, status },
                    )
                } else {
                    self.journal
                },
                ..self
            }
        } else {
            DeviceView {
                le: self.le.without(connection_handle),
                classic: self.classic.without(connection_handle),
                iso: self.iso.without(connection_handle),
                pools: self.pools.flushed(connection_handle),
                channels: self.channels.without(connection_handle),
                security: self.security.without(connection_handle),
                journal: if self.knows(connection_handle) {
                    self.journal.emitted(
                        DeviceEventView::Disconnected { connection_handle, reason },
                    )
                } else {
                    self.journal
                },
                follow_up: Some(FollowUp::ReleaseConnection { connection_handle }),
                ..self
            }
        }
    }
}

impl LeState {
    /// Forget a connection.
    pub fn remove_connection(&mut self, connection_handle: u16)
        requires
            old(self)@.valid(),
        ensures
            final(self)@ == old(self)@.without(connection_handle),
            final(self)@.valid(),
    {
        let _ = self.take_connection(connection_handle);
        self.encrypted_handles.remove(&connection_handle);
        self.pending_disconnections.remove(&connection_handle);
        drop_connection(&mut self.pending_connection_controls, connection_handle);
        drop_connection(&mut self.connection_feature_errors, connection_handle);
        proof {
            lemma_filter_keeps_distinct(
                self@.pending_channel_sounding_configs,
                not_of_connection::<(u16, u8)>(connection_handle),
            );
        }
        drop_connection(&mut self.pending_channel_sounding_configs, connection_handle);
        drop_connection(&mut self.channel_sounding_errors, connection_handle);
        drop_connection(&mut self.channel_sounding_security_results, connection_handle);
        let ghost others = old(self)@.le_connections.remove(connection_handle);
        assert(self@.le_connections =~= others);
        assert(self.le_connections@.dom() =~= others.dom());
        if let Some(selected) = self.connection_handle {
            if selected == connection_handle {
                match first_handle(&self.le_connections) {
                    Some(next) => {
                        let _ = self.select(next);
                    },
                    None => {
                        self.connection_handle = None;
                        self.connection_role = None;
                        self.peer_address = None;
                    },
                }
            }
        }
        assert(self@ =~= old(self)@.without(connection_handle));
    }
}

impl ClassicState {
    /// Forget a connection.
    pub fn remove_connection(&mut self, connection_handle: u16)
        requires
            old(self)@.valid(),
        ensures
            final(self)@ == old(self)@.without(connection_handle),
            final(self)@.valid(),
    {
        let removed = self.take_connection(connection_handle);
        if let Some(connection) = removed {
            drop_selected(
                &mut self.classic_pairing_events,
                &PairingOf { connection_handle, peer_address: connection.peer_address },
            );
        }
        self.classic_link_keys.remove(&connection_handle);
        drop_connection(&mut self.synchronous_connections, connection_handle);
        let ghost others = old(self)@.classic_connections.remove(connection_handle);
        assert(self@.classic_connections =~= others);
        assert(self.classic_connections@.dom() =~= others.dom());
        if let Some(selected) = self.classic_connection_handle {
            if selected == connection_handle {
                match first_handle(&self.classic_connections) {
                    Some(next) => {
                        let _ = self.select(next);
                    },
                    None => {
                        self.classic_connection_handle = None;
                        self.classic_connection_role = None;
                    },
                }
            }
        }
        assert(self@ =~= old(self)@.without(connection_handle));
    }

    /// Whether a synchronous connection has a handle.
    pub fn has_synchronous(&self, connection_handle: u16) -> (found: bool)
        ensures
            found == exists|index: int|
                0 <= index < self@.synchronous_connections.len() && (
                #[trigger] self@.synchronous_connections[index]).connection_handle
                    == connection_handle,
    {
        let mut index: usize = 0;
        while index < self.synchronous_connections.len()
            invariant
                index <= self.synchronous_connections@.len(),
                forall|earlier: int|
                    0 <= earlier < index ==> (
                    #[trigger] self.synchronous_connections@[earlier]).connection_handle
                        != connection_handle,
            decreases self.synchronous_connections@.len() - index,
        {
            if self.synchronous_connections[index].connection_handle == connection_handle {
                assert(self@.synchronous_connections[index as int].connection_handle
                    == connection_handle);
                return true;
            }
            index += 1;
        }
        false
    }
}

impl IsoState {
    /// Forget a CIS.
    pub fn remove_connection(&mut self, connection_handle: u16)
        ensures
            final(self)@ == old(self)@.without(connection_handle),
    {
        self.cis_links.remove(&connection_handle);
        self.clear_stream(connection_handle);
        assert(self@ =~= old(self)@.without(connection_handle));
    }
}

impl ChannelState {
    /// Forget what one ATT bearer held.
    pub fn remove_att_bearer_state(&mut self, connection_handle: u16, source_cid: u16)
        ensures
            final(self)@ == old(self)@.bearer_removed(connection_handle, source_cid),
            old(self)@.valid() ==> final(self)@.valid(),
    {
        let bearer = OfBearer { connection_handle, source_cid };
        proof {
            if self@.valid() {
                lemma_filter_keeps_distinct(
                    self@.pending_att_indications,
                    not_selected::<(u16, u16), OfBearer>(bearer),
                );
            }
        }
        drop_selected(&mut self.eatt_inbox, &bearer);
        drop_selected(&mut self.pending_att_indications, &bearer);
        assert(self@ =~= old(self)@.bearer_removed(connection_handle, source_cid));
    }

    /// Forget what several ATT bearers held.
    pub fn remove_bearers(&mut self, bearers: &Vec<(u16, u16)>)
        ensures
            final(self)@ == old(self)@.bearers_removed(bearers@),
            old(self)@.valid() ==> final(self)@.valid(),
    {
        let mut index: usize = 0;
        assert(bearers@.take(0) =~= Seq::<(u16, u16)>::empty());
        while index < bearers.len()
            invariant
                index <= bearers@.len(),
                self@ == old(self)@.bearers_removed(bearers@.take(index as int)),
                old(self)@.valid() ==> self@.valid(),
            decreases bearers@.len() - index,
        {
            let bearer: (u16, u16) = bearers[index];
            self.remove_att_bearer_state(bearer.0, bearer.1);
            proof {
                let ghost next = bearers@.take(index + 1);
                assert(next.drop_last() =~= bearers@.take(index as int));
            }
            index += 1;
        }
        assert(bearers@.take(index as int) =~= bearers@);
    }

    /// Forget a connection's channels.
    pub fn remove_connection(&mut self, connection_handle: u16)
        ensures
            final(self)@ == old(self)@.without(connection_handle),
            old(self)@.valid() ==> final(self)@.valid(),
    {
        proof {
            if self@.valid() {
                lemma_filter_keeps_distinct(
                    self@.eatt_bearers,
                    not_of_connection::<(u16, u16)>(connection_handle),
                );
            }
        }
        let bearers = crate::retain::take_of_connection(&mut self.eatt_bearers, connection_handle);
        let ghost kept = self@.eatt_bearers;
        self.remove_att_bearer_state(connection_handle, ATT_CID);
        proof {
            lemma_bearers_apart(
                old(self)@.bearer_removed(connection_handle, ATT_CID),
                self@,
                bearers@,
            );
            lemma_bearers_keep(self@, bearers@);
            lemma_bearers_keep(old(self)@.bearer_removed(connection_handle, ATT_CID), bearers@);
        }
        self.remove_bearers(&bearers);
        drop_connection(&mut self.inbox, connection_handle);
        drop_connection(&mut self.l2cap_inbox, connection_handle);
        drop_connection(&mut self.le_credit_errors, connection_handle);
        drop_connection(&mut self.classic_channel_errors, connection_handle);
        assert(self@ =~= old(self)@.without(connection_handle));
    }
}

/// Removing bearers looks only at what bearers hold.
proof fn lemma_bearers_apart(first: ChannelView, second: ChannelView, bearers: Seq<(u16, u16)>)
    requires
        first.eatt_inbox == second.eatt_inbox,
        first.pending_att_indications == second.pending_att_indications,
    ensures
        first.bearers_removed(bearers).eatt_inbox == second.bearers_removed(bearers).eatt_inbox,
        first.bearers_removed(bearers).pending_att_indications == second.bearers_removed(
            bearers,
        ).pending_att_indications,
    decreases bearers.len(),
{
    if bearers.len() > 0 {
        lemma_bearers_apart(first, second, bearers.drop_last());
    }
}

/// Removing bearers changes only what bearers hold.
pub proof fn lemma_bearers_keep(channels: ChannelView, bearers: Seq<(u16, u16)>)
    ensures
        channels.bearers_removed(bearers) == (ChannelView {
            eatt_inbox: channels.bearers_removed(bearers).eatt_inbox,
            pending_att_indications: channels.bearers_removed(bearers).pending_att_indications,
            ..channels
        }),
    decreases bearers.len(),
{
    if bearers.len() > 0 {
        lemma_bearers_keep(channels, bearers.drop_last());
    }
}

impl SecurityState {
    /// Forget a connection's pairing.
    pub fn remove_connection(&mut self, connection_handle: u16)
        ensures
            final(self)@ == old(self)@.without(connection_handle),
    {
        drop_connection(&mut self.security_requests, connection_handle);
        self.pairing_encryption_started.remove(&connection_handle);
        self.pairing_terminal_handles.remove(&connection_handle);
        drop_connection(&mut self.pairing_errors, connection_handle);
        drop_connection(&mut self.long_term_key_requests, connection_handle);
        assert(self@ =~= old(self)@.without(connection_handle));
    }
}

impl Device {
    /// Whether a handle names something live.
    pub fn knows_connection(&self, connection_handle: u16) -> (known: bool)
        ensures
            known == self@.knows(connection_handle),
    {
        let le = self.le.le_connections.contains_key(&connection_handle);
        assert(le == self@.le.le_connections.contains_key(connection_handle));
        let classic = self.classic.classic_connections.contains_key(&connection_handle);
        assert(classic == self@.classic.classic_connections.contains_key(connection_handle));
        le || classic || self.iso.cis_links.contains_key(&connection_handle)
            || self.classic.has_synchronous(connection_handle)
    }

    /// A disconnection has ended.
    pub fn on_disconnection_complete(&mut self, status: u8, connection_handle: u16, reason: u8)
        requires
            old(self).wf(),
        ensures
            final(self).wf(),
            final(self)@ == old(self)@.disconnected(status, connection_handle, reason),
    {
        let known = self.knows_connection(connection_handle);
        if status != 0 {
            self.le.pending_disconnections.remove(&connection_handle);
            if known {
                self.journal.emit(
                    DeviceEvent::DisconnectionFailed { connection_handle, status },
                );
            }
        } else {
            self.le.remove_connection(connection_handle);
            self.classic.remove_connection(connection_handle);
            self.iso.remove_connection(connection_handle);
            self.pools.flush(connection_handle);
            self.channels.remove_connection(connection_handle);
            self.security.remove_connection(connection_handle);
            if known {
                self.journal.emit(DeviceEvent::Disconnected { connection_handle, reason });
            }
            self.follow_up = Some(FollowUp::ReleaseConnection { connection_handle });
        }
        assert(self@ =~= old(self)@.disconnected(status, connection_handle, reason));
    }
}

} // verus!
