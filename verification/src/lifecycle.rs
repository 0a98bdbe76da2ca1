//! Power, reset and the loss of everything at once.

use crate::device::{Device, DeviceView};
use crate::events::{DeviceEvent, DeviceEventView};
use crate::ordered::{lemma_one_listing_u16, lists_u16, sorted, sorted_handles};
use crate::setup::SetupView;
use crate::state::{
    ChannelState, ChannelView, ClassicState, ClassicView, IsoState, IsoView, LeState, LeView,
    LookupState, LookupView, SecurityState, SecurityView,
};
use std::collections::{BTreeMap, BTreeSet};
use vstd::prelude::*;

verus! {

broadcast use vstd::laws_cmp::group_laws_cmp;

/// The end of each connection, without a reason.
pub open spec fn disconnections(handles: Seq<u16>) -> Seq<DeviceEventView> {
    handles.map_values(
        |handle: u16| DeviceEventView::Disconnected { connection_handle: handle, reason: 0 },
    )
}

impl LeView {
    /// The state without any connection.
    pub open spec fn flushed(self) -> LeView {
        LeView {
            connection_handle: None,
            connection_role: None,
            peer_address: None,
            le_connections: Map::empty(),
            encrypted_handles: Set::empty(),
            le_connecting: false,
            pending_connection_controls: Seq::empty(),
            pending_disconnections: Set::empty(),
            pending_channel_sounding_configs: Seq::empty(),
            ..self
        }
    }
}

impl ClassicView {
    /// The state without any connection.
    pub open spec fn flushed(self) -> ClassicView {
        ClassicView {
            classic_connection_handle: None,
            classic_connection_role: None,
            classic_connections: Map::empty(),
            classic_link_keys: Map::empty(),
            pending_classic_roles: Seq::empty(),
            pending_remote_name_commands: Seq::empty(),
            pending_remote_name_requests: Seq::empty(),
            synchronous_connections: Seq::empty(),
            synchronous_requests: Seq::empty(),
            synchronous_inbox: Seq::empty(),
            ..self
        }
    }
}

impl IsoView {
    /// The state with several streams forgotten but for their links.
    pub open spec fn streams_cleared(self, handles: Seq<u16>) -> IsoView
        decreases handles.len(),
    {
        if handles.len() == 0 {
            self
        } else {
            self.streams_cleared(handles.drop_last()).stream_cleared(handles.last())
        }
    }

    /// The state without any connection, given those that were live.
    pub open spec fn flushed(self, handles: Seq<u16>) -> IsoView {
        let cleared = self.streams_cleared(handles);
        IsoView {
            cis_requests: Seq::empty(),
            cis_links: Map::empty(),
            pending_iso_data_path_setups: Seq::empty(),
            pending_iso_data_path_removals: Seq::empty(),
            pending_iso_tx_syncs: Seq::empty(),
            ..cleared
        }
    }
}

impl ChannelView {
    /// The state without any channel.
    pub open spec fn flushed(self) -> ChannelView {
        ChannelView {
            inbox: Seq::empty(),
            eatt_inbox: Seq::empty(),
            eatt_bearers: Seq::empty(),
            pending_att_indications: Seq::empty(),
            l2cap_inbox: Seq::empty(),
            ..self
        }
    }
}

impl SecurityView {
    /// The state without any pairing.
    pub open spec fn flushed(self) -> SecurityView {
        SecurityView {
            security_requests: Seq::empty(),
            pairing_encryption_started: Set::empty(),
            pairing_terminal_handles: Set::empty(),
            long_term_key_requests: Seq::empty(),
            ..self
        }
    }
}

impl LookupView {
    /// The state without any pending lookup.
    pub open spec fn flushed(self) -> LookupView {
        LookupView {
            pending_peer_lookups: Map::empty(),
            peer_lookup_started_scanning: None,
            peer_lookup_started_discovery: false,
            ..self
        }
    }
}

impl DeviceView {
    /// The handles of everything that is live.
    pub open spec fn live(self) -> Set<u16> {
        Set::new(|handle: u16| self.knows(handle))
    }

    /// Everything is lost at once: first the loss is announced, and then, with
    /// all state gone, the end of each connection.
    pub open spec fn flushed(self) -> DeviceView {
        let handles = sorted(self.live());
        DeviceView {
            setup: SetupView { pending_lmp_pages: Seq::empty(), ..self.setup },
            le: self.le.flushed(),
            classic: self.classic.flushed(),
            iso: self.iso.flushed(handles),
            pools: self.pools.flushed_all(),
            channels: self.channels.flushed(),
            security: self.security.flushed(),
            lookups: self.lookups.flushed(),
            journal: self.journal.emitted(DeviceEventView::Flush).emitted_all(
                disconnections(handles),
            ),
            ..self
        }
    }
}

impl LeState {
    /// Forget every connection.
    pub fn flush(&mut self)
        ensures
            final(self)@ == old(self)@.flushed(),
            final(self)@.valid(),
    {
        self.connection_handle = None;
        self.connection_role = None;
        self.peer_address = None;
        self.le_connections.clear();
        self.encrypted_handles = BTreeSet::new();
        self.le_connecting = false;
        self.pending_connection_controls.clear();
        self.pending_disconnections = BTreeSet::new();
        self.pending_channel_sounding_configs.clear();
        assert(self@.le_connections =~= Map::empty());
        assert(self@.le_connections.dom() =~= Set::<u16>::empty());
        assert(self@ =~= old(self)@.flushed());
    }
}

impl ClassicState {
    /// Forget every connection.
    pub fn flush(&mut self)
        ensures
            final(self)@ == old(self)@.flushed(),
            final(self)@.valid(),
    {
        self.classic_connection_handle = None;
        self.classic_connection_role = None;
        self.classic_connections.clear();
        self.classic_link_keys.clear();
        self.pending_classic_roles.clear();
        self.pending_remote_name_commands.clear();
        self.pending_remote_name_requests.clear();
        self.synchronous_connections.clear();
        self.synchronous_requests.clear();
        self.synchronous_inbox.clear();
        assert(self@.classic_connections =~= Map::empty());
        assert(self@.classic_connections.dom() =~= Set::<u16>::empty());
        assert(self@ =~= old(self)@.flushed());
    }
}

impl IsoState {
    /// Forget every connection, given those that were live.
    pub fn flush(&mut self, handles: &Vec<u16>)
        ensures
            final(self)@ == old(self)@.flushed(handles@),
    {
        let mut index: usize = 0;
        assert(handles@.take(0) =~= Seq::<u16>::empty());
        while index < handles.len()
            invariant
                index <= handles@.len(),
                self@ == old(self)@.streams_cleared(handles@.take(index as int)),
            decreases handles@.len() - index,
        {
            self.clear_stream(handles[index]);
            proof {
                let ghost next = handles@.take(index + 1);
                assert(next.drop_last() =~= handles@.take(index as int));
            }
            index += 1;
        }
        assert(handles@.take(index as int) =~= handles@);
        self.cis_requests.clear();
        self.cis_links.clear();
        self.pending_iso_data_path_setups.clear();
        self.pending_iso_data_path_removals.clear();
        self.pending_iso_tx_syncs.clear();
        assert(self@ =~= old(self)@.flushed(handles@));
    }
}

impl ChannelState {
    /// Forget every channel.
    pub fn flush(&mut self)
        ensures
            final(self)@ == old(self)@.flushed(),
    {
        self.inbox.clear();
        self.eatt_inbox.clear();
        self.eatt_bearers.clear();
        self.pending_att_indications.clear();
        self.l2cap_inbox.clear();
        assert(self@ =~= old(self)@.flushed());
    }
}

impl SecurityState {
    /// Forget every pairing.
    pub fn flush(&mut self)
        ensures
            final(self)@ == old(self)@.flushed(),
    {
        self.security_requests.clear();
        self.pairing_encryption_started = BTreeSet::new();
        self.pairing_terminal_handles = BTreeSet::new();
        self.long_term_key_requests.clear();
        assert(self@ =~= old(self)@.flushed());
    }
}

impl LookupState {
    /// Forget every pending lookup.
    pub fn flush(&mut self)
        ensures
            final(self)@ == old(self)@.flushed(),
    {
        self.pending_peer_lookups.clear();
        self.peer_lookup_started_scanning = None;
        self.peer_lookup_started_discovery = false;
        assert(self@.pending_peer_lookups =~= Map::empty());
        assert(self@ =~= old(self)@.flushed());
    }
}

impl Device {
    /// The handles of everything that is live, in ascending order.
    pub fn live_handles(&self) -> (handles: Vec<u16>)
        ensures
            handles@ == sorted(self@.live()),
            lists_u16(handles@, self@.live()),
    {
        let mut found: BTreeMap<u16, ()> = BTreeMap::new();
        let le = sorted_handles(&self.le.le_connections);
        let classic = sorted_handles(&self.classic.classic_connections);
        let cis = sorted_handles(&self.iso.cis_links);
        add_handles(&mut found, &le);
        add_handles(&mut found, &classic);
        add_handles(&mut found, &cis);
        let mut synchronous: Vec<u16> = Vec::new();
        let mut index: usize = 0;
        while index < self.classic.synchronous_connections.len()
            invariant
                index <= self.classic.synchronous_connections@.len(),
                synchronous@.len() == index,
                forall|place: int|
                    0 <= place < index ==> #[trigger] synchronous@[place]
                        == self.classic.synchronous_connections@[place].connection_handle,
            decreases self.classic.synchronous_connections@.len() - index,
        {
            synchronous.push(self.classic.synchronous_connections[index].connection_handle);
            index += 1;
        }
        add_handles(&mut found, &synchronous);
        let handles = sorted_handles(&found);
        proof {
            let live = self@.live();
            assert(found@.dom() =~= live) by {
                assert forall|handle: u16| #[trigger] found@.dom().contains(handle)
                    <==> live.contains(handle) by {
                    assert(le@.contains(handle) == self@.le.le_connections.contains_key(handle));
                    assert(classic@.contains(handle)
                        == self@.classic.classic_connections.contains_key(handle));
                    assert(cis@.contains(handle) == self@.iso.cis_links.contains_key(handle));
                    if synchronous@.contains(handle) {
                        let place = choose|place: int|
                            0 <= place < synchronous@.len() && synchronous@[place] == handle;
                        assert(self@.classic.synchronous_connections[place].connection_handle
                            == handle);
                    }
                    if exists|place: int|
                        0 <= place < self@.classic.synchronous_connections.len() && (
                        #[trigger] self@.classic.synchronous_connections[place]).connection_handle
                            == handle {
                        let place = choose|place: int|
                            0 <= place < self@.classic.synchronous_connections.len() && (
                            #[trigger] self@.classic.synchronous_connections[place]).connection_handle
                                == handle;
                        assert(synchronous@[place] == handle);
                    }
                }
            }
            assert(lists_u16(sorted(live), live));
            lemma_one_listing_u16(handles@, sorted(live), live);
        }
        handles
    }

    /// Flush all host-side connection state.
    ///
    /// The journal shows [`DeviceEvent::Flush`] first, then one zero-reason
    /// disconnection for every live LE, Classic, CIS, or synchronous connection
    /// after its state has been removed.
    pub fn flush(&mut self)
        requires
            old(self).wf(),
        ensures
            final(self).wf(),
            final(self)@ == old(self)@.flushed(),
    {
        let handles = self.live_handles();
        let ghost all = disconnections(handles@);
        self.journal.emit(DeviceEvent::Flush);
        self.setup.pending_local_lmp_feature_pages.clear();
        self.le.flush();
        self.classic.flush();
        self.iso.flush(&handles);
        self.pools.flush_all();
        self.channels.flush();
        self.security.flush();
        self.lookups.flush();
        let ghost announced = self.journal@;
        let mut index: usize = 0;
        assert(all.take(0) =~= Seq::<DeviceEventView>::empty());
        assert(self.journal@ =~= announced.emitted_all(all.take(0)));
        let ghost between = self@;
        while index < handles.len()
            invariant
                index <= handles@.len(),
                all == disconnections(handles@),
                self.wf(),
                self@ == (DeviceView {
                    journal: announced.emitted_all(all.take(index as int)),
                    ..between
                }),
                between.valid(),
            decreases handles@.len() - index,
        {
            self.journal.emit(
                DeviceEvent::Disconnected { connection_handle: handles[index], reason: 0 },
            );
            proof {
                assert(all.take(index + 1) =~= all.take(index as int).push(all[index as int]));
                assert(self.journal@ =~= announced.emitted_all(all.take(index + 1)));
                assert(self@ =~= (DeviceView {
                    journal: announced.emitted_all(all.take(index + 1)),
                    ..between
                }));
            }
            index += 1;
        }
        assert(all.take(index as int) =~= all);
        assert(self@ =~= old(self)@.flushed());
    }

    /// React to the loss of the HCI transport: everything is flushed.
    pub fn on_transport_lost(&mut self)
        requires
            old(self).wf(),
        ensures
            final(self).wf(),
            final(self)@ == old(self)@.flushed(),
    {
        self.flush();
    }
}

/// Add handles to those found.
fn add_handles(found: &mut BTreeMap<u16, ()>, handles: &Vec<u16>)
    ensures
        forall|handle: u16| #[trigger]
            final(found)@.dom().contains(handle) <==> (old(found)@.dom().contains(handle)
                || handles@.contains(handle)),
{
    let mut index: usize = 0;
    while index < handles.len()
        invariant
            index <= handles@.len(),
            forall|handle: u16| #[trigger]
                found@.dom().contains(handle) <==> (old(found)@.dom().contains(handle)
                    || handles@.take(index as int).contains(handle)),
        decreases handles@.len() - index,
    {
        let next: u16 = handles[index];
        let ghost earlier = handles@.take(index as int);
        found.insert(next, ());
        proof {
            let ghost later = handles@.take(index + 1);
            assert(later =~= earlier.push(next));
            assert forall|handle: u16| #[trigger] found@.dom().contains(handle) <==> (old(
                found,
            )@.dom().contains(handle) || later.contains(handle)) by {
                if earlier.contains(handle) {
                    let place = choose|place: int|
                        0 <= place < earlier.len() && earlier[place] == handle;
                    assert(later[place] == handle);
                }
                if handle == next {
                    assert(later[index as int] == handle);
                }
                if later.contains(handle) && handle != next {
                    let place = choose|place: int|
                        0 <= place < later.len() && later[place] == handle;
                    assert(earlier[place] == handle);
                }
            }
        }
        index += 1;
    }
    assert(handles@.take(index as int) =~= handles@);
}

} // verus!
