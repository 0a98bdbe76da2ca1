//! The event journal and the registration of its listeners.

use crate::events::{DeviceEvent, DeviceEventListenerId, DeviceEventView};
use crate::ids::{first_free, free_id, next_id, spec_next_id};
use crate::state::{JournalState, JournalView};
use crate::retain::take_all;
use vstd::prelude::*;

verus! {

broadcast use vstd::laws_cmp::group_laws_cmp;

impl JournalView {
    /// One more event at the end of the journal.
    pub open spec fn emitted(self, event: DeviceEventView) -> JournalView {
        JournalView { device_events: self.device_events.push(event), ..self }
    }

    /// Several more events at the end of the journal.
    pub open spec fn emitted_all(self, events: Seq<DeviceEventView>) -> JournalView {
        JournalView { device_events: self.device_events + events, ..self }
    }
}

impl JournalState {
    /// Write an event to the journal.
    pub fn emit(&mut self, event: DeviceEvent)
        ensures
            final(self)@ == old(self)@.emitted(event@),
    {
        self.device_events.push(event);
        assert(self@ =~= old(self)@.emitted(event@));
    }

    /// Take the journal's events, oldest first.
    pub fn take(&mut self) -> (events: Vec<DeviceEvent>)
        ensures
            crate::events::event_views(events@) == old(self)@.device_events,
            final(self)@ == (JournalView { device_events: Seq::empty(), ..old(self)@ }),
    {
        let events = take_all(&mut self.device_events);
        assert(crate::events::event_views(events@) =~= old(self)@.device_events);
        assert(self@.device_events =~= Seq::<DeviceEventView>::empty());
        events
    }

    /// Register a listener under the next free identifier.
    pub fn add_listener(&mut self) -> (listener_id: DeviceEventListenerId)
        requires
            old(self)@.next_event_listener_id > 0,
            old(self)@.event_listeners.dom().len() < u64::MAX,
        ensures
            first_free(
                old(self)@.event_listeners.dom(),
                old(self)@.next_event_listener_id,
                listener_id,
            ),
            final(self)@ == (JournalView {
                event_listeners: old(self)@.event_listeners.insert(listener_id, ()),
                next_event_listener_id: spec_next_id(listener_id),
                ..old(self)@
            }),
            final(self)@.next_event_listener_id > 0,
    {
        let listener_id: u64 = free_id(&self.event_listeners, self.next_event_listener_id);
        self.next_event_listener_id = next_id(listener_id);
        self.event_listeners.insert(listener_id, ());
        listener_id
    }

    /// Forget a listener, and say whether there was one.
    pub fn remove_listener(&mut self, listener_id: DeviceEventListenerId) -> (removed: bool)
        ensures
            removed == old(self)@.event_listeners.contains_key(listener_id),
            final(self)@ == (JournalView {
                event_listeners: old(self)@.event_listeners.remove(listener_id),
                ..old(self)@
            }),
    {
        self.event_listeners.remove(&listener_id).is_some()
    }
}

} // verus!
