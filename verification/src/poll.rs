//! Taking packets from the transport and processing them.

use crate::device::{Device, DeviceView, FollowUp};
use crate::hci::HciPacket;
use crate::retain::take_all;
use crate::transport::{HostAction, HostTransport};
use vstd::prelude::*;

verus! {

impl DeviceView {
    /// Whether there is nothing to process: no packet waits, or something is
    /// left to be done for an earlier one.
    pub open spec fn rests(self) -> bool {
        self.inbound.len() == 0 || self.follow_up is Some
    }

    /// How the processing of the first packet that waits shows.
    pub open spec fn stepped(
        self,
        after: DeviceView,
        log_before: Seq<HostAction>,
        log_after: Seq<HostAction>,
    ) -> bool {
        &&& !self.rests()
        &&& after.inbound == self.inbound.skip(1)
        &&& exists|middle: DeviceView|
            {
                &&& #[trigger] (DeviceView { inbound: Seq::empty(), ..self }).packet_handled(
                    middle,
                    self.inbound[0],
                    log_before,
                    log_after,
                )
                &&& after == (DeviceView { inbound: after.inbound, ..middle })
            }
    }

    /// How the processing of a number of packets shows.
    pub open spec fn processed(
        self,
        after: DeviceView,
        count: nat,
        log_before: Seq<HostAction>,
        log_after: Seq<HostAction>,
    ) -> bool
        decreases count,
    {
        if count == 0 {
            after == self && log_after == log_before
        } else {
            exists|middle: DeviceView, log: Seq<HostAction>|
                {
                    &&& self.processed(middle, (count - 1) as nat, log_before, log)
                    &&& #[trigger] middle.stepped(after, log, log_after)
                }
        }
    }

    /// How work on the packets that wait shows: they are processed in order
    /// until one leaves something to be done, and the rest waits.
    pub open spec fn worked_off(
        self,
        after: DeviceView,
        log_before: Seq<HostAction>,
        log_after: Seq<HostAction>,
    ) -> bool {
        &&& after.rests()
        &&& exists|count: nat| #[trigger] self.processed(after, count, log_before, log_after)
    }

    /// A device with more packets behind those that wait.
    pub open spec fn with_inbound(self, taken: Seq<HciPacket>) -> DeviceView {
        DeviceView { inbound: self.inbound + taken, ..self }
    }

    /// The log after the device took packets from the transport.
    pub open spec fn drained(self, log: Seq<HostAction>, taken: Seq<HciPacket>) -> Seq<HostAction> {
        log.push(HostAction::Drain { controller_id: self.controller_id, packets: taken })
    }

    /// How a poll shows: what the transport had is taken behind what waits, and
    /// worked off.
    pub open spec fn polled(
        self,
        after: DeviceView,
        active: bool,
        log_before: Seq<HostAction>,
        log_after: Seq<HostAction>,
    ) -> bool {
        exists|taken: Seq<HciPacket>|
            {
                &&& active == (taken.len() > 0)
                &&& #[trigger] self.with_inbound(taken).worked_off(
                    after,
                    self.drained(log_before, taken),
                    log_after,
                )
            }
    }
}

impl Device {
    /// Take what the transport has for this device behind the packets that
    /// wait. Returns `true` if it had any.
    pub fn take_packets<L: HostTransport + ?Sized>(&mut self, link: &mut L) -> (active: bool)
        requires
            old(self).wf(),
        ensures
            final(self).wf(),
            exists|taken: Seq<HciPacket>|
                {
                    &&& active == (taken.len() > 0)
                    &&& final(self)@ == #[trigger] old(self)@.with_inbound(taken)
                    &&& final(link).log() == old(self)@.drained(old(link).log(), taken)
                },
    {
        let mut taken = link.drain_host_events(self.controller_id);
        let ghost drained = taken@;
        let active: bool = taken.len() > 0;
        self.inbound.append(&mut taken);
        assert(self@ =~= old(self)@.with_inbound(drained));
        active
    }

    /// Process the first packet that waits. Returns `false`, with nothing done,
    /// if there is none or something is left to be done for an earlier one.
    pub fn process_next<L: HostTransport + ?Sized>(&mut self, link: &mut L) -> (done: bool)
        requires
            old(self).wf(),
        ensures
            final(self).wf(),
            done == !old(self)@.rests(),
            if done {
                old(self)@.stepped(final(self)@, old(link).log(), final(link).log())
            } else {
                final(self)@ == old(self)@ && final(link).log() == old(link).log()
            },
    {
        if self.inbound.len() == 0 || self.follow_up.is_some() {
            return false;
        }
        let mut rest = take_all(&mut self.inbound);
        let packet = rest.remove(0);
        assert(rest@ =~= old(self)@.inbound.skip(1));
        assert(self@ =~= (DeviceView { inbound: Seq::empty(), ..old(self)@ }));
        self.process_packet(link, packet);
        let ghost middle = self@;
        self.inbound = rest;
        assert(self@ =~= (DeviceView { inbound: self@.inbound, ..middle }));
        true
    }

    /// Process packets in order until one leaves something to be done.
    fn work_off<L: HostTransport + ?Sized>(&mut self, link: &mut L)
        requires
            old(self).wf(),
        ensures
            final(self).wf(),
            old(self)@.worked_off(final(self)@, old(link).log(), final(link).log()),
    {
        let ghost before = self@;
        let ghost log_before = link.log();
        let ghost mut count: nat = 0;
        while self.inbound.len() > 0 && self.follow_up.is_none()
            invariant
                self.wf(),
                before.processed(self@, count, log_before, link.log()),
            decreases self.inbound@.len(),
        {
            let ghost middle = self@;
            let ghost log = link.log();
            self.process_next(link);
            proof {
                assert(middle.stepped(self@, log, link.log()));
                assert(before.processed(middle, ((count + 1) - 1) as nat, log_before, log));
                count = count + 1;
            }
        }
    }

    /// Drain and process this device's controller events. Returns `true` if
    /// the transport had any (used by [`crate::pump`] to detect quiescence).
    ///
    /// Processing pauses where a packet leaves something to be done outside of
    /// the device; see [`Device::take_follow_up`].
    pub fn poll<L: HostTransport + ?Sized>(&mut self, link: &mut L) -> (active: bool)
        requires
            old(self).wf(),
        ensures
            final(self).wf(),
            old(self)@.polled(final(self)@, active, old(link).log(), final(link).log()),
    {
        let active = self.take_packets(link);
        self.work_off(link);
        active
    }

    /// Take what the last processed packet leaves to be done.
    pub fn take_follow_up(&mut self) -> (follow_up: Option<FollowUp>)
        requires
            old(self).wf(),
        ensures
            final(self).wf(),
            follow_up == old(self).follow_up,
            final(self)@ == (DeviceView { follow_up: None, ..old(self)@ }),
    {
        let follow_up = self.follow_up.take();
        assert(self@ =~= (DeviceView { follow_up: None, ..old(self)@ }));
        follow_up
    }

    /// Go on with the packets that wait.
    pub fn resume<L: HostTransport + ?Sized>(&mut self, link: &mut L)
        requires
            old(self).wf(),
        ensures
            final(self).wf(),
            old(self)@.worked_off(final(self)@, old(link).log(), final(link).log()),
    {
        self.work_off(link);
    }
}

} // verus!
