//! Driving devices until no further packets flow.

use crate::device::{Device, DeviceView};
use crate::transport::{advanced, HostAction, HostTransport, LinkStep};
use vstd::prelude::*;

verus! {

/// How many rounds a pump makes at most.
pub const MAX_PUMP_ROUNDS: usize = 64;

/// The log after the link was let go on between two rounds.
pub open spec fn link_advanced(log: Seq<HostAction>) -> Seq<HostAction> {
    advanced(
        advanced(
            advanced(advanced(log, LinkStep::LinkLayer), LinkStep::Classic),
            LinkStep::PeriodicSyncTransfers,
        ),
        LinkStep::BigTerminations,
    )
}

/// How far a pump has got. In every round the link goes on and each device has
/// its turn; after a round in which no device found anything, and after the
/// last round that is allowed, the pump is over.
#[derive(Clone, Copy, Debug, PartialEq, Eq, Structural)]
pub struct Pump {
    /// How many devices there are.
    pub count: usize,
    /// How many rounds have begun.
    pub rounds: usize,
    /// Whose turn it is; the number of devices between two rounds.
    pub turn: usize,
    /// Whether a device found something in this round.
    pub active: bool,
    /// Whether the device whose turn it is has polled already, and waits for
    /// what a packet left to be done.
    pub polled: bool,
}

impl Pump {
    /// A pump that has not begun.
    pub open spec fn spec_new(count: usize) -> Pump {
        Pump { count, rounds: 0, turn: count, active: true, polled: false }
    }

    /// What holds of every pump.
    pub open spec fn wf(self) -> bool {
        self.rounds <= MAX_PUMP_ROUNDS && self.turn <= self.count
    }

    /// Whether a new round is due.
    pub open spec fn begins_round(self) -> bool {
        self.turn == self.count && self.active && self.rounds < MAX_PUMP_ROUNDS
    }

    /// The pump where the next turn is, if there is one.
    pub open spec fn entered(self) -> Pump {
        if self.begins_round() {
            Pump {
                rounds: (self.rounds + 1) as usize,
                turn: 0,
                active: false,
                polled: false,
                ..self
            }
        } else {
            self
        }
    }

    /// The log where the next turn is, if there is one.
    pub open spec fn log_entered(self, log: Seq<HostAction>) -> Seq<HostAction> {
        if self.begins_round() {
            link_advanced(log)
        } else {
            log
        }
    }

    /// The pump after a device did something in its turn, which ends there
    /// unless the device waits.
    pub open spec fn turned(self, active: bool, waits: bool) -> Pump {
        Pump {
            active: self.active || active,
            polled: waits,
            turn: if waits {
                self.turn
            } else {
                (self.turn + 1) as usize
            },
            ..self
        }
    }

    /// How a device's turn shows: it polls, or goes on where it has waited.
    pub open spec fn served(
        self,
        after: Pump,
        device: DeviceView,
        device_after: DeviceView,
        log_before: Seq<HostAction>,
        log_after: Seq<HostAction>,
    ) -> bool {
        if self.polled {
            &&& device.worked_off(device_after, log_before, log_after)
            &&& after == self.turned(false, device_after.follow_up is Some)
        } else {
            exists|active: bool|
                {
                    &&& #[trigger] device.polled(device_after, active, log_before, log_after)
                    &&& after == self.turned(active, device_after.follow_up is Some)
                }
        }
    }

    /// How the next turn shows.
    pub open spec fn turn_made(
        self,
        after: Pump,
        devices: Seq<DeviceView>,
        devices_after: Seq<DeviceView>,
        log_before: Seq<HostAction>,
        log_after: Seq<HostAction>,
    ) -> bool {
        let entered = self.entered();
        let index = entered.turn as int;
        &&& index < entered.count
        &&& devices_after == devices.update(index, devices_after[index])
        &&& entered.served(
            after,
            devices[index],
            devices_after[index],
            self.log_entered(log_before),
            log_after,
        )
    }

    /// How a number of turns in which no device is left waiting shows.
    pub open spec fn turns_made(
        self,
        after: Pump,
        count: nat,
        devices: Seq<DeviceView>,
        devices_after: Seq<DeviceView>,
        log_before: Seq<HostAction>,
        log_after: Seq<HostAction>,
    ) -> bool
        decreases count,
    {
        if count == 0 {
            after == self && devices_after == devices && log_after == log_before
        } else {
            exists|middle: Pump, views: Seq<DeviceView>, log: Seq<HostAction>|
                {
                    &&& self.turns_made(middle, (count - 1) as nat, devices, views, log_before, log)
                    &&& #[trigger] middle.turn_made(after, views, devices_after, log, log_after)
                    &&& !after.polled
                }
        }
    }

    /// How a run shows: turns are made until one leaves its device waiting, or
    /// until the pump is over.
    pub open spec fn ran(
        self,
        after: Pump,
        waits: Option<usize>,
        devices: Seq<DeviceView>,
        devices_after: Seq<DeviceView>,
        log_before: Seq<HostAction>,
        log_after: Seq<HostAction>,
    ) -> bool {
        exists|middle: Pump, count: nat, views: Seq<DeviceView>, log: Seq<HostAction>|
            {
                &&& #[trigger] self.turns_made(middle, count, devices, views, log_before, log)
                &&& match waits {
                    Some(index) => {
                        &&& middle.turn_made(after, views, devices_after, log, log_after)
                        &&& after.polled
                        &&& index == after.turn
                    },
                    None => {
                        &&& after == middle.entered()
                        &&& after.turn == after.count
                        &&& devices_after == views
                        &&& log_after == middle.log_entered(log)
                    },
                }
            }
    }

    /// A pump that has not begun.
    pub fn new(count: usize) -> (pump: Pump)
        ensures
            pump == Pump::spec_new(count),
            pump.wf(),
    {
        Pump { count, rounds: 0, turn: count, active: true, polled: false }
    }

    /// Whose turn is next, if the pump is not over. The link goes on where a
    /// new round begins.
    pub fn next<L: HostTransport + ?Sized>(&mut self, link: &mut L) -> (index: Option<usize>)
        requires
            old(self).wf(),
        ensures
            final(self).wf(),
            *final(self) == old(self).entered(),
            final(link).log() == old(self).log_entered(old(link).log()),
            index == if final(self).turn < final(self).count {
                Some(final(self).turn)
            } else {
                None
            },
    {
        if self.turn == self.count && self.active && self.rounds < MAX_PUMP_ROUNDS {
            link.pump_ll();
            link.pump_classic();
            link.pump_periodic_sync_transfers();
            link.pump_big_terminations();
            self.rounds = self.rounds + 1;
            self.turn = 0;
            self.active = false;
            self.polled = false;
        }
        if self.turn < self.count {
            Some(self.turn)
        } else {
            None
        }
    }

    /// Note what a device did in its turn: whether it found something, and
    /// whether it waits for what a packet left to be done.
    pub fn end_turn(&mut self, active: bool, waits: bool)
        requires
            old(self).wf(),
            old(self).turn < old(self).count,
        ensures
            final(self).wf(),
            *final(self) == old(self).turned(active, waits),
    {
        if active {
            self.active = true;
        }
        self.polled = waits;
        if !waits {
            self.turn = self.turn + 1;
        }
    }

    /// Let a device have its turn. Returns `true` where it waits for what a
    /// packet left to be done: it is then served again, and goes on.
    pub fn serve<L: HostTransport + ?Sized>(&mut self, link: &mut L, device: &mut Device) -> (waits:
        bool)
        requires
            old(self).wf(),
            old(self).turn < old(self).count,
            old(device).wf(),
        ensures
            final(self).wf(),
            final(device).wf(),
            waits == (final(device)@.follow_up is Some),
            old(self).served(
                *final(self),
                old(device)@,
                final(device)@,
                old(link).log(),
                final(link).log(),
            ),
    {
        let mut active: bool = false;
        if self.polled {
            device.resume(link);
        } else {
            active = device.poll(link);
        }
        let waits: bool = device.follow_up.is_some();
        self.end_turn(active, waits);
        waits
    }

    /// Let devices have their turns until one of them waits, which is named, or
    /// until the pump is over.
    ///
    /// A device that waits is owed what [`Device::take_follow_up`] gives. Once
    /// that is done, another run goes on with the same turn.
    pub fn run<L: HostTransport + ?Sized>(&mut self, link: &mut L, devices: &mut [Device]) -> (waits:
        Option<usize>)
        requires
            old(self).wf(),
            old(self).count == old(devices)@.len(),
            all_wf(old(devices)@),
        ensures
            final(self).wf(),
            final(self).count == old(self).count,
            all_wf(final(devices)@),
            old(self).ran(
                *final(self),
                waits,
                device_views(old(devices)@),
                device_views(final(devices)@),
                old(link).log(),
                final(link).log(),
            ),
    {
        let ghost start = *self;
        let ghost before = device_views(devices@);
        let ghost log_before = link.log();
        let ghost mut made: nat = 0;
        loop
            invariant
                self.wf(),
                start == *old(self),
                before == device_views(old(devices)@),
                log_before == old(link).log(),
                self.count == start.count == devices@.len(),
                all_wf(devices@),
                start.turns_made(
                    *self,
                    made,
                    before,
                    device_views(devices@),
                    log_before,
                    link.log(),
                ),
            decreases MAX_PUMP_ROUNDS - self.rounds, self.count - self.turn,
        {
            let ghost middle = *self;
            let ghost views = device_views(devices@);
            let ghost log = link.log();
            let index: usize = match self.next(link) {
                Some(index) => index,
                None => {
                    return None;
                },
            };
            assert(devices@[index as int].wf());
            assert(views[index as int] == devices@[index as int]@);
            let ghost listed = devices@;
            let waits: bool = self.serve(link, &mut devices[index]);
            proof {
                assert(devices@ =~= listed.update(index as int, devices@[index as int]));
                assert(device_views(devices@) =~= views.update(
                    index as int,
                    device_views(devices@)[index as int],
                ));
                assert(middle.turn_made(
                    *self,
                    views,
                    device_views(devices@),
                    log,
                    link.log(),
                ));
            }
            if waits {
                return Some(index);
            }
            proof {
                assert(start.turns_made(
                    middle,
                    ((made + 1) - 1) as nat,
                    before,
                    views,
                    log_before,
                    log,
                ));
                made = made + 1;
            }
        }
    }
}

/// The contents of a list of devices.
pub open spec fn device_views(devices: Seq<Device>) -> Seq<DeviceView> {
    devices.map_values(|device: Device| device@)
}

/// Whether every device is well formed.
pub open spec fn all_wf(devices: Seq<Device>) -> bool {
    forall|index: int| 0 <= index < devices.len() ==> (#[trigger] devices[index]).wf()
}

/// Drive the devices until no further packets flow (quiescence). Each round
/// polls every device; the loop ends when a full round consumes nothing.
///
/// The cap is a safety backstop: a request/response exchange settles in a few
/// rounds because each ACL packet is consumed once and the server answers each
/// request exactly once.
///
/// The pump also ends where a packet leaves something to be done outside of a
/// device, and returns whose it is. To go on from there, keep a [`Pump`] and
/// let it run again once that has been done.
pub fn pump<L: HostTransport + ?Sized>(link: &mut L, devices: &mut [Device]) -> (waits: Option<
    usize,
>)
    requires
        all_wf(old(devices)@),
    ensures
        all_wf(final(devices)@),
        exists|after: Pump| #[trigger]
            Pump::spec_new(old(devices)@.len() as usize).ran(
                after,
                waits,
                device_views(old(devices)@),
                device_views(final(devices)@),
                old(link).log(),
                final(link).log(),
            ),
{
    let mut pump = Pump::new(devices.len());
    let waits = pump.run(link, devices);
    assert(Pump::spec_new(old(devices)@.len() as usize).ran(
        pump,
        waits,
        device_views(old(devices)@),
        device_views(devices@),
        old(link).log(),
        link.log(),
    ));
    waits
}

} // verus!
