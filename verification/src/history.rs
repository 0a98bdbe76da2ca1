//! What becomes of packets over a whole history of calls of a packet queue.

use crate::data_queue::{lemma_filter_push, not_of_handle, QueueView};
use vstd::prelude::*;

verus! {

/// A call that changes a packet queue.
pub enum QueueCall<T> {
    Enqueue { packet: T, handle: u16 },
    PollReady,
    PacketsCompleted { count: nat, handle: u16 },
    Flush { handle: u16 },
    FlushAll,
}

impl<T> QueueCall<T> {
    /// Whether the call drops the waiting packets of a connection.
    pub open spec fn drops(self, handle: u16) -> bool {
        self == QueueCall::<T>::FlushAll || self == (QueueCall::<T>::Flush { handle })
    }
}

/// What has become of a packet that was accepted.
pub enum Fate {
    Waiting,
    Released,
    /// It was dropped by the call at this place in the history.
    Dropped { at: int },
}

impl<T> QueueView<T> {
    /// The queue after a call.
    pub open spec fn called(self, call: QueueCall<T>) -> Self {
        match call {
            QueueCall::Enqueue { packet, handle } => self.enqueued(packet, handle),
            QueueCall::PollReady => if self.ready() {
                self.polled()
            } else {
                self
            },
            QueueCall::PacketsCompleted { count, handle } => {
                let in_flight = self.connection_in_flight(handle);
                if !self.counters.contains_key(handle) {
                    self
                } else if count <= in_flight {
                    self.completed_for(handle, count)
                } else {
                    self.completed_for(handle, in_flight)
                }
            },
            QueueCall::Flush { handle } => self.flushed(handle),
            QueueCall::FlushAll => self.flushed_all(),
        }
    }

    /// The queue after a history of calls.
    pub open spec fn after(self, calls: Seq<QueueCall<T>>) -> Self
        decreases calls.len(),
    {
        if calls.len() == 0 {
            self
        } else {
            self.after(calls.drop_last()).called(calls.last())
        }
    }

    /// The packets that a history of calls hands out, in order.
    pub open spec fn released(self, calls: Seq<QueueCall<T>>) -> Seq<(T, u16)>
        decreases calls.len(),
    {
        if calls.len() == 0 {
            Seq::empty()
        } else {
            let earlier = self.released(calls.drop_last());
            let queue = self.after(calls.drop_last());
            if calls.last() == QueueCall::<T>::PollReady && queue.ready() {
                earlier.push(queue.waiting[0])
            } else {
                earlier
            }
        }
    }
}

/// The packets that a history of calls brings in, in order.
pub open spec fn accepted<T>(calls: Seq<QueueCall<T>>) -> Seq<(T, u16)>
    decreases calls.len(),
{
    if calls.len() == 0 {
        Seq::empty()
    } else {
        let earlier = accepted(calls.drop_last());
        match calls.last() {
            QueueCall::Enqueue { packet, handle } => earlier.push((packet, handle)),
            _ => earlier,
        }
    }
}

/// The packets with one fate, in order.
pub open spec fn of_fate<T>(packets: Seq<(T, u16)>, fates: Seq<Fate>, fate: Fate) -> Seq<(T, u16)>
    decreases packets.len(),
{
    if packets.len() == 0 {
        Seq::empty()
    } else {
        let earlier = of_fate(packets.drop_last(), fates.drop_last(), fate);
        if fates.last() == fate {
            earlier.push(packets.last())
        } else {
            earlier
        }
    }
}

/// Whether no packet is handed out before one that came earlier and still waits.
pub open spec fn in_order(fates: Seq<Fate>) -> bool {
    forall|earlier: int, later: int|
        0 <= earlier < later < fates.len() && #[trigger] fates[later] == Fate::Released
            ==> #[trigger] fates[earlier] != Fate::Waiting
}

/// Whether fates tell a history: those handed out and those that wait are what
/// they say, in the order in which they came, and only a call that drops a
/// packet's connection drops it.
pub open spec fn tells<T>(start: QueueView<T>, calls: Seq<QueueCall<T>>, fates: Seq<Fate>) -> bool {
    &&& fates.len() == accepted(calls).len()
    &&& start.released(calls) == of_fate(accepted(calls), fates, Fate::Released)
    &&& start.after(calls).waiting == of_fate(accepted(calls), fates, Fate::Waiting)
    &&& in_order(fates)
    &&& forall|index: int|
        0 <= index < fates.len() ==> ((#[trigger] fates[index]) matches Fate::Dropped { at }
            ==> 0 <= at < calls.len() && calls[at].drops(accepted(calls)[index].1))
}

/// No packet has a fate that does not occur.
proof fn lemma_no_such_fate<T>(packets: Seq<(T, u16)>, fates: Seq<Fate>, fate: Fate)
    requires
        packets.len() == fates.len(),
        !fates.contains(fate),
    ensures
        of_fate(packets, fates, fate) == Seq::<(T, u16)>::empty(),
    decreases packets.len(),
{
    if packets.len() > 0 {
        assert(fates[fates.len() - 1] == fates.last());
        assert(!fates.drop_last().contains(fate)) by {
            if fates.drop_last().contains(fate) {
                let place = choose|place: int|
                    0 <= place < fates.len() - 1 && fates.drop_last()[place] == fate;
                assert(fates[place] == fate);
            }
        }
        lemma_no_such_fate(packets.drop_last(), fates.drop_last(), fate);
    }
}

/// Handing out the first packet that waits.
proof fn lemma_first_released<T>(packets: Seq<(T, u16)>, fates: Seq<Fate>) -> (place: int)
    requires
        packets.len() == fates.len(),
        fates.contains(Fate::Waiting),
        in_order(fates),
    ensures
        0 <= place < fates.len(),
        fates[place] == Fate::Waiting,
        forall|earlier: int| 0 <= earlier < place ==> #[trigger] fates[earlier] != Fate::Waiting,
        of_fate(packets, fates, Fate::Waiting).len() > 0,
        of_fate(packets, fates, Fate::Waiting)[0] == packets[place],
        of_fate(packets, fates.update(place, Fate::Released), Fate::Waiting) == of_fate(
            packets,
            fates,
            Fate::Waiting,
        ).skip(1),
        of_fate(packets, fates.update(place, Fate::Released), Fate::Released) == of_fate(
            packets,
            fates,
            Fate::Released,
        ).push(packets[place]),
    decreases packets.len(),
{
    let last = fates.len() - 1;
    let earlier = fates.drop_last();
    if earlier.contains(Fate::Waiting) {
        assert(in_order(earlier)) by {
            assert forall|first: int, second: int|
                0 <= first < second < earlier.len() && #[trigger] earlier[second]
                    == Fate::Released implies #[trigger] earlier[first] != Fate::Waiting by {
                assert(fates[second] == Fate::Released);
                assert(fates[first] == earlier[first]);
            }
        }
        let place = lemma_first_released(packets.drop_last(), earlier);
        assert(fates[place] == Fate::Waiting);
        assert(fates[last] != Fate::Released);
        let updated = fates.update(place, Fate::Released);
        assert(updated.drop_last() =~= earlier.update(place, Fate::Released));
        let waiting = of_fate(packets.drop_last(), earlier, Fate::Waiting);
        if fates[last] == Fate::Waiting {
            assert(waiting.push(packets.last()).skip(1) =~= waiting.skip(1).push(packets.last()));
        }
        assert forall|index: int| 0 <= index < place implies #[trigger] fates[index]
            != Fate::Waiting by {
            assert(earlier[index] == fates[index]);
        }
        place
    } else {
        lemma_no_such_fate(packets.drop_last(), earlier, Fate::Waiting);
        let found = choose|found: int| 0 <= found < fates.len() && fates[found] == Fate::Waiting;
        if found < last {
            assert(earlier[found] == Fate::Waiting);
        }
        let updated = fates.update(last, Fate::Released);
        assert(updated.drop_last() =~= earlier);
        assert(updated.last() == Fate::Released);
        assert(of_fate(packets, fates, Fate::Waiting).skip(1) =~= Seq::<(T, u16)>::empty());
        assert forall|index: int| 0 <= index < last implies #[trigger] fates[index]
            != Fate::Waiting by {
            assert(earlier[index] == fates[index]);
        }
        last
    }
}

/// The fates after a call that drops what waits of some connections.
pub open spec fn dropped<T>(
    packets: Seq<(T, u16)>,
    fates: Seq<Fate>,
    call: QueueCall<T>,
    at: int,
) -> Seq<Fate> {
    Seq::new(
        fates.len(),
        |index: int|
            if fates[index] == Fate::Waiting && call.drops(packets[index].1) {
                Fate::Dropped { at }
            } else {
                fates[index]
            },
    )
}

/// Dropping leaves what was handed out, and of what waits the packets of other
/// connections.
proof fn lemma_dropped<T>(
    packets: Seq<(T, u16)>,
    fates: Seq<Fate>,
    call: QueueCall<T>,
    at: int,
)
    requires
        packets.len() == fates.len(),
    ensures
        of_fate(packets, dropped(packets, fates, call, at), Fate::Released) == of_fate(
            packets,
            fates,
            Fate::Released,
        ),
        call matches QueueCall::Flush { handle } ==> of_fate(
            packets,
            dropped(packets, fates, call, at),
            Fate::Waiting,
        ) == of_fate(packets, fates, Fate::Waiting).filter(not_of_handle(handle)),
        call == QueueCall::<T>::FlushAll ==> of_fate(
            packets,
            dropped(packets, fates, call, at),
            Fate::Waiting,
        ) == Seq::<(T, u16)>::empty(),
    decreases packets.len(),
{
    if packets.len() == 0 {
        reveal(Seq::filter);
    } else {
        lemma_dropped(packets.drop_last(), fates.drop_last(), call, at);
        assert(dropped(packets, fates, call, at).drop_last() =~= dropped(
            packets.drop_last(),
            fates.drop_last(),
            call,
            at,
        ));
        if let QueueCall::Flush { handle } = call {
            lemma_filter_push(
                of_fate(packets.drop_last(), fates.drop_last(), Fate::Waiting),
                packets.last(),
                not_of_handle(handle),
            );
        }
    }
}

/// First in, first out, over any history of calls of a queue that starts empty:
/// every packet that was accepted waits, was handed out once, or was dropped by a
/// call that drops its connection; those that were handed out came out in the
/// order in which they went in, and none before an earlier one that still waits.
pub proof fn lemma_history_is_first_in_first_out<T>(
    start: QueueView<T>,
    calls: Seq<QueueCall<T>>,
) -> (fates: Seq<Fate>)
    requires
        start.waiting.len() == 0,
    ensures
        tells(start, calls, fates),
    decreases calls.len(),
{
    if calls.len() == 0 {
        let fates = Seq::<Fate>::empty();
        assert(start.waiting =~= Seq::<(T, u16)>::empty());
        fates
    } else {
        let past = calls.drop_last();
        let at = calls.len() - 1;
        let earlier = lemma_history_is_first_in_first_out(start, past);
        let packets = accepted(past);
        let queue = start.after(past);
        let fates = match calls.last() {
            QueueCall::Enqueue { packet, handle } => {
                let fates = earlier.push(Fate::Waiting);
                assert(fates.drop_last() =~= earlier);
                assert(accepted(calls).drop_last() =~= packets);
                assert(in_order(fates));
                fates
            },
            QueueCall::PollReady => {
                if queue.ready() {
                    if !earlier.contains(Fate::Waiting) {
                        lemma_no_such_fate(packets, earlier, Fate::Waiting);
                    }
                    let place = lemma_first_released(packets, earlier);
                    let fates = earlier.update(place, Fate::Released);
                    assert(queue.polled().waiting =~= queue.waiting.skip(1));
                    assert(in_order(fates));
                    fates
                } else {
                    earlier
                }
            },
            QueueCall::PacketsCompleted { .. } => earlier,
            QueueCall::Flush { .. } | QueueCall::FlushAll => {
                let fates = dropped(packets, earlier, calls.last(), at);
                lemma_dropped(packets, earlier, calls.last(), at);
                assert(in_order(fates)) by {
                    assert forall|first: int, second: int|
                        0 <= first < second < fates.len() && #[trigger] fates[second]
                            == Fate::Released implies #[trigger] fates[first]
                        != Fate::Waiting by {
                        assert(earlier[second] == Fate::Released);
                        assert(earlier[first] != Fate::Waiting);
                    }
                }
                fates
            },
        };
        assert forall|index: int| 0 <= index < fates.len() implies ((
        #[trigger] fates[index]) matches Fate::Dropped { at: place } ==> 0 <= place < calls.len()
            && calls[place].drops(accepted(calls)[index].1)) by {
            if let Fate::Dropped { at: place } = fates[index] {
                if place < at {
                    assert(earlier[index] == fates[index]);
                    assert(calls[place] == past[place]);
                }
            }
        }
        fates
    }
}

} // verus!
