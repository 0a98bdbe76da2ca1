//! Host-to-controller packet flow control.
//!
//! A [`DataPacketQueue`] keeps packets in arrival order, lets at most
//! `max_in_flight` of them be in the controller at a time, and counts the
//! packets of each connection so that completions and flushes can be accounted
//! for exactly.

use std::collections::{BTreeMap, VecDeque};
use vstd::prelude::*;

verus! {

broadcast use vstd::laws_cmp::group_laws_cmp;

#[derive(Clone, Debug, PartialEq, Eq)]
pub enum DataPacketQueueError {
    ZeroCapacity,
    UnknownConnection(u16),
    CompletionOverflow { connection_handle: u16, completed: usize, in_flight: usize },
}

/// The number of packets counted by a table of per-connection counters.
pub open spec fn total(counters: Map<u16, usize>) -> nat
    decreases counters.dom().len(),
{
    if counters.dom().finite() && counters.dom().len() > 0 {
        let handle = counters.dom().choose();
        counters[handle] as nat + total(counters.remove(handle))
    } else {
        0
    }
}

/// Taking one counter out of a table takes exactly its count out of the total.
pub proof fn lemma_total_remove(counters: Map<u16, usize>, handle: u16)
    requires
        counters.dom().finite(),
        counters.contains_key(handle),
    ensures
        total(counters) == counters[handle] + total(counters.remove(handle)),
    decreases counters.dom().len(),
{
    let chosen = counters.dom().choose();
    assert(counters.dom().contains(handle));
    assert(counters.dom().contains(chosen));
    if chosen != handle {
        let without_chosen = counters.remove(chosen);
        let without_handle = counters.remove(handle);
        lemma_total_remove(without_chosen, handle);
        lemma_total_remove(without_handle, chosen);
        assert(without_chosen.remove(handle) =~= without_handle.remove(chosen));
    }
}

/// Writing one counter replaces its former count in the total.
pub proof fn lemma_total_insert(counters: Map<u16, usize>, handle: u16, count: usize)
    requires
        counters.dom().finite(),
    ensures
        total(counters.insert(handle, count)) == count + total(counters.remove(handle)),
{
    let updated = counters.insert(handle, count);
    lemma_total_remove(updated, handle);
    assert(updated.remove(handle) =~= counters.remove(handle));
}

/// Selects the packets of one connection.
pub open spec fn of_handle<T>(handle: u16) -> spec_fn((T, u16)) -> bool {
    |entry: (T, u16)| entry.1 == handle
}

/// Selects the packets of every other connection.
pub open spec fn not_of_handle<T>(handle: u16) -> spec_fn((T, u16)) -> bool {
    |entry: (T, u16)| entry.1 != handle
}

/// What a queue holds: the window size, the counter of each connection that
/// has had a packet in the window, the waiting packets in arrival order, and
/// the running totals of accepted and completed packets.
pub struct QueueView<T> {
    pub max_in_flight: nat,
    pub counters: Map<u16, usize>,
    pub waiting: Seq<(T, u16)>,
    pub queued: nat,
    pub completed: nat,
}

impl<T> QueueView<T> {
    /// Packets in the controller's window.
    pub open spec fn in_flight(self) -> nat {
        total(self.counters)
    }

    /// Packets of one connection in the controller's window.
    pub open spec fn connection_in_flight(self, handle: u16) -> nat {
        if self.counters.contains_key(handle) {
            self.counters[handle] as nat
        } else {
            0
        }
    }

    /// Packets of one connection that have not entered the window.
    pub open spec fn connection_waiting(self, handle: u16) -> nat {
        self.waiting.filter(of_handle(handle)).len()
    }

    /// The window is never overrun, and every accepted packet is completed,
    /// waiting or in flight.
    pub open spec fn valid(self) -> bool {
        &&& self.max_in_flight > 0
        &&& self.counters.dom().finite()
        &&& self.in_flight() <= self.max_in_flight
        &&& self.queued == self.completed + self.waiting.len() + self.in_flight()
    }

    /// One more packet at the back.
    pub open spec fn enqueued(self, packet: T, handle: u16) -> Self {
        QueueView { waiting: self.waiting.push((packet, handle)), queued: self.queued + 1, ..self }
    }

    /// Whether the next packet may enter the window.
    pub open spec fn ready(self) -> bool {
        self.in_flight() < self.max_in_flight && self.waiting.len() > 0
    }

    /// The first packet moved from the waiting line into the window.
    pub open spec fn polled(self) -> Self {
        let handle = self.waiting[0].1;
        QueueView {
            waiting: self.waiting.subrange(1, self.waiting.len() as int),
            counters: self.counters.insert(
                handle,
                (self.connection_in_flight(handle) + 1) as usize,
            ),
            ..self
        }
    }

    /// `count` packets of one connection have left the window.
    pub open spec fn completed_for(self, handle: u16, count: nat) -> Self {
        QueueView {
            counters: self.counters.insert(
                handle,
                (self.connection_in_flight(handle) - count) as usize,
            ),
            completed: self.completed + count,
            ..self
        }
    }

    /// Everything of one connection has been dropped.
    pub open spec fn flushed(self, handle: u16) -> Self {
        QueueView {
            counters: self.counters.remove(handle),
            waiting: self.waiting.filter(not_of_handle(handle)),
            completed: self.completed + self.connection_waiting(handle)
                + self.connection_in_flight(handle),
            ..self
        }
    }

    /// Everything of every connection has been dropped.
    pub open spec fn flushed_all(self) -> Self {
        QueueView {
            counters: Map::empty(),
            waiting: Seq::empty(),
            completed: self.completed + self.waiting.len() + self.in_flight(),
            ..self
        }
    }
}

/// The packets of one connection and the others share out the waiting line.
pub proof fn lemma_filter_partition<T>(waiting: Seq<(T, u16)>, handle: u16)
    ensures
        waiting.filter(of_handle(handle)).len() + waiting.filter(not_of_handle(handle)).len()
            == waiting.len(),
    decreases waiting.len(),
{
    reveal(Seq::filter);
    if waiting.len() > 0 {
        lemma_filter_partition(waiting.drop_last(), handle);
    }
}

/// Filtering a longer waiting line looks at the new entry alone.
pub proof fn lemma_filter_push<T>(
    waiting: Seq<(T, u16)>,
    entry: (T, u16),
    keep: spec_fn((T, u16)) -> bool,
)
    ensures
        waiting.push(entry).filter(keep) == if keep(entry) {
            waiting.filter(keep).push(entry)
        } else {
            waiting.filter(keep)
        },
{
    reveal(Seq::filter);
    assert(waiting.push(entry).drop_last() =~= waiting);
}

/// A packet queue for one controller buffer pool.
#[derive(Clone, Debug)]
pub struct DataPacketQueue<T> {
    max_in_flight: usize,
    in_flight: usize,
    per_connection_in_flight: BTreeMap<u16, usize>,
    packets: VecDeque<(T, u16)>,
    queued: usize,
    completed: usize,
}

impl<T> View for DataPacketQueue<T> {
    type V = QueueView<T>;

    closed spec fn view(&self) -> QueueView<T> {
        QueueView {
            max_in_flight: self.max_in_flight as nat,
            counters: self.per_connection_in_flight@,
            waiting: self.packets@,
            queued: self.queued as nat,
            completed: self.completed as nat,
        }
    }
}

impl<T> DataPacketQueue<T> {
    /// The counters agree with one another and the window is respected.
    pub closed spec fn wf(&self) -> bool {
        &&& self@.valid()
        &&& self.in_flight == self@.in_flight()
    }

    /// What every well-formed queue satisfies.
    pub proof fn lemma_valid(&self)
        requires
            self.wf(),
        ensures
            self@.valid(),
            self@.max_in_flight <= usize::MAX,
            self@.queued <= usize::MAX,
    {
    }

    pub fn new(max_in_flight: usize) -> (result: Result<Self, DataPacketQueueError>)
        ensures
            match result {
                Ok(queue) => max_in_flight > 0 && queue.wf() && queue@ == (QueueView {
                    max_in_flight: max_in_flight as nat,
                    counters: Map::empty(),
                    waiting: Seq::<(T, u16)>::empty(),
                    queued: 0,
                    completed: 0,
                }),
                Err(error) => max_in_flight == 0 && error == DataPacketQueueError::ZeroCapacity,
            },
    {
        if max_in_flight == 0 {
            return Err(DataPacketQueueError::ZeroCapacity);
        }
        Ok(
            Self {
                max_in_flight,
                in_flight: 0,
                per_connection_in_flight: BTreeMap::new(),
                packets: VecDeque::new(),
                queued: 0,
                completed: 0,
            },
        )
    }

    /// Accept a packet behind all others.
    pub fn enqueue(&mut self, packet: T, connection_handle: u16)
        requires
            old(self).wf(),
            old(self)@.queued < usize::MAX,
        ensures
            final(self).wf(),
            final(self)@ == old(self)@.enqueued(packet, connection_handle),
    {
        self.packets.push_back((packet, connection_handle));
        self.queued += 1;
    }

    /// Return the next packet the controller has room to accept and mark it in
    /// flight. Returns `None` while the controller window is full.
    pub fn poll_ready(&mut self) -> (packet: Option<T>)
        requires
            old(self).wf(),
        ensures
            final(self).wf(),
            match packet {
                Some(packet) => old(self)@.ready() && packet == old(self)@.waiting[0].0
                    && final(self)@ == old(self)@.polled(),
                None => !old(self)@.ready() && final(self)@ == old(self)@,
            },
    {
        if self.in_flight >= self.max_in_flight {
            return None;
        }
        match self.packets.pop_front() {
            None => None,
            Some((packet, handle)) => {
                proof {
                    if self.per_connection_in_flight@.contains_key(handle) {
                        lemma_total_remove(self.per_connection_in_flight@, handle);
                    } else {
                        assert(self.per_connection_in_flight@.remove(handle)
                            =~= self.per_connection_in_flight@);
                    }
                }
                let count: usize = match self.per_connection_in_flight.get(&handle) {
                    Some(count) => *count,
                    None => 0,
                };
                proof {
                    lemma_total_insert(
                        self.per_connection_in_flight@,
                        handle,
                        (count + 1) as usize,
                    );
                }
                self.in_flight += 1;
                self.per_connection_in_flight.insert(handle, count + 1);
                Some(packet)
            },
        }
    }

    /// Account for packets that the controller has sent for one connection.
    ///
    /// A count above what the connection has in flight completes what is in
    /// flight and reports the excess.
    pub fn on_packets_completed(&mut self, packet_count: usize, connection_handle: u16) -> (result:
        Result<(), DataPacketQueueError>)
        requires
            old(self).wf(),
        ensures
            final(self).wf(),
            ({
                let known = old(self)@.counters.contains_key(connection_handle);
                let in_flight = old(self)@.connection_in_flight(connection_handle);
                match result {
                    Ok(()) => known && packet_count <= in_flight && final(self)@ == old(
                        self,
                    )@.completed_for(connection_handle, packet_count as nat),
                    Err(DataPacketQueueError::UnknownConnection(handle)) => !known && handle
                        == connection_handle && final(self)@ == old(self)@,
                    Err(
                        DataPacketQueueError::CompletionOverflow {
                            connection_handle: handle,
                            completed,
                            in_flight: reported,
                        },
                    ) => known && packet_count > in_flight && handle == connection_handle
                        && completed == packet_count && reported == in_flight && final(self)@
                        == old(self)@.completed_for(connection_handle, in_flight),
                    Err(DataPacketQueueError::ZeroCapacity) => false,
                }
            }),
    {
        let connection_in_flight: usize = match self.per_connection_in_flight.get(
            &connection_handle,
        ) {
            Some(count) => *count,
            None => {
                return Err(DataPacketQueueError::UnknownConnection(connection_handle));
            },
        };
        proof {
            lemma_total_remove(self.per_connection_in_flight@, connection_handle);
        }
        if packet_count > connection_in_flight {
            proof {
                lemma_total_insert(self.per_connection_in_flight@, connection_handle, 0);
            }
            self.in_flight -= connection_in_flight;
            self.completed += connection_in_flight;
            self.per_connection_in_flight.insert(connection_handle, 0);
            return Err(
                DataPacketQueueError::CompletionOverflow {
                    connection_handle,
                    completed: packet_count,
                    in_flight: connection_in_flight,
                },
            );
        }
        proof {
            lemma_total_insert(
                self.per_connection_in_flight@,
                connection_handle,
                (connection_in_flight - packet_count) as usize,
            );
        }
        self.per_connection_in_flight.insert(
            connection_handle,
            connection_in_flight - packet_count,
        );
        self.in_flight -= packet_count;
        self.completed += packet_count;
        Ok(())
    }

    /// Drop queued packets and implicitly complete in-flight packets for one
    /// disconnected handle.
    pub fn flush(&mut self, connection_handle: u16) -> (dropped: usize)
        requires
            old(self).wf(),
        ensures
            final(self).wf(),
            final(self)@ == old(self)@.flushed(connection_handle),
            dropped == old(self)@.connection_waiting(connection_handle) + old(
                self,
            )@.connection_in_flight(connection_handle),
    {
        let ghost before = self.packets@;
        let ghost keep = not_of_handle::<T>(connection_handle);
        let total_waiting: usize = self.packets.len();
        let mut kept: VecDeque<(T, u16)> = VecDeque::new();
        let mut moved: usize = 0;
        while moved < total_waiting
            invariant
                moved <= total_waiting,
                before.len() == total_waiting,
                keep == not_of_handle::<T>(connection_handle),
                self.packets@ == before.skip(moved as int),
                kept@ == before.take(moved as int).filter(keep),
                self.max_in_flight == old(self).max_in_flight,
                self.in_flight == old(self).in_flight,
                self.per_connection_in_flight == old(self).per_connection_in_flight,
                self.queued == old(self).queued,
                self.completed == old(self).completed,
            decreases total_waiting - moved,
        {
            let ghost entry = before[moved as int];
            proof {
                lemma_filter_push(before.take(moved as int), entry, keep);
                assert(before.take(moved as int).push(entry) =~= before.take(moved + 1));
            }
            match self.packets.pop_front() {
                Some((packet, handle)) => {
                    if handle != connection_handle {
                        kept.push_back((packet, handle));
                    }
                },
                None => {},
            }
            moved += 1;
        }
        proof {
            assert(before.take(total_waiting as int) =~= before);
            lemma_filter_partition(before, connection_handle);
        }
        let queued: usize = total_waiting - kept.len();
        self.packets = kept;
        proof {
            if self.per_connection_in_flight@.contains_key(connection_handle) {
                lemma_total_remove(self.per_connection_in_flight@, connection_handle);
            } else {
                assert(self.per_connection_in_flight@.remove(connection_handle)
                    =~= self.per_connection_in_flight@);
            }
        }
        let in_flight: usize = match self.per_connection_in_flight.remove(&connection_handle) {
            Some(count) => count,
            None => 0,
        };
        self.in_flight -= in_flight;
        self.completed += queued + in_flight;
        queued + in_flight
    }

    /// Drop every queued packet and implicitly complete all in-flight packets.
    ///
    /// This is the transport-wide counterpart to [`Self::flush`] used when the
    /// HCI host is flushed or reset and no connection handle remains valid.
    pub fn flush_all(&mut self) -> (dropped: usize)
        requires
            old(self).wf(),
        ensures
            final(self).wf(),
            final(self)@ == old(self)@.flushed_all(),
            dropped == old(self)@.waiting.len() + old(self)@.in_flight(),
    {
        let pending: usize = self.packets.len() + self.in_flight;
        self.packets.clear();
        self.per_connection_in_flight.clear();
        self.in_flight = 0;
        self.completed += pending;
        pending
    }

    /// Packets accepted so far.
    pub fn queued(&self) -> (count: usize)
        ensures
            count == self@.queued,
    {
        self.queued
    }

    /// Packets completed or dropped so far.
    pub fn completed(&self) -> (count: usize)
        ensures
            count == self@.completed,
    {
        self.completed
    }

    /// Packets accepted and neither completed nor dropped.
    pub fn pending(&self) -> (count: usize)
        requires
            self.wf(),
        ensures
            count == self@.queued - self@.completed,
            count == self@.waiting.len() + self@.in_flight(),
    {
        self.queued - self.completed
    }

    /// Packets that have not entered the window.
    pub fn waiting(&self) -> (count: usize)
        ensures
            count == self@.waiting.len(),
    {
        self.packets.len()
    }

    /// Return packets for one connection that have not yet entered the
    /// controller's flow-control window.
    pub fn connection_waiting(&self, connection_handle: u16) -> (count: usize)
        ensures
            count == self@.connection_waiting(connection_handle),
    {
        let ghost keep = of_handle::<T>(connection_handle);
        let mut count: usize = 0;
        let mut index: usize = 0;
        proof {
            reveal(Seq::filter);
            assert(self.packets@.take(0).filter(keep).len() == 0);
        }
        while index < self.packets.len()
            invariant
                index <= self.packets@.len(),
                keep == of_handle::<T>(connection_handle),
                count == self.packets@.take(index as int).filter(keep).len(),
                count <= index,
            decreases self.packets@.len() - index,
        {
            proof {
                let entry = self.packets@[index as int];
                lemma_filter_push(self.packets@.take(index as int), entry, keep);
                assert(self.packets@.take(index as int).push(entry) =~= self.packets@.take(
                    index + 1,
                ));
            }
            if self.packets[index].1 == connection_handle {
                count += 1;
            }
            index += 1;
        }
        assert(self.packets@.take(index as int) =~= self.packets@);
        count
    }

    /// Packets in the controller's window.
    pub fn in_flight(&self) -> (count: usize)
        requires
            self.wf(),
        ensures
            count == self@.in_flight(),
    {
        self.in_flight
    }

    /// The size of the controller's window.
    pub fn max_in_flight(&self) -> (count: usize)
        ensures
            count == self@.max_in_flight,
    {
        self.max_in_flight
    }

    /// Packets of one connection in the controller's window.
    pub fn connection_in_flight(&self, connection_handle: u16) -> (count: usize)
        ensures
            count == self@.connection_in_flight(connection_handle),
    {
        match self.per_connection_in_flight.get(&connection_handle) {
            Some(count) => *count,
            None => 0,
        }
    }

    /// Whether one connection has neither waiting nor in-flight packets.
    pub fn is_drained(&self, connection_handle: u16) -> (drained: bool)
        ensures
            drained == (self@.connection_in_flight(connection_handle) == 0
                && self@.connection_waiting(connection_handle) == 0),
    {
        self.connection_in_flight(connection_handle) == 0 && self.is_flushed(connection_handle)
    }

    /// Whether every packet for one connection has entered the controller's
    /// flow-control window.
    ///
    /// In-flight packets can remain after this returns `true`.
    pub fn is_flushed(&self, connection_handle: u16) -> (flushed: bool)
        ensures
            flushed == (self@.connection_waiting(connection_handle) == 0),
    {
        self.connection_waiting(connection_handle) == 0
    }
}

} // verus!
