//! The controller's packet pools and the queues that feed them.

use crate::connection::ControllerBufferInfo;
use crate::data_queue::{DataPacketQueue, QueueView};
use crate::hci::{AclDataPacket, IsoDataPacket};
use crate::transport::{HostAction, HostTransport};
use vstd::prelude::*;

verus! {

/// A data packet that the host sends on a connection.
pub trait OutboundPacket: Sized {
    spec fn handle(&self) -> u16;

    spec fn action(self, controller_id: usize, accepted: bool) -> HostAction;

    /// A handover shows the answer that it was given.
    proof fn lemma_answer(self, controller_id: usize, answer: bool)
        ensures
            accepted(self.action(controller_id, answer)) == answer,
    ;

    fn get_handle(&self) -> (connection_handle: u16)
        ensures
            connection_handle == self.handle(),
    ;

    fn send<L: HostTransport + ?Sized>(self, link: &mut L, controller_id: usize) -> (accepted: bool)
        ensures
            final(link).log() == old(link).log().push(self.action(controller_id, accepted)),
    ;
}

impl OutboundPacket for AclDataPacket {
    open spec fn handle(&self) -> u16 {
        self.connection_handle
    }

    open spec fn action(self, controller_id: usize, accepted: bool) -> HostAction {
        HostAction::Acl { controller_id, packet: self, accepted }
    }

    proof fn lemma_answer(self, controller_id: usize, answer: bool) {
    }

    fn get_handle(&self) -> (connection_handle: u16) {
        self.connection_handle
    }

    fn send<L: HostTransport + ?Sized>(self, link: &mut L, controller_id: usize) -> (accepted: bool) {
        link.send_acl_packet(controller_id, self)
    }
}

impl OutboundPacket for IsoDataPacket {
    open spec fn handle(&self) -> u16 {
        self.connection_handle
    }

    open spec fn action(self, controller_id: usize, accepted: bool) -> HostAction {
        HostAction::Iso { controller_id, packet: self, accepted }
    }

    proof fn lemma_answer(self, controller_id: usize, answer: bool) {
    }

    fn get_handle(&self) -> (connection_handle: u16) {
        self.connection_handle
    }

    fn send<L: HostTransport + ?Sized>(self, link: &mut L, controller_id: usize) -> (accepted: bool) {
        link.send_iso_packet(controller_id, self)
    }
}

/// Whether a handover was accepted.
pub open spec fn accepted(action: HostAction) -> bool {
    match action {
        HostAction::Command { .. } => true,
        HostAction::Acl { accepted, .. } => accepted,
        HostAction::Synchronous { accepted, .. } => accepted,
        HostAction::Iso { accepted, .. } => accepted,
        HostAction::Disconnect { accepted, .. } => accepted,
        HostAction::Drain { .. } | HostAction::Advance { .. } => true,
    }
}

/// The transport's answers to everything that was handed over in between.
pub open spec fn answers(before: Seq<HostAction>, after: Seq<HostAction>) -> Seq<bool> {
    Seq::new((after.len() - before.len()) as nat, |index: int| accepted(after[before.len() + index]))
}

/// Whether every answer was positive.
pub open spec fn all_accepted(answers: Seq<bool>) -> bool {
    forall|index: int| 0 <= index < answers.len() ==> #[trigger] answers[index]
}

impl<P> QueueView<P> {
    /// The effect of a completion report: at most what is in flight for a
    /// known connection is completed.
    pub open spec fn settled(self, handle: u16, count: nat) -> Self {
        let in_flight = self.connection_in_flight(handle);
        if !self.counters.contains_key(handle) {
            self
        } else if count <= in_flight {
            self.completed_for(handle, count)
        } else {
            self.completed_for(handle, in_flight)
        }
    }
}

/// A queue after its first packet was handed over: a packet that the transport
/// refused leaves the window at once.
pub open spec fn after_answer<P: OutboundPacket>(
    queue: QueueView<P>,
    accepted: bool,
) -> QueueView<P> {
    if accepted {
        queue.polled()
    } else {
        queue.polled().settled(queue.waiting[0].0.handle(), 1)
    }
}

/// A queue after as many packets were handed over as there are answers.
pub open spec fn after_answers<P: OutboundPacket>(
    queue: QueueView<P>,
    answers: Seq<bool>,
) -> QueueView<P>
    decreases answers.len(),
{
    if answers.len() == 0 {
        queue
    } else {
        after_answer(after_answers(queue, answers.drop_last()), answers.last())
    }
}

/// How flushing a queue shows: the packets at its front were handed over in
/// order until none was ready, and the queue accounts for each answer.
pub open spec fn queue_flushed<P: OutboundPacket>(
    before: QueueView<P>,
    after: QueueView<P>,
    log_before: Seq<HostAction>,
    log_after: Seq<HostAction>,
    controller_id: usize,
) -> bool {
    let given = answers(log_before, log_after);
    &&& log_before.is_prefix_of(log_after)
    &&& given.len() <= before.waiting.len()
    &&& forall|index: int|
        0 <= index < given.len() ==> (#[trigger] log_after[log_before.len() + index])
            == before.waiting[index].0.action(controller_id, given[index])
    &&& forall|index: int|
        0 <= index < given.len() ==> (#[trigger] after_answers(
            before,
            given.take(index),
        )).ready()
    &&& after == after_answers(before, given)
    &&& !after.ready()
}

/// What is left waiting after some answers.
proof fn lemma_waiting_after<P: OutboundPacket>(queue: QueueView<P>, answers: Seq<bool>)
    requires
        answers.len() <= queue.waiting.len(),
    ensures
        after_answers(queue, answers).waiting == queue.waiting.skip(answers.len() as int),
    decreases answers.len(),
{
    if answers.len() > 0 {
        lemma_waiting_after(queue, answers.drop_last());
        assert(queue.waiting.skip(answers.len() - 1).subrange(
            1,
            queue.waiting.len() - answers.len() + 1,
        ) =~= queue.waiting.skip(answers.len() as int));
    } else {
        assert(queue.waiting.skip(0) =~= queue.waiting);
    }
}

/// Report completed packets to a queue. What exceeds the connection's packets
/// in flight, or belongs to an unknown connection, is ignored.
pub fn settle<P>(queue: &mut DataPacketQueue<P>, count: usize, handle: u16)
    requires
        old(queue).wf(),
    ensures
        final(queue).wf(),
        final(queue)@ == old(queue)@.settled(handle, count as nat),
{
    let _ = queue.on_packets_completed(count, handle);
}

/// Hand packets to the transport for as long as the controller has room.
pub fn flush_queue<P: OutboundPacket, L: HostTransport + ?Sized>(
    queue: &mut DataPacketQueue<P>,
    link: &mut L,
    controller_id: usize,
) -> (success: bool)
    requires
        old(queue).wf(),
    ensures
        final(queue).wf(),
        queue_flushed(
            old(queue)@,
            final(queue)@,
            old(link).log(),
            final(link).log(),
            controller_id,
        ),
        success == all_accepted(answers(old(link).log(), final(link).log())),
{
    let mut success: bool = true;
    let ghost start = queue@;
    let ghost log_start = link.log();
    let ghost mut given: Seq<bool> = Seq::empty();
    proof {
        assert(start.waiting.skip(0) =~= start.waiting);
        assert(answers(log_start, link.log()) =~= given);
    }
    loop
        invariant_except_break
            queue.wf(),
        invariant
            queue.wf(),
            log_start.is_prefix_of(link.log()),
            given == answers(log_start, link.log()),
            given.len() == link.log().len() - log_start.len(),
            given.len() <= start.waiting.len(),
            queue@ == after_answers(start, given),
            queue@.waiting == start.waiting.skip(given.len() as int),
            success == all_accepted(given),
            forall|index: int|
                0 <= index < given.len() ==> (#[trigger] link.log()[log_start.len() + index])
                    == start.waiting[index].0.action(controller_id, given[index]),
            forall|index: int|
                0 <= index < given.len() ==> (#[trigger] after_answers(
                    start,
                    given.take(index),
                )).ready(),
        ensures
            !queue@.ready(),
        decreases start.waiting.len() - given.len(),
    {
        let ghost before = queue@;
        let ghost log_before = link.log();
        let ghost given_before = given;
        match queue.poll_ready() {
            None => {
                break ;
            },
            Some(packet) => {
                let handle: u16 = packet.get_handle();
                let sent: bool = packet.send(link, controller_id);
                proof {
                    given = given.push(sent);
                    assert(accepted(packet.action(controller_id, sent)) == sent) by {
                        packet.lemma_answer(controller_id, sent);
                    }
                    assert(given =~= answers(log_start, link.log()));
                    assert(given.drop_last() =~= given_before);
                    assert(given.take(given_before.len() as int) =~= given_before);
                    assert forall|index: int| 0 <= index < given_before.len() implies (
                    #[trigger] given.take(index)) == given_before.take(index) by {
                        assert(given.take(index) =~= given_before.take(index));
                    }
                    assert forall|index: int| 0 <= index < given.len() implies (
                    #[trigger] after_answers(start, given.take(index))).ready() by {
                        if index < given_before.len() {
                            assert(after_answers(start, given_before.take(index)).ready());
                        }
                    }
                }
                if !sent {
                    settle(queue, 1, handle);
                    success = false;
                }
                proof {
                    assert(queue@ == after_answer(before, sent));
                    assert(all_accepted(given) == (all_accepted(given_before) && sent)) by {
                        assert(given[given_before.len() as int] == sent);
                        assert forall|index: int| 0 <= index < given_before.len() implies (
                        #[trigger] given_before[index]) == given[index] by {}
                    }
                    lemma_waiting_after(start, given);
                }
            },
        }
    }
    success
}

/// A queue that holds nothing and has counted nothing.
pub open spec fn fresh_queue<P>(max_in_flight: nat) -> QueueView<P> {
    QueueView {
        max_in_flight,
        counters: Map::empty(),
        waiting: Seq::empty(),
        queued: 0,
        completed: 0,
    }
}

/// A queue with a window of `max_in_flight` packets.
pub fn new_queue<P>(max_in_flight: usize) -> (queue: DataPacketQueue<P>)
    requires
        max_in_flight > 0,
    ensures
        queue.wf(),
        queue@ == fresh_queue::<P>(max_in_flight as nat),
{
    DataPacketQueue::new(max_in_flight).unwrap()
}

/// ACL payload bytes per packet before the controller has said otherwise.
pub const DEFAULT_ACL_DATA_PACKET_LENGTH: usize = 27;

/// ACL packets in flight before the controller has said otherwise.
pub const DEFAULT_ACL_MAX_IN_FLIGHT: usize = 64;

/// The queues for the Classic ACL, LE ACL and ISO packet pools. Without an LE
/// pool of their own, LE connections share the Classic one.
#[derive(Debug)]
pub struct PacketPools {
    pub acl_data_packet_length: usize,
    pub acl_packet_queue: DataPacketQueue<AclDataPacket>,
    pub le_acl_data_packet_length: Option<usize>,
    pub le_acl_packet_queue: Option<DataPacketQueue<AclDataPacket>>,
    pub iso_data_packet_length: Option<usize>,
    pub iso_packet_queue: Option<DataPacketQueue<IsoDataPacket>>,
}

/// What an optional queue holds.
pub open spec fn queue_view<P>(queue: Option<DataPacketQueue<P>>) -> Option<QueueView<P>> {
    match queue {
        Some(queue) => Some(queue@),
        None => None,
    }
}

/// Whether a pool reported by the controller can be used.
pub open spec fn usable(buffer: Option<ControllerBufferInfo>) -> bool {
    buffer is Some && buffer->0.data_packet_length != 0 && buffer->0.total_num_data_packets != 0
}

/// What the pools hold.
#[verifier::ext_equal]
pub struct PoolsView {
    pub acl_data_packet_length: usize,
    pub acl: QueueView<AclDataPacket>,
    pub le_acl_data_packet_length: Option<usize>,
    pub le_acl: Option<QueueView<AclDataPacket>>,
    pub iso_data_packet_length: Option<usize>,
    pub iso: Option<QueueView<IsoDataPacket>>,
}

impl View for PacketPools {
    type V = PoolsView;

    open spec fn view(&self) -> PoolsView {
        PoolsView {
            acl_data_packet_length: self.acl_data_packet_length,
            acl: self.acl_packet_queue@,
            le_acl_data_packet_length: self.le_acl_data_packet_length,
            le_acl: queue_view(self.le_acl_packet_queue),
            iso_data_packet_length: self.iso_data_packet_length,
            iso: queue_view(self.iso_packet_queue),
        }
    }
}

impl PoolsView {
    /// The pools of a controller that has not been asked.
    pub open spec fn initial() -> PoolsView {
        PoolsView {
            acl_data_packet_length: DEFAULT_ACL_DATA_PACKET_LENGTH,
            acl: fresh_queue(DEFAULT_ACL_MAX_IN_FLIGHT as nat),
            le_acl_data_packet_length: None,
            le_acl: None,
            iso_data_packet_length: None,
            iso: None,
        }
    }

    /// The Classic ACL pool, as the controller reported it.
    pub open spec fn with_classic(self, buffer: ControllerBufferInfo) -> PoolsView {
        if usable(Some(buffer)) {
            PoolsView {
                acl_data_packet_length: buffer.data_packet_length as usize,
                acl: fresh_queue(buffer.total_num_data_packets as nat),
                ..self
            }
        } else {
            self
        }
    }

    /// The LE ACL pool, as the controller reported it.
    pub open spec fn with_le(self, buffer: Option<ControllerBufferInfo>) -> PoolsView {
        if usable(buffer) {
            PoolsView {
                le_acl_data_packet_length: Some(buffer->0.data_packet_length as usize),
                le_acl: Some(fresh_queue(buffer->0.total_num_data_packets as nat)),
                ..self
            }
        } else {
            PoolsView { le_acl_data_packet_length: None, le_acl: None, ..self }
        }
    }

    /// The ISO pool, as the controller reported it.
    pub open spec fn with_iso(self, buffer: Option<ControllerBufferInfo>) -> PoolsView {
        if usable(buffer) {
            PoolsView {
                iso_data_packet_length: Some(buffer->0.data_packet_length as usize),
                iso: Some(fresh_queue(buffer->0.total_num_data_packets as nat)),
                ..self
            }
        } else {
            PoolsView { iso_data_packet_length: None, iso: None, ..self }
        }
    }

    /// Nothing is queued or in flight in any pool.
    pub open spec fn idle(self) -> bool {
        &&& self.acl.queued == self.acl.completed
        &&& self.le_acl is Some ==> self.le_acl->0.queued == self.le_acl->0.completed
        &&& self.iso is Some ==> self.iso->0.queued == self.iso->0.completed
    }

    /// Everything of one connection has been dropped.
    pub open spec fn flushed(self, handle: u16) -> PoolsView {
        PoolsView {
            acl: self.acl.flushed(handle),
            le_acl: match self.le_acl {
                Some(queue) => Some(queue.flushed(handle)),
                None => None,
            },
            iso: match self.iso {
                Some(queue) => Some(queue.flushed(handle)),
                None => None,
            },
            ..self
        }
    }

    /// Everything of every connection has been dropped.
    pub open spec fn flushed_all(self) -> PoolsView {
        PoolsView {
            acl: self.acl.flushed_all(),
            le_acl: match self.le_acl {
                Some(queue) => Some(queue.flushed_all()),
                None => None,
            },
            iso: match self.iso {
                Some(queue) => Some(queue.flushed_all()),
                None => None,
            },
            ..self
        }
    }

    /// The pools after a completion report for an LE connection.
    pub open spec fn le_settled(self, handle: u16, count: nat) -> PoolsView {
        match self.le_acl {
            Some(queue) => PoolsView { le_acl: Some(queue.settled(handle, count)), ..self },
            None => PoolsView { acl: self.acl.settled(handle, count), ..self },
        }
    }

    /// The pools after a completion report for an isochronous stream.
    pub open spec fn iso_settled(self, handle: u16, count: nat) -> PoolsView {
        match self.iso {
            Some(queue) => PoolsView { iso: Some(queue.settled(handle, count)), ..self },
            None => self,
        }
    }

    /// How flushing the ACL queues shows: first the Classic queue, then the LE
    /// queue where there is one.
    pub open spec fn acl_flushed_via(
        self,
        after: PoolsView,
        log_before: Seq<HostAction>,
        middle: Seq<HostAction>,
        log_after: Seq<HostAction>,
        controller_id: usize,
    ) -> bool {
        &&& queue_flushed(self.acl, after.acl, log_before, middle, controller_id)
        &&& match self.le_acl {
            Some(queue) => after.le_acl is Some && queue_flushed(
                queue,
                after.le_acl->0,
                middle,
                log_after,
                controller_id,
            ),
            None => after.le_acl is None && middle == log_after,
        }
        &&& after == (PoolsView { acl: after.acl, le_acl: after.le_acl, ..self })
    }

    /// How flushing the ACL queues shows.
    pub open spec fn acl_flushed(
        self,
        after: PoolsView,
        log_before: Seq<HostAction>,
        log_after: Seq<HostAction>,
        controller_id: usize,
    ) -> bool {
        exists|middle: Seq<HostAction>|
            self.acl_flushed_via(after, log_before, middle, log_after, controller_id)
    }

    /// How flushing the ISO queue shows.
    pub open spec fn iso_flushed(
        self,
        after: PoolsView,
        log_before: Seq<HostAction>,
        log_after: Seq<HostAction>,
        controller_id: usize,
    ) -> bool {
        match self.iso {
            Some(queue) => {
                &&& after.iso is Some
                &&& queue_flushed(queue, after.iso->0, log_before, log_after, controller_id)
                &&& after == (PoolsView { iso: after.iso, ..self })
            },
            None => after == self && log_after == log_before,
        }
    }
}

impl PacketPools {
    /// Every queue is well formed, and a pool has a packet length exactly when
    /// it has a queue.
    pub open spec fn wf(self) -> bool {
        &&& self.acl_packet_queue.wf()
        &&& self.le_acl_packet_queue is Some ==> self.le_acl_packet_queue->0.wf()
        &&& self.iso_packet_queue is Some ==> self.iso_packet_queue->0.wf()
        &&& self.le_acl_packet_queue is Some <==> self.le_acl_data_packet_length is Some
        &&& self.iso_packet_queue is Some <==> self.iso_data_packet_length is Some
    }

    /// The pools of a controller that has not been asked.
    pub fn new() -> (pools: Self)
        ensures
            pools.wf(),
            pools@ == PoolsView::initial(),
    {
        PacketPools {
            acl_data_packet_length: DEFAULT_ACL_DATA_PACKET_LENGTH,
            acl_packet_queue: new_queue(DEFAULT_ACL_MAX_IN_FLIGHT),
            le_acl_data_packet_length: None,
            le_acl_packet_queue: None,
            iso_data_packet_length: None,
            iso_packet_queue: None,
        }
    }

    /// Install the Classic ACL pool that the controller reported.
    pub fn install_classic(&mut self, buffer: ControllerBufferInfo)
        requires
            old(self).wf(),
        ensures
            final(self).wf(),
            final(self)@ == old(self)@.with_classic(buffer),
    {
        if buffer.data_packet_length != 0 && buffer.total_num_data_packets != 0 {
            self.acl_data_packet_length = buffer.data_packet_length as usize;
            self.acl_packet_queue = new_queue(buffer.total_num_data_packets as usize);
        }
    }

    /// Install the LE ACL pool that the controller reported.
    pub fn install_le(&mut self, buffer: Option<ControllerBufferInfo>)
        requires
            old(self).wf(),
        ensures
            final(self).wf(),
            final(self)@ == old(self)@.with_le(buffer),
    {
        match buffer {
            Some(buffer) if buffer.data_packet_length != 0 && buffer.total_num_data_packets != 0 => {
                self.le_acl_data_packet_length = Some(buffer.data_packet_length as usize);
                self.le_acl_packet_queue = Some(new_queue(buffer.total_num_data_packets as usize));
            },
            _ => {
                self.le_acl_data_packet_length = None;
                self.le_acl_packet_queue = None;
            },
        }
    }

    /// Install the ISO pool that the controller reported.
    pub fn install_iso(&mut self, buffer: Option<ControllerBufferInfo>)
        requires
            old(self).wf(),
        ensures
            final(self).wf(),
            final(self)@ == old(self)@.with_iso(buffer),
    {
        match buffer {
            Some(buffer) if buffer.data_packet_length != 0 && buffer.total_num_data_packets != 0 => {
                self.iso_data_packet_length = Some(buffer.data_packet_length as usize);
                self.iso_packet_queue = Some(new_queue(buffer.total_num_data_packets as usize));
            },
            _ => {
                self.iso_data_packet_length = None;
                self.iso_packet_queue = None;
            },
        }
    }

    /// Whether nothing is queued or in flight in any pool.
    pub fn is_idle(&self) -> (idle: bool)
        requires
            self.wf(),
        ensures
            idle == self@.idle(),
    {
        let acl_idle: bool = self.acl_packet_queue.pending() == 0;
        let le_idle: bool = match &self.le_acl_packet_queue {
            Some(queue) => queue.pending() == 0,
            None => true,
        };
        let iso_idle: bool = match &self.iso_packet_queue {
            Some(queue) => queue.pending() == 0,
            None => true,
        };
        acl_idle && le_idle && iso_idle
    }

    /// Drop everything of one connection.
    pub fn flush(&mut self, handle: u16)
        requires
            old(self).wf(),
        ensures
            final(self).wf(),
            final(self)@ == old(self)@.flushed(handle),
    {
        self.acl_packet_queue.flush(handle);
        if let Some(queue) = self.le_acl_packet_queue.as_mut() {
            queue.flush(handle);
        }
        if let Some(queue) = self.iso_packet_queue.as_mut() {
            queue.flush(handle);
        }
    }

    /// Drop everything of every connection.
    pub fn flush_all(&mut self)
        requires
            old(self).wf(),
        ensures
            final(self).wf(),
            final(self)@ == old(self)@.flushed_all(),
    {
        self.acl_packet_queue.flush_all();
        if let Some(queue) = self.le_acl_packet_queue.as_mut() {
            queue.flush_all();
        }
        if let Some(queue) = self.iso_packet_queue.as_mut() {
            queue.flush_all();
        }
    }

    /// Account for packets completed on an isochronous stream.
    pub fn settle_iso(&mut self, handle: u16, count: usize)
        requires
            old(self).wf(),
        ensures
            final(self).wf(),
            final(self)@ == old(self)@.iso_settled(handle, count as nat),
    {
        if let Some(queue) = self.iso_packet_queue.as_mut() {
            settle(queue, count, handle);
        }
    }

    /// Account for packets completed on an LE connection.
    pub fn settle_le(&mut self, handle: u16, count: usize)
        requires
            old(self).wf(),
        ensures
            final(self).wf(),
            final(self)@ == old(self)@.le_settled(handle, count as nat),
    {
        if let Some(queue) = self.le_acl_packet_queue.as_mut() {
            settle(queue, count, handle);
        } else {
            settle(&mut self.acl_packet_queue, count, handle);
        }
    }

    /// Hand over what the controller has room for: first Classic, then LE.
    pub fn flush_acl<L: HostTransport + ?Sized>(
        &mut self,
        link: &mut L,
        controller_id: usize,
    ) -> (success: bool)
        requires
            old(self).wf(),
        ensures
            final(self).wf(),
            old(self)@.acl_flushed(
                final(self)@,
                old(link).log(),
                final(link).log(),
                controller_id,
            ),
            success == all_accepted(answers(old(link).log(), final(link).log())),
    {
        let ghost before = self@;
        let ghost log_before = link.log();
        let classic: bool = flush_queue(&mut self.acl_packet_queue, link, controller_id);
        let ghost middle = link.log();
        let le: bool = match self.le_acl_packet_queue.as_mut() {
            Some(queue) => flush_queue(queue, link, controller_id),
            None => true,
        };
        proof {
            let after = link.log();
            assert(before.acl_flushed_via(self@, log_before, middle, after, controller_id));
            lemma_answers_split(log_before, middle, after);
            if self.le_acl_packet_queue is None {
                assert(answers(middle, after) =~= Seq::<bool>::empty());
            }
        }
        classic && le
    }

    /// Hand over the isochronous packets that the controller has room for.
    pub fn flush_iso<L: HostTransport + ?Sized>(
        &mut self,
        link: &mut L,
        controller_id: usize,
    ) -> (success: bool)
        requires
            old(self).wf(),
        ensures
            final(self).wf(),
            old(self)@.iso_flushed(
                final(self)@,
                old(link).log(),
                final(link).log(),
                controller_id,
            ),
            success == all_accepted(answers(old(link).log(), final(link).log())),
    {
        match self.iso_packet_queue.as_mut() {
            Some(queue) => flush_queue(queue, link, controller_id),
            None => true,
        }
    }
}

/// The answers over two stretches of a log are those of the one and the other.
proof fn lemma_answers_split(
    before: Seq<HostAction>,
    middle: Seq<HostAction>,
    after: Seq<HostAction>,
)
    requires
        before.is_prefix_of(middle),
        middle.is_prefix_of(after),
    ensures
        all_accepted(answers(before, after)) == (all_accepted(answers(before, middle))
            && all_accepted(answers(middle, after))),
{
    let whole = answers(before, after);
    let first = answers(before, middle);
    let second = answers(middle, after);
    assert(whole =~= first + second);
    if all_accepted(first) && all_accepted(second) {
        assert forall|index: int| 0 <= index < whole.len() implies #[trigger] whole[index] by {
            if index < first.len() {
                assert(first[index]);
            } else {
                assert(second[index - first.len()]);
            }
        }
    }
    if all_accepted(whole) {
        assert forall|index: int| 0 <= index < first.len() implies #[trigger] first[index] by {
            assert(whole[index]);
        }
        assert forall|index: int| 0 <= index < second.len() implies #[trigger] second[index] by {
            assert(whole[first.len() + index]);
        }
    }
}

impl<P> QueueView<P> {
    /// Several packets of one connection at the back.
    pub open spec fn enqueued_all(self, packets: Seq<P>, handle: u16) -> Self {
        QueueView {
            waiting: self.waiting + packets.map_values(|packet: P| (packet, handle)),
            queued: self.queued + packets.len(),
            ..self
        }
    }
}

/// Accept several packets of one connection behind all others.
pub fn enqueue_all<P>(queue: &mut DataPacketQueue<P>, packets: Vec<P>, handle: u16)
    requires
        old(queue).wf(),
        old(queue)@.queued + packets@.len() <= usize::MAX,
    ensures
        final(queue).wf(),
        final(queue)@ == old(queue)@.enqueued_all(packets@, handle),
{
    let ghost all = packets@;
    let ghost pairs = all.map_values(|packet: P| (packet, handle));
    let mut rest: Vec<P> = packets;
    let ghost mut count: nat = 0;
    proof {
        assert(all.skip(0) =~= all);
        assert(queue@.waiting + pairs.take(0) =~= queue@.waiting);
    }
    while rest.len() > 0
        invariant
            queue.wf(),
            count + rest@.len() == all.len(),
            rest@ == all.skip(count as int),
            pairs == all.map_values(|packet: P| (packet, handle)),
            old(queue)@.queued + all.len() <= usize::MAX,
            queue@ == (QueueView {
                waiting: old(queue)@.waiting + pairs.take(count as int),
                queued: old(queue)@.queued + count,
                ..old(queue)@
            }),
        decreases rest@.len(),
    {
        let packet = rest.remove(0);
        assert(packet == all[count as int]);
        queue.enqueue(packet, handle);
        proof {
            assert(pairs.take((count + 1) as int) =~= pairs.take(count as int).push(
                (packet, handle),
            ));
            count = count + 1;
            assert(rest@ =~= all.skip(count as int));
            assert(queue@.waiting =~= old(queue)@.waiting + pairs.take(count as int));
        }
    }
    assert(pairs.take(count as int) =~= pairs);
}

/// How handing packets over until one is refused shows.
pub open spec fn handed_over<P: OutboundPacket>(
    packets: Seq<P>,
    log_before: Seq<HostAction>,
    log_after: Seq<HostAction>,
    controller_id: usize,
    success: bool,
) -> bool {
    let count = log_after.len() - log_before.len();
    &&& log_before.is_prefix_of(log_after)
    &&& count <= packets.len()
    &&& forall|index: int|
        0 <= index < count ==> (#[trigger] log_after[log_before.len() + index])
            == packets[index].action(controller_id, success || index < count - 1)
    &&& if success {
        count == packets.len()
    } else {
        count > 0
    }
}

/// Hand packets over until one is refused.
pub fn hand_over_packets<P: OutboundPacket, L: HostTransport + ?Sized>(
    packets: Vec<P>,
    link: &mut L,
    controller_id: usize,
) -> (success: bool)
    ensures
        handed_over(packets@, old(link).log(), final(link).log(), controller_id, success),
{
    let ghost all = packets@;
    let ghost log = link.log();
    let mut rest: Vec<P> = packets;
    let ghost mut count: nat = 0;
    assert(all.skip(0) =~= all);
    while rest.len() > 0
        invariant
            all == packets@,
            count + rest@.len() == all.len(),
            rest@ == all.skip(count as int),
            log == old(link).log(),
            log.is_prefix_of(link.log()),
            link.log().len() == log.len() + count,
            forall|index: int|
                0 <= index < count ==> (#[trigger] link.log()[log.len() + index])
                    == all[index].action(controller_id, true),
        decreases rest@.len(),
    {
        let packet = rest.remove(0);
        assert(packet == all[count as int]);
        let ghost earlier = link.log();
        let accepted: bool = packet.send(link, controller_id);
        if !accepted {
            proof {
                let ghost later = link.log();
                assert forall|index: int| 0 <= index < later.len() - log.len() implies (
                #[trigger] later[log.len() + index]) == all[index].action(
                    controller_id,
                    index < later.len() - log.len() - 1,
                ) by {
                    if index < count {
                        assert(later[log.len() + index] == earlier[log.len() + index]);
                    }
                }
            }
            return false;
        }
        proof {
            count = count + 1;
            assert(rest@ =~= all.skip(count as int));
        }
    }
    true
}

} // verus!
