//! The link between a host and its controller.

use crate::hci::{AclDataPacket, Command, HciPacket, IsoDataPacket};
use crate::retain::take_all;
use vstd::prelude::*;

verus! {

/// A part of a link that can be asked to go on by itself.
#[derive(Clone, Copy, Debug, PartialEq, Eq, Structural)]
pub enum LinkStep {
    /// In-process connection setup.
    EstablishConnections,
    /// Pending LE link-layer control procedures.
    LinkLayer,
    /// Pending Classic baseband procedures.
    Classic,
    /// Pending periodic sync transfers.
    PeriodicSyncTransfers,
    /// Broadcast-group termination notifications.
    BigTerminations,
}

/// One thing that the host handed to its transport, and whether it was
/// accepted where the transport says so; or one time that the host took what
/// the transport had for it, or asked it to go on.
pub enum HostAction {
    Command { controller_id: usize, command: Command },
    Acl { controller_id: usize, packet: AclDataPacket, accepted: bool },
    Synchronous {
        controller_id: usize,
        connection_handle: u16,
        packet_status: u8,
        data: Seq<u8>,
        accepted: bool,
    },
    Iso { controller_id: usize, packet: IsoDataPacket, accepted: bool },
    Disconnect { controller_id: usize, connection_handle: u16, reason: u8, accepted: bool },
    Drain { controller_id: usize, packets: Seq<HciPacket> },
    Advance { step: LinkStep },
}

/// The log after the link was asked to go on with one step.
pub open spec fn advanced(log: Seq<HostAction>, step: LinkStep) -> Seq<HostAction> {
    log.push(HostAction::Advance { step })
}

/// The handover of a sequence of commands.
pub open spec fn commands(controller_id: usize, commands: Seq<Command>) -> Seq<HostAction> {
    Seq::new(
        commands.len(),
        |index: int| HostAction::Command { controller_id, command: commands[index] },
    )
}

/// Handing over one more command.
pub proof fn lemma_commands_push(
    log: Seq<HostAction>,
    controller_id: usize,
    sent: Seq<Command>,
    command: Command,
)
    ensures
        (log + commands(controller_id, sent)).push(HostAction::Command { controller_id, command })
            == log + commands(controller_id, sent.push(command)),
{
    assert((log + commands(controller_id, sent)).push(
        HostAction::Command { controller_id, command },
    ) =~= log + commands(controller_id, sent.push(command)));
}

/// Handing over no command.
pub proof fn lemma_commands_none(log: Seq<HostAction>, controller_id: usize)
    ensures
        log + commands(controller_id, Seq::empty()) == log,
{
    assert(log + commands(controller_id, Seq::empty()) =~= log);
}

/// Handing over commands in two steps.
pub proof fn lemma_commands_concat(
    log: Seq<HostAction>,
    controller_id: usize,
    first: Seq<Command>,
    second: Seq<Command>,
)
    ensures
        log + commands(controller_id, first) + commands(controller_id, second) == log + commands(
            controller_id,
            first + second,
        ),
{
    assert(log + commands(controller_id, first) + commands(controller_id, second) =~= log
        + commands(controller_id, first + second));
}

/// The commands that were handed over in between.
pub open spec fn sent_between(before: Seq<HostAction>, after: Seq<HostAction>) -> Seq<Command> {
    Seq::new(
        (after.len() - before.len()) as nat,
        |index: int| after[before.len() + index]->Command_command,
    )
}

/// Whether commands, and nothing else, were handed over in between.
pub open spec fn only_commands(
    before: Seq<HostAction>,
    after: Seq<HostAction>,
    controller_id: usize,
) -> bool {
    after == before + commands(controller_id, sent_between(before, after))
}

/// What was handed over is what is found in between.
pub proof fn lemma_sent_between(
    before: Seq<HostAction>,
    after: Seq<HostAction>,
    controller_id: usize,
    list: Seq<Command>,
)
    requires
        after == before + commands(controller_id, list),
    ensures
        sent_between(before, after) == list,
        only_commands(before, after, controller_id),
{
    assert(sent_between(before, after) =~= list);
}

/// One command, where a condition holds.
pub open spec fn command_if(condition: bool, command: Command) -> Seq<Command> {
    if condition {
        seq![command]
    } else {
        Seq::empty()
    }
}

/// Add a command to a list where a condition holds.
pub fn push_when(list: &mut Vec<Command>, condition: bool, command: Command)
    ensures
        final(list)@ == old(list)@ + command_if(condition, command),
{
    if condition {
        list.push(command);
    }
    assert(list@ =~= old(list)@ + command_if(condition, command));
}

/// Hand over a list of commands in order.
pub fn send_all<L: HostTransport + ?Sized>(link: &mut L, controller_id: usize, list: Vec<Command>)
    ensures
        final(link).log() == old(link).log() + commands(controller_id, list@),
{
    let ghost log = link.log();
    let ghost all = list@;
    let mut rest: Vec<Command> = list;
    let mut reversed: Vec<Command> = Vec::new();
    let total: usize = rest.len();
    while rest.len() > 0
        invariant
            total == all.len(),
            rest@.len() + reversed@.len() == total,
            rest@ == all.take(rest@.len() as int),
            forall|index: int|
                0 <= index < reversed@.len() ==> reversed@[index] == all[total - 1 - index],
        decreases rest@.len(),
    {
        if let Some(command) = rest.pop() {
            reversed.push(command);
        }
    }
    let ghost mut sent: Seq<Command> = Seq::empty();
    proof {
        lemma_commands_none(log, controller_id);
        assert(all.take(0) =~= sent);
    }
    while reversed.len() > 0
        invariant
            total == all.len(),
            reversed@.len() <= total,
            sent == all.take(total - reversed@.len()),
            forall|index: int|
                0 <= index < reversed@.len() ==> reversed@[index] == all[total - 1 - index],
            link.log() == log + commands(controller_id, sent),
        decreases reversed@.len(),
    {
        let ghost next = total - reversed@.len();
        if let Some(command) = reversed.pop() {
            link.handle_command(controller_id, command);
            proof {
                lemma_commands_push(log, controller_id, sent, command);
                sent = sent.push(command);
                assert(sent =~= all.take(next + 1));
            }
        }
    }
    assert(sent =~= all);
}

/// How a disconnection request shows in the log: as a request of its own, or
/// as the HCI command, which is always accepted.
pub open spec fn disconnect_action(
    action: HostAction,
    controller_id: usize,
    connection_handle: u16,
    reason: u8,
    accepted: bool,
) -> bool {
    ||| action == (HostAction::Disconnect { controller_id, connection_handle, reason, accepted })
    ||| accepted && action == (HostAction::Command {
        controller_id,
        command: Command::Disconnect { connection_handle, reason },
    })
}

/// Transport-neutral HCI link used by a device.
///
/// External-controller adapters implement these operations by writing HCI
/// packets and returning packets read from a real transport. The log is the
/// history of what was handed over, taken and asked for. A verified adapter
/// defines it, as [`QueuedTransport`] does: of the default none of the clauses
/// below can be proved. The default serves only adapters that are compiled
/// without being verified, which have no use for a history that exists in
/// proofs alone; they are trusted to do what the clauses say.
pub trait HostTransport {
    open spec fn log(&self) -> Seq<HostAction> {
        arbitrary()
    }

    fn handle_command(&mut self, controller_id: usize, command: Command)
        ensures
            final(self).log() == old(self).log().push(
                HostAction::Command { controller_id, command },
            ),
    ;

    fn send_acl_packet(&mut self, controller_id: usize, packet: AclDataPacket) -> (accepted: bool)
        ensures
            final(self).log() == old(self).log().push(
                HostAction::Acl { controller_id, packet, accepted },
            ),
    ;

    fn send_synchronous_data(
        &mut self,
        controller_id: usize,
        connection_handle: u16,
        packet_status: u8,
        data: &[u8],
    ) -> (accepted: bool)
        ensures
            final(self).log() == old(self).log().push(
                HostAction::Synchronous {
                    controller_id,
                    connection_handle,
                    packet_status,
                    data: data@,
                    accepted,
                },
            ),
    ;

    fn send_iso_packet(&mut self, controller_id: usize, packet: IsoDataPacket) -> (accepted: bool)
        ensures
            final(self).log() == old(self).log().push(
                HostAction::Iso { controller_id, packet, accepted },
            ),
    ;

    fn disconnect(&mut self, controller_id: usize, connection_handle: u16, reason: u8) -> (accepted:
        bool)
        ensures
            final(self).log().len() == old(self).log().len() + 1,
            final(self).log().drop_last() == old(self).log(),
            disconnect_action(
                final(self).log().last(),
                controller_id,
                connection_handle,
                reason,
                accepted,
            ),
    {
        self.handle_command(controller_id, Command::Disconnect { connection_handle, reason });
        assert(self.log().drop_last() =~= old(self).log());
        true
    }

    /// Take the packets that have come for a controller's host, in the order
    /// in which they came.
    fn drain_host_events(&mut self, controller_id: usize) -> (packets: Vec<HciPacket>)
        ensures
            final(self).log() == old(self).log().push(
                HostAction::Drain { controller_id, packets: packets@ },
            ),
    ;

    /// Go on with one step where it is due. External controllers progress
    /// independently, so their implementation may leave this as a no-op.
    fn advance(&mut self, step: LinkStep)
        ensures
            final(self).log() == advanced(old(self).log(), step),
    ;

    /// Advance any in-process connection setup.
    fn establish_connections(&mut self)
        ensures
            final(self).log() == advanced(old(self).log(), LinkStep::EstablishConnections),
    {
        self.advance(LinkStep::EstablishConnections);
    }

    /// Advance pending LE link-layer control procedures when applicable.
    fn pump_ll(&mut self)
        ensures
            final(self).log() == advanced(old(self).log(), LinkStep::LinkLayer),
    {
        self.advance(LinkStep::LinkLayer);
    }

    /// Advance pending Classic baseband procedures when applicable.
    fn pump_classic(&mut self)
        ensures
            final(self).log() == advanced(old(self).log(), LinkStep::Classic),
    {
        self.advance(LinkStep::Classic);
    }

    /// Advance pending periodic sync transfers when applicable.
    fn pump_periodic_sync_transfers(&mut self)
        ensures
            final(self).log() == advanced(old(self).log(), LinkStep::PeriodicSyncTransfers),
    {
        self.advance(LinkStep::PeriodicSyncTransfers);
    }

    /// Advance broadcast-group termination notifications when applicable.
    fn pump_big_terminations(&mut self)
        ensures
            final(self).log() == advanced(old(self).log(), LinkStep::BigTerminations),
    {
        self.advance(LinkStep::BigTerminations);
    }
}

/// Dynamically dispatched host link accepted by device operations.
pub type LocalLink = dyn HostTransport;

/// A packet on its way from the host to a controller.
#[derive(Debug, PartialEq, Eq)]
pub enum OutgoingPacket {
    Command { controller_id: usize, command: Command },
    Acl { controller_id: usize, packet: AclDataPacket },
    Synchronous {
        controller_id: usize,
        connection_handle: u16,
        packet_status: u8,
        data: Vec<u8>,
    },
    Iso { controller_id: usize, packet: IsoDataPacket },
}

impl OutgoingPacket {
    /// The handover that the packet stands for.
    pub open spec fn action(self) -> HostAction {
        match self {
            OutgoingPacket::Command { controller_id, command } => HostAction::Command {
                controller_id,
                command,
            },
            OutgoingPacket::Acl { controller_id, packet } => HostAction::Acl {
                controller_id,
                packet,
                accepted: true,
            },
            OutgoingPacket::Synchronous {
                controller_id,
                connection_handle,
                packet_status,
                data,
            } => HostAction::Synchronous {
                controller_id,
                connection_handle,
                packet_status,
                data: data@,
                accepted: true,
            },
            OutgoingPacket::Iso { controller_id, packet } => HostAction::Iso {
                controller_id,
                packet,
                accepted: true,
            },
        }
    }
}

/// A transport that keeps outgoing packets in order until they are written to
/// a wire, and hands on the packets that were read from it.
pub struct QueuedTransport {
    pub outgoing: Vec<OutgoingPacket>,
    pub incoming: Vec<HciPacket>,
    pub history: Ghost<Seq<HostAction>>,
}

impl QueuedTransport {
    pub fn new() -> (transport: Self)
        ensures
            transport.outgoing@ == Seq::<OutgoingPacket>::empty(),
            transport.incoming@ == Seq::<HciPacket>::empty(),
            transport.log() == Seq::<HostAction>::empty(),
    {
        QueuedTransport {
            outgoing: Vec::new(),
            incoming: Vec::new(),
            history: Ghost(Seq::empty()),
        }
    }

    /// Queue a packet.
    fn queue(&mut self, packet: OutgoingPacket)
        ensures
            final(self).outgoing@ == old(self).outgoing@.push(packet),
            final(self).incoming == old(self).incoming,
            final(self).log() == old(self).log().push(packet.action()),
    {
        proof {
            self.history@ = self.history@.push(packet.action());
        }
        self.outgoing.push(packet);
    }
}

impl HostTransport for QueuedTransport {
    open spec fn log(&self) -> Seq<HostAction> {
        self.history@
    }

    fn handle_command(&mut self, controller_id: usize, command: Command)
        ensures
            final(self).outgoing@ == old(self).outgoing@.push(
                OutgoingPacket::Command { controller_id, command },
            ),
            final(self).incoming == old(self).incoming,
    {
        self.queue(OutgoingPacket::Command { controller_id, command });
    }

    fn send_acl_packet(&mut self, controller_id: usize, packet: AclDataPacket) -> (accepted: bool)
        ensures
            accepted,
            final(self).outgoing@ == old(self).outgoing@.push(
                OutgoingPacket::Acl { controller_id, packet },
            ),
            final(self).incoming == old(self).incoming,
    {
        self.queue(OutgoingPacket::Acl { controller_id, packet });
        true
    }

    fn send_synchronous_data(
        &mut self,
        controller_id: usize,
        connection_handle: u16,
        packet_status: u8,
        data: &[u8],
    ) -> (accepted: bool)
        ensures
            accepted,
            final(self).outgoing@.len() == old(self).outgoing@.len() + 1,
            final(self).outgoing@.drop_last() == old(self).outgoing@,
            final(self).outgoing@.last().action() == (HostAction::Synchronous {
                controller_id,
                connection_handle,
                packet_status,
                data: data@,
                accepted,
            }),
            final(self).incoming == old(self).incoming,
    {
        let mut bytes: Vec<u8> = Vec::new();
        bytes.extend_from_slice(data);
        assert(bytes@ =~= data@);
        self.queue(
            OutgoingPacket::Synchronous {
                controller_id,
                connection_handle,
                packet_status,
                data: bytes,
            },
        );
        assert(self.outgoing@.drop_last() =~= old(self).outgoing@);
        true
    }

    fn send_iso_packet(&mut self, controller_id: usize, packet: IsoDataPacket) -> (accepted: bool)
        ensures
            accepted,
            final(self).outgoing@ == old(self).outgoing@.push(
                OutgoingPacket::Iso { controller_id, packet },
            ),
            final(self).incoming == old(self).incoming,
    {
        self.queue(OutgoingPacket::Iso { controller_id, packet });
        true
    }

    fn drain_host_events(&mut self, controller_id: usize) -> (packets: Vec<HciPacket>)
        ensures
            packets == old(self).incoming,
            final(self).incoming@ == Seq::<HciPacket>::empty(),
            final(self).outgoing == old(self).outgoing,
    {
        let packets = take_all(&mut self.incoming);
        proof {
            self.history@ = self.history@.push(
                HostAction::Drain { controller_id, packets: packets@ },
            );
        }
        packets
    }

    fn advance(&mut self, step: LinkStep)
        ensures
            final(self).outgoing == old(self).outgoing,
            final(self).incoming == old(self).incoming,
    {
        proof {
            self.history@ = advanced(self.history@, step);
        }
    }
}

} // verus!
