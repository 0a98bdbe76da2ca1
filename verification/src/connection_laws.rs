//! What connecting to an LE peer asks of the controller.

use crate::address::Address;
use crate::commands::{addresses, first_at};
use crate::connect::connects_extended;
use crate::device::DeviceView;
use crate::hci::Command;
use crate::transport::{HostAction, LinkStep};
use vstd::prelude::*;

verus! {

/// Whether a command asks for an LE connection to a peer: the address goes with
/// its kind, which is zero for a public address and one for a random one.
pub open spec fn connects_to(command: Command, peer: Address) -> bool {
    let public = peer.address_type == 0 || peer.address_type == 2;
    match command {
        Command::LeCreateConnection {
            le_scan_interval,
            le_scan_window,
            initiator_filter_policy,
            peer_address_type,
            peer_address,
            own_address_type,
            connection_interval_min,
            connection_interval_max,
            max_latency,
            supervision_timeout,
            min_ce_length,
            max_ce_length,
        } => {
            &&& peer_address == peer
            &&& public ==> peer_address_type == 0
            &&& !public ==> peer_address_type == 1
            &&& own_address_type == 1
            &&& initiator_filter_policy == 0
            &&& le_scan_interval == 16 && le_scan_window == 16
            &&& connection_interval_min == 24 && connection_interval_max == 40
            &&& max_latency == 0
            &&& supervision_timeout == 42
            &&& min_ce_length == 0 && max_ce_length == 0
        },
        Command::LeExtendedCreateConnection {
            initiator_filter_policy,
            own_address_type,
            peer_address_type,
            peer_address,
            initiating_phys,
            scan_intervals,
            scan_windows,
            connection_interval_mins,
            connection_interval_maxs,
            max_latencies,
            supervision_timeouts,
            min_ce_lengths,
            max_ce_lengths,
        } => {
            &&& peer_address == peer
            &&& public ==> peer_address_type == 0
            &&& !public ==> peer_address_type == 1
            &&& own_address_type == 1
            &&& initiator_filter_policy == 0
            &&& initiating_phys == 1
            &&& scan_intervals@.len() == 1 && scan_intervals@[0] == 16
            &&& scan_windows@.len() == 1 && scan_windows@[0] == 16
            &&& connection_interval_mins@.len() == 1 && connection_interval_mins@[0] == 24
            &&& connection_interval_maxs@.len() == 1 && connection_interval_maxs@[0] == 40
            &&& max_latencies@.len() == 1 && max_latencies@[0] == 0
            &&& supervision_timeouts@.len() == 1 && supervision_timeouts@[0] == 42
            &&& min_ce_lengths@.len() == 1 && min_ce_lengths@[0] == 0
            &&& max_ce_lengths@.len() == 1 && max_ce_lengths@[0] == 0
        },
        _ => false,
    }
}

/// Whether a history went on with one command, and then with the link setting
/// connections up.
pub open spec fn asked_and_established(
    log_before: Seq<HostAction>,
    log_after: Seq<HostAction>,
    controller_id: usize,
) -> bool {
    &&& log_after.len() == log_before.len() + 2
    &&& log_after.take(log_before.len() as int) == log_before
    &&& log_after[log_before.len() as int] matches HostAction::Command { controller_id: id, .. }
        && id == controller_id
    &&& log_after.last() == (HostAction::Advance { step: LinkStep::EstablishConnections })
}

/// A device that connects to an LE peer hands over one command with the peer's
/// address and its kind: zero if the address is public, and one if it is random.
/// While an attempt is under way, another is not made.
pub proof fn lemma_connect_names_peer(
    device: DeviceView,
    after: DeviceView,
    peer: Address,
    asked: bool,
    log_before: Seq<HostAction>,
    log_after: Seq<HostAction>,
)
    requires
        device.le_connect_asked(after, peer, asked, log_before, log_after),
    ensures
        after.le.le_connecting,
        asked <==> !device.le.le_connecting,
        !asked ==> log_after == log_before && after =~= device,
        asked ==> {
            let command = log_after[log_before.len() as int]->Command_command;
            &&& asked_and_established(log_before, log_after, device.controller_id)
            &&& command is LeCreateConnection
            &&& connects_to(command, peer)
        },
{
    if asked {
        assert(log_after.take(log_before.len() as int) =~= log_before);
    }
}

/// Connecting by the extended command asks for the same as connecting by the
/// other one.
pub proof fn lemma_extended_connect_names_peer(
    device: DeviceView,
    after: DeviceView,
    peer: Address,
    asked: bool,
    log_before: Seq<HostAction>,
    log_after: Seq<HostAction>,
)
    requires
        device.le_extended_connect_asked(after, peer, asked, log_before, log_after),
    ensures
        after.le.le_connecting,
        asked <==> !device.le.le_connecting,
        !asked ==> log_after == log_before && after =~= device,
        asked ==> {
            let command = log_after[log_before.len() as int]->Command_command;
            &&& asked_and_established(log_before, log_after, device.controller_id)
            &&& command is LeExtendedCreateConnection
            &&& connects_to(command, peer)
        },
{
    if asked {
        let command = log_after[log_before.len() as int]->Command_command;
        assert(connects_extended(command, peer));
        assert(log_after.take(log_before.len() as int) =~= log_before);
    }
}

/// Both ways to connect to an LE peer name the same peer and the same kind of
/// address.
pub proof fn lemma_connects_agree(
    device: DeviceView,
    after: DeviceView,
    extended_after: DeviceView,
    peer: Address,
    log_before: Seq<HostAction>,
    log_after: Seq<HostAction>,
    extended_log_after: Seq<HostAction>,
)
    requires
        device.le_connect_asked(after, peer, true, log_before, log_after),
        device.le_extended_connect_asked(
            extended_after,
            peer,
            true,
            log_before,
            extended_log_after,
        ),
    ensures
        after == extended_after,
        ({
            let command = log_after[log_before.len() as int]->Command_command;
            let extended = extended_log_after[log_before.len() as int]->Command_command;
            &&& command->LeCreateConnection_peer_address
                == extended->LeExtendedCreateConnection_peer_address
            &&& command->LeCreateConnection_peer_address_type
                == extended->LeExtendedCreateConnection_peer_address_type
            &&& command->LeCreateConnection_own_address_type
                == extended->LeExtendedCreateConnection_own_address_type
        }),
{
    lemma_connect_names_peer(device, after, peer, true, log_before, log_after);
    lemma_extended_connect_names_peer(
        device,
        extended_after,
        peer,
        true,
        log_before,
        extended_log_after,
    );
}

/// The request to end a connection names the connection and the reason, and the
/// device waits for the end exactly where the request was accepted.
pub proof fn lemma_disconnect_names_connection(
    device: DeviceView,
    after: DeviceView,
    handle: u16,
    reason: u8,
    accepted: bool,
    log_before: Seq<HostAction>,
    log_after: Seq<HostAction>,
)
    requires
        device.disconnect_asked(after, handle, reason, accepted, log_before, log_after),
    ensures
        log_after.len() == log_before.len() + 1,
        log_after.drop_last() == log_before,
        match log_after.last() {
            HostAction::Disconnect { controller_id, connection_handle, reason: given, .. } => {
                &&& controller_id == device.controller_id
                &&& connection_handle == handle
                &&& given == reason
            },
            HostAction::Command { controller_id, command } => {
                &&& accepted
                &&& controller_id == device.controller_id
                &&& command == (Command::Disconnect { connection_handle: handle, reason })
            },
            _ => false,
        },
        accepted ==> after.le.pending_disconnections.contains(handle),
        forall|other: u16|
            other != handle ==> (#[trigger] after.le.pending_disconnections.contains(other)
                <==> device.le.pending_disconnections.contains(other)),
        !accepted ==> after == device,
        after.le.le_connections == device.le.le_connections,
        after.classic == device.classic,
        after.iso == device.iso,
        after.journal == device.journal,
{
}

/// A command that brings about a Classic connection notes the role that it will
/// have for the peer: central where the device connects, and the chosen one where
/// it accepts. A command with a random address is kept as the device's. No other
/// command is noted.
pub proof fn lemma_command_is_noted(device: DeviceView, command: Command, peer: Address, role: u8)
    ensures
        command is CreateConnection ==> device.after_command(command) == (DeviceView {
            classic: device.classic.with_pending_role(command->CreateConnection_bd_addr, 0),
            ..device
        }),
        command is AcceptConnectionRequest ==> device.after_command(command) == (DeviceView {
            classic: device.classic.with_pending_role(
                command->AcceptConnectionRequest_bd_addr,
                command->AcceptConnectionRequest_role,
            ),
            ..device
        }),
        command is LeSetRandomAddress ==> device.after_command(command).identity.random_address
            == command->LeSetRandomAddress_random_address,
        !(command is CreateConnection) && !(command is AcceptConnectionRequest)
            && !(command is LeSetRandomAddress) ==> device.after_command(command) == device,
        device.classic.with_pending_role(peer, role).pending_classic_roles.contains((peer, role)),
{
    let roles = device.classic.pending_classic_roles;
    let after = device.classic.with_pending_role(peer, role).pending_classic_roles;
    addresses(roles).index_of_first_ensures(peer);
    match first_at(roles, peer) {
        Some(index) => {
            assert(after[index] == (peer, role));
        },
        None => {
            assert(after[roles.len() as int] == (peer, role));
        },
    }
}

} // verus!
