//! Establishing and ending LE connections, and periodic synchronization.

use crate::address::Address;
use crate::commands::{with_command, with_command_if};
use crate::device::{Device, DeviceView};
use crate::hci::Command;
use crate::power::{bit, spec_bit};
use crate::state::{GapView, LeView};
use crate::transport::{advanced, disconnect_action, HostAction, HostTransport, LinkStep};
use vstd::prelude::*;

verus! {

broadcast use vstd::laws_cmp::group_laws_cmp;

/// The largest advertising set identifier.
pub const MAX_ADVERTISING_SID: u8 = 0x0F;

/// The most periodic advertising events that can be skipped.
pub const MAX_SYNC_SKIP: u16 = 0x01F3;

/// The shortest timeout of a periodic advertising sync.
pub const MIN_SYNC_TIMEOUT: u16 = 0x000A;

/// The longest timeout of a periodic advertising sync.
pub const MAX_SYNC_TIMEOUT: u16 = 0x4000;

/// A list of one number.
fn one(number: u16) -> (list: Vec<u16>)
    ensures
        list@ == seq![number],
{
    let mut list: Vec<u16> = Vec::new();
    list.push(number);
    assert(list@ =~= seq![number]);
    list
}

/// The command that connects to an LE peer.
pub open spec fn connect_command(peer_address: Address) -> Command {
    Command::LeCreateConnection {
        le_scan_interval: 0x0010,
        le_scan_window: 0x0010,
        initiator_filter_policy: 0,
        peer_address_type: spec_bit(!peer_address.spec_is_public()),
        peer_address,
        own_address_type: 1,
        connection_interval_min: 24,
        connection_interval_max: 40,
        max_latency: 0,
        supervision_timeout: 42,
        min_ce_length: 0,
        max_ce_length: 0,
    }
}

/// Whether a command connects to an LE peer on the 1M PHY.
pub open spec fn connects_extended(command: Command, peer: Address) -> bool {
    command matches Command::LeExtendedCreateConnection {
        initiator_filter_policy,
        own_address_type,
        peer_address_type,
        peer_address,
        initiating_phys,
        scan_intervals,
        scan_windows,
        connection_interval_mins,
        connection_interval_maxs,
        max_latencies,
        supervision_timeouts,
        min_ce_lengths,
        max_ce_lengths,
    } && {
        &&& initiator_filter_policy == 0
        &&& own_address_type == 1
        &&& peer_address_type == spec_bit(!peer.spec_is_public())
        &&& peer_address == peer
        &&& initiating_phys == 1
        &&& scan_intervals@ == seq![0x0010u16]
        &&& scan_windows@ == seq![0x0010u16]
        &&& connection_interval_mins@ == seq![24u16]
        &&& connection_interval_maxs@ == seq![40u16]
        &&& max_latencies@ == seq![0u16]
        &&& supervision_timeouts@ == seq![42u16]
        &&& min_ce_lengths@ == seq![0u16]
        &&& max_ce_lengths@ == seq![0u16]
    }
}

impl DeviceView {
    /// A device that is connecting to an LE peer or not.
    pub open spec fn with_le_connecting(self, le_connecting: bool) -> DeviceView {
        DeviceView { le: LeView { le_connecting, ..self.le }, ..self }
    }

    /// How the request to connect to an LE peer shows.
    pub open spec fn le_connect_asked(
        self,
        after: DeviceView,
        peer_address: Address,
        asked: bool,
        log_before: Seq<HostAction>,
        log_after: Seq<HostAction>,
    ) -> bool {
        &&& asked == !self.le.le_connecting
        &&& after == self.with_le_connecting(true)
        &&& log_after == if asked {
            advanced(
                with_command(log_before, self.controller_id, connect_command(peer_address)),
                LinkStep::EstablishConnections,
            )
        } else {
            log_before
        }
    }

    /// How the request to connect to an LE peer by the extended command shows.
    pub open spec fn le_extended_connect_asked(
        self,
        after: DeviceView,
        peer_address: Address,
        asked: bool,
        log_before: Seq<HostAction>,
        log_after: Seq<HostAction>,
    ) -> bool {
        &&& asked == !self.le.le_connecting
        &&& after == self.with_le_connecting(true)
        &&& if asked {
            exists|command: Command|
                {
                    &&& #[trigger] connects_extended(command, peer_address)
                    &&& log_after == advanced(
                        with_command(log_before, self.controller_id, command),
                        LinkStep::EstablishConnections,
                    )
                }
        } else {
            log_after == log_before
        }
    }

    /// A device that waits for the end of a connection.
    pub open spec fn disconnecting(self, connection_handle: u16) -> DeviceView {
        DeviceView {
            le: LeView {
                pending_disconnections: self.le.pending_disconnections.insert(connection_handle),
                ..self.le
            },
            ..self
        }
    }

    /// How the request to end a connection shows: the transport is asked once,
    /// and the device waits where it accepts.
    pub open spec fn disconnect_asked(
        self,
        after: DeviceView,
        connection_handle: u16,
        reason: u8,
        accepted: bool,
        log_before: Seq<HostAction>,
        log_after: Seq<HostAction>,
    ) -> bool {
        &&& log_after.len() == log_before.len() + 1
        &&& log_after.drop_last() == log_before
        &&& disconnect_action(
            log_after.last(),
            self.controller_id,
            connection_handle,
            reason,
            accepted,
        )
        &&& after == if accepted {
            self.disconnecting(connection_handle)
        } else {
            self
        }
    }
}

impl DeviceView {
    /// How a call of [`Device::cancel_le_connection`] shows.
    pub open spec fn cancel_le_connection_shows(
        self,
        after: DeviceView,
        cancelled: bool,
        log_before: Seq<HostAction>,
        log_after: Seq<HostAction>,
    ) -> bool {
        &&& cancelled == self.le.le_connecting
        &&& after == self.with_le_connecting(false)
        &&& log_after == with_command_if(
            log_before,
            self.controller_id,
            cancelled,
            Command::LeCreateConnectionCancel,
        )
    }

    /// How a call of [`Device::terminate_periodic_advertising_sync`] shows.
    pub open spec fn terminate_periodic_advertising_sync_shows(
        self,
        after: DeviceView,
        sync_handle: u16,
        log_before: Seq<HostAction>,
        log_after: Seq<HostAction>,
    ) -> bool {
        &&& after == (DeviceView {
            gap: GapView {
                periodic_syncs: self.gap.periodic_syncs.remove(sync_handle),
                periodic_report_accumulators: self.gap.periodic_report_accumulators.remove(sync_handle),
                ..self.gap
            },
            ..self
        })
        &&& log_after == with_command(
            log_before,
            self.controller_id,
            Command::LePeriodicAdvertisingTerminateSync { sync_handle },
        )
    }

    /// How a call of [`Device::create_periodic_advertising_sync`] shows.
    pub open spec fn create_periodic_advertising_sync_shows(
        self,
        after: DeviceView,
        advertiser_address: Address,
        advertising_sid: u8,
        skip: u16,
        sync_timeout: u16,
        filter_duplicates: bool,
        asked: bool,
        log_before: Seq<HostAction>,
        log_after: Seq<HostAction>,
    ) -> bool {
        &&& asked == (advertising_sid <= MAX_ADVERTISING_SID && skip <= MAX_SYNC_SKIP
            && MIN_SYNC_TIMEOUT <= sync_timeout <= MAX_SYNC_TIMEOUT)
        &&& after == self
        &&& log_after == with_command_if(
            log_before,
            self.controller_id,
            asked,
            Command::LePeriodicAdvertisingCreateSync {
                options: spec_bit(filter_duplicates),
                advertising_sid,
                advertiser_address_type: advertiser_address.address_type,
                advertiser_address,
                skip,
                sync_timeout,
                sync_cte_type: 0,
            },
        )
    }

    /// How a call of [`Device::cancel_periodic_advertising_sync`] shows.
    pub open spec fn cancel_periodic_advertising_sync_shows(
        self,
        after: DeviceView,
        log_before: Seq<HostAction>,
        log_after: Seq<HostAction>,
    ) -> bool {
        &&& after == self
        &&& log_after == with_command(
            log_before,
            self.controller_id,
            Command::LePeriodicAdvertisingCreateSyncCancel,
        )
    }

    /// How a call of [`Device::set_periodic_advertising_receive_enabled`] shows.
    pub open spec fn set_periodic_advertising_receive_enabled_shows(
        self,
        after: DeviceView,
        sync_handle: u16,
        enabled: bool,
        log_before: Seq<HostAction>,
        log_after: Seq<HostAction>,
    ) -> bool {
        &&& after == self
        &&& log_after == with_command(
            log_before,
            self.controller_id,
            Command::LeSetPeriodicAdvertisingReceiveEnable {
                sync_handle,
                enable: spec_bit(enabled),
            },
        )
    }

    /// How a call of [`Device::transfer_periodic_advertising_sync`] shows.
    pub open spec fn transfer_periodic_advertising_sync_shows(
        self,
        after: DeviceView,
        sync_handle: u16,
        service_data: u16,
        asked: bool,
        log_before: Seq<HostAction>,
        log_after: Seq<HostAction>,
    ) -> bool {
        &&& after == self
        &&& asked == (self.le.connection_handle is Some)
        &&& log_after == with_command_if(
            log_before,
            self.controller_id,
            asked,
            Command::LePeriodicAdvertisingSyncTransfer {
                connection_handle: self.le.connection_handle->0,
                service_data,
                sync_handle,
            },
        )
    }

    /// How a call of [`Device::transfer_periodic_advertising_sync_on_handle`] shows.
    pub open spec fn transfer_periodic_advertising_sync_on_handle_shows(
        self,
        after: DeviceView,
        connection_handle: u16,
        sync_handle: u16,
        service_data: u16,
        asked: bool,
        log_before: Seq<HostAction>,
        log_after: Seq<HostAction>,
    ) -> bool {
        &&& asked == self.le.le_connections.contains_key(connection_handle)
        &&& after == self
        &&& log_after == with_command_if(
            log_before,
            self.controller_id,
            asked,
            Command::LePeriodicAdvertisingSyncTransfer {
                connection_handle,
                service_data,
                sync_handle,
            },
        )
    }

    /// How a call of [`Device::transfer_periodic_advertising_set_info`] shows.
    pub open spec fn transfer_periodic_advertising_set_info_shows(
        self,
        after: DeviceView,
        advertising_handle: u8,
        service_data: u16,
        asked: bool,
        log_before: Seq<HostAction>,
        log_after: Seq<HostAction>,
    ) -> bool {
        &&& after == self
        &&& asked == (self.le.connection_handle is Some)
        &&& log_after == with_command_if(
            log_before,
            self.controller_id,
            asked,
            Command::LePeriodicAdvertisingSetInfoTransfer {
                connection_handle: self.le.connection_handle->0,
                service_data,
                advertising_handle,
            },
        )
    }

    /// How a call of [`Device::transfer_periodic_advertising_set_info_on_handle`] shows.
    pub open spec fn transfer_periodic_advertising_set_info_on_handle_shows(
        self,
        after: DeviceView,
        connection_handle: u16,
        advertising_handle: u8,
        service_data: u16,
        asked: bool,
        log_before: Seq<HostAction>,
        log_after: Seq<HostAction>,
    ) -> bool {
        &&& asked == self.le.le_connections.contains_key(connection_handle)
        &&& after == self
        &&& log_after == with_command_if(
            log_before,
            self.controller_id,
            asked,
            Command::LePeriodicAdvertisingSetInfoTransfer {
                connection_handle,
                service_data,
                advertising_handle,
            },
        )
    }
}

impl Device {
    /// Connect to an LE peer, and let the link set the connection up. Returns
    /// `false`, with nothing done, while another attempt is under way.
    pub fn connect_le<L: HostTransport + ?Sized>(&mut self, link: &mut L, peer_address: Address) -> (
    asked: bool)
        requires
            old(self).wf(),
        ensures
            final(self).wf(),
            old(self)@.le_connect_asked(
                final(self)@,
                peer_address,
                asked,
                old(link).log(),
                final(link).log(),
            ),
    {
        if self.le.le_connecting {
            assert(self@ =~= old(self)@.with_le_connecting(true));
            return false;
        }
        self.le.le_connecting = true;
        assert(self@ =~= old(self)@.with_le_connecting(true));
        self.send_hci_command(
            link,
            Command::LeCreateConnection {
                le_scan_interval: 0x0010,
                le_scan_window: 0x0010,
                initiator_filter_policy: 0,
                peer_address_type: bit(!peer_address.is_public()),
                peer_address,
                own_address_type: 1,
                connection_interval_min: 24,
                connection_interval_max: 40,
                max_latency: 0,
                supervision_timeout: 42,
                min_ce_length: 0,
                max_ce_length: 0,
            },
        );
        link.establish_connections();
        true
    }

    /// Connect to an LE peer by the extended command, and let the link set the
    /// connection up. Returns `false`, with nothing done, while another attempt
    /// is under way.
    pub fn connect_le_extended<L: HostTransport + ?Sized>(
        &mut self,
        link: &mut L,
        peer_address: Address,
    ) -> (asked: bool)
        requires
            old(self).wf(),
        ensures
            final(self).wf(),
            old(self)@.le_extended_connect_asked(
                final(self)@,
                peer_address,
                asked,
                old(link).log(),
                final(link).log(),
            ),
    {
        if self.le.le_connecting {
            assert(self@ =~= old(self)@.with_le_connecting(true));
            return false;
        }
        self.le.le_connecting = true;
        assert(self@ =~= old(self)@.with_le_connecting(true));
        let command = Command::LeExtendedCreateConnection {
            initiator_filter_policy: 0,
            own_address_type: 1,
            peer_address_type: bit(!peer_address.is_public()),
            peer_address,
            initiating_phys: 1,
            scan_intervals: one(0x0010),
            scan_windows: one(0x0010),
            connection_interval_mins: one(24),
            connection_interval_maxs: one(40),
            max_latencies: one(0),
            supervision_timeouts: one(42),
            min_ce_lengths: one(0),
            max_ce_lengths: one(0),
        };
        assert(connects_extended(command, peer_address));
        self.hand_over_one(link, command);
        link.establish_connections();
        true
    }

    /// Cancel a pending LE connection attempt. Returns `false` when no LE
    /// connection procedure is active.
    pub fn cancel_le_connection<L: HostTransport + ?Sized>(&mut self, link: &mut L) -> (cancelled:
        bool)
        requires
            old(self).wf(),
        ensures
            final(self).wf(),
            old(self)@.cancel_le_connection_shows(
                final(self)@,
                cancelled,
                old(link).log(),
                final(link).log(),
            ),
    {
        if !self.le.le_connecting {
            assert(self@ =~= old(self)@.with_le_connecting(false));
            return false;
        }
        self.send_hci_command(link, Command::LeCreateConnectionCancel);
        self.le.le_connecting = false;
        assert(self@ =~= old(self)@.with_le_connecting(false));
        true
    }

    /// End a connection of any kind. Returns whether the transport accepted the
    /// request.
    pub fn disconnect_handle<L: HostTransport + ?Sized>(
        &mut self,
        link: &mut L,
        connection_handle: u16,
        reason: u8,
    ) -> (accepted: bool)
        requires
            old(self).wf(),
        ensures
            final(self).wf(),
            old(self)@.disconnect_asked(
                final(self)@,
                connection_handle,
                reason,
                accepted,
                old(link).log(),
                final(link).log(),
            ),
    {
        if !link.disconnect(self.controller_id, connection_handle, reason) {
            return false;
        }
        self.le.pending_disconnections.insert(connection_handle);
        assert(self@ =~= old(self)@.disconnecting(connection_handle));
        true
    }

    /// End the selected LE connection. Returns `false`, with nothing done,
    /// without one.
    pub fn disconnect<L: HostTransport + ?Sized>(&mut self, link: &mut L, reason: u8) -> (accepted:
        bool)
        requires
            old(self).wf(),
        ensures
            final(self).wf(),
            match old(self)@.le.connection_handle {
                Some(handle) => old(self)@.disconnect_asked(
                    final(self)@,
                    handle,
                    reason,
                    accepted,
                    old(link).log(),
                    final(link).log(),
                ),
                None => !accepted && final(self)@ == old(self)@ && final(link).log() == old(
                    link,
                ).log(),
            },
    {
        match self.le.connection_handle {
            Some(handle) => self.disconnect_handle(link, handle, reason),
            None => false,
        }
    }

    /// Send data on a synchronous connection. Returns whether the transport
    /// accepted it.
    pub fn send_synchronous<L: HostTransport + ?Sized>(
        &mut self,
        link: &mut L,
        connection_handle: u16,
        packet_status: u8,
        data: &[u8],
    ) -> (accepted: bool)
        requires
            old(self).wf(),
        ensures
            final(self).wf(),
            final(self)@ == old(self)@,
            final(link).log() == old(link).log().push(
                HostAction::Synchronous {
                    controller_id: old(self).controller_id,
                    connection_handle,
                    packet_status,
                    data: data@,
                    accepted,
                },
            ),
    {
        link.send_synchronous_data(self.controller_id, connection_handle, packet_status, data)
    }

    /// End a periodic advertising sync: nothing of it is kept.
    pub fn terminate_periodic_advertising_sync<L: HostTransport + ?Sized>(
        &mut self,
        link: &mut L,
        sync_handle: u16,
    )
        requires
            old(self).wf(),
        ensures
            final(self).wf(),
            old(self)@.terminate_periodic_advertising_sync_shows(
                final(self)@,
                sync_handle,
                old(link).log(),
                final(link).log(),
            ),
    {
        self.send_hci_command(link, Command::LePeriodicAdvertisingTerminateSync { sync_handle });
        self.gap.periodic_syncs.remove(&sync_handle);
        self.gap.periodic_report_accumulators.remove(&sync_handle);
        assert(self@.gap.periodic_report_accumulators =~= old(
            self,
        )@.gap.periodic_report_accumulators.remove(sync_handle));
        assert(self@ =~= (DeviceView {
            gap: GapView {
                periodic_syncs: old(self)@.gap.periodic_syncs.remove(sync_handle),
                periodic_report_accumulators: old(self)@.gap.periodic_report_accumulators.remove(
                    sync_handle,
                ),
                ..old(self)@.gap
            },
            ..old(self)@
        }));
    }

    /// Begin synchronization to a periodic advertiser. Returns `false`, with
    /// nothing done, for a parameter out of bounds.
    pub fn create_periodic_advertising_sync<L: HostTransport + ?Sized>(
        &mut self,
        link: &mut L,
        advertiser_address: Address,
        advertising_sid: u8,
        skip: u16,
        sync_timeout: u16,
        filter_duplicates: bool,
    ) -> (asked: bool)
        requires
            old(self).wf(),
        ensures
            final(self).wf(),
            old(self)@.create_periodic_advertising_sync_shows(
                final(self)@,
                advertiser_address,
                advertising_sid,
                skip,
                sync_timeout,
                filter_duplicates,
                asked,
                old(link).log(),
                final(link).log(),
            ),
    {
        if advertising_sid > MAX_ADVERTISING_SID || skip > MAX_SYNC_SKIP || sync_timeout
            < MIN_SYNC_TIMEOUT || sync_timeout > MAX_SYNC_TIMEOUT {
            return false;
        }
        self.send_hci_command(
            link,
            Command::LePeriodicAdvertisingCreateSync {
                options: bit(filter_duplicates),
                advertising_sid,
                advertiser_address_type: advertiser_address.address_type,
                advertiser_address,
                skip,
                sync_timeout,
                sync_cte_type: 0,
            },
        );
        true
    }

    /// Cancel a pending synchronization.
    pub fn cancel_periodic_advertising_sync<L: HostTransport + ?Sized>(
        &mut self,
        link: &mut L,
    )
        requires
            old(self).wf(),
        ensures
            final(self).wf(),
            old(self)@.cancel_periodic_advertising_sync_shows(
                final(self)@,
                old(link).log(),
                final(link).log(),
            ),
    {
        self.send_hci_command(
            link,
            Command::LePeriodicAdvertisingCreateSyncCancel,
        );
    }

    /// Receive or ignore the reports of a periodic advertising sync.
    pub fn set_periodic_advertising_receive_enabled<L: HostTransport + ?Sized>(
        &mut self,
        link: &mut L,
        sync_handle: u16,
        enabled: bool,
    )
        requires
            old(self).wf(),
        ensures
            final(self).wf(),
            old(self)@.set_periodic_advertising_receive_enabled_shows(
                final(self)@,
                sync_handle,
                enabled,
                old(link).log(),
                final(link).log(),
            ),
    {
        self.send_hci_command(
            link,
            Command::LeSetPeriodicAdvertisingReceiveEnable {
                sync_handle,
                enable: bit(enabled),
            },
        );
    }

    /// Hand a periodic advertising sync to a peer over the selected LE
    /// connection.
    pub fn transfer_periodic_advertising_sync<L: HostTransport + ?Sized>(
        &mut self,
        link: &mut L,
        sync_handle: u16,
        service_data: u16,
    ) -> (asked: bool)
        requires
            old(self).wf(),
        ensures
            final(self).wf(),
            old(self)@.transfer_periodic_advertising_sync_shows(
                final(self)@,
                sync_handle,
                service_data,
                asked,
                old(link).log(),
                final(link).log(),
            ),
    {
        match self.le.connection_handle {
            Some(handle) => self.transfer_periodic_advertising_sync_on_handle(link, handle, sync_handle, service_data),
            None => false,
        }
    }

    /// Hand a periodic advertising sync to a peer.
    pub fn transfer_periodic_advertising_sync_on_handle<L: HostTransport + ?Sized>(
        &mut self,
        link: &mut L,
        connection_handle: u16,
        sync_handle: u16,
        service_data: u16,
    ) -> (asked: bool)
        requires
            old(self).wf(),
        ensures
            final(self).wf(),
            old(self)@.transfer_periodic_advertising_sync_on_handle_shows(
                final(self)@,
                connection_handle,
                sync_handle,
                service_data,
                asked,
                old(link).log(),
                final(link).log(),
            ),
    {
        if !self.le.le_connections.contains_key(&connection_handle) {
            return false;
        }
        self.send_hci_command(
            link,
            Command::LePeriodicAdvertisingSyncTransfer {
                connection_handle,
                service_data,
                sync_handle,
            },
        );
        true
    }

    /// Hand an own periodic advertising train to a peer over the selected LE
    /// connection.
    pub fn transfer_periodic_advertising_set_info<L: HostTransport + ?Sized>(
        &mut self,
        link: &mut L,
        advertising_handle: u8,
        service_data: u16,
    ) -> (asked: bool)
        requires
            old(self).wf(),
        ensures
            final(self).wf(),
            old(self)@.transfer_periodic_advertising_set_info_shows(
                final(self)@,
                advertising_handle,
                service_data,
                asked,
                old(link).log(),
                final(link).log(),
            ),
    {
        match self.le.connection_handle {
            Some(handle) => self.transfer_periodic_advertising_set_info_on_handle(link, handle, advertising_handle, service_data),
            None => false,
        }
    }

    /// Hand an own periodic advertising train to a peer.
    pub fn transfer_periodic_advertising_set_info_on_handle<L: HostTransport + ?Sized>(
        &mut self,
        link: &mut L,
        connection_handle: u16,
        advertising_handle: u8,
        service_data: u16,
    ) -> (asked: bool)
        requires
            old(self).wf(),
        ensures
            final(self).wf(),
            old(self)@.transfer_periodic_advertising_set_info_on_handle_shows(
                final(self)@,
                connection_handle,
                advertising_handle,
                service_data,
                asked,
                old(link).log(),
                final(link).log(),
            ),
    {
        if !self.le.le_connections.contains_key(&connection_handle) {
            return false;
        }
        self.send_hci_command(
            link,
            Command::LePeriodicAdvertisingSetInfoTransfer {
                connection_handle,
                service_data,
                advertising_handle,
            },
        );
        true
    }
}

} // verus!
