//! Operations on the controller's packet pools, and sending on them.

use crate::connection::ControllerBufferInfo;
use crate::data_queue::QueueView;
use crate::device::{Device, DeviceView};
use crate::hci::AclDataPacket;
use crate::pools::{
    all_accepted, answers, enqueue_all, fresh_queue, new_queue, PacketPools, PoolsView,
};
use crate::setup::{SetupStatus, SetupView};
use crate::transport::{HostAction, HostTransport};
use vstd::prelude::*;

verus! {

broadcast use vstd::laws_cmp::group_laws_cmp;

impl<P> QueueView<P> {
    /// Packets accepted and neither completed nor dropped.
    pub open spec fn pending(self) -> int {
        self.queued - self.completed
    }

    /// Whether a connection has nothing waiting and nothing in flight.
    pub open spec fn drained(self, connection_handle: u16) -> bool {
        &&& self.connection_in_flight(connection_handle) == 0
        &&& self.connection_waiting(connection_handle) == 0
    }
}

impl PoolsView {
    /// The pools that a controller reported. An unusable Classic pool gives way
    /// to the default, an unusable LE pool shares the Classic one, and an
    /// unusable ISO pool is unavailable.
    pub open spec fn reported(
        classic_acl: Option<ControllerBufferInfo>,
        le_acl: Option<ControllerBufferInfo>,
        iso: Option<ControllerBufferInfo>,
    ) -> PoolsView {
        let classic = match classic_acl {
            Some(buffer) => PoolsView::initial().with_classic(buffer),
            None => PoolsView::initial(),
        };
        classic.with_le(le_acl).with_iso(iso)
    }

    /// The packets pending in both ACL pools.
    pub open spec fn acl_pending(self) -> int {
        self.acl.pending() + match self.le_acl {
            Some(queue) => queue.pending(),
            None => 0,
        }
    }
}

impl DeviceView {
    /// Whether a connection sends through an LE pool of its own.
    pub open spec fn uses_le_pool(self, connection_handle: u16) -> bool {
        &&& self.le.le_connections.contains_key(connection_handle)
        &&& self.pools.le_acl is Some
    }

    /// The queue through which a connection sends.
    pub open spec fn acl_queue(self, connection_handle: u16) -> QueueView<AclDataPacket> {
        if self.uses_le_pool(connection_handle) {
            self.pools.le_acl->0
        } else {
            self.pools.acl
        }
    }

    /// How many bytes of a frame fit into one packet of a connection.
    pub open spec fn fragment_length(self, connection_handle: u16) -> usize {
        if self.uses_le_pool(connection_handle) {
            self.pools.le_acl_data_packet_length->0
        } else {
            self.pools.acl_data_packet_length
        }
    }

    /// A device with the fragments of a frame behind everything else that its
    /// connection sends.
    pub open spec fn with_fragments(
        self,
        connection_handle: u16,
        fragments: Seq<AclDataPacket>,
    ) -> DeviceView {
        let queue = self.acl_queue(connection_handle).enqueued_all(fragments, connection_handle);
        DeviceView {
            pools: if self.uses_le_pool(connection_handle) {
                PoolsView { le_acl: Some(queue), ..self.pools }
            } else {
                PoolsView { acl: queue, ..self.pools }
            },
            ..self
        }
    }

    /// How sending the fragments of a frame shows: they queue up, and what the
    /// controller has room for is handed over.
    pub open spec fn frame_sent(
        self,
        after: DeviceView,
        connection_handle: u16,
        fragments: Seq<AclDataPacket>,
        success: bool,
        log_before: Seq<HostAction>,
        log_after: Seq<HostAction>,
    ) -> bool {
        let queued = self.with_fragments(connection_handle, fragments);
        &&& queued.pools.acl_flushed(after.pools, log_before, log_after, self.controller_id)
        &&& after == (DeviceView { pools: after.pools, ..queued })
        &&& success == all_accepted(answers(log_before, log_after))
    }
}

impl Device {
    /// Apply the Classic ACL, LE ACL, and ISO packet pools that a controller
    /// reported, all at once. The descriptors are kept even where they report
    /// no capacity. Returns `false`, with nothing done, while any pool has
    /// queued or in-flight packets.
    pub fn configure_controller_packet_pools(
        &mut self,
        classic_acl: Option<ControllerBufferInfo>,
        le_acl: Option<ControllerBufferInfo>,
        iso: Option<ControllerBufferInfo>,
    ) -> (configured: bool)
        requires
            old(self).wf(),
        ensures
            final(self).wf(),
            configured == old(self)@.pools.idle(),
            final(self)@ == if configured {
                DeviceView {
                    pools: PoolsView::reported(classic_acl, le_acl, iso),
                    setup: SetupView {
                        status: SetupStatus {
                            classic_acl_buffer: classic_acl,
                            le_acl_buffer: le_acl,
                            iso_buffer: iso,
                            ..old(self)@.setup.status
                        },
                        ..old(self)@.setup
                    },
                    ..old(self)@
                }
            } else {
                old(self)@
            },
    {
        if !self.pools.is_idle() {
            return false;
        }
        let mut pools: PacketPools = PacketPools::new();
        if let Some(buffer) = classic_acl {
            pools.install_classic(buffer);
        }
        pools.install_le(le_acl);
        pools.install_iso(iso);
        self.pools = pools;
        self.setup.status.classic_acl_buffer = classic_acl;
        self.setup.status.le_acl_buffer = le_acl;
        self.setup.status.iso_buffer = iso;
        true
    }

    /// Set the controller's maximum ACL data payload. Returns `false`, with
    /// nothing done, for a length that no packet can have.
    pub fn set_acl_data_packet_length(&mut self, length: usize) -> (set: bool)
        requires
            old(self).wf(),
        ensures
            final(self).wf(),
            set == (1 <= length <= u16::MAX),
            final(self)@ == if set {
                DeviceView {
                    pools: PoolsView { acl_data_packet_length: length, ..old(self)@.pools },
                    ..old(self)@
                }
            } else {
                old(self)@
            },
    {
        if length == 0 || length > u16::MAX as usize {
            return false;
        }
        self.pools.acl_data_packet_length = length;
        assert(self@ =~= (DeviceView {
            pools: PoolsView { acl_data_packet_length: length, ..old(self)@.pools },
            ..old(self)@
        }));
        true
    }

    /// Set the controller's total ACL packet window. Returns `false`, with
    /// nothing done, while packets are pending and for an empty window.
    pub fn set_acl_max_in_flight(&mut self, count: usize) -> (set: bool)
        requires
            old(self).wf(),
        ensures
            final(self).wf(),
            set == (old(self)@.pools.acl.pending() == 0 && count > 0),
            final(self)@ == if set {
                DeviceView {
                    pools: PoolsView { acl: fresh_queue(count as nat), ..old(self)@.pools },
                    ..old(self)@
                }
            } else {
                old(self)@
            },
    {
        if self.pools.acl_packet_queue.pending() != 0 || count == 0 {
            return false;
        }
        self.pools.acl_packet_queue = new_queue(count);
        assert(self@ =~= (DeviceView {
            pools: PoolsView { acl: fresh_queue(count as nat), ..old(self)@.pools },
            ..old(self)@
        }));
        true
    }

    /// The packets pending in the ACL pools.
    pub fn acl_packets_pending(&self) -> (pending: usize)
        requires
            self.wf(),
            self@.pools.acl_pending() <= usize::MAX,
        ensures
            pending == self@.pools.acl_pending(),
    {
        self.pools.acl_packet_queue.pending() + match &self.pools.le_acl_packet_queue {
            Some(queue) => queue.pending(),
            None => 0,
        }
    }

    pub fn acl_data_packet_length(&self) -> (length: usize)
        ensures
            length == self@.pools.acl_data_packet_length,
    {
        self.pools.acl_data_packet_length
    }

    pub fn acl_max_in_flight(&self) -> (count: usize)
        ensures
            count == self@.pools.acl.max_in_flight,
    {
        self.pools.acl_packet_queue.max_in_flight()
    }

    /// Effective LE ACL packet size, using the Classic pool when the controller
    /// shares it.
    pub fn le_acl_data_packet_length(&self) -> (length: usize)
        ensures
            length == match self@.pools.le_acl_data_packet_length {
                Some(length) => length,
                None => self@.pools.acl_data_packet_length,
            },
    {
        match self.pools.le_acl_data_packet_length {
            Some(length) => length,
            None => self.pools.acl_data_packet_length,
        }
    }

    /// Effective LE ACL in-flight window, using the Classic pool when shared.
    pub fn le_acl_max_in_flight(&self) -> (count: usize)
        ensures
            count == match self@.pools.le_acl {
                Some(queue) => queue.max_in_flight,
                None => self@.pools.acl.max_in_flight,
            },
    {
        match &self.pools.le_acl_packet_queue {
            Some(queue) => queue.max_in_flight(),
            None => self.pools.acl_packet_queue.max_in_flight(),
        }
    }

    pub fn iso_data_packet_length(&self) -> (length: Option<usize>)
        ensures
            length == self@.pools.iso_data_packet_length,
    {
        self.pools.iso_data_packet_length
    }

    pub fn iso_max_in_flight(&self) -> (count: Option<usize>)
        ensures
            match self@.pools.iso {
                Some(queue) => count is Some && count->0 == queue.max_in_flight,
                None => count is None,
            },
    {
        match &self.pools.iso_packet_queue {
            Some(queue) => Some(queue.max_in_flight()),
            None => None,
        }
    }

    pub fn iso_packets_pending(&self) -> (pending: Option<usize>)
        requires
            self.wf(),
        ensures
            match self@.pools.iso {
                Some(queue) => pending is Some && pending->0 == queue.pending(),
                None => pending is None,
            },
    {
        match &self.pools.iso_packet_queue {
            Some(queue) => Some(queue.pending()),
            None => None,
        }
    }

    /// Whether every ISO packet queued for this stream has been acknowledged by
    /// controller flow control.
    pub fn iso_output_is_drained(&self, connection_handle: u16) -> (drained: bool)
        ensures
            drained == match self@.pools.iso {
                Some(queue) => queue.drained(connection_handle),
                None => true,
            },
    {
        match &self.pools.iso_packet_queue {
            Some(queue) => queue.is_drained(connection_handle),
            None => true,
        }
    }

    /// Whether all host-to-controller ACL packets queued for this connection
    /// have been acknowledged by controller flow control.
    pub fn acl_output_is_drained(&self, connection_handle: u16) -> (drained: bool)
        ensures
            drained == self@.acl_queue(connection_handle).drained(connection_handle),
    {
        if self.le.le_connections.contains_key(&connection_handle) {
            if let Some(queue) = &self.pools.le_acl_packet_queue {
                return queue.is_drained(connection_handle);
            }
        }
        self.pools.acl_packet_queue.is_drained(connection_handle)
    }

    /// Whether all host-side ACL packets queued for this connection have
    /// entered the controller's flow-control window.
    ///
    /// Unlike [`Device::acl_output_is_drained`], this does not wait for credit
    /// for packets already in flight.
    pub fn acl_output_is_flushed(&self, connection_handle: u16) -> (flushed: bool)
        ensures
            flushed == (self@.acl_queue(connection_handle).connection_waiting(connection_handle)
                == 0),
    {
        if self.le.le_connections.contains_key(&connection_handle) {
            if let Some(queue) = &self.pools.le_acl_packet_queue {
                return queue.is_flushed(connection_handle);
            }
        }
        self.pools.acl_packet_queue.is_flushed(connection_handle)
    }

    pub fn classic_channel_output_is_drained(&self, connection_handle: u16) -> (drained: bool)
        ensures
            drained == self@.acl_queue(connection_handle).drained(connection_handle),
    {
        self.acl_output_is_drained(connection_handle)
    }

    /// Whether all host-side Classic ACL packets queued for this connection
    /// have entered the controller's flow-control window.
    pub fn classic_channel_output_is_flushed(&self, connection_handle: u16) -> (flushed: bool)
        ensures
            flushed == (self@.acl_queue(connection_handle).connection_waiting(connection_handle)
                == 0),
    {
        self.acl_output_is_flushed(connection_handle)
    }

    /// How many bytes of a frame fit into one packet of a connection.
    pub fn acl_fragment_length(&self, connection_handle: u16) -> (length: usize)
        requires
            self.wf(),
        ensures
            length == self@.fragment_length(connection_handle),
    {
        if self.le.le_connections.contains_key(&connection_handle) {
            if let Some(length) = self.pools.le_acl_data_packet_length {
                return length;
            }
        }
        self.pools.acl_data_packet_length
    }

    /// Send the fragments of an L2CAP frame on the selected LE connection.
    /// Returns `false`, with nothing done, without one.
    pub fn send_l2cap<L: HostTransport + ?Sized>(
        &mut self,
        link: &mut L,
        fragments: Vec<AclDataPacket>,
    ) -> (success: bool)
        requires
            old(self).wf(),
            old(self)@.le.connection_handle is Some ==> old(self)@.acl_queue(
                old(self)@.le.connection_handle->0,
            ).queued + fragments@.len() <= usize::MAX,
        ensures
            final(self).wf(),
            match old(self)@.le.connection_handle {
                Some(handle) => old(self)@.frame_sent(
                    final(self)@,
                    handle,
                    fragments@,
                    success,
                    old(link).log(),
                    final(link).log(),
                ),
                None => !success && final(self)@ == old(self)@ && final(link).log() == old(
                    link,
                ).log(),
            },
    {
        match self.le.connection_handle {
            Some(handle) => self.send_l2cap_on_handle(link, handle, fragments),
            None => false,
        }
    }

    /// Send the fragments of an L2CAP frame on a connection: they queue up
    /// behind everything that the pool of the connection still has to send.
    /// Returns whether the transport accepted every packet that it was given.
    pub fn send_l2cap_on_handle<L: HostTransport + ?Sized>(
        &mut self,
        link: &mut L,
        handle: u16,
        fragments: Vec<AclDataPacket>,
    ) -> (success: bool)
        requires
            old(self).wf(),
            old(self)@.acl_queue(handle).queued + fragments@.len() <= usize::MAX,
        ensures
            final(self).wf(),
            old(self)@.frame_sent(
                final(self)@,
                handle,
                fragments@,
                success,
                old(link).log(),
                final(link).log(),
            ),
    {
        let ghost packets = fragments@;
        let ghost before = self@;
        let ghost log = link.log();
        let le: bool = self.le.le_connections.contains_key(&handle)
            && self.pools.le_acl_packet_queue.is_some();
        assert(le == before.uses_le_pool(handle));
        if le {
            if let Some(queue) = self.pools.le_acl_packet_queue.as_mut() {
                enqueue_all(queue, fragments, handle);
            }
        } else {
            enqueue_all(&mut self.pools.acl_packet_queue, fragments, handle);
        }
        assert(self@ =~= before.with_fragments(handle, packets));
        let success = self.pools.flush_acl(link, self.controller_id);
        assert(self@ =~= (DeviceView {
            pools: self@.pools,
            ..before.with_fragments(handle, packets)
        }));
        success
    }
}

} // verus!
