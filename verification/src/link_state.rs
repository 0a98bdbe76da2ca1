//! What both kinds of connection share: mode, encryption, quality of service
//! and flow control.

use crate::classic::ClassicConnectionInfoView;
use crate::connection::LeConnectionInfoView;
use crate::device::{Device, DeviceView, FollowUp};
use crate::events::{DeviceEvent, DeviceEventView};
use crate::pools::{settle, PoolsView};
use crate::state::LeView;
use crate::transport::{HostAction, HostTransport};
use vstd::prelude::*;

verus! {

broadcast use vstd::laws_cmp::group_laws_cmp;

impl DeviceView {
    /// The device with the records of a handle replaced, where it has any.
    pub open spec fn with_records(
        self,
        connection_handle: u16,
        le: LeConnectionInfoView,
        classic: ClassicConnectionInfoView,
    ) -> DeviceView {
        DeviceView {
            le: if self.le.le_connections.contains_key(connection_handle) {
                self.le.with_connection(connection_handle, le)
            } else {
                self.le
            },
            classic: if self.classic.classic_connections.contains_key(connection_handle) {
                self.classic.with_connection(connection_handle, classic)
            } else {
                self.classic
            },
            ..self
        }
    }

    /// The power mode of a connection changed.
    pub open spec fn mode_changed(
        self,
        connection_handle: u16,
        current_mode: u8,
        interval: u16,
    ) -> DeviceView {
        self.with_records(
            connection_handle,
            LeConnectionInfoView {
                classic_mode: current_mode,
                classic_interval: interval,
                ..self.le.le_connections[connection_handle]
            },
            ClassicConnectionInfoView {
                classic_mode: current_mode,
                classic_interval: interval,
                ..self.classic.classic_connections[connection_handle]
            },
        )
    }

    /// The encryption of a connection changed.
    pub open spec fn encryption_updated(
        self,
        connection_handle: u16,
        encryption_enabled: u8,
        encryption_key_size: u8,
    ) -> DeviceView {
        let updated = self.with_records(
            connection_handle,
            LeConnectionInfoView {
                encryption_enabled,
                encryption_key_size,
                ..self.le.le_connections[connection_handle]
            },
            ClassicConnectionInfoView {
                encryption_enabled,
                encryption_key_size,
                ..self.classic.classic_connections[connection_handle]
            },
        );
        DeviceView {
            le: LeView {
                encrypted_handles: if encryption_enabled != 0 {
                    self.le.encrypted_handles.insert(connection_handle)
                } else {
                    self.le.encrypted_handles.remove(connection_handle)
                },
                ..updated.le
            },
            ..updated
        }
    }

    /// Whether an encryption change concerns pairing: where it is enabled, and
    /// on every Classic connection, whose link key is looked for.
    pub open spec fn pairing_concerned(self, connection_handle: u16) -> bool {
        self.security.pairing_enabled || self.classic.classic_connections.contains_key(
            connection_handle,
        )
    }

    /// An encryption change was reported. Where it concerns pairing, that is
    /// dealt with before the change is announced.
    pub open spec fn encryption_changed(
        self,
        status: u8,
        connection_handle: u16,
        encryption_enabled: u8,
        encryption_key_size: u8,
    ) -> DeviceView {
        if status != 0 {
            self.encryption_announced(
                status,
                connection_handle,
                encryption_enabled,
                encryption_key_size,
            )
        } else {
            let updated = self.encryption_updated(
                connection_handle,
                encryption_enabled,
                encryption_key_size,
            );
            if self.pairing_concerned(connection_handle) {
                DeviceView {
                    follow_up: Some(
                        FollowUp::AdvancePairing {
                            connection_handle,
                            encryption_enabled,
                            encryption_key_size,
                        },
                    ),
                    ..updated
                }
            } else {
                updated.encryption_announced(
                    status,
                    connection_handle,
                    encryption_enabled,
                    encryption_key_size,
                )
            }
        }
    }

    /// An encryption change is announced.
    pub open spec fn encryption_announced(
        self,
        status: u8,
        connection_handle: u16,
        encryption_enabled: u8,
        encryption_key_size: u8,
    ) -> DeviceView {
        self.emitted(
            DeviceEventView::EncryptionChange {
                status,
                connection_handle,
                encryption_enabled,
                encryption_key_size,
            },
        )
    }

    /// An encryption key was refreshed, or not.
    pub open spec fn key_refreshed(self, status: u8, connection_handle: u16) -> DeviceView {
        self.emitted(
            if status == 0 {
                DeviceEventView::EncryptionKeyRefresh { connection_handle }
            } else {
                DeviceEventView::EncryptionKeyRefreshFailed { connection_handle, status }
            },
        )
    }

    /// The quality of service of a connection was set up, or not.
    pub open spec fn qos_set_up(
        self,
        status: u8,
        connection_handle: u16,
        service_type: u8,
    ) -> DeviceView {
        if status == 0 {
            self.with_records(
                connection_handle,
                LeConnectionInfoView {
                    qos_service_type: Some(service_type),
                    ..self.le.le_connections[connection_handle]
                },
                ClassicConnectionInfoView {
                    qos_service_type: Some(service_type),
                    ..self.classic.classic_connections[connection_handle]
                },
            ).emitted(DeviceEventView::QosSetup { connection_handle, service_type })
        } else {
            self.emitted(DeviceEventView::QosSetupFailed { connection_handle, status })
        }
    }

    /// The pools after the completion report of one handle. A stream's packets
    /// are in the ISO pool, those of an LE connection in the LE pool where
    /// there is one, and all others in the Classic pool.
    pub open spec fn settled_one(self, pools: PoolsView, handle: u16, count: nat) -> PoolsView {
        if self.iso.cis_links.contains_key(handle) || self.iso.bis_directions.contains_key(handle) {
            pools.iso_settled(handle, count)
        } else if self.le.le_connections.contains_key(handle) {
            pools.le_settled(handle, count)
        } else {
            PoolsView { acl: pools.acl.settled(handle, count), ..pools }
        }
    }

    /// The pools after the completion reports of several handles.
    pub open spec fn settled_all(self, reports: Seq<(u16, u16)>) -> PoolsView
        decreases reports.len(),
    {
        if reports.len() == 0 {
            self.pools
        } else {
            self.settled_one(
                self.settled_all(reports.drop_last()),
                reports.last().0,
                reports.last().1 as nat,
            )
        }
    }

    /// How flushing the ACL and then the ISO queues shows.
    pub open spec fn flushed_queues_via(
        pools: PoolsView,
        between: PoolsView,
        after: PoolsView,
        log_before: Seq<HostAction>,
        middle: Seq<HostAction>,
        log_after: Seq<HostAction>,
        controller_id: usize,
    ) -> bool {
        &&& pools.acl_flushed(between, log_before, middle, controller_id)
        &&& between.iso_flushed(after, middle, log_after, controller_id)
    }

    /// How a report of completed packets shows: the pools account for it, and
    /// what the controller has room for now is handed over, ACL before ISO.
    pub open spec fn completions_handled(
        self,
        after: DeviceView,
        reports: Seq<(u16, u16)>,
        log_before: Seq<HostAction>,
        log_after: Seq<HostAction>,
    ) -> bool {
        &&& after == (DeviceView { pools: after.pools, ..self })
        &&& exists|between: PoolsView, middle: Seq<HostAction>| #[trigger]
            DeviceView::flushed_queues_via(
                self.settled_all(reports),
                between,
                after.pools,
                log_before,
                middle,
                log_after,
                self.controller_id,
            )
    }
}

/// The reports in a list of handles and a list of counts.
pub open spec fn reports(handles: Seq<u16>, counts: Seq<u16>) -> Seq<(u16, u16)> {
    Seq::new(
        if handles.len() <= counts.len() {
            handles.len()
        } else {
            counts.len()
        },
        |index: int| (handles[index], counts[index]),
    )
}

impl Device {
    /// The power mode of a connection has changed.
    pub fn on_mode_change(&mut self, connection_handle: u16, current_mode: u8, interval: u16)
        requires
            old(self).wf(),
        ensures
            final(self).wf(),
            final(self)@ == old(self)@.mode_changed(connection_handle, current_mode, interval),
    {
        if let Some(mut connection) = self.le.take_connection(connection_handle) {
            connection.classic_mode = current_mode;
            connection.classic_interval = interval;
            self.le.put_connection(connection_handle, connection);
        }
        if let Some(mut connection) = self.classic.take_connection(connection_handle) {
            connection.classic_mode = current_mode;
            connection.classic_interval = interval;
            self.classic.put_connection(connection_handle, connection);
        }
        assert(self@ =~= old(self)@.mode_changed(connection_handle, current_mode, interval));
    }

    /// Keep the encryption state of a connection.
    pub fn update_connection_encryption(
        &mut self,
        connection_handle: u16,
        encryption_enabled: u8,
        encryption_key_size: u8,
    )
        requires
            old(self).wf(),
        ensures
            final(self).wf(),
            final(self)@ == old(self)@.encryption_updated(
                connection_handle,
                encryption_enabled,
                encryption_key_size,
            ),
    {
        if let Some(mut connection) = self.le.take_connection(connection_handle) {
            connection.encryption_enabled = encryption_enabled;
            connection.encryption_key_size = encryption_key_size;
            self.le.put_connection(connection_handle, connection);
        }
        if let Some(mut connection) = self.classic.take_connection(connection_handle) {
            connection.encryption_enabled = encryption_enabled;
            connection.encryption_key_size = encryption_key_size;
            self.classic.put_connection(connection_handle, connection);
        }
        if encryption_enabled != 0 {
            self.le.encrypted_handles.insert(connection_handle);
        } else {
            self.le.encrypted_handles.remove(&connection_handle);
        }
        assert(self@ =~= old(self)@.encryption_updated(
            connection_handle,
            encryption_enabled,
            encryption_key_size,
        ));
    }

    /// An encryption change has been reported.
    pub fn on_encryption_change(
        &mut self,
        status: u8,
        connection_handle: u16,
        encryption_enabled: u8,
        encryption_key_size: u8,
    )
        requires
            old(self).wf(),
        ensures
            final(self).wf(),
            final(self)@ == old(self)@.encryption_changed(
                status,
                connection_handle,
                encryption_enabled,
                encryption_key_size,
            ),
    {
        if status == 0 {
            self.update_connection_encryption(
                connection_handle,
                encryption_enabled,
                encryption_key_size,
            );
        }
        let classic = self.classic.classic_connections.contains_key(&connection_handle);
        assert(classic == self@.classic.classic_connections.contains_key(connection_handle));
        assert(classic == old(self)@.classic.classic_connections.contains_key(connection_handle));
        if status == 0 && (self.security.pairing_enabled || classic) {
            self.follow_up =
            Some(
                FollowUp::AdvancePairing {
                    connection_handle,
                    encryption_enabled,
                    encryption_key_size,
                },
            );
        } else {
            self.announce_encryption_change(
                status,
                connection_handle,
                encryption_enabled,
                encryption_key_size,
            );
        }
        assert(self@ =~= old(self)@.encryption_changed(
            status,
            connection_handle,
            encryption_enabled,
            encryption_key_size,
        ));
    }

    /// Announce an encryption change. This ends the work that
    /// [`FollowUp::AdvancePairing`] asks for.
    pub fn announce_encryption_change(
        &mut self,
        status: u8,
        connection_handle: u16,
        encryption_enabled: u8,
        encryption_key_size: u8,
    )
        requires
            old(self).wf(),
        ensures
            final(self).wf(),
            final(self)@ == old(self)@.encryption_announced(
                status,
                connection_handle,
                encryption_enabled,
                encryption_key_size,
            ),
    {
        self.emit_device_event(
            DeviceEvent::EncryptionChange {
                status,
                connection_handle,
                encryption_enabled,
                encryption_key_size,
            },
        );
    }

    /// An encryption key has been refreshed, or not.
    pub fn on_encryption_key_refresh(&mut self, status: u8, connection_handle: u16)
        requires
            old(self).wf(),
        ensures
            final(self).wf(),
            final(self)@ == old(self)@.key_refreshed(status, connection_handle),
    {
        if status == 0 {
            self.emit_device_event(DeviceEvent::EncryptionKeyRefresh { connection_handle });
        } else {
            self.emit_device_event(
                DeviceEvent::EncryptionKeyRefreshFailed { connection_handle, status },
            );
        }
    }

    /// The quality of service of a connection has been set up, or not.
    pub fn on_qos_setup(&mut self, status: u8, connection_handle: u16, service_type: u8)
        requires
            old(self).wf(),
        ensures
            final(self).wf(),
            final(self)@ == old(self)@.qos_set_up(status, connection_handle, service_type),
    {
        if status == 0 {
            if let Some(mut connection) = self.le.take_connection(connection_handle) {
                connection.qos_service_type = Some(service_type);
                self.le.put_connection(connection_handle, connection);
            }
            if let Some(mut connection) = self.classic.take_connection(connection_handle) {
                connection.qos_service_type = Some(service_type);
                self.classic.put_connection(connection_handle, connection);
            }
            self.emit_device_event(DeviceEvent::QosSetup { connection_handle, service_type });
        } else {
            self.emit_device_event(DeviceEvent::QosSetupFailed { connection_handle, status });
        }
        assert(self@ =~= old(self)@.qos_set_up(status, connection_handle, service_type));
    }

    /// Account for the completion report of one handle.
    fn settle_packets(&mut self, handle: u16, count: u16)
        requires
            old(self).wf(),
        ensures
            final(self).wf(),
            final(self)@ == (DeviceView {
                pools: old(self)@.settled_one(old(self)@.pools, handle, count as nat),
                ..old(self)@
            }),
    {
        let le = self.le.le_connections.contains_key(&handle);
        assert(le == self@.le.le_connections.contains_key(handle));
        if self.iso.cis_links.contains_key(&handle) || self.iso.bis_directions.contains_key(
            &handle,
        ) {
            self.pools.settle_iso(handle, count as usize);
        } else if le {
            self.pools.settle_le(handle, count as usize);
        } else {
            settle(&mut self.pools.acl_packet_queue, count as usize, handle);
        }
        assert(self@ =~= (DeviceView {
            pools: old(self)@.settled_one(old(self)@.pools, handle, count as nat),
            ..old(self)@
        }));
    }

    /// The controller has completed packets: hand over what it has room for.
    pub fn on_packets_completed<L: HostTransport + ?Sized>(
        &mut self,
        link: &mut L,
        handles: &Vec<u16>,
        counts: &Vec<u16>,
    )
        requires
            old(self).wf(),
        ensures
            final(self).wf(),
            old(self)@.completions_handled(
                final(self)@,
                reports(handles@, counts@),
                old(link).log(),
                final(link).log(),
            ),
    {
        let ghost all = reports(handles@, counts@);
        let total: usize = if handles.len() <= counts.len() {
            handles.len()
        } else {
            counts.len()
        };
        let mut index: usize = 0;
        proof {
            assert(all.take(0) =~= Seq::<(u16, u16)>::empty());
            assert(self@ =~= (DeviceView { pools: self@.settled_all(all.take(0)), ..self@ }));
        }
        while index < total
            invariant
                index <= total == all.len(),
                total <= handles@.len(),
                total <= counts@.len(),
                all == reports(handles@, counts@),
                self.wf(),
                self@ == (DeviceView {
                    pools: old(self)@.settled_all(all.take(index as int)),
                    ..old(self)@
                }),
                link.log() == old(link).log(),
            decreases total - index,
        {
            let ghost next = all.take(index + 1);
            assert(next.drop_last() =~= all.take(index as int));
            self.settle_packets(handles[index], counts[index]);
            assert(self@ =~= (DeviceView { pools: old(self)@.settled_all(next), ..old(self)@ }));
            index += 1;
        }
        assert(all.take(index as int) =~= all);
        let ghost log_before = link.log();
        let ghost settled = self@.pools;
        let _ = self.pools.flush_acl(link, self.controller_id);
        let ghost between = self@.pools;
        let ghost middle = link.log();
        let _ = self.pools.flush_iso(link, self.controller_id);
        assert(DeviceView::flushed_queues_via(
            settled,
            between,
            self@.pools,
            log_before,
            middle,
            link.log(),
            self.controller_id,
        ));
        assert(self@ =~= (DeviceView { pools: self@.pools, ..old(self)@ }));
    }
}

} // verus!
