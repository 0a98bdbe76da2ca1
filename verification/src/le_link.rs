//! LE connections: establishment, selection and control procedures.

use crate::address::Address;
use crate::channel_sounding::{
    ChannelSoundingCapabilities, ChannelSoundingConfig, ChannelSoundingError,
    ChannelSoundingOperation, ChannelSoundingProcedure, ChannelSoundingSubeventResult,
    ChannelSoundingSubeventResultContinue,
};
use crate::connection::{
    ConnectionFeatureError, ConnectionFeatureTransport, LeConnectionControlEvent,
    LeConnectionInfo, LeConnectionInfoView, LeConnectionParameters, LeDataLength, LePhy,
    ROLE_CENTRAL,
};
use crate::device::{Device, DeviceView, FollowUp};
use crate::events::{DeviceConnectionTransport, DeviceEvent, DeviceEventView};
use crate::hci::{
    HCI_LE_CONNECTION_RATE_REQUEST_COMMAND, HCI_LE_CONNECTION_UPDATE_COMMAND,
    HCI_LE_SET_PHY_COMMAND, HCI_LE_SUBRATE_REQUEST_COMMAND,
};
use crate::retain::{lemma_remove_keeps_distinct, remove_value};
use crate::state::{GapView, LeState, LeView};
use vstd::prelude::*;

verus! {

broadcast use vstd::laws_cmp::group_laws_cmp;

/// The position of the first pending procedure of a command.
pub open spec fn first_with_opcode(pending: Seq<(u16, u16)>, command_opcode: u16) -> Option<int> {
    pending.map_values(|entry: (u16, u16)| entry.1).index_of_first(command_opcode)
}

impl LeView {
    /// The state with a connection's record replaced.
    pub open spec fn with_connection(
        self,
        connection_handle: u16,
        connection: LeConnectionInfoView,
    ) -> LeView {
        LeView {
            le_connections: self.le_connections.insert(connection_handle, connection),
            ..self
        }
    }

    /// The state with a live connection selected.
    pub open spec fn selected(self, connection_handle: u16) -> LeView {
        let connection = self.le_connections[connection_handle];
        LeView {
            connection_handle: Some(connection.connection_handle),
            connection_role: Some(connection.role),
            peer_address: Some(connection.peer_address),
            ..self
        }
    }

    /// The state with one pending procedure done.
    pub open spec fn control_completed(self, command_opcode: u16, connection_handle: u16) -> LeView {
        LeView {
            pending_connection_controls: self.pending_connection_controls.remove_value(
                (connection_handle, command_opcode),
            ),
            ..self
        }
    }

    /// The state with the first pending procedure of a command given up.
    pub open spec fn control_failed(self, command_opcode: u16) -> LeView {
        match first_with_opcode(self.pending_connection_controls, command_opcode) {
            Some(index) => LeView {
                pending_connection_controls: self.pending_connection_controls.remove(index),
                ..self
            },
            None => self,
        }
    }

    /// The connection of the first pending procedure of a command.
    pub open spec fn control_failed_handle(self, command_opcode: u16) -> Option<u16> {
        match first_with_opcode(self.pending_connection_controls, command_opcode) {
            Some(index) => Some(self.pending_connection_controls[index].0),
            None => None,
        }
    }

    /// The state with one more control event.
    pub open spec fn control_recorded(self, event: LeConnectionControlEvent) -> LeView {
        LeView { connection_control_events: self.connection_control_events.push(event), ..self }
    }
}

impl LeState {
    /// Take a connection's record out.
    pub fn take_connection(&mut self, connection_handle: u16) -> (connection: Option<
        LeConnectionInfo,
    >)
        ensures
            match connection {
                Some(connection) => {
                    &&& old(self)@.le_connections.contains_key(connection_handle)
                    &&& connection@ == old(self)@.le_connections[connection_handle]
                    &&& final(self)@ == (LeView {
                        le_connections: old(self)@.le_connections.remove(connection_handle),
                        ..old(self)@
                    })
                },
                None => {
                    &&& !old(self)@.le_connections.contains_key(connection_handle)
                    &&& final(self)@ == old(self)@
                },
            },
    {
        let connection = self.le_connections.remove(&connection_handle);
        assert(self@.le_connections =~= old(self)@.le_connections.remove(connection_handle));
        if connection.is_none() {
            assert(self@.le_connections =~= old(self)@.le_connections);
        }
        connection
    }

    /// Put a connection's record in.
    pub fn put_connection(&mut self, connection_handle: u16, connection: LeConnectionInfo)
        ensures
            final(self)@ == old(self)@.with_connection(connection_handle, connection@),
    {
        self.le_connections.insert(connection_handle, connection);
        assert(self@.le_connections =~= old(self)@.le_connections.insert(
            connection_handle,
            connection@,
        ));
    }

    /// Select which LE connection the operations without a handle use.
    pub fn select(&mut self, connection_handle: u16) -> (found: bool)
        ensures
            found == old(self)@.le_connections.contains_key(connection_handle),
            final(self)@ == if found {
                old(self)@.selected(connection_handle)
            } else {
                old(self)@
            },
    {
        match self.le_connections.get(&connection_handle) {
            Some(connection) => {
                let (handle, role, peer): (u16, u8, Address) = (
                    connection.connection_handle,
                    connection.role,
                    connection.peer_address,
                );
                self.connection_handle = Some(handle);
                self.connection_role = Some(role);
                self.peer_address = Some(peer);
                true
            },
            None => false,
        }
    }

    /// Note that a procedure was requested for a connection.
    pub fn begin_control(&mut self, command_opcode: u16, connection_handle: u16)
        ensures
            final(self)@ == (LeView {
                pending_connection_controls: old(self)@.pending_connection_controls.push(
                    (connection_handle, command_opcode),
                ),
                ..old(self)@
            }),
    {
        self.pending_connection_controls.push((connection_handle, command_opcode));
    }

    /// Note that a procedure of a connection is done.
    pub fn complete_control(&mut self, command_opcode: u16, connection_handle: u16)
        ensures
            final(self)@ == old(self)@.control_completed(command_opcode, connection_handle),
    {
        let _ = remove_value(
            &mut self.pending_connection_controls,
            (connection_handle, command_opcode),
        );
    }

    /// Give up the first pending procedure of a command.
    pub fn fail_next_control(&mut self, command_opcode: u16) -> (connection_handle: Option<u16>)
        ensures
            connection_handle == old(self)@.control_failed_handle(command_opcode),
            final(self)@ == old(self)@.control_failed(command_opcode),
    {
        let ghost opcodes = self.pending_connection_controls@.map_values(
            |entry: (u16, u16)| entry.1,
        );
        proof {
            opcodes.index_of_first_ensures(command_opcode);
        }
        let mut index: usize = 0;
        while index < self.pending_connection_controls.len()
            invariant
                index <= self.pending_connection_controls@.len(),
                *self == *old(self),
                opcodes == self.pending_connection_controls@.map_values(
                    |entry: (u16, u16)| entry.1,
                ),
                forall|earlier: int| 0 <= earlier < index ==> opcodes[earlier] != command_opcode,
            decreases self.pending_connection_controls@.len() - index,
        {
            assert(opcodes[index as int] == self.pending_connection_controls@[index as int].1);
            if self.pending_connection_controls[index].1 == command_opcode {
                proof {
                    opcodes.index_of_first_ensures(command_opcode);
                    assert(opcodes.contains(command_opcode));
                }
                let (handle, _): (u16, u16) = self.pending_connection_controls.remove(index);
                return Some(handle);
            }
            index += 1;
        }
        proof {
            opcodes.index_of_first_ensures(command_opcode);
        }
        None
    }
}

impl DeviceView {
    /// A control event in its own journal and in the device's.
    pub open spec fn control_recorded(self, event: LeConnectionControlEvent) -> DeviceView {
        DeviceView {
            le: self.le.control_recorded(event),
            journal: self.journal.emitted(DeviceEventView::LeConnectionControl(event)),
            ..self
        }
    }

    /// An LE connection was established.
    pub open spec fn le_connected(
        self,
        connection_handle: u16,
        role: u8,
        peer_address: Address,
        connection_interval: u16,
        peripheral_latency: u16,
        supervision_timeout: u16,
    ) -> DeviceView {
        let connection = LeConnectionInfoView::established(
            connection_handle,
            role,
            peer_address,
            connection_interval,
            peripheral_latency,
            supervision_timeout,
        );
        DeviceView {
            le: LeView {
                le_connecting: if role == ROLE_CENTRAL {
                    false
                } else {
                    self.le.le_connecting
                },
                encrypted_handles: self.le.encrypted_handles.remove(connection_handle),
                ..self.le
            }.with_connection(connection_handle, connection).selected(connection_handle),
            gap: GapView {
                legacy_advertising: if role == ROLE_CENTRAL {
                    self.gap.legacy_advertising
                } else {
                    false
                },
                ..self.gap
            },
            journal: self.journal.emitted(DeviceEventView::LeConnectionEstablished(connection)),
            follow_up: Some(
                FollowUp::RegisterLeConnection { connection_handle, role, peer_address },
            ),
            ..self
        }
    }

    /// An LE connection could not be established.
    pub open spec fn le_connection_failed(self, status: u8, peer_address: Address) -> DeviceView {
        DeviceView {
            le: LeView { le_connecting: false, ..self.le },
            journal: self.journal.emitted(
                DeviceEventView::ConnectionFailed {
                    transport: DeviceConnectionTransport::Le,
                    peer_address,
                    status,
                },
            ),
            ..self
        }
    }

    /// A connection-parameter procedure ended.
    pub open spec fn parameters_updated(
        self,
        command_opcode: u16,
        status: u8,
        connection_handle: u16,
        parameters: LeConnectionParameters,
    ) -> DeviceView {
        let le = if status == 0 && self.le.le_connections.contains_key(connection_handle) {
            self.le.with_connection(
                connection_handle,
                LeConnectionInfoView {
                    parameters,
                    ..self.le.le_connections[connection_handle]
                },
            )
        } else {
            self.le
        };
        DeviceView {
            le: le.control_completed(command_opcode, connection_handle),
            ..self
        }.control_recorded(
            LeConnectionControlEvent::ConnectionParametersUpdate {
                status,
                connection_handle,
                parameters,
            },
        )
    }

    /// The parameters that a connection update leaves, where the subrate is
    /// kept.
    pub open spec fn updated_parameters(
        self,
        connection_handle: u16,
        connection_interval: u16,
        peripheral_latency: u16,
        supervision_timeout: u16,
    ) -> LeConnectionParameters {
        if self.le.le_connections.contains_key(connection_handle) {
            LeConnectionParameters {
                connection_interval,
                peripheral_latency,
                supervision_timeout,
                ..self.le.le_connections[connection_handle].parameters
            }
        } else {
            LeConnectionParameters {
                connection_interval,
                peripheral_latency,
                supervision_timeout,
                subrate_factor: 1,
                continuation_number: 0,
            }
        }
    }

    /// The parameters that a subrate change leaves, where the interval is kept.
    pub open spec fn subrated_parameters(
        self,
        connection_handle: u16,
        subrate_factor: u16,
        peripheral_latency: u16,
        continuation_number: u16,
        supervision_timeout: u16,
    ) -> LeConnectionParameters {
        LeConnectionParameters {
            connection_interval: if self.le.le_connections.contains_key(connection_handle) {
                self.le.le_connections[connection_handle].parameters.connection_interval
            } else {
                0
            },
            subrate_factor,
            peripheral_latency,
            continuation_number,
            supervision_timeout,
        }
    }

    /// The data length of a connection changed.
    pub open spec fn data_length_changed(
        self,
        connection_handle: u16,
        data_length: LeDataLength,
    ) -> DeviceView {
        let le = if self.le.le_connections.contains_key(connection_handle) {
            self.le.with_connection(
                connection_handle,
                LeConnectionInfoView {
                    data_length: Some(data_length),
                    ..self.le.le_connections[connection_handle]
                },
            )
        } else {
            self.le
        };
        DeviceView { le, ..self }.control_recorded(
            LeConnectionControlEvent::DataLengthChange { connection_handle, data_length },
        )
    }

    /// The PHY of a connection is known.
    pub open spec fn phy_known(
        self,
        command_opcode: u16,
        status: u8,
        connection_handle: u16,
        phy: LePhy,
        event: LeConnectionControlEvent,
    ) -> DeviceView {
        let le = if status == 0 && self.le.le_connections.contains_key(connection_handle) {
            self.le.with_connection(
                connection_handle,
                LeConnectionInfoView { phy, ..self.le.le_connections[connection_handle] },
            )
        } else {
            self.le
        };
        DeviceView {
            le: le.control_completed(command_opcode, connection_handle),
            ..self
        }.control_recorded(event)
    }

    /// The signal strength of a connection was read.
    pub open spec fn rssi_read(
        self,
        command_opcode: u16,
        status: u8,
        connection_handle: u16,
        rssi: i8,
    ) -> DeviceView {
        let le = if status == 0 && self.le.le_connections.contains_key(connection_handle) {
            self.le.with_connection(
                connection_handle,
                LeConnectionInfoView {
                    rssi: Some(rssi),
                    ..self.le.le_connections[connection_handle]
                },
            )
        } else {
            self.le
        };
        DeviceView {
            le: le.control_completed(command_opcode, connection_handle),
            ..self
        }.control_recorded(
            LeConnectionControlEvent::RssiRead { status, connection_handle, rssi },
        )
    }

    /// A data-length request was answered.
    pub open spec fn data_length_requested(
        self,
        command_opcode: u16,
        status: u8,
        connection_handle: u16,
    ) -> DeviceView {
        DeviceView {
            le: self.le.control_completed(command_opcode, connection_handle),
            ..self
        }.control_recorded(
            LeConnectionControlEvent::DataLengthRequestComplete { status, connection_handle },
        )
    }

    /// A control command was refused.
    pub open spec fn control_refused(self, command_opcode: u16, status: u8) -> DeviceView {
        DeviceView { le: self.le.control_failed(command_opcode), ..self }.control_recorded(
            LeConnectionControlEvent::CommandStatus {
                command_opcode,
                status,
                connection_handle: self.le.control_failed_handle(command_opcode),
            },
        )
    }

    /// The peer's LE features were read.
    pub open spec fn le_features_read(
        self,
        status: u8,
        connection_handle: u16,
        le_features: [u8; 8],
    ) -> DeviceView {
        if !self.le.le_connections.contains_key(connection_handle) {
            self
        } else if status == 0 {
            DeviceView {
                le: self.le.with_connection(
                    connection_handle,
                    LeConnectionInfoView {
                        peer_le_features: Some(le_features),
                        ..self.le.le_connections[connection_handle]
                    },
                ),
                ..self
            }
        } else {
            DeviceView {
                le: LeView {
                    connection_feature_errors: self.le.connection_feature_errors.push(
                        ConnectionFeatureError {
                            transport: ConnectionFeatureTransport::Le,
                            connection_handle,
                            page_number: None,
                            status,
                        },
                    ),
                    ..self.le
                },
                ..self
            }
        }
    }

    /// A Channel Sounding error on a live connection.
    pub open spec fn sounding_error(
        self,
        operation: ChannelSoundingOperation,
        connection_handle: u16,
        config_id: Option<u8>,
        status: u8,
    ) -> DeviceView {
        DeviceView {
            le: LeView {
                channel_sounding_errors: self.le.channel_sounding_errors.push(
                    ChannelSoundingError { operation, connection_handle, config_id, status },
                ),
                ..self.le
            },
            ..self
        }
    }

    /// The peer's Channel Sounding capabilities were read.
    pub open spec fn sounding_capabilities_read(
        self,
        status: u8,
        connection_handle: u16,
        capabilities: ChannelSoundingCapabilities,
    ) -> DeviceView {
        if !self.le.le_connections.contains_key(connection_handle) {
            self
        } else if status == 0 {
            DeviceView {
                le: self.le.with_connection(
                    connection_handle,
                    LeConnectionInfoView {
                        channel_sounding_capabilities: Some(capabilities),
                        ..self.le.le_connections[connection_handle]
                    },
                ),
                ..self
            }
        } else {
            self.sounding_error(
                ChannelSoundingOperation::ReadRemoteCapabilities,
                connection_handle,
                None,
                status,
            )
        }
    }

    /// Channel Sounding security was enabled, or not.
    pub open spec fn sounding_security_enabled(
        self,
        status: u8,
        connection_handle: u16,
    ) -> DeviceView {
        if !self.le.le_connections.contains_key(connection_handle) {
            self
        } else {
            let recorded = DeviceView {
                le: LeView {
                    channel_sounding_security_results:
                        self.le.channel_sounding_security_results.push(
                        (connection_handle, status),
                    ),
                    ..self.le
                },
                ..self
            };
            if status == 0 {
                recorded
            } else {
                recorded.sounding_error(
                    ChannelSoundingOperation::SecurityEnable,
                    connection_handle,
                    None,
                    status,
                )
            }
        }
    }

    /// A Channel Sounding configuration was created or removed.
    pub open spec fn sounding_configured(
        self,
        status: u8,
        connection_handle: u16,
        action: u8,
        config: ChannelSoundingConfig,
    ) -> DeviceView {
        let settled = DeviceView {
            le: LeView {
                pending_channel_sounding_configs:
                    self.le.pending_channel_sounding_configs.remove_value(
                    (connection_handle, config.config_id),
                ),
                ..self.le
            },
            ..self
        };
        if !self.le.le_connections.contains_key(connection_handle) {
            settled
        } else {
            let connection = self.le.le_connections[connection_handle];
            if status != 0 {
                settled.sounding_error(
                    ChannelSoundingOperation::Config,
                    connection_handle,
                    Some(config.config_id),
                    status,
                )
            } else if action == 1 {
                DeviceView {
                    le: settled.le.with_connection(
                        connection_handle,
                        LeConnectionInfoView {
                            channel_sounding_configs: connection.channel_sounding_configs.insert(
                                config.config_id,
                                config,
                            ),
                            ..connection
                        },
                    ),
                    ..settled
                }
            } else if action == 0 {
                DeviceView {
                    le: settled.le.with_connection(
                        connection_handle,
                        LeConnectionInfoView {
                            channel_sounding_configs: connection.channel_sounding_configs.remove(
                                config.config_id,
                            ),
                            ..connection
                        },
                    ),
                    ..settled
                }
            } else {
                settled
            }
        }
    }

    /// A Channel Sounding procedure was enabled, or not.
    pub open spec fn sounding_procedure_enabled(
        self,
        status: u8,
        connection_handle: u16,
        procedure: ChannelSoundingProcedure,
    ) -> DeviceView {
        if !self.le.le_connections.contains_key(connection_handle) {
            self
        } else if status == 0 {
            let connection = self.le.le_connections[connection_handle];
            DeviceView {
                le: self.le.with_connection(
                    connection_handle,
                    LeConnectionInfoView {
                        channel_sounding_procedures: connection.channel_sounding_procedures.insert(
                            procedure.config_id,
                            procedure,
                        ),
                        ..connection
                    },
                ),
                ..self
            }
        } else {
            self.sounding_error(
                ChannelSoundingOperation::ProcedureEnable,
                connection_handle,
                Some(procedure.config_id),
                status,
            )
        }
    }
}

impl Device {
    /// Record a control event in its own journal and in the device's.
    pub fn record_connection_control_event(&mut self, event: LeConnectionControlEvent)
        requires
            old(self).wf(),
        ensures
            final(self).wf(),
            final(self)@ == old(self)@.control_recorded(event),
    {
        self.le.connection_control_events.push(event);
        self.journal.emit(DeviceEvent::LeConnectionControl(event));
        assert(self@ =~= old(self)@.control_recorded(event));
    }

    /// Take in an established LE connection and select it.
    pub fn on_le_connection_complete(
        &mut self,
        connection_handle: u16,
        role: u8,
        peer_address: Address,
        connection_interval: u16,
        peripheral_latency: u16,
        supervision_timeout: u16,
    )
        requires
            old(self).wf(),
        ensures
            final(self).wf(),
            final(self)@ == old(self)@.le_connected(
                connection_handle,
                role,
                peer_address,
                connection_interval,
                peripheral_latency,
                supervision_timeout,
            ),
    {
        if role == ROLE_CENTRAL {
            self.le.le_connecting = false;
        } else {
            self.gap.legacy_advertising = false;
        }
        self.le.encrypted_handles.remove(&connection_handle);
        let connection = LeConnectionInfo::established(
            connection_handle,
            role,
            peer_address,
            connection_interval,
            peripheral_latency,
            supervision_timeout,
        );
        let copy = connection.clone();
        self.le.put_connection(connection_handle, connection);
        self.le.select(connection_handle);
        self.journal.emit(DeviceEvent::LeConnectionEstablished(copy));
        self.follow_up = Some(
            FollowUp::RegisterLeConnection { connection_handle, role, peer_address },
        );
        proof {
            let ghost expected = old(self)@.le_connected(
                connection_handle,
                role,
                peer_address,
                connection_interval,
                peripheral_latency,
                supervision_timeout,
            );
            assert(self@.le =~= expected.le);
            assert(self@ =~= expected);
        }
    }

    /// Take in the end of a connection-parameter procedure.
    pub fn on_parameters_updated(
        &mut self,
        command_opcode: u16,
        status: u8,
        connection_handle: u16,
        parameters: LeConnectionParameters,
    )
        requires
            old(self).wf(),
        ensures
            final(self).wf(),
            final(self)@ == old(self)@.parameters_updated(
                command_opcode,
                status,
                connection_handle,
                parameters,
            ),
    {
        if status == 0 {
            if let Some(mut connection) = self.le.take_connection(connection_handle) {
                connection.parameters = parameters;
                self.le.put_connection(connection_handle, connection);
            }
        }
        self.le.complete_control(command_opcode, connection_handle);
        let ghost le = self@.le;
        self.record_connection_control_event(
            LeConnectionControlEvent::ConnectionParametersUpdate {
                status,
                connection_handle,
                parameters,
            },
        );
        assert(self@ =~= old(self)@.parameters_updated(
            command_opcode,
            status,
            connection_handle,
            parameters,
        ));
    }
}

impl Device {
    /// Take in a failed LE connection attempt.
    pub fn on_le_connection_failed(&mut self, status: u8, peer_address: Address)
        requires
            old(self).wf(),
        ensures
            final(self).wf(),
            final(self)@ == old(self)@.le_connection_failed(status, peer_address),
    {
        self.le.le_connecting = false;
        self.journal.emit(
            DeviceEvent::ConnectionFailed {
                transport: DeviceConnectionTransport::Le,
                peer_address,
                status,
            },
        );
    }

    /// Take in the end of a connection update.
    pub fn on_connection_update_complete(
        &mut self,
        status: u8,
        connection_handle: u16,
        connection_interval: u16,
        peripheral_latency: u16,
        supervision_timeout: u16,
    )
        requires
            old(self).wf(),
        ensures
            final(self).wf(),
            final(self)@ == old(self)@.parameters_updated(
                HCI_LE_CONNECTION_UPDATE_COMMAND,
                status,
                connection_handle,
                old(self)@.updated_parameters(
                    connection_handle,
                    connection_interval,
                    peripheral_latency,
                    supervision_timeout,
                ),
            ),
    {
        let parameters: LeConnectionParameters = match self.le.le_connections.get(
            &connection_handle,
        ) {
            Some(connection) => LeConnectionParameters {
                connection_interval,
                peripheral_latency,
                supervision_timeout,
                subrate_factor: connection.parameters.subrate_factor,
                continuation_number: connection.parameters.continuation_number,
            },
            None => LeConnectionParameters {
                connection_interval,
                peripheral_latency,
                supervision_timeout,
                subrate_factor: 1,
                continuation_number: 0,
            },
        };
        self.on_parameters_updated(
            HCI_LE_CONNECTION_UPDATE_COMMAND,
            status,
            connection_handle,
            parameters,
        );
    }

    /// Take in the end of a subrate change.
    pub fn on_subrate_change(
        &mut self,
        status: u8,
        connection_handle: u16,
        subrate_factor: u16,
        peripheral_latency: u16,
        continuation_number: u16,
        supervision_timeout: u16,
    )
        requires
            old(self).wf(),
        ensures
            final(self).wf(),
            final(self)@ == old(self)@.parameters_updated(
                HCI_LE_SUBRATE_REQUEST_COMMAND,
                status,
                connection_handle,
                old(self)@.subrated_parameters(
                    connection_handle,
                    subrate_factor,
                    peripheral_latency,
                    continuation_number,
                    supervision_timeout,
                ),
            ),
    {
        let connection_interval: u16 = match self.le.le_connections.get(&connection_handle) {
            Some(connection) => connection.parameters.connection_interval,
            None => 0,
        };
        self.on_parameters_updated(
            HCI_LE_SUBRATE_REQUEST_COMMAND,
            status,
            connection_handle,
            LeConnectionParameters {
                connection_interval,
                peripheral_latency,
                supervision_timeout,
                subrate_factor,
                continuation_number,
            },
        );
    }

    /// Take in the end of a connection-rate change.
    pub fn on_connection_rate_change(
        &mut self,
        status: u8,
        connection_handle: u16,
        parameters: LeConnectionParameters,
    )
        requires
            old(self).wf(),
        ensures
            final(self).wf(),
            final(self)@ == old(self)@.parameters_updated(
                HCI_LE_CONNECTION_RATE_REQUEST_COMMAND,
                status,
                connection_handle,
                parameters,
            ),
    {
        self.on_parameters_updated(
            HCI_LE_CONNECTION_RATE_REQUEST_COMMAND,
            status,
            connection_handle,
            parameters,
        );
    }

    /// Take in a new data length.
    pub fn on_data_length_change(&mut self, connection_handle: u16, data_length: LeDataLength)
        requires
            old(self).wf(),
        ensures
            final(self).wf(),
            final(self)@ == old(self)@.data_length_changed(connection_handle, data_length),
    {
        if let Some(mut connection) = self.le.take_connection(connection_handle) {
            connection.data_length = Some(data_length);
            self.le.put_connection(connection_handle, connection);
        }
        self.record_connection_control_event(
            LeConnectionControlEvent::DataLengthChange { connection_handle, data_length },
        );
        assert(self@ =~= old(self)@.data_length_changed(connection_handle, data_length));
    }

    /// Take in the PHY of a connection, and record the given event.
    pub fn on_phy_known(
        &mut self,
        command_opcode: u16,
        status: u8,
        connection_handle: u16,
        phy: LePhy,
        event: LeConnectionControlEvent,
    )
        requires
            old(self).wf(),
        ensures
            final(self).wf(),
            final(self)@ == old(self)@.phy_known(
                command_opcode,
                status,
                connection_handle,
                phy,
                event,
            ),
    {
        if status == 0 {
            if let Some(mut connection) = self.le.take_connection(connection_handle) {
                connection.phy = phy;
                self.le.put_connection(connection_handle, connection);
            }
        }
        self.le.complete_control(command_opcode, connection_handle);
        self.record_connection_control_event(event);
        assert(self@ =~= old(self)@.phy_known(
            command_opcode,
            status,
            connection_handle,
            phy,
            event,
        ));
    }

    /// Take in a PHY update.
    pub fn on_phy_update_complete(&mut self, status: u8, connection_handle: u16, phy: LePhy)
        requires
            old(self).wf(),
        ensures
            final(self).wf(),
            final(self)@ == old(self)@.phy_known(
                HCI_LE_SET_PHY_COMMAND,
                status,
                connection_handle,
                phy,
                LeConnectionControlEvent::PhyUpdate { status, connection_handle, phy },
            ),
    {
        self.on_phy_known(
            HCI_LE_SET_PHY_COMMAND,
            status,
            connection_handle,
            phy,
            LeConnectionControlEvent::PhyUpdate { status, connection_handle, phy },
        );
    }

    /// Take in the signal strength of a connection.
    pub fn on_rssi_read(
        &mut self,
        command_opcode: u16,
        status: u8,
        connection_handle: u16,
        rssi: i8,
    )
        requires
            old(self).wf(),
        ensures
            final(self).wf(),
            final(self)@ == old(self)@.rssi_read(command_opcode, status, connection_handle, rssi),
    {
        if status == 0 {
            if let Some(mut connection) = self.le.take_connection(connection_handle) {
                connection.rssi = Some(rssi);
                self.le.put_connection(connection_handle, connection);
            }
        }
        self.le.complete_control(command_opcode, connection_handle);
        self.record_connection_control_event(
            LeConnectionControlEvent::RssiRead { status, connection_handle, rssi },
        );
        assert(self@ =~= old(self)@.rssi_read(command_opcode, status, connection_handle, rssi));
    }

    /// Take in the answer to a data-length request.
    pub fn on_data_length_requested(
        &mut self,
        command_opcode: u16,
        status: u8,
        connection_handle: u16,
    )
        requires
            old(self).wf(),
        ensures
            final(self).wf(),
            final(self)@ == old(self)@.data_length_requested(
                command_opcode,
                status,
                connection_handle,
            ),
    {
        self.le.complete_control(command_opcode, connection_handle);
        self.record_connection_control_event(
            LeConnectionControlEvent::DataLengthRequestComplete { status, connection_handle },
        );
    }

    /// Take in the refusal of a control command.
    pub fn on_control_refused(&mut self, command_opcode: u16, status: u8)
        requires
            old(self).wf(),
        ensures
            final(self).wf(),
            final(self)@ == old(self)@.control_refused(command_opcode, status),
    {
        let connection_handle: Option<u16> = self.le.fail_next_control(command_opcode);
        self.record_connection_control_event(
            LeConnectionControlEvent::CommandStatus { command_opcode, status, connection_handle },
        );
    }

    /// Take in the peer's LE features.
    pub fn on_le_features_read(
        &mut self,
        status: u8,
        connection_handle: u16,
        le_features: [u8; 8],
    )
        requires
            old(self).wf(),
        ensures
            final(self).wf(),
            final(self)@ == old(self)@.le_features_read(status, connection_handle, le_features),
    {
        if status == 0 {
            if let Some(mut connection) = self.le.take_connection(connection_handle) {
                connection.peer_le_features = Some(le_features);
                self.le.put_connection(connection_handle, connection);
            }
        } else if self.le.le_connections.contains_key(&connection_handle) {
            self.le.connection_feature_errors.push(
                ConnectionFeatureError {
                    transport: ConnectionFeatureTransport::Le,
                    connection_handle,
                    page_number: None,
                    status,
                },
            );
        }
        assert(self@ =~= old(self)@.le_features_read(status, connection_handle, le_features));
    }

    /// Note a Channel Sounding error.
    fn note_sounding_error(
        &mut self,
        operation: ChannelSoundingOperation,
        connection_handle: u16,
        config_id: Option<u8>,
        status: u8,
    )
        requires
            old(self).wf(),
        ensures
            final(self).wf(),
            final(self)@ == old(self)@.sounding_error(
                operation,
                connection_handle,
                config_id,
                status,
            ),
    {
        self.le.channel_sounding_errors.push(
            ChannelSoundingError { operation, connection_handle, config_id, status },
        );
    }

    /// Take in the peer's Channel Sounding capabilities.
    pub fn on_sounding_capabilities_read(
        &mut self,
        status: u8,
        connection_handle: u16,
        capabilities: ChannelSoundingCapabilities,
    )
        requires
            old(self).wf(),
        ensures
            final(self).wf(),
            final(self)@ == old(self)@.sounding_capabilities_read(
                status,
                connection_handle,
                capabilities,
            ),
    {
        if status == 0 {
            if let Some(mut connection) = self.le.take_connection(connection_handle) {
                connection.channel_sounding_capabilities = Some(capabilities);
                self.le.put_connection(connection_handle, connection);
            }
        } else if self.le.le_connections.contains_key(&connection_handle) {
            self.note_sounding_error(
                ChannelSoundingOperation::ReadRemoteCapabilities,
                connection_handle,
                None,
                status,
            );
        }
        assert(self@ =~= old(self)@.sounding_capabilities_read(
            status,
            connection_handle,
            capabilities,
        ));
    }

    /// Take in the end of enabling Channel Sounding security.
    pub fn on_sounding_security_enabled(&mut self, status: u8, connection_handle: u16)
        requires
            old(self).wf(),
        ensures
            final(self).wf(),
            final(self)@ == old(self)@.sounding_security_enabled(status, connection_handle),
    {
        if self.le.le_connections.contains_key(&connection_handle) {
            self.le.channel_sounding_security_results.push((connection_handle, status));
            if status != 0 {
                self.note_sounding_error(
                    ChannelSoundingOperation::SecurityEnable,
                    connection_handle,
                    None,
                    status,
                );
            }
        }
    }

    /// Take in the end of creating or removing a Channel Sounding configuration.
    pub fn on_sounding_configured(
        &mut self,
        status: u8,
        connection_handle: u16,
        action: u8,
        config: ChannelSoundingConfig,
    )
        requires
            old(self).wf(),
        ensures
            final(self).wf(),
            final(self)@ == old(self)@.sounding_configured(
                status,
                connection_handle,
                action,
                config,
            ),
    {
        proof {
            lemma_remove_keeps_distinct(
                self@.le.pending_channel_sounding_configs,
                (connection_handle, config.config_id),
            );
        }
        let _ = remove_value(
            &mut self.le.pending_channel_sounding_configs,
            (connection_handle, config.config_id),
        );
        if self.le.le_connections.contains_key(&connection_handle) {
            if status != 0 {
                self.note_sounding_error(
                    ChannelSoundingOperation::Config,
                    connection_handle,
                    Some(config.config_id),
                    status,
                );
            } else if action == 1 || action == 0 {
                if let Some(mut connection) = self.le.take_connection(connection_handle) {
                    if action == 1 {
                        connection.channel_sounding_configs.insert(config.config_id, config);
                    } else {
                        connection.channel_sounding_configs.remove(&config.config_id);
                    }
                    self.le.put_connection(connection_handle, connection);
                }
            }
        }
        assert(self@ =~= old(self)@.sounding_configured(
            status,
            connection_handle,
            action,
            config,
        ));
    }

    /// Take in the end of enabling a Channel Sounding procedure.
    pub fn on_sounding_procedure_enabled(
        &mut self,
        status: u8,
        connection_handle: u16,
        procedure: ChannelSoundingProcedure,
    )
        requires
            old(self).wf(),
        ensures
            final(self).wf(),
            final(self)@ == old(self)@.sounding_procedure_enabled(
                status,
                connection_handle,
                procedure,
            ),
    {
        if status == 0 {
            if let Some(mut connection) = self.le.take_connection(connection_handle) {
                connection.channel_sounding_procedures.insert(procedure.config_id, procedure);
                self.le.put_connection(connection_handle, connection);
            }
        } else if self.le.le_connections.contains_key(&connection_handle) {
            self.note_sounding_error(
                ChannelSoundingOperation::ProcedureEnable,
                connection_handle,
                Some(procedure.config_id),
                status,
            );
        }
        assert(self@ =~= old(self)@.sounding_procedure_enabled(
            status,
            connection_handle,
            procedure,
        ));
    }

    /// Take in a Channel Sounding subevent result.
    pub fn on_sounding_result(&mut self, result: ChannelSoundingSubeventResult)
        requires
            old(self).wf(),
        ensures
            final(self).wf(),
            final(self)@ == (DeviceView {
                le: LeView {
                    channel_sounding_subevent_results: old(
                        self,
                    )@.le.channel_sounding_subevent_results.push(result@),
                    ..old(self)@.le
                },
                journal: old(self)@.journal.emitted(
                    DeviceEventView::ChannelSoundingSubeventResult(result@),
                ),
                ..old(self)@
            }),
    {
        self.le.channel_sounding_subevent_results.push(result.clone());
        assert(self@.le.channel_sounding_subevent_results =~= old(
            self,
        )@.le.channel_sounding_subevent_results.push(result@));
        self.journal.emit(DeviceEvent::ChannelSoundingSubeventResult(result));
    }

    /// Take in the continuation of a Channel Sounding subevent result.
    pub fn on_sounding_continuation(&mut self, result: ChannelSoundingSubeventResultContinue)
        requires
            old(self).wf(),
        ensures
            final(self).wf(),
            final(self)@ == (DeviceView {
                le: LeView {
                    channel_sounding_subevent_result_continuations: old(
                        self,
                    )@.le.channel_sounding_subevent_result_continuations.push(result@),
                    ..old(self)@.le
                },
                journal: old(self)@.journal.emitted(
                    DeviceEventView::ChannelSoundingSubeventResultContinue(result@),
                ),
                ..old(self)@
            }),
    {
        self.le.channel_sounding_subevent_result_continuations.push(result.clone());
        assert(self@.le.channel_sounding_subevent_result_continuations =~= old(
            self,
        )@.le.channel_sounding_subevent_result_continuations.push(result@));
        self.journal.emit(DeviceEvent::ChannelSoundingSubeventResultContinue(result));
    }
}

} // verus!
