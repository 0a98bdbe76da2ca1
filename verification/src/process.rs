//! What each packet from the controller does.

use crate::address::Address;
use crate::classic_link::discovery_commands;
use crate::classic::{ClassicPairingEvent, SynchronousConnectionInfo};
use crate::connection::{
    LeConnectionControlEvent, LeConnectionParameters, LeDataLength, LePhy, LongTermKeyRequestInfo,
    ROLE_PERIPHERAL,
};
use crate::device::{Device, DeviceView, FollowUp, Identity};
use crate::events::{DeviceConnectionTransport, DeviceEvent, DeviceEventView};
use crate::hci::{
    Command, Event, HciPacket, LeMetaEvent, ReturnParameters, HCI_LE_ACCEPT_CIS_REQUEST_COMMAND,
    HCI_LE_BIG_CREATE_SYNC_COMMAND, HCI_LE_CONNECTION_RATE_REQUEST_COMMAND,
    HCI_LE_CONNECTION_UPDATE_COMMAND, HCI_LE_CREATE_BIG_COMMAND, HCI_LE_CREATE_CIS_COMMAND,
    HCI_LE_READ_ISO_TX_SYNC_COMMAND, HCI_LE_READ_PHY_COMMAND, HCI_LE_REJECT_CIS_REQUEST_COMMAND,
    HCI_LE_REMOVE_ISO_DATA_PATH_COMMAND, HCI_LE_SETUP_ISO_DATA_PATH_COMMAND,
    HCI_LE_SET_CIG_PARAMETERS_COMMAND, HCI_LE_SET_DATA_LENGTH_COMMAND, HCI_LE_SET_PHY_COMMAND,
    HCI_LE_SUBRATE_REQUEST_COMMAND, HCI_READ_BD_ADDR_COMMAND, HCI_READ_RSSI_COMMAND,
    HCI_REMOTE_NAME_REQUEST_COMMAND, HCI_RESET_COMMAND,
};
use crate::iso::{BigInfoReport, CisControlEventView, CisLinkInfo, CisRequestInfo, IsoTxSyncInfo};
use crate::link_state::reports;
use crate::setup::setup_step;
use crate::state::{ClassicView, GapView, IsoView, LeView, SecurityView};
use crate::transport::{
    command_if, commands, lemma_commands_none, lemma_commands_push, HostAction, HostTransport,
};
use vstd::prelude::*;

verus! {

broadcast use vstd::laws_cmp::group_laws_cmp;

/// What a packet brings about.
pub struct Step {
    pub device: DeviceView,
    pub sent: Seq<Command>,
}

/// Whether a refused command is one of connection control.
pub open spec fn refuses_control(command_opcode: u16) -> bool {
    ||| command_opcode == HCI_LE_READ_PHY_COMMAND
    ||| command_opcode == HCI_LE_SET_DATA_LENGTH_COMMAND
    ||| command_opcode == HCI_READ_RSSI_COMMAND
    ||| command_opcode == HCI_LE_CONNECTION_UPDATE_COMMAND
    ||| command_opcode == HCI_LE_CONNECTION_RATE_REQUEST_COMMAND
}

/// Whether a command that is not taken up is one of connection control.
pub open spec fn declines_control(command_opcode: u16) -> bool {
    ||| command_opcode == HCI_LE_CONNECTION_UPDATE_COMMAND
    ||| command_opcode == HCI_LE_SET_PHY_COMMAND
    ||| command_opcode == HCI_LE_SUBRATE_REQUEST_COMMAND
    ||| command_opcode == HCI_LE_CONNECTION_RATE_REQUEST_COMMAND
}

/// Whether a refused command is one of ISO control.
pub open spec fn refuses_iso(command_opcode: u16) -> bool {
    ||| command_opcode == HCI_LE_SETUP_ISO_DATA_PATH_COMMAND
    ||| command_opcode == HCI_LE_REMOVE_ISO_DATA_PATH_COMMAND
    ||| command_opcode == HCI_LE_READ_ISO_TX_SYNC_COMMAND
}

impl DeviceView {
    /// The end of a command outside of setup.
    pub open spec fn command_completed(
        self,
        command_opcode: u16,
        parameters: ReturnParameters,
    ) -> DeviceView {
        match parameters {
            ReturnParameters::Status { status } => if status != 0 && refuses_iso(command_opcode) {
                DeviceView { iso: self.iso.iso_command_refused(command_opcode, status), ..self }
            } else if status != 0 && refuses_control(command_opcode) {
                self.control_refused(command_opcode, status)
            } else if command_opcode == HCI_LE_REJECT_CIS_REQUEST_COMMAND {
                DeviceView {
                    iso: self.iso.cis_event(
                        CisControlEventView::CommandStatus { command_opcode, status },
                    ),
                    ..self
                }
            } else {
                self
            },
            ReturnParameters::StatusAndConnectionHandle {
                status,
                connection_handle,
            } => if command_opcode == HCI_LE_SETUP_ISO_DATA_PATH_COMMAND {
                DeviceView { iso: self.iso.path_set_up(status, connection_handle), ..self }
            } else if command_opcode == HCI_LE_REMOVE_ISO_DATA_PATH_COMMAND {
                DeviceView { iso: self.iso.path_removed(status, connection_handle), ..self }
            } else {
                self
            },
            ReturnParameters::LeReadIsoTxSync {
                status,
                connection_handle,
                packet_sequence_number,
                tx_time_stamp,
                time_offset,
            } => if command_opcode == HCI_LE_READ_ISO_TX_SYNC_COMMAND {
                DeviceView {
                    iso: self.iso.tx_sync_read(
                        status,
                        IsoTxSyncInfo {
                            connection_handle,
                            packet_sequence_number,
                            tx_time_stamp,
                            time_offset,
                        },
                    ),
                    ..self
                }
            } else {
                self
            },
            ReturnParameters::LeReadPhy {
                status,
                connection_handle,
                tx_phy,
                rx_phy,
            } => if command_opcode == HCI_LE_READ_PHY_COMMAND {
                let phy = LePhy { tx_phy, rx_phy };
                self.phy_known(
                    command_opcode,
                    status,
                    connection_handle,
                    phy,
                    LeConnectionControlEvent::PhyRead { status, connection_handle, phy },
                )
            } else {
                self
            },
            ReturnParameters::ReadRssi { status, handle, rssi } => if command_opcode
                == HCI_READ_RSSI_COMMAND {
                self.rssi_read(command_opcode, status, handle, rssi)
            } else {
                self
            },
            ReturnParameters::ReadBdAddr { status, bd_addr } => if status == 0 && command_opcode
                == HCI_READ_BD_ADDR_COMMAND {
                DeviceView {
                    identity: Identity { public_address: Some(bd_addr), ..self.identity },
                    follow_up: Some(FollowUp::OpenKeyStore),
                    ..self
                }
            } else {
                self
            },
            ReturnParameters::Raw { data } => if command_opcode == HCI_LE_SET_DATA_LENGTH_COMMAND
                && data@.len() >= 3 {
                self.data_length_requested(
                    command_opcode,
                    data@[0],
                    (data@[1] + 256 * data@[2]) as u16,
                )
            } else if command_opcode == HCI_LE_SET_CIG_PARAMETERS_COMMAND {
                DeviceView { iso: self.iso.cig_configured(data@), ..self }
            } else {
                self
            },
            _ => self,
        }
    }

    /// The controller took up a command, or did not.
    pub open spec fn command_answered(self, command_opcode: u16, status: u8) -> DeviceView {
        if command_opcode == HCI_REMOTE_NAME_REQUEST_COMMAND {
            self.name_command_answered(status)
        } else if status != 0 && declines_control(command_opcode) {
            self.control_refused(command_opcode, status)
        } else if command_opcode == HCI_LE_CREATE_CIS_COMMAND || command_opcode
            == HCI_LE_ACCEPT_CIS_REQUEST_COMMAND {
            DeviceView {
                iso: self.iso.cis_event(
                    CisControlEventView::CommandStatus { command_opcode, status },
                ),
                ..self
            }
        } else if command_opcode == HCI_LE_CREATE_BIG_COMMAND || command_opcode
            == HCI_LE_BIG_CREATE_SYNC_COMMAND {
            DeviceView { iso: self.iso.big_command_answered(command_opcode, status), ..self }
        } else {
            self
        }
    }

    /// A peer's controller asked for a long term key. Where a key may be known
    /// it is looked for first, and otherwise the request waits for the owner.
    pub open spec fn long_term_key_requested(self, request: LongTermKeyRequestInfo) -> DeviceView {
        if self.security.pairing_enabled || self.security.key_store_open {
            DeviceView { follow_up: Some(FollowUp::FindLongTermKey { request }), ..self }
        } else {
            DeviceView {
                security: SecurityView {
                    long_term_key_requests: self.security.long_term_key_requests.push(request),
                    ..self.security
                },
                ..self
            }
        }
    }

    /// What an LE meta event brings about.
    pub open spec fn le_event(self, event: LeMetaEvent) -> DeviceView {
        match event {
            LeMetaEvent::ConnectionComplete {
                status,
                connection_handle,
                role,
                peer_address,
                connection_interval,
                peripheral_latency,
                supervision_timeout,
                ..
            } => if status == 0 {
                self.le_connected(
                    connection_handle,
                    role,
                    peer_address,
                    connection_interval,
                    peripheral_latency,
                    supervision_timeout,
                )
            } else {
                self.le_connection_failed(status, peer_address)
            },
            LeMetaEvent::EnhancedConnectionComplete {
                status,
                connection_handle,
                role,
                peer_address,
                connection_interval,
                peripheral_latency,
                supervision_timeout,
            } => if status == 0 {
                self.le_connected(
                    connection_handle,
                    role,
                    peer_address,
                    connection_interval,
                    peripheral_latency,
                    supervision_timeout,
                )
            } else {
                self.le_connection_failed(status, peer_address)
            },
            LeMetaEvent::EnhancedConnectionCompleteV2 {
                status,
                connection_handle,
                role,
                peer_address,
                connection_interval,
                peripheral_latency,
                supervision_timeout,
            } => if status == 0 {
                self.le_connected(
                    connection_handle,
                    role,
                    peer_address,
                    connection_interval,
                    peripheral_latency,
                    supervision_timeout,
                )
            } else {
                self.le_connection_failed(status, peer_address)
            },
            LeMetaEvent::ConnectionUpdateComplete {
                status,
                connection_handle,
                connection_interval,
                peripheral_latency,
                supervision_timeout,
            } => self.parameters_updated(
                HCI_LE_CONNECTION_UPDATE_COMMAND,
                status,
                connection_handle,
                self.updated_parameters(
                    connection_handle,
                    connection_interval,
                    peripheral_latency,
                    supervision_timeout,
                ),
            ),
            LeMetaEvent::SubrateChange {
                status,
                connection_handle,
                subrate_factor,
                peripheral_latency,
                continuation_number,
                supervision_timeout,
            } => self.parameters_updated(
                HCI_LE_SUBRATE_REQUEST_COMMAND,
                status,
                connection_handle,
                self.subrated_parameters(
                    connection_handle,
                    subrate_factor,
                    peripheral_latency,
                    continuation_number,
                    supervision_timeout,
                ),
            ),
            LeMetaEvent::ConnectionRateChange {
                status,
                connection_handle,
                connection_interval,
                subrate_factor,
                peripheral_latency,
                continuation_number,
                supervision_timeout,
            } => self.parameters_updated(
                HCI_LE_CONNECTION_RATE_REQUEST_COMMAND,
                status,
                connection_handle,
                LeConnectionParameters {
                    connection_interval,
                    peripheral_latency,
                    supervision_timeout,
                    subrate_factor,
                    continuation_number,
                },
            ),
            LeMetaEvent::DataLengthChange {
                connection_handle,
                max_tx_octets,
                max_tx_time,
                max_rx_octets,
                max_rx_time,
            } => self.data_length_changed(
                connection_handle,
                LeDataLength { max_tx_octets, max_tx_time, max_rx_octets, max_rx_time },
            ),
            LeMetaEvent::PhyUpdateComplete { status, connection_handle, tx_phy, rx_phy } => {
                let phy = LePhy { tx_phy, rx_phy };
                self.phy_known(
                    HCI_LE_SET_PHY_COMMAND,
                    status,
                    connection_handle,
                    phy,
                    LeConnectionControlEvent::PhyUpdate { status, connection_handle, phy },
                )
            },
            LeMetaEvent::ReadRemoteFeaturesComplete {
                status,
                connection_handle,
                le_features,
            } => self.le_features_read(status, connection_handle, le_features),
            LeMetaEvent::CsReadRemoteSupportedCapabilitiesComplete {
                status,
                connection_handle,
                capabilities,
            } => self.sounding_capabilities_read(status, connection_handle, capabilities),
            LeMetaEvent::CsSecurityEnableComplete {
                status,
                connection_handle,
            } => self.sounding_security_enabled(status, connection_handle),
            LeMetaEvent::CsConfigComplete {
                status,
                connection_handle,
                action,
                config,
            } => self.sounding_configured(status, connection_handle, action, config),
            LeMetaEvent::CsProcedureEnableComplete {
                status,
                connection_handle,
                procedure,
            } => self.sounding_procedure_enabled(status, connection_handle, procedure),
            LeMetaEvent::CsSubeventResult { result } => DeviceView {
                le: LeView {
                    channel_sounding_subevent_results:
                        self.le.channel_sounding_subevent_results.push(result@),
                    ..self.le
                },
                ..self
            }.emitted(DeviceEventView::ChannelSoundingSubeventResult(result@)),
            LeMetaEvent::CsSubeventResultContinue { result } => DeviceView {
                le: LeView {
                    channel_sounding_subevent_result_continuations:
                        self.le.channel_sounding_subevent_result_continuations.push(result@),
                    ..self.le
                },
                ..self
            }.emitted(DeviceEventView::ChannelSoundingSubeventResultContinue(result@)),
            LeMetaEvent::AdvertisingReport { report } => self.legacy_reported(report),
            LeMetaEvent::ExtendedAdvertisingReport { report } => self.extended_reported(report),
            LeMetaEvent::LongTermKeyRequest {
                connection_handle,
                random_number,
                encryption_diversifier,
            } => self.long_term_key_requested(
                LongTermKeyRequestInfo {
                    connection_handle,
                    random_number,
                    encryption_diversifier,
                },
            ),
            LeMetaEvent::PeriodicAdvertisingSyncEstablished { status, sync } => DeviceView {
                gap: self.gap.periodic_synced(status, sync),
                ..self
            },
            LeMetaEvent::PeriodicAdvertisingSyncTransferReceived {
                status,
                connection_handle,
                service_data,
                sync,
            } => DeviceView {
                gap: self.gap.periodic_sync_transferred(
                    status,
                    connection_handle,
                    service_data,
                    sync,
                ),
                ..self
            },
            LeMetaEvent::PeriodicAdvertisingReport {
                sync_handle,
                tx_power,
                rssi,
                data_status,
                data,
            } => DeviceView {
                gap: self.gap.periodic_reported(sync_handle, tx_power, rssi, data_status, data@),
                ..self
            },
            LeMetaEvent::PeriodicAdvertisingSyncLost { sync_handle } => DeviceView {
                gap: self.gap.periodic_sync_lost(sync_handle),
                ..self
            },
            LeMetaEvent::AdvertisingSetTerminated { advertising_handle } => DeviceView {
                gap: GapView {
                    extended_advertising_handles: self.gap.extended_advertising_handles.remove(
                        advertising_handle,
                    ),
                    ..self.gap
                },
                ..self
            },
            LeMetaEvent::BiginfoAdvertisingReport {
                sync_handle,
                num_bis,
                nse,
                iso_interval,
                bn,
                pto,
                irc,
                max_pdu,
                sdu_interval,
                max_sdu,
                phy,
                framing,
                encryption,
            } => DeviceView {
                iso: IsoView {
                    biginfo_reports: self.iso.biginfo_reports.push(
                        BigInfoReport {
                            sync_handle,
                            num_bis,
                            nse,
                            iso_interval,
                            bn,
                            pto,
                            irc,
                            max_pdu,
                            sdu_interval,
                            max_sdu,
                            phy,
                            framing,
                            encrypted: encryption != 0,
                        },
                    ),
                    ..self.iso
                },
                ..self
            },
            LeMetaEvent::CreateBigComplete { status, big_handle, connection_handle } => DeviceView {
                iso: self.iso.big_created(status, big_handle, connection_handle@),
                ..self
            },
            LeMetaEvent::TerminateBigComplete { big_handle, reason } => DeviceView {
                iso: self.iso.big_terminated(big_handle, reason),
                ..self
            },
            LeMetaEvent::BigSyncEstablished { status, big_handle, connection_handle } => DeviceView {
                iso: self.iso.big_synced(status, big_handle, connection_handle@),
                ..self
            },
            LeMetaEvent::BigSyncLost { big_handle, reason } => DeviceView {
                iso: self.iso.big_sync_lost(big_handle, reason),
                ..self
            },
            LeMetaEvent::CisRequest {
                acl_connection_handle,
                cis_connection_handle,
                cig_id,
                cis_id,
            } => DeviceView {
                iso: IsoView {
                    cis_requests: self.iso.cis_requests.push(
                        CisRequestInfo {
                            acl_connection_handle,
                            cis_connection_handle,
                            cig_id,
                            cis_id,
                        },
                    ),
                    ..self.iso
                },
                ..self
            },
            LeMetaEvent::CisEstablished {
                status,
                connection_handle,
                cig_sync_delay,
                cis_sync_delay,
                transport_latency_c_to_p,
                transport_latency_p_to_c,
                phy_c_to_p,
                phy_p_to_c,
                nse,
                bn_c_to_p,
                bn_p_to_c,
                ft_c_to_p,
                ft_p_to_c,
                max_pdu_c_to_p,
                max_pdu_p_to_c,
                iso_interval,
            } => DeviceView {
                iso: self.iso.cis_established(
                    status,
                    CisLinkInfo {
                        connection_handle,
                        cig_sync_delay,
                        cis_sync_delay,
                        transport_latency_c_to_p,
                        transport_latency_p_to_c,
                        phy_c_to_p,
                        phy_p_to_c,
                        nse,
                        bn_c_to_p,
                        bn_p_to_c,
                        ft_c_to_p,
                        ft_p_to_c,
                        max_pdu_c_to_p,
                        max_pdu_p_to_c,
                        iso_interval,
                    },
                ),
                ..self
            },
            LeMetaEvent::Other { .. } => self,
        }
    }
}

impl Device {
    /// A command outside of setup has ended.
    pub fn on_command_completed(&mut self, command_opcode: u16, parameters: ReturnParameters)
        requires
            old(self).wf(),
        ensures
            final(self).wf(),
            final(self)@ == old(self)@.command_completed(command_opcode, parameters),
    {
        match parameters {
            ReturnParameters::Status { status } => {
                if status != 0 && (command_opcode == HCI_LE_SETUP_ISO_DATA_PATH_COMMAND
                    || command_opcode == HCI_LE_REMOVE_ISO_DATA_PATH_COMMAND || command_opcode
                    == HCI_LE_READ_ISO_TX_SYNC_COMMAND) {
                    self.iso.on_iso_command_refused(command_opcode, status);
                } else if status != 0 && (command_opcode == HCI_LE_READ_PHY_COMMAND
                    || command_opcode == HCI_LE_SET_DATA_LENGTH_COMMAND || command_opcode
                    == HCI_READ_RSSI_COMMAND || command_opcode == HCI_LE_CONNECTION_UPDATE_COMMAND
                    || command_opcode == HCI_LE_CONNECTION_RATE_REQUEST_COMMAND) {
                    self.on_control_refused(command_opcode, status);
                } else if command_opcode == HCI_LE_REJECT_CIS_REQUEST_COMMAND {
                    self.iso.on_cis_command_status(command_opcode, status);
                }
            },
            ReturnParameters::StatusAndConnectionHandle { status, connection_handle } => {
                if command_opcode == HCI_LE_SETUP_ISO_DATA_PATH_COMMAND {
                    self.iso.on_path_set_up(status, connection_handle);
                } else if command_opcode == HCI_LE_REMOVE_ISO_DATA_PATH_COMMAND {
                    self.iso.on_path_removed(status, connection_handle);
                }
            },
            ReturnParameters::LeReadIsoTxSync {
                status,
                connection_handle,
                packet_sequence_number,
                tx_time_stamp,
                time_offset,
            } => {
                if command_opcode == HCI_LE_READ_ISO_TX_SYNC_COMMAND {
                    self.iso.on_tx_sync_read(
                        status,
                        IsoTxSyncInfo {
                            connection_handle,
                            packet_sequence_number,
                            tx_time_stamp,
                            time_offset,
                        },
                    );
                }
            },
            ReturnParameters::LeReadPhy { status, connection_handle, tx_phy, rx_phy } => {
                if command_opcode == HCI_LE_READ_PHY_COMMAND {
                    let phy = LePhy { tx_phy, rx_phy };
                    self.on_phy_known(
                        command_opcode,
                        status,
                        connection_handle,
                        phy,
                        LeConnectionControlEvent::PhyRead { status, connection_handle, phy },
                    );
                }
            },
            ReturnParameters::ReadRssi { status, handle, rssi } => {
                if command_opcode == HCI_READ_RSSI_COMMAND {
                    self.on_rssi_read(command_opcode, status, handle, rssi);
                }
            },
            ReturnParameters::ReadBdAddr { status, bd_addr } => {
                if status == 0 && command_opcode == HCI_READ_BD_ADDR_COMMAND {
                    self.identity.public_address = Some(bd_addr);
                    self.follow_up = Some(FollowUp::OpenKeyStore);
                }
            },
            ReturnParameters::Raw { data } => {
                if command_opcode == HCI_LE_SET_DATA_LENGTH_COMMAND && data.len() >= 3 {
                    let low: u16 = data[1] as u16;
                    let high: u16 = data[2] as u16;
                    self.on_data_length_requested(command_opcode, data[0], low + 256 * high);
                } else if command_opcode == HCI_LE_SET_CIG_PARAMETERS_COMMAND {
                    self.iso.on_cig_configured(&data);
                }
            },
            _ => {},
        }
        assert(self@ =~= old(self)@.command_completed(command_opcode, parameters));
    }

    /// The controller has taken up a command, or has not.
    pub fn on_command_status(&mut self, command_opcode: u16, status: u8)
        requires
            old(self).wf(),
        ensures
            final(self).wf(),
            final(self)@ == old(self)@.command_answered(command_opcode, status),
    {
        if command_opcode == HCI_REMOTE_NAME_REQUEST_COMMAND {
            self.on_remote_name_status(status);
        } else if status != 0 && (command_opcode == HCI_LE_CONNECTION_UPDATE_COMMAND
            || command_opcode == HCI_LE_SET_PHY_COMMAND || command_opcode
            == HCI_LE_SUBRATE_REQUEST_COMMAND || command_opcode
            == HCI_LE_CONNECTION_RATE_REQUEST_COMMAND) {
            self.on_control_refused(command_opcode, status);
        } else if command_opcode == HCI_LE_CREATE_CIS_COMMAND || command_opcode
            == HCI_LE_ACCEPT_CIS_REQUEST_COMMAND {
            self.iso.on_cis_command_status(command_opcode, status);
        } else if command_opcode == HCI_LE_CREATE_BIG_COMMAND || command_opcode
            == HCI_LE_BIG_CREATE_SYNC_COMMAND {
            self.iso.on_big_command_status(command_opcode, status);
        }
        assert(self@ =~= old(self)@.command_answered(command_opcode, status));
    }

    /// A peer's controller has asked for a long term key.
    pub fn on_long_term_key_request(&mut self, request: LongTermKeyRequestInfo)
        requires
            old(self).wf(),
        ensures
            final(self).wf(),
            final(self)@ == old(self)@.long_term_key_requested(request),
    {
        if self.security.pairing_enabled || self.security.key_store_open {
            self.follow_up = Some(FollowUp::FindLongTermKey { request });
        } else {
            self.security.long_term_key_requests.push(request);
        }
        assert(self@ =~= old(self)@.long_term_key_requested(request));
    }
}

impl Device {
    /// An LE meta event has arrived.
    #[verifier::rlimit(40)]
    pub fn on_le_event(&mut self, event: LeMetaEvent)
        requires
            old(self).wf(),
        ensures
            final(self).wf(),
            final(self)@ == old(self)@.le_event(event),
    {
        match event {
            LeMetaEvent::ConnectionComplete {
                status,
                connection_handle,
                role,
                peer_address,
                connection_interval,
                peripheral_latency,
                supervision_timeout,
                ..
            } => {
                self.on_le_connection_outcome(
                    status,
                    connection_handle,
                    role,
                    peer_address,
                    connection_interval,
                    peripheral_latency,
                    supervision_timeout,
                );
            },
            LeMetaEvent::EnhancedConnectionComplete {
                status,
                connection_handle,
                role,
                peer_address,
                connection_interval,
                peripheral_latency,
                supervision_timeout,
            } => {
                self.on_le_connection_outcome(
                    status,
                    connection_handle,
                    role,
                    peer_address,
                    connection_interval,
                    peripheral_latency,
                    supervision_timeout,
                );
            },
            LeMetaEvent::EnhancedConnectionCompleteV2 {
                status,
                connection_handle,
                role,
                peer_address,
                connection_interval,
                peripheral_latency,
                supervision_timeout,
            } => {
                self.on_le_connection_outcome(
                    status,
                    connection_handle,
                    role,
                    peer_address,
                    connection_interval,
                    peripheral_latency,
                    supervision_timeout,
                );
            },
            LeMetaEvent::ConnectionUpdateComplete {
                status,
                connection_handle,
                connection_interval,
                peripheral_latency,
                supervision_timeout,
            } => {
                self.on_connection_update_complete(
                    status,
                    connection_handle,
                    connection_interval,
                    peripheral_latency,
                    supervision_timeout,
                );
            },
            LeMetaEvent::SubrateChange {
                status,
                connection_handle,
                subrate_factor,
                peripheral_latency,
                continuation_number,
                supervision_timeout,
            } => {
                self.on_subrate_change(
                    status,
                    connection_handle,
                    subrate_factor,
                    peripheral_latency,
                    continuation_number,
                    supervision_timeout,
                );
            },
            LeMetaEvent::ConnectionRateChange {
                status,
                connection_handle,
                connection_interval,
                subrate_factor,
                peripheral_latency,
                continuation_number,
                supervision_timeout,
            } => {
                self.on_connection_rate_change(
                    status,
                    connection_handle,
                    LeConnectionParameters {
                        connection_interval,
                        peripheral_latency,
                        supervision_timeout,
                        subrate_factor,
                        continuation_number,
                    },
                );
            },
            LeMetaEvent::DataLengthChange {
                connection_handle,
                max_tx_octets,
                max_tx_time,
                max_rx_octets,
                max_rx_time,
            } => {
                self.on_data_length_change(
                    connection_handle,
                    LeDataLength { max_tx_octets, max_tx_time, max_rx_octets, max_rx_time },
                );
            },
            LeMetaEvent::PhyUpdateComplete { status, connection_handle, tx_phy, rx_phy } => {
                self.on_phy_update_complete(status, connection_handle, LePhy { tx_phy, rx_phy });
            },
            LeMetaEvent::ReadRemoteFeaturesComplete { status, connection_handle, le_features } => {
                self.on_le_features_read(status, connection_handle, le_features);
            },
            LeMetaEvent::CsReadRemoteSupportedCapabilitiesComplete {
                status,
                connection_handle,
                capabilities,
            } => {
                self.on_sounding_capabilities_read(status, connection_handle, capabilities);
            },
            LeMetaEvent::CsSecurityEnableComplete { status, connection_handle } => {
                self.on_sounding_security_enabled(status, connection_handle);
            },
            LeMetaEvent::CsConfigComplete { status, connection_handle, action, config } => {
                self.on_sounding_configured(status, connection_handle, action, config);
            },
            LeMetaEvent::CsProcedureEnableComplete { status, connection_handle, procedure } => {
                self.on_sounding_procedure_enabled(status, connection_handle, procedure);
            },
            LeMetaEvent::CsSubeventResult { result } => {
                self.on_sounding_result(result);
            },
            LeMetaEvent::CsSubeventResultContinue { result } => {
                self.on_sounding_continuation(result);
            },
            LeMetaEvent::AdvertisingReport { report } => {
                self.on_advertising_report(report);
            },
            LeMetaEvent::ExtendedAdvertisingReport { report } => {
                self.on_extended_advertising_report(report);
            },
            LeMetaEvent::LongTermKeyRequest {
                connection_handle,
                random_number,
                encryption_diversifier,
            } => {
                self.on_long_term_key_request(
                    LongTermKeyRequestInfo {
                        connection_handle,
                        random_number,
                        encryption_diversifier,
                    },
                );
            },
            LeMetaEvent::PeriodicAdvertisingSyncEstablished { status, sync } => {
                self.gap.on_periodic_synced(status, sync);
            },
            LeMetaEvent::PeriodicAdvertisingSyncTransferReceived {
                status,
                connection_handle,
                service_data,
                sync,
            } => {
                self.gap.on_periodic_sync_transferred(
                    status,
                    connection_handle,
                    service_data,
                    sync,
                );
            },
            LeMetaEvent::PeriodicAdvertisingReport {
                sync_handle,
                tx_power,
                rssi,
                data_status,
                data,
            } => {
                self.gap.on_periodic_report(sync_handle, tx_power, rssi, data_status, &data);
            },
            LeMetaEvent::PeriodicAdvertisingSyncLost { sync_handle } => {
                self.gap.on_periodic_sync_lost(sync_handle);
            },
            LeMetaEvent::AdvertisingSetTerminated { advertising_handle } => {
                self.gap.extended_advertising_handles.remove(&advertising_handle);
            },
            LeMetaEvent::BiginfoAdvertisingReport {
                sync_handle,
                num_bis,
                nse,
                iso_interval,
                bn,
                pto,
                irc,
                max_pdu,
                sdu_interval,
                max_sdu,
                phy,
                framing,
                encryption,
            } => {
                self.iso.biginfo_reports.push(
                    BigInfoReport {
                        sync_handle,
                        num_bis,
                        nse,
                        iso_interval,
                        bn,
                        pto,
                        irc,
                        max_pdu,
                        sdu_interval,
                        max_sdu,
                        phy,
                        framing,
                        encrypted: encryption != 0,
                    },
                );
            },
            LeMetaEvent::CreateBigComplete { status, big_handle, connection_handle } => {
                self.iso.on_big_created(status, big_handle, connection_handle);
            },
            LeMetaEvent::TerminateBigComplete { big_handle, reason } => {
                self.iso.on_big_terminated(big_handle, reason);
            },
            LeMetaEvent::BigSyncEstablished { status, big_handle, connection_handle } => {
                self.iso.on_big_synced(status, big_handle, connection_handle);
            },
            LeMetaEvent::BigSyncLost { big_handle, reason } => {
                self.iso.on_big_sync_lost(big_handle, reason);
            },
            LeMetaEvent::CisRequest {
                acl_connection_handle,
                cis_connection_handle,
                cig_id,
                cis_id,
            } => {
                self.iso.cis_requests.push(
                    CisRequestInfo {
                        acl_connection_handle,
                        cis_connection_handle,
                        cig_id,
                        cis_id,
                    },
                );
            },
            LeMetaEvent::CisEstablished {
                status,
                connection_handle,
                cig_sync_delay,
                cis_sync_delay,
                transport_latency_c_to_p,
                transport_latency_p_to_c,
                phy_c_to_p,
                phy_p_to_c,
                nse,
                bn_c_to_p,
                bn_p_to_c,
                ft_c_to_p,
                ft_p_to_c,
                max_pdu_c_to_p,
                max_pdu_p_to_c,
                iso_interval,
            } => {
                self.iso.on_cis_established(
                    status,
                    CisLinkInfo {
                        connection_handle,
                        cig_sync_delay,
                        cis_sync_delay,
                        transport_latency_c_to_p,
                        transport_latency_p_to_c,
                        phy_c_to_p,
                        phy_p_to_c,
                        nse,
                        bn_c_to_p,
                        bn_p_to_c,
                        ft_c_to_p,
                        ft_p_to_c,
                        max_pdu_c_to_p,
                        max_pdu_p_to_c,
                        iso_interval,
                    },
                );
            },
            LeMetaEvent::Other { .. } => {},
        }
        assert(self@ =~= old(self)@.le_event(event));
    }

    /// An attempt to establish an LE connection has ended.
    fn on_le_connection_outcome(
        &mut self,
        status: u8,
        connection_handle: u16,
        role: u8,
        peer_address: Address,
        connection_interval: u16,
        peripheral_latency: u16,
        supervision_timeout: u16,
    )
        requires
            old(self).wf(),
        ensures
            final(self).wf(),
            final(self)@ == if status == 0 {
                old(self)@.le_connected(
                    connection_handle,
                    role,
                    peer_address,
                    connection_interval,
                    peripheral_latency,
                    supervision_timeout,
                )
            } else {
                old(self)@.le_connection_failed(status, peer_address)
            },
    {
        if status == 0 {
            self.on_le_connection_complete(
                connection_handle,
                role,
                peer_address,
                connection_interval,
                peripheral_latency,
                supervision_timeout,
            );
        } else {
            self.on_le_connection_failed(status, peer_address);
        }
    }
}

impl DeviceView {
    /// A peer asked for the link key of a bond. Where pairing is enabled the
    /// key is looked for before the request is recorded.
    pub open spec fn link_key_requested(self, peer_address: Address) -> DeviceView {
        if self.security.pairing_enabled {
            DeviceView { follow_up: Some(FollowUp::FindLinkKey { peer_address }), ..self }
        } else {
            self.pairing_recorded(ClassicPairingEvent::LinkKeyRequest { peer_address })
        }
    }

    /// A new link key arrived. Where pairing is enabled the key is stored
    /// before it is recorded.
    pub open spec fn link_key_notified(
        self,
        peer_address: Address,
        link_key: [u8; 16],
        key_type: u8,
    ) -> DeviceView {
        if self.security.pairing_enabled {
            DeviceView {
                follow_up: Some(FollowUp::StoreLinkKey { peer_address, link_key, key_type }),
                ..self
            }
        } else {
            self.pairing_recorded(
                ClassicPairingEvent::LinkKeyNotification { peer_address, link_key, key_type },
            )
        }
    }

    /// The pairing event that a controller event stands for.
    pub open spec fn pairing_event(event: Event) -> Option<ClassicPairingEvent> {
        match event {
            Event::AuthenticationComplete { status, connection_handle } => Some(
                ClassicPairingEvent::AuthenticationComplete { status, connection_handle },
            ),
            Event::PinCodeRequest { bd_addr } => Some(
                ClassicPairingEvent::PinCodeRequest { peer_address: bd_addr },
            ),
            Event::IoCapabilityRequest { bd_addr } => Some(
                ClassicPairingEvent::IoCapabilityRequest { peer_address: bd_addr },
            ),
            Event::IoCapabilityResponse {
                bd_addr,
                io_capability,
                authentication_requirements,
                ..
            } => Some(
                ClassicPairingEvent::IoCapabilityResponse {
                    peer_address: bd_addr,
                    io_capability,
                    authentication_requirements,
                },
            ),
            Event::UserConfirmationRequest { bd_addr, numeric_value } => Some(
                ClassicPairingEvent::UserConfirmationRequest {
                    peer_address: bd_addr,
                    numeric_value,
                },
            ),
            Event::UserPasskeyRequest { bd_addr } => Some(
                ClassicPairingEvent::UserPasskeyRequest { peer_address: bd_addr },
            ),
            Event::RemoteOobDataRequest { bd_addr } => Some(
                ClassicPairingEvent::RemoteOobDataRequest { peer_address: bd_addr },
            ),
            Event::SimplePairingComplete { status, bd_addr } => Some(
                ClassicPairingEvent::SimplePairingComplete { status, peer_address: bd_addr },
            ),
            Event::UserPasskeyNotification { bd_addr, passkey } => Some(
                ClassicPairingEvent::UserPasskeyNotification { peer_address: bd_addr, passkey },
            ),
            _ => None,
        }
    }

    /// A step without commands.
    pub open spec fn quiet(self) -> Step {
        Step { device: self, sent: Seq::empty() }
    }

    /// Whether the scan types of Classic follow the configuration.
    pub open spec fn interlaced(self) -> bool {
        self.config.classic_enabled && self.config.classic_interlaced_scan_enabled
    }

    /// What a controller event brings about, other than a report of completed
    /// packets.
    pub open spec fn event_step(self, event: Event) -> Step {
        match event {
            Event::CommandComplete { command_opcode, return_parameters, .. } => match setup_step(
                self.setup,
                self.pools,
                self.interlaced(),
                command_opcode,
                return_parameters,
            ) {
                Some(step) => Step {
                    device: DeviceView { setup: step.setup, pools: step.pools, ..self },
                    sent: step.commands,
                },
                None => self.command_completed(command_opcode, return_parameters).quiet(),
            },
            Event::CommandStatus { status, command_opcode, .. } => self.command_answered(
                command_opcode,
                status,
            ).quiet(),
            Event::LeMeta(event) => self.le_event(event).quiet(),
            Event::DisconnectionComplete { status, connection_handle, reason } => self.disconnected(
                status,
                connection_handle,
                reason,
            ).quiet(),
            Event::InquiryComplete { status } => Step {
                device: self.inquiry_completed(status),
                sent: if self.restarts_inquiry() {
                    discovery_commands()
                } else {
                    Seq::empty()
                },
            },
            Event::InquiryResponse { result } => self.inquiry_answered(result@).quiet(),
            Event::RemoteNameRequestComplete {
                status,
                bd_addr,
                remote_name,
            } => self.name_completed(status, bd_addr, remote_name@).quiet(),
            Event::ReadRemoteSupportedFeaturesComplete {
                status,
                connection_handle,
                lmp_features,
            } => Step {
                device: self.features_read(status, connection_handle, lmp_features),
                sent: self.features_read_sends(status, connection_handle, lmp_features),
            },
            Event::ReadRemoteExtendedFeaturesComplete {
                status,
                connection_handle,
                page_number,
                maximum_page_number,
                extended_lmp_features,
            } => Step {
                device: self.feature_page_read(
                    status,
                    connection_handle,
                    page_number,
                    maximum_page_number,
                    extended_lmp_features,
                ),
                sent: self.feature_page_sends(
                    status,
                    connection_handle,
                    page_number,
                    maximum_page_number,
                ),
            },
            Event::ConnectionComplete {
                status,
                connection_handle,
                bd_addr,
                link_type,
                encryption_enabled,
            } => if link_type != 1 {
                self.quiet()
            } else if status == 0 {
                self.classic_connected(connection_handle, bd_addr, encryption_enabled).quiet()
            } else {
                self.classic_connection_failed(status, bd_addr).quiet()
            },
            Event::RoleChange { status, bd_addr, new_role } => if status == 0 {
                self.role_changed(bd_addr, new_role).quiet()
            } else {
                self.quiet()
            },
            Event::ConnectionRequest { bd_addr, class_of_device, link_type } => Step {
                device: self.connection_requested(bd_addr, class_of_device, link_type),
                sent: command_if(
                    self.accepts_at_once(link_type),
                    Command::AcceptConnectionRequest { bd_addr, role: ROLE_PERIPHERAL },
                ),
            },
            Event::SynchronousConnectionComplete {
                status,
                connection_handle,
                bd_addr,
                link_type,
                air_mode,
            } => if status == 0 {
                self.synchronous_connected(
                    SynchronousConnectionInfo {
                        connection_handle,
                        peer_address: bd_addr,
                        link_type,
                        air_mode,
                    },
                ).quiet()
            } else {
                self.emitted(
                    DeviceEventView::ConnectionFailed {
                        transport: DeviceConnectionTransport::Synchronous { link_type },
                        peer_address: bd_addr,
                        status,
                    },
                ).quiet()
            },
            Event::ModeChange { status, connection_handle, current_mode, interval } => if status
                == 0 {
                self.mode_changed(connection_handle, current_mode, interval).quiet()
            } else {
                self.quiet()
            },
            Event::LinkKeyRequest { bd_addr } => self.link_key_requested(bd_addr).quiet(),
            Event::LinkKeyNotification {
                bd_addr,
                link_key,
                key_type,
            } => self.link_key_notified(bd_addr, link_key, key_type).quiet(),
            Event::EncryptionChange {
                status,
                connection_handle,
                encryption_enabled,
            } => self.encryption_changed(
                status,
                connection_handle,
                encryption_enabled,
                0,
            ).quiet(),
            Event::EncryptionChangeV2 {
                status,
                connection_handle,
                encryption_enabled,
                encryption_key_size,
            } => self.encryption_changed(
                status,
                connection_handle,
                encryption_enabled,
                encryption_key_size,
            ).quiet(),
            Event::EncryptionKeyRefreshComplete {
                status,
                connection_handle,
            } => self.key_refreshed(status, connection_handle).quiet(),
            Event::QosSetupComplete {
                status,
                connection_handle,
                service_type,
            } => self.qos_set_up(status, connection_handle, service_type).quiet(),
            Event::RemoteHostSupportedFeaturesNotification {
                bd_addr,
                host_supported_features,
            } => self.host_features_told(bd_addr, host_supported_features).quiet(),
            Event::Vendor { data } => self.vendor_reported(data@).quiet(),
            _ => match DeviceView::pairing_event(event) {
                Some(event) => self.pairing_recorded(event).quiet(),
                None => self.quiet(),
            },
        }
    }

    /// How a controller event shows.
    pub open spec fn event_handled(
        self,
        after: DeviceView,
        event: Event,
        log_before: Seq<HostAction>,
        log_after: Seq<HostAction>,
    ) -> bool {
        match event {
            Event::NumberOfCompletedPackets {
                connection_handles,
                num_completed_packets,
            } => self.completions_handled(
                after,
                reports(connection_handles@, num_completed_packets@),
                log_before,
                log_after,
            ),
            _ => {
                &&& after == self.event_step(event).device
                &&& log_after == log_before + commands(
                    self.controller_id,
                    self.event_step(event).sent,
                )
            },
        }
    }

    /// Whether a packet is heeded: until the controller is ready, only the end
    /// of its reset is.
    pub open spec fn heeds(self, packet: HciPacket) -> bool {
        self.setup.status.controller_ready || (packet matches HciPacket::Event(
            Event::CommandComplete { command_opcode, .. },
        ) && command_opcode == HCI_RESET_COMMAND)
    }

    /// How a packet shows.
    pub open spec fn packet_handled(
        self,
        after: DeviceView,
        packet: HciPacket,
        log_before: Seq<HostAction>,
        log_after: Seq<HostAction>,
    ) -> bool {
        if !self.heeds(packet) {
            after == self && log_after == log_before
        } else {
            match packet {
                HciPacket::Event(event) => self.event_handled(after, event, log_before, log_after),
                HciPacket::AclData(packet) => {
                    &&& after == (DeviceView {
                        follow_up: Some(FollowUp::RouteAcl(packet)),
                        ..self
                    })
                    &&& log_after == log_before
                },
                HciPacket::SyncData(packet) => {
                    &&& after == (DeviceView {
                        classic: ClassicView {
                            synchronous_inbox: self.classic.synchronous_inbox.push(packet),
                            ..self.classic
                        },
                        ..self
                    })
                    &&& log_after == log_before
                },
                HciPacket::IsoData(packet) => {
                    &&& after == (DeviceView { iso: self.iso.packet_received(packet), ..self })
                    &&& log_after == log_before
                },
            }
        }
    }
}

impl Device {
    /// A command has ended.
    fn on_command_complete<L: HostTransport + ?Sized>(
        &mut self,
        link: &mut L,
        num_hci_command_packets: u8,
        command_opcode: u16,
        return_parameters: ReturnParameters,
    )
        requires
            old(self).wf(),
        ensures
            final(self).wf(),
            old(self)@.event_handled(
                final(self)@,
                (Event::CommandComplete {
                    num_hci_command_packets,
                    command_opcode,
                    return_parameters,
                }),
                old(link).log(),
                final(link).log(),
            ),
    {
        let interlaced = self.config.classic_enabled && self.config.classic_interlaced_scan_enabled;
        let handled = self.setup.on_command_complete(
            &mut self.pools,
            link,
            self.controller_id,
            interlaced,
            command_opcode,
            &return_parameters,
        );
        let ghost between = self@;
        if !handled {
            proof {
                lemma_commands_none(link.log(), self.controller_id);
                assert(between =~= old(self)@);
            }
            self.on_command_completed(command_opcode, return_parameters);
        } else {
            proof {
                let step = setup_step(
                    old(self)@.setup,
                    old(self)@.pools,
                    interlaced,
                    command_opcode,
                    return_parameters,
                );
                assert(between =~= (DeviceView {
                    setup: step->Some_0.setup,
                    pools: step->Some_0.pools,
                    ..old(self)@
                }));
            }
        }
    }

    /// Record the pairing event that a controller event stands for.
    fn on_pairing_event(&mut self, event: Event)
        requires
            old(self).wf(),
        ensures
            final(self).wf(),
            final(self)@ == match DeviceView::pairing_event(event) {
                Some(event) => old(self)@.pairing_recorded(event),
                None => old(self)@,
            },
    {
        let recorded: ClassicPairingEvent = match event {
            Event::AuthenticationComplete { status, connection_handle } => {
                ClassicPairingEvent::AuthenticationComplete { status, connection_handle }
            },
            Event::PinCodeRequest { bd_addr } => {
                ClassicPairingEvent::PinCodeRequest { peer_address: bd_addr }
            },
            Event::IoCapabilityRequest { bd_addr } => {
                ClassicPairingEvent::IoCapabilityRequest { peer_address: bd_addr }
            },
            Event::IoCapabilityResponse {
                bd_addr,
                io_capability,
                authentication_requirements,
                ..
            } => {
                ClassicPairingEvent::IoCapabilityResponse {
                    peer_address: bd_addr,
                    io_capability,
                    authentication_requirements,
                }
            },
            Event::UserConfirmationRequest { bd_addr, numeric_value } => {
                ClassicPairingEvent::UserConfirmationRequest {
                    peer_address: bd_addr,
                    numeric_value,
                }
            },
            Event::UserPasskeyRequest { bd_addr } => {
                ClassicPairingEvent::UserPasskeyRequest { peer_address: bd_addr }
            },
            Event::RemoteOobDataRequest { bd_addr } => {
                ClassicPairingEvent::RemoteOobDataRequest { peer_address: bd_addr }
            },
            Event::SimplePairingComplete { status, bd_addr } => {
                ClassicPairingEvent::SimplePairingComplete { status, peer_address: bd_addr }
            },
            Event::UserPasskeyNotification { bd_addr, passkey } => {
                ClassicPairingEvent::UserPasskeyNotification { peer_address: bd_addr, passkey }
            },
            _ => {
                return ;
            },
        };
        self.record_classic_pairing_event(recorded);
    }

    /// A peer has asked for the link key of a bond.
    pub fn on_link_key_request(&mut self, peer_address: Address)
        requires
            old(self).wf(),
        ensures
            final(self).wf(),
            final(self)@ == old(self)@.link_key_requested(peer_address),
    {
        if self.security.pairing_enabled {
            self.follow_up = Some(FollowUp::FindLinkKey { peer_address });
        } else {
            self.record_classic_pairing_event(ClassicPairingEvent::LinkKeyRequest { peer_address });
        }
    }

    /// A new link key has arrived.
    pub fn on_link_key_notification(
        &mut self,
        peer_address: Address,
        link_key: [u8; 16],
        key_type: u8,
    )
        requires
            old(self).wf(),
        ensures
            final(self).wf(),
            final(self)@ == old(self)@.link_key_notified(peer_address, link_key, key_type),
    {
        if self.security.pairing_enabled {
            self.follow_up = Some(FollowUp::StoreLinkKey { peer_address, link_key, key_type });
        } else {
            self.record_classic_pairing_event(
                ClassicPairingEvent::LinkKeyNotification { peer_address, link_key, key_type },
            );
        }
    }

    /// An attempt to establish a Classic ACL connection has ended.
    fn on_classic_outcome(
        &mut self,
        status: u8,
        connection_handle: u16,
        bd_addr: Address,
        encryption_enabled: u8,
    )
        requires
            old(self).wf(),
        ensures
            final(self).wf(),
            final(self)@ == if status == 0 {
                old(self)@.classic_connected(connection_handle, bd_addr, encryption_enabled)
            } else {
                old(self)@.classic_connection_failed(status, bd_addr)
            },
    {
        if status == 0 {
            self.on_classic_connected(connection_handle, bd_addr, encryption_enabled);
        } else {
            self.on_classic_connection_failed(status, bd_addr);
        }
    }

    /// An attempt to establish a synchronous connection has ended.
    fn on_synchronous_outcome(
        &mut self,
        status: u8,
        connection_handle: u16,
        bd_addr: Address,
        link_type: u8,
        air_mode: u8,
    )
        requires
            old(self).wf(),
        ensures
            final(self).wf(),
            final(self)@ == if status == 0 {
                old(self)@.synchronous_connected(
                    SynchronousConnectionInfo {
                        connection_handle,
                        peer_address: bd_addr,
                        link_type,
                        air_mode,
                    },
                )
            } else {
                old(self)@.emitted(
                    DeviceEventView::ConnectionFailed {
                        transport: DeviceConnectionTransport::Synchronous { link_type },
                        peer_address: bd_addr,
                        status,
                    },
                )
            },
    {
        if status == 0 {
            self.on_synchronous_connected(
                SynchronousConnectionInfo {
                    connection_handle,
                    peer_address: bd_addr,
                    link_type,
                    air_mode,
                },
            );
        } else {
            self.emit_device_event(
                DeviceEvent::ConnectionFailed {
                    transport: DeviceConnectionTransport::Synchronous { link_type },
                    peer_address: bd_addr,
                    status,
                },
            );
        }
    }

    /// A controller event has arrived.
    #[verifier::rlimit(60)]
    pub fn on_event<L: HostTransport + ?Sized>(&mut self, link: &mut L, event: Event)
        requires
            old(self).wf(),
        ensures
            final(self).wf(),
            old(self)@.event_handled(final(self)@, event, old(link).log(), final(link).log()),
    {
        let ghost id = self.controller_id;
        let ghost log = link.log();
        proof {
            lemma_commands_none(log, id);
        }
        match event {
            Event::CommandComplete {
                num_hci_command_packets,
                command_opcode,
                return_parameters,
            } => {
                self.on_command_complete(
                    link,
                    num_hci_command_packets,
                    command_opcode,
                    return_parameters,
                );
            },
            Event::CommandStatus { status, command_opcode, .. } => {
                self.on_command_status(command_opcode, status);
            },
            Event::LeMeta(event) => {
                self.on_le_event(event);
            },
            Event::DisconnectionComplete { status, connection_handle, reason } => {
                self.on_disconnection_complete(status, connection_handle, reason);
            },
            Event::InquiryComplete { status } => {
                self.on_inquiry_complete(link, status);
            },
            Event::InquiryResponse { result } => {
                self.on_inquiry_response(result);
            },
            Event::RemoteNameRequestComplete { status, bd_addr, remote_name } => {
                self.on_remote_name_complete(status, bd_addr, remote_name.as_slice());
            },
            Event::ReadRemoteSupportedFeaturesComplete {
                status,
                connection_handle,
                lmp_features,
            } => {
                self.on_remote_features(link, status, connection_handle, lmp_features);
            },
            Event::ReadRemoteExtendedFeaturesComplete {
                status,
                connection_handle,
                page_number,
                maximum_page_number,
                extended_lmp_features,
            } => {
                self.on_remote_feature_page(
                    link,
                    status,
                    connection_handle,
                    page_number,
                    maximum_page_number,
                    extended_lmp_features,
                );
            },
            Event::ConnectionComplete {
                status,
                connection_handle,
                bd_addr,
                link_type,
                encryption_enabled,
            } => {
                if link_type == 1 {
                    self.on_classic_outcome(status, connection_handle, bd_addr, encryption_enabled);
                }
            },
            Event::RoleChange { status, bd_addr, new_role } => {
                if status == 0 {
                    self.on_role_change(bd_addr, new_role);
                }
            },
            Event::ConnectionRequest { bd_addr, class_of_device, link_type } => {
                proof {
                    lemma_commands_push(
                        log,
                        id,
                        Seq::empty(),
                        Command::AcceptConnectionRequest { bd_addr, role: ROLE_PERIPHERAL },
                    );
                    assert(Seq::<Command>::empty().push(
                        Command::AcceptConnectionRequest { bd_addr, role: ROLE_PERIPHERAL },
                    ) =~= command_if(
                        true,
                        Command::AcceptConnectionRequest { bd_addr, role: ROLE_PERIPHERAL },
                    ));
                }
                self.on_connection_request(link, bd_addr, class_of_device, link_type);
            },
            Event::SynchronousConnectionComplete {
                status,
                connection_handle,
                bd_addr,
                link_type,
                air_mode,
            } => {
                self.on_synchronous_outcome(
                    status,
                    connection_handle,
                    bd_addr,
                    link_type,
                    air_mode,
                );
            },
            Event::ModeChange { status, connection_handle, current_mode, interval } => {
                if status == 0 {
                    self.on_mode_change(connection_handle, current_mode, interval);
                }
            },
            Event::LinkKeyRequest { bd_addr } => {
                self.on_link_key_request(bd_addr);
            },
            Event::LinkKeyNotification { bd_addr, link_key, key_type } => {
                self.on_link_key_notification(bd_addr, link_key, key_type);
            },
            Event::NumberOfCompletedPackets { connection_handles, num_completed_packets } => {
                self.on_packets_completed(link, &connection_handles, &num_completed_packets);
            },
            Event::EncryptionChange { status, connection_handle, encryption_enabled } => {
                self.on_encryption_change(status, connection_handle, encryption_enabled, 0);
            },
            Event::EncryptionChangeV2 {
                status,
                connection_handle,
                encryption_enabled,
                encryption_key_size,
            } => {
                self.on_encryption_change(
                    status,
                    connection_handle,
                    encryption_enabled,
                    encryption_key_size,
                );
            },
            Event::EncryptionKeyRefreshComplete { status, connection_handle } => {
                self.on_encryption_key_refresh(status, connection_handle);
            },
            Event::QosSetupComplete { status, connection_handle, service_type } => {
                self.on_qos_setup(status, connection_handle, service_type);
            },
            Event::RemoteHostSupportedFeaturesNotification {
                bd_addr,
                host_supported_features,
            } => {
                self.on_remote_host_features(bd_addr, host_supported_features);
            },
            Event::Vendor { data } => {
                self.on_vendor_event(data);
            },
            Event::Other { .. } => {},
            _ => {
                self.on_pairing_event(event);
            },
        }
    }

    /// Process one packet from the controller.
    pub fn process_packet<L: HostTransport + ?Sized>(&mut self, link: &mut L, packet: HciPacket)
        requires
            old(self).wf(),
        ensures
            final(self).wf(),
            old(self)@.packet_handled(final(self)@, packet, old(link).log(), final(link).log()),
    {
        let heeded = self.setup.status.controller_ready || match &packet {
            HciPacket::Event(Event::CommandComplete { command_opcode, .. }) => *command_opcode
                == HCI_RESET_COMMAND,
            _ => false,
        };
        assert(heeded == self@.heeds(packet));
        if !heeded {
            return ;
        }
        match packet {
            HciPacket::Event(event) => {
                self.on_event(link, event);
            },
            HciPacket::AclData(packet) => {
                self.follow_up = Some(FollowUp::RouteAcl(packet));
            },
            HciPacket::SyncData(packet) => {
                self.classic.synchronous_inbox.push(packet);
                assert(self@ =~= (DeviceView {
                    classic: ClassicView {
                        synchronous_inbox: old(self)@.classic.synchronous_inbox.push(packet),
                        ..old(self)@.classic
                    },
                    ..old(self)@
                }));
            },
            HciPacket::IsoData(packet) => {
                self.iso.on_iso_packet(packet);
            },
        }
    }
}

} // verus!
