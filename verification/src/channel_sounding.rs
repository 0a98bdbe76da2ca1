//! Channel Sounding parameters and results.

use crate::content::{byte_strings, clone_byte_strings};
use crate::retain::OfConnection;
use vstd::prelude::*;

verus! {

/// The default CS channel map. Bluetooth channels 0, 1, 23-25, and 76-79 are
/// deliberately disabled.
pub const DEFAULT_CHANNEL_SOUNDING_CHANNEL_MAP: [u8; 10] = [
    0x54,
    0x55,
    0x55,
    0x54,
    0x55,
    0x55,
    0x55,
    0x55,
    0x55,
    0x05,
];

pub const MIN_CHANNEL_SOUNDING_CONFIG_ID: u8 = 0;

pub const MAX_CHANNEL_SOUNDING_CONFIG_ID: u8 = 3;

#[derive(Clone, Copy, Debug, PartialEq, Eq, Structural)]
pub struct ChannelSoundingCapabilities {
    pub num_config_supported: u8,
    pub max_consecutive_procedures_supported: u16,
    pub num_antennas_supported: u8,
    pub max_antenna_paths_supported: u8,
    pub roles_supported: u8,
    pub modes_supported: u8,
    pub rtt_capability: u8,
    pub rtt_aa_only_n: u8,
    pub rtt_sounding_n: u8,
    pub rtt_random_sequence_n: u8,
    pub nadm_sounding_capability: u16,
    pub nadm_random_capability: u16,
    pub cs_sync_phys_supported: u8,
    pub subfeatures_supported: u16,
    pub t_ip1_times_supported: u16,
    pub t_ip2_times_supported: u16,
    pub t_fcs_times_supported: u16,
    pub t_pm_times_supported: u16,
    pub t_sw_time_supported: u8,
    pub tx_snr_capability: u8,
}

#[derive(Clone, Copy, Debug, PartialEq, Eq)]
pub struct ChannelSoundingConfig {
    pub config_id: u8,
    pub main_mode_type: u8,
    pub sub_mode_type: u8,
    pub min_main_mode_steps: u8,
    pub max_main_mode_steps: u8,
    pub main_mode_repetition: u8,
    pub mode_0_steps: u8,
    pub role: u8,
    pub rtt_type: u8,
    pub cs_sync_phy: u8,
    pub channel_map: [u8; 10],
    pub channel_map_repetition: u8,
    pub channel_selection_type: u8,
    pub ch3c_shape: u8,
    pub ch3c_jump: u8,
    pub reserved: u8,
    pub t_ip1_time: u8,
    pub t_ip2_time: u8,
    pub t_fcs_time: u8,
    pub t_pm_time: u8,
}

#[derive(Clone, Copy, Debug, PartialEq, Eq, Structural)]
pub struct ChannelSoundingProcedure {
    pub config_id: u8,
    pub state: u8,
    pub tone_antenna_config_selection: u8,
    pub selected_tx_power: i8,
    pub subevent_len: u32,
    pub subevents_per_event: u8,
    pub subevent_interval: u16,
    pub event_interval: u16,
    pub procedure_interval: u16,
    pub procedure_count: u16,
    pub max_procedure_len: u16,
}

#[derive(Clone, Copy, Debug, PartialEq, Eq, Structural)]
pub struct ChannelSoundingDefaultSettings {
    pub role_enable: u8,
    pub cs_sync_antenna_selection: u8,
    pub max_tx_power: u8,
}

impl Default for ChannelSoundingDefaultSettings {
    fn default() -> (settings: Self)
        ensures
            settings == (ChannelSoundingDefaultSettings {
                role_enable: 0x03,
                cs_sync_antenna_selection: 0xFF,
                max_tx_power: 0x04,
            }),
    {
        ChannelSoundingDefaultSettings {
            role_enable: 0x03,
            cs_sync_antenna_selection: 0xFF,
            max_tx_power: 0x04,
        }
    }
}

#[derive(Clone, Copy, Debug, PartialEq, Eq)]
pub struct ChannelSoundingCreateConfigParameters {
    pub create_context: u8,
    pub main_mode_type: u8,
    pub sub_mode_type: u8,
    pub min_main_mode_steps: u8,
    pub max_main_mode_steps: u8,
    pub main_mode_repetition: u8,
    pub mode_0_steps: u8,
    pub role: u8,
    pub rtt_type: u8,
    pub cs_sync_phy: u8,
    pub channel_map: [u8; 10],
    pub channel_map_repetition: u8,
    pub channel_selection_type: u8,
    pub ch3c_shape: u8,
    pub ch3c_jump: u8,
}

impl Default for ChannelSoundingCreateConfigParameters {
    fn default() -> (parameters: Self)
        ensures
            parameters == (ChannelSoundingCreateConfigParameters {
                create_context: 0x01,
                main_mode_type: 0x02,
                sub_mode_type: 0xFF,
                min_main_mode_steps: 0x02,
                max_main_mode_steps: 0x05,
                main_mode_repetition: 0x00,
                mode_0_steps: 0x03,
                role: 0x00,
                rtt_type: 0x00,
                cs_sync_phy: 0x01,
                channel_map: DEFAULT_CHANNEL_SOUNDING_CHANNEL_MAP,
                channel_map_repetition: 0x01,
                channel_selection_type: 0x00,
                ch3c_shape: 0x00,
                ch3c_jump: 0x03,
            }),
    {
        ChannelSoundingCreateConfigParameters {
            create_context: 0x01,
            main_mode_type: 0x02,
            sub_mode_type: 0xFF,
            min_main_mode_steps: 0x02,
            max_main_mode_steps: 0x05,
            main_mode_repetition: 0x00,
            mode_0_steps: 0x03,
            role: 0x00,
            rtt_type: 0x00,
            cs_sync_phy: 0x01,
            channel_map: DEFAULT_CHANNEL_SOUNDING_CHANNEL_MAP,
            channel_map_repetition: 0x01,
            channel_selection_type: 0x00,
            ch3c_shape: 0x00,
            ch3c_jump: 0x03,
        }
    }
}

#[derive(Clone, Copy, Debug, PartialEq, Eq, Structural)]
pub struct ChannelSoundingProcedureParameters {
    pub tone_antenna_config_selection: u8,
    pub preferred_peer_antenna: u8,
    pub max_procedure_len: u16,
    pub min_procedure_interval: u16,
    pub max_procedure_interval: u16,
    pub max_procedure_count: u16,
    pub min_subevent_len: u32,
    pub max_subevent_len: u32,
    pub phy: u8,
    pub tx_power_delta: u8,
    pub snr_control_initiator: u8,
    pub snr_control_reflector: u8,
}

impl Default for ChannelSoundingProcedureParameters {
    fn default() -> (parameters: Self)
        ensures
            parameters == (ChannelSoundingProcedureParameters {
                tone_antenna_config_selection: 0x00,
                preferred_peer_antenna: 0x00,
                max_procedure_len: 0x2710,
                min_procedure_interval: 0x01,
                max_procedure_interval: 0xFF,
                max_procedure_count: 0x01,
                min_subevent_len: 0x0004E2,
                max_subevent_len: 0x1E8480,
                phy: 0x01,
                tx_power_delta: 0x00,
                snr_control_initiator: 0xFF,
                snr_control_reflector: 0xFF,
            }),
    {
        ChannelSoundingProcedureParameters {
            tone_antenna_config_selection: 0x00,
            preferred_peer_antenna: 0x00,
            max_procedure_len: 0x2710,
            min_procedure_interval: 0x01,
            max_procedure_interval: 0xFF,
            max_procedure_count: 0x01,
            min_subevent_len: 0x0004E2,
            max_subevent_len: 0x1E8480,
            phy: 0x01,
            tx_power_delta: 0x00,
            snr_control_initiator: 0xFF,
            snr_control_reflector: 0xFF,
        }
    }
}

#[derive(Clone, Copy, Debug, PartialEq, Eq, Structural)]
pub enum ChannelSoundingOperation {
    ReadRemoteCapabilities,
    SecurityEnable,
    Config,
    ProcedureEnable,
}

#[derive(Clone, Copy, Debug, PartialEq, Eq, Structural)]
pub struct ChannelSoundingError {
    pub operation: ChannelSoundingOperation,
    pub connection_handle: u16,
    pub config_id: Option<u8>,
    pub status: u8,
}

impl OfConnection for ChannelSoundingError {
    open spec fn connection(&self) -> u16 {
        self.connection_handle
    }

    fn get_connection(&self) -> (connection_handle: u16) {
        self.connection_handle
    }
}

/// One complete Channel Sounding subevent result emitted by the controller.
#[derive(Debug, PartialEq, Eq)]
pub struct ChannelSoundingSubeventResult {
    pub connection_handle: u16,
    pub config_id: u8,
    pub start_acl_conn_event_counter: u16,
    pub procedure_counter: u16,
    pub frequency_compensation: u16,
    pub reference_power_level: i8,
    pub procedure_done_status: u8,
    pub subevent_done_status: u8,
    pub abort_reason: u8,
    pub num_antenna_paths: u8,
    pub step_mode: Vec<u8>,
    pub step_channel: Vec<u8>,
    pub step_data: Vec<Vec<u8>>,
}

/// The content of a [`ChannelSoundingSubeventResult`].
#[verifier::ext_equal]
pub struct ChannelSoundingSubeventResultView {
    pub connection_handle: u16,
    pub config_id: u8,
    pub start_acl_conn_event_counter: u16,
    pub procedure_counter: u16,
    pub frequency_compensation: u16,
    pub reference_power_level: i8,
    pub procedure_done_status: u8,
    pub subevent_done_status: u8,
    pub abort_reason: u8,
    pub num_antenna_paths: u8,
    pub step_mode: Seq<u8>,
    pub step_channel: Seq<u8>,
    pub step_data: Seq<Seq<u8>>,
}

impl View for ChannelSoundingSubeventResult {
    type V = ChannelSoundingSubeventResultView;

    open spec fn view(&self) -> ChannelSoundingSubeventResultView {
        ChannelSoundingSubeventResultView {
            connection_handle: self.connection_handle,
            config_id: self.config_id,
            start_acl_conn_event_counter: self.start_acl_conn_event_counter,
            procedure_counter: self.procedure_counter,
            frequency_compensation: self.frequency_compensation,
            reference_power_level: self.reference_power_level,
            procedure_done_status: self.procedure_done_status,
            subevent_done_status: self.subevent_done_status,
            abort_reason: self.abort_reason,
            num_antenna_paths: self.num_antenna_paths,
            step_mode: self.step_mode@,
            step_channel: self.step_channel@,
            step_data: byte_strings(self.step_data@),
        }
    }
}

impl Clone for ChannelSoundingSubeventResult {
    fn clone(&self) -> (copy: Self)
        ensures
            copy@ == self@,
    {
        ChannelSoundingSubeventResult {
            connection_handle: self.connection_handle,
            config_id: self.config_id,
            start_acl_conn_event_counter: self.start_acl_conn_event_counter,
            procedure_counter: self.procedure_counter,
            frequency_compensation: self.frequency_compensation,
            reference_power_level: self.reference_power_level,
            procedure_done_status: self.procedure_done_status,
            subevent_done_status: self.subevent_done_status,
            abort_reason: self.abort_reason,
            num_antenna_paths: self.num_antenna_paths,
            step_mode: self.step_mode.clone(),
            step_channel: self.step_channel.clone(),
            step_data: clone_byte_strings(&self.step_data),
        }
    }
}

/// Continuation fragment for a Channel Sounding subevent result.
#[derive(Debug, PartialEq, Eq)]
pub struct ChannelSoundingSubeventResultContinue {
    pub connection_handle: u16,
    pub config_id: u8,
    pub procedure_done_status: u8,
    pub subevent_done_status: u8,
    pub abort_reason: u8,
    pub num_antenna_paths: u8,
    pub step_mode: Vec<u8>,
    pub step_channel: Vec<u8>,
    pub step_data: Vec<Vec<u8>>,
}

/// The content of a [`ChannelSoundingSubeventResultContinue`].
#[verifier::ext_equal]
pub struct ChannelSoundingSubeventResultContinueView {
    pub connection_handle: u16,
    pub config_id: u8,
    pub procedure_done_status: u8,
    pub subevent_done_status: u8,
    pub abort_reason: u8,
    pub num_antenna_paths: u8,
    pub step_mode: Seq<u8>,
    pub step_channel: Seq<u8>,
    pub step_data: Seq<Seq<u8>>,
}

impl View for ChannelSoundingSubeventResultContinue {
    type V = ChannelSoundingSubeventResultContinueView;

    open spec fn view(&self) -> ChannelSoundingSubeventResultContinueView {
        ChannelSoundingSubeventResultContinueView {
            connection_handle: self.connection_handle,
            config_id: self.config_id,
            procedure_done_status: self.procedure_done_status,
            subevent_done_status: self.subevent_done_status,
            abort_reason: self.abort_reason,
            num_antenna_paths: self.num_antenna_paths,
            step_mode: self.step_mode@,
            step_channel: self.step_channel@,
            step_data: byte_strings(self.step_data@),
        }
    }
}

impl Clone for ChannelSoundingSubeventResultContinue {
    fn clone(&self) -> (copy: Self)
        ensures
            copy@ == self@,
    {
        ChannelSoundingSubeventResultContinue {
            connection_handle: self.connection_handle,
            config_id: self.config_id,
            procedure_done_status: self.procedure_done_status,
            subevent_done_status: self.subevent_done_status,
            abort_reason: self.abort_reason,
            num_antenna_paths: self.num_antenna_paths,
            step_mode: self.step_mode.clone(),
            step_channel: self.step_channel.clone(),
            step_data: clone_byte_strings(&self.step_data),
        }
    }
}

} // verus!
