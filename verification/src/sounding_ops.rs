//! Channel Sounding procedures of LE connections.

use crate::channel_sounding::{
    ChannelSoundingCreateConfigParameters, ChannelSoundingDefaultSettings,
    ChannelSoundingProcedureParameters, MAX_CHANNEL_SOUNDING_CONFIG_ID,
    MIN_CHANNEL_SOUNDING_CONFIG_ID,
};
use crate::commands::with_command_if;
use crate::device::{Device, DeviceView};
use crate::hci::Command;
use crate::power::{bit, spec_bit};
use crate::retain::holds;
use crate::state::LeView;
use crate::transport::{HostAction, HostTransport};
use vstd::prelude::*;

verus! {

broadcast use vstd::laws_cmp::group_laws_cmp;

impl DeviceView {
    /// Whether a connection has a Channel Sounding configuration.
    pub open spec fn has_sounding_config(self, connection_handle: u16, config_id: u8) -> bool {
        &&& self.le.le_connections.contains_key(connection_handle)
        &&& self.le.le_connections[connection_handle].channel_sounding_configs.contains_key(
            config_id,
        )
    }

    /// Whether an identifier can name a new configuration: it is in range and
    /// neither used nor asked for.
    pub open spec fn sounding_id_free(self, connection_handle: u16, config_id: u8) -> bool {
        &&& MIN_CHANNEL_SOUNDING_CONFIG_ID <= config_id <= MAX_CHANNEL_SOUNDING_CONFIG_ID
        &&& !self.has_sounding_config(connection_handle, config_id)
        &&& !self.le.pending_channel_sounding_configs.contains((connection_handle, config_id))
    }

    /// Whether an identifier is the one for a new configuration: the wanted
    /// one, or else the least, where it is free.
    pub open spec fn sounding_id_chosen(
        self,
        connection_handle: u16,
        wanted: Option<u8>,
        chosen: Option<u8>,
    ) -> bool {
        if !self.le.le_connections.contains_key(connection_handle) {
            chosen is None
        } else {
            match wanted {
                Some(config_id) => chosen == if self.sounding_id_free(
                    connection_handle,
                    config_id,
                ) {
                    Some(config_id)
                } else {
                    None
                },
                None => match chosen {
                    Some(config_id) => {
                        &&& self.sounding_id_free(connection_handle, config_id)
                        &&& forall|other: u8|
                            other < config_id ==> !(#[trigger] self.sounding_id_free(
                                connection_handle,
                                other,
                            ))
                    },
                    None => forall|other: u8|
                        !(#[trigger] self.sounding_id_free(connection_handle, other)),
                },
            }
        }
    }

    /// A device that waits for a configuration, where it was asked for.
    pub open spec fn sounding_config_asked(
        self,
        connection_handle: u16,
        config_id: Option<u8>,
    ) -> DeviceView {
        match config_id {
            Some(config_id) => DeviceView {
                le: LeView {
                    pending_channel_sounding_configs: self.le.pending_channel_sounding_configs.push(
                        (connection_handle, config_id),
                    ),
                    ..self.le
                },
                ..self
            },
            None => self,
        }
    }
}

/// The command that asks for a Channel Sounding configuration.
pub open spec fn create_config_command(
    connection_handle: u16,
    config_id: u8,
    parameters: ChannelSoundingCreateConfigParameters,
) -> Command {
    Command::LeCsCreateConfig {
        connection_handle,
        config_id,
        create_context: parameters.create_context,
        main_mode_type: parameters.main_mode_type,
        sub_mode_type: parameters.sub_mode_type,
        min_main_mode_steps: parameters.min_main_mode_steps,
        max_main_mode_steps: parameters.max_main_mode_steps,
        main_mode_repetition: parameters.main_mode_repetition,
        mode_0_steps: parameters.mode_0_steps,
        role: parameters.role,
        rtt_type: parameters.rtt_type,
        cs_sync_phy: parameters.cs_sync_phy,
        channel_map: parameters.channel_map,
        channel_map_repetition: parameters.channel_map_repetition,
        channel_selection_type: parameters.channel_selection_type,
        ch3c_shape: parameters.ch3c_shape,
        ch3c_jump: parameters.ch3c_jump,
        reserved: 0,
    }
}

impl DeviceView {
    /// How a call of [`Device::read_remote_channel_sounding_capabilities_on_handle`] shows.
    pub open spec fn read_remote_channel_sounding_capabilities_on_handle_shows(
        self,
        after: DeviceView,
        connection_handle: u16,
        asked: bool,
        log_before: Seq<HostAction>,
        log_after: Seq<HostAction>,
    ) -> bool {
        &&& asked == self.le.le_connections.contains_key(connection_handle)
        &&& after == self
        &&& log_after == with_command_if(
            log_before,
            self.controller_id,
            asked,
            Command::LeCsReadRemoteSupportedCapabilities { connection_handle },
        )
    }

    /// How a call of [`Device::set_default_channel_sounding_settings_on_handle`] shows.
    pub open spec fn set_default_channel_sounding_settings_on_handle_shows(
        self,
        after: DeviceView,
        connection_handle: u16,
        settings: ChannelSoundingDefaultSettings,
        asked: bool,
        log_before: Seq<HostAction>,
        log_after: Seq<HostAction>,
    ) -> bool {
        &&& asked == self.le.le_connections.contains_key(connection_handle)
        &&& after == self
        &&& log_after == with_command_if(
            log_before,
            self.controller_id,
            asked,
            Command::LeCsSetDefaultSettings {
                connection_handle,
                role_enable: settings.role_enable,
                cs_sync_antenna_selection: settings.cs_sync_antenna_selection,
                max_tx_power: settings.max_tx_power,
            },
        )
    }

    /// How a call of [`Device::remove_channel_sounding_config_on_handle`] shows.
    pub open spec fn remove_channel_sounding_config_on_handle_shows(
        self,
        after: DeviceView,
        connection_handle: u16,
        config_id: u8,
        asked: bool,
        log_before: Seq<HostAction>,
        log_after: Seq<HostAction>,
    ) -> bool {
        &&& asked == self.has_sounding_config(connection_handle, config_id)
        &&& after == self
        &&& log_after == with_command_if(
            log_before,
            self.controller_id,
            asked,
            Command::LeCsRemoveConfig { connection_handle, config_id },
        )
    }

    /// How a call of [`Device::enable_channel_sounding_security_on_handle`] shows.
    pub open spec fn enable_channel_sounding_security_on_handle_shows(
        self,
        after: DeviceView,
        connection_handle: u16,
        asked: bool,
        log_before: Seq<HostAction>,
        log_after: Seq<HostAction>,
    ) -> bool {
        &&& asked == self.le.le_connections.contains_key(connection_handle)
        &&& after == self
        &&& log_after == with_command_if(
            log_before,
            self.controller_id,
            asked,
            Command::LeCsSecurityEnable { connection_handle },
        )
    }

    /// How a call of [`Device::set_channel_sounding_procedure_parameters_on_handle`] shows.
    pub open spec fn set_channel_sounding_procedure_parameters_on_handle_shows(
        self,
        after: DeviceView,
        connection_handle: u16,
        config_id: u8,
        parameters: ChannelSoundingProcedureParameters,
        asked: bool,
        log_before: Seq<HostAction>,
        log_after: Seq<HostAction>,
    ) -> bool {
        &&& asked == self.has_sounding_config(connection_handle, config_id)
        &&& after == self
        &&& log_after == with_command_if(
            log_before,
            self.controller_id,
            asked,
            Command::LeCsSetProcedureParameters {
                connection_handle,
                config_id,
                max_procedure_len: parameters.max_procedure_len,
                min_procedure_interval: parameters.min_procedure_interval,
                max_procedure_interval: parameters.max_procedure_interval,
                max_procedure_count: parameters.max_procedure_count,
                min_subevent_len: parameters.min_subevent_len,
                max_subevent_len: parameters.max_subevent_len,
                tone_antenna_config_selection: parameters.tone_antenna_config_selection,
                phy: parameters.phy,
                tx_power_delta: parameters.tx_power_delta,
                preferred_peer_antenna: parameters.preferred_peer_antenna,
                snr_control_initiator: parameters.snr_control_initiator,
                snr_control_reflector: parameters.snr_control_reflector,
            },
        )
    }

    /// How a call of [`Device::enable_channel_sounding_procedure_on_handle`] shows.
    pub open spec fn enable_channel_sounding_procedure_on_handle_shows(
        self,
        after: DeviceView,
        connection_handle: u16,
        config_id: u8,
        enabled: bool,
        asked: bool,
        log_before: Seq<HostAction>,
        log_after: Seq<HostAction>,
    ) -> bool {
        &&& asked == self.has_sounding_config(connection_handle, config_id)
        &&& after == self
        &&& log_after == with_command_if(
            log_before,
            self.controller_id,
            asked,
            Command::LeCsProcedureEnable { connection_handle, config_id, enable: spec_bit(enabled) },
        )
    }
}

impl Device {
    /// Whether an identifier can name a new configuration.
    fn is_sounding_id_free(&self, connection_handle: u16, config_id: u8) -> (free: bool)
        ensures
            free == self@.sounding_id_free(connection_handle, config_id),
    {
        if config_id < MIN_CHANNEL_SOUNDING_CONFIG_ID || config_id
            > MAX_CHANNEL_SOUNDING_CONFIG_ID {
            return false;
        }
        let used: bool = match self.le.le_connections.get(&connection_handle) {
            Some(connection) => connection.channel_sounding_configs.contains_key(&config_id),
            None => false,
        };
        !used && !holds(&self.le.pending_channel_sounding_configs, (connection_handle, config_id))
    }

    /// The identifier for a new configuration.
    fn choose_sounding_id(&self, connection_handle: u16, wanted: Option<u8>) -> (chosen: Option<u8>)
        ensures
            self@.sounding_id_chosen(connection_handle, wanted, chosen),
    {
        if !self.le.le_connections.contains_key(&connection_handle) {
            return None;
        }
        match wanted {
            Some(config_id) => if self.is_sounding_id_free(connection_handle, config_id) {
                Some(config_id)
            } else {
                None
            },
            None => {
                let mut config_id: u8 = MIN_CHANNEL_SOUNDING_CONFIG_ID;
                while config_id <= MAX_CHANNEL_SOUNDING_CONFIG_ID
                    invariant
                        config_id <= MAX_CHANNEL_SOUNDING_CONFIG_ID + 1,
                        self.le.le_connections@.contains_key(connection_handle),
                        wanted is None,
                        forall|other: u8|
                            other < config_id ==> !(#[trigger] self@.sounding_id_free(
                                connection_handle,
                                other,
                            )),
                    decreases MAX_CHANNEL_SOUNDING_CONFIG_ID + 1 - config_id,
                {
                    if self.is_sounding_id_free(connection_handle, config_id) {
                        return Some(config_id);
                    }
                    config_id += 1;
                }
                None
            },
        }
    }

    /// Ask for a Channel Sounding configuration under an identifier, or under
    /// the first free one. Returns the identifier, or `None`, with nothing
    /// done, where it is not free or there is no such connection.
    pub fn create_channel_sounding_config_on_handle<L: HostTransport + ?Sized>(
        &mut self,
        link: &mut L,
        connection_handle: u16,
        config_id: Option<u8>,
        parameters: ChannelSoundingCreateConfigParameters,
    ) -> (chosen: Option<u8>)
        requires
            old(self).wf(),
        ensures
            final(self).wf(),
            old(self)@.sounding_id_chosen(connection_handle, config_id, chosen),
            final(self)@ == old(self)@.sounding_config_asked(connection_handle, chosen),
            final(link).log() == with_command_if(
                old(link).log(),
                old(self).controller_id,
                chosen is Some,
                create_config_command(connection_handle, chosen->0, parameters),
            ),
    {
        match self.choose_sounding_id(connection_handle, config_id) {
            None => None,
            Some(config_id) => {
                self.le.pending_channel_sounding_configs.push((connection_handle, config_id));
                assert(self@ =~= old(self)@.sounding_config_asked(
                    connection_handle,
                    Some(config_id),
                ));
                self.send_hci_command(
                    link,
                    Command::LeCsCreateConfig {
                        connection_handle,
                        config_id,
                        create_context: parameters.create_context,
                        main_mode_type: parameters.main_mode_type,
                        sub_mode_type: parameters.sub_mode_type,
                        min_main_mode_steps: parameters.min_main_mode_steps,
                        max_main_mode_steps: parameters.max_main_mode_steps,
                        main_mode_repetition: parameters.main_mode_repetition,
                        mode_0_steps: parameters.mode_0_steps,
                        role: parameters.role,
                        rtt_type: parameters.rtt_type,
                        cs_sync_phy: parameters.cs_sync_phy,
                        channel_map: parameters.channel_map,
                        channel_map_repetition: parameters.channel_map_repetition,
                        channel_selection_type: parameters.channel_selection_type,
                        ch3c_shape: parameters.ch3c_shape,
                        ch3c_jump: parameters.ch3c_jump,
                        reserved: 0,
                    },
                );
                Some(config_id)
            },
        }
    }

    /// Whether a connection has a Channel Sounding configuration.
    fn has_channel_sounding_config(&self, connection_handle: u16, config_id: u8) -> (has: bool)
        ensures
            has == self@.has_sounding_config(connection_handle, config_id),
    {
        match self.le.le_connections.get(&connection_handle) {
            Some(connection) => connection.channel_sounding_configs.contains_key(&config_id),
            None => false,
        }
    }

    /// Ask for the Channel Sounding capabilities of a peer.
    pub fn read_remote_channel_sounding_capabilities_on_handle<L: HostTransport + ?Sized>(
        &mut self,
        link: &mut L,
        connection_handle: u16,
    ) -> (asked: bool)
        requires
            old(self).wf(),
        ensures
            final(self).wf(),
            old(self)@.read_remote_channel_sounding_capabilities_on_handle_shows(
                final(self)@,
                connection_handle,
                asked,
                old(link).log(),
                final(link).log(),
            ),
    {
        if !self.le.le_connections.contains_key(&connection_handle) {
            return false;
        }
        self.send_hci_command(
            link,
            Command::LeCsReadRemoteSupportedCapabilities { connection_handle },
        );
        true
    }

    /// Set the default Channel Sounding settings of a connection.
    pub fn set_default_channel_sounding_settings_on_handle<L: HostTransport + ?Sized>(
        &mut self,
        link: &mut L,
        connection_handle: u16,
        settings: ChannelSoundingDefaultSettings,
    ) -> (asked: bool)
        requires
            old(self).wf(),
        ensures
            final(self).wf(),
            old(self)@.set_default_channel_sounding_settings_on_handle_shows(
                final(self)@,
                connection_handle,
                settings,
                asked,
                old(link).log(),
                final(link).log(),
            ),
    {
        if !self.le.le_connections.contains_key(&connection_handle) {
            return false;
        }
        self.send_hci_command(
            link,
            Command::LeCsSetDefaultSettings {
                connection_handle,
                role_enable: settings.role_enable,
                cs_sync_antenna_selection: settings.cs_sync_antenna_selection,
                max_tx_power: settings.max_tx_power,
            },
        );
        true
    }

    /// Remove a Channel Sounding configuration.
    pub fn remove_channel_sounding_config_on_handle<L: HostTransport + ?Sized>(
        &mut self,
        link: &mut L,
        connection_handle: u16,
        config_id: u8,
    ) -> (asked: bool)
        requires
            old(self).wf(),
        ensures
            final(self).wf(),
            old(self)@.remove_channel_sounding_config_on_handle_shows(
                final(self)@,
                connection_handle,
                config_id,
                asked,
                old(link).log(),
                final(link).log(),
            ),
    {
        if !self.has_channel_sounding_config(connection_handle, config_id) {
            return false;
        }
        self.send_hci_command(
            link,
            Command::LeCsRemoveConfig { connection_handle, config_id },
        );
        true
    }

    /// Enable Channel Sounding security on a connection.
    pub fn enable_channel_sounding_security_on_handle<L: HostTransport + ?Sized>(
        &mut self,
        link: &mut L,
        connection_handle: u16,
    ) -> (asked: bool)
        requires
            old(self).wf(),
        ensures
            final(self).wf(),
            old(self)@.enable_channel_sounding_security_on_handle_shows(
                final(self)@,
                connection_handle,
                asked,
                old(link).log(),
                final(link).log(),
            ),
    {
        if !self.le.le_connections.contains_key(&connection_handle) {
            return false;
        }
        self.send_hci_command(
            link,
            Command::LeCsSecurityEnable { connection_handle },
        );
        true
    }

    /// Set the procedure parameters of a Channel Sounding configuration.
    pub fn set_channel_sounding_procedure_parameters_on_handle<L: HostTransport + ?Sized>(
        &mut self,
        link: &mut L,
        connection_handle: u16,
        config_id: u8,
        parameters: ChannelSoundingProcedureParameters,
    ) -> (asked: bool)
        requires
            old(self).wf(),
        ensures
            final(self).wf(),
            old(self)@.set_channel_sounding_procedure_parameters_on_handle_shows(
                final(self)@,
                connection_handle,
                config_id,
                parameters,
                asked,
                old(link).log(),
                final(link).log(),
            ),
    {
        if !self.has_channel_sounding_config(connection_handle, config_id) {
            return false;
        }
        self.send_hci_command(
            link,
            Command::LeCsSetProcedureParameters {
                connection_handle,
                config_id,
                max_procedure_len: parameters.max_procedure_len,
                min_procedure_interval: parameters.min_procedure_interval,
                max_procedure_interval: parameters.max_procedure_interval,
                max_procedure_count: parameters.max_procedure_count,
                min_subevent_len: parameters.min_subevent_len,
                max_subevent_len: parameters.max_subevent_len,
                tone_antenna_config_selection: parameters.tone_antenna_config_selection,
                phy: parameters.phy,
                tx_power_delta: parameters.tx_power_delta,
                preferred_peer_antenna: parameters.preferred_peer_antenna,
                snr_control_initiator: parameters.snr_control_initiator,
                snr_control_reflector: parameters.snr_control_reflector,
            },
        );
        true
    }

    /// Start or stop the procedure of a Channel Sounding configuration.
    pub fn enable_channel_sounding_procedure_on_handle<L: HostTransport + ?Sized>(
        &mut self,
        link: &mut L,
        connection_handle: u16,
        config_id: u8,
        enabled: bool,
    ) -> (asked: bool)
        requires
            old(self).wf(),
        ensures
            final(self).wf(),
            old(self)@.enable_channel_sounding_procedure_on_handle_shows(
                final(self)@,
                connection_handle,
                config_id,
                enabled,
                asked,
                old(link).log(),
                final(link).log(),
            ),
    {
        if !self.has_channel_sounding_config(connection_handle, config_id) {
            return false;
        }
        self.send_hci_command(
            link,
            Command::LeCsProcedureEnable { connection_handle, config_id, enable: bit(enabled) },
        );
        true
    }
}

} // verus!
