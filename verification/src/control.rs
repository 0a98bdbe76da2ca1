//! Requests for changes of LE connections.

use crate::address::Address;
use crate::commands::{with_command, with_command_if};
use crate::connection::{
    LeConnectionRateParameters, LeConnectionUpdateParameters, LeSubrateRequestParameters,
};
use crate::device::{Device, DeviceView};
use crate::hci::{
    Command, HCI_LE_CONNECTION_RATE_REQUEST_COMMAND, HCI_LE_CONNECTION_UPDATE_COMMAND,
    HCI_LE_READ_PHY_COMMAND, HCI_LE_SET_DATA_LENGTH_COMMAND, HCI_LE_SET_PHY_COMMAND,
    HCI_LE_SUBRATE_REQUEST_COMMAND, HCI_READ_RSSI_COMMAND,
};
use crate::state::LeView;
use crate::transport::{HostAction, HostTransport};
use vstd::prelude::*;

verus! {

broadcast use vstd::laws_cmp::group_laws_cmp;

/// The fewest bytes that a data channel packet can be asked to carry.
pub const MIN_TX_OCTETS: u16 = 0x001B;

/// The most bytes that a data channel packet can be asked to carry.
pub const MAX_TX_OCTETS: u16 = 0x00FB;

/// The shortest time, in microseconds, that a packet can be asked to take.
pub const MIN_TX_TIME: u16 = 0x0148;

/// The longest time, in microseconds, that a packet can be asked to take.
pub const MAX_TX_TIME: u16 = 0x4290;

/// The directions without a preference: bit 0 for transmission, bit 1 for
/// reception.
pub open spec fn spec_all_phys(tx_phys: Option<u8>, rx_phys: Option<u8>) -> u8 {
    match (tx_phys, rx_phys) {
        (None, None) => 3,
        (None, Some(_)) => 1,
        (Some(_), None) => 2,
        (Some(_), Some(_)) => 0,
    }
}

/// The directions without a preference.
pub fn all_phys(tx_phys: Option<u8>, rx_phys: Option<u8>) -> (bits: u8)
    ensures
        bits == spec_all_phys(tx_phys, rx_phys),
{
    match (tx_phys, rx_phys) {
        (None, None) => 3,
        (None, Some(_)) => 1,
        (Some(_), None) => 2,
        (Some(_), Some(_)) => 0,
    }
}

/// The PHYs preferred in a direction, and none without a preference.
pub open spec fn spec_preferred_phys(phys: Option<u8>) -> u8 {
    match phys {
        Some(phys) => phys,
        None => 0,
    }
}

/// The PHYs preferred in a direction, and none without a preference.
pub fn preferred_phys(phys: Option<u8>) -> (bits: u8)
    ensures
        bits == spec_preferred_phys(phys),
{
    match phys {
        Some(phys) => phys,
        None => 0,
    }
}

impl DeviceView {
    /// A device that waits for the answer to a request, where it was made.
    pub open spec fn control_asked(
        self,
        asked: bool,
        connection_handle: u16,
        command_opcode: u16,
    ) -> DeviceView {
        if asked {
            DeviceView {
                le: LeView {
                    pending_connection_controls: self.le.pending_connection_controls.push(
                        (connection_handle, command_opcode),
                    ),
                    ..self.le
                },
                ..self
            }
        } else {
            self
        }
    }
}

impl DeviceView {
    /// How a call of [`Device::read_remote_le_features_on_handle`] shows.
    pub open spec fn read_remote_le_features_on_handle_shows(
        self,
        after: DeviceView,
        connection_handle: u16,
        asked: bool,
        log_before: Seq<HostAction>,
        log_after: Seq<HostAction>,
    ) -> bool {
        &&& asked == self.le.le_connections.contains_key(connection_handle)
        &&& after == self
        &&& log_after == with_command_if(
            log_before,
            self.controller_id,
            asked,
            Command::LeReadRemoteFeatures { connection_handle },
        )
    }

    /// How a call of [`Device::read_remote_classic_features_on_handle`] shows.
    pub open spec fn read_remote_classic_features_on_handle_shows(
        self,
        after: DeviceView,
        connection_handle: u16,
        asked: bool,
        log_before: Seq<HostAction>,
        log_after: Seq<HostAction>,
    ) -> bool {
        &&& asked == self.classic.classic_connections.contains_key(connection_handle)
        &&& after == self
        &&& log_after == with_command_if(
            log_before,
            self.controller_id,
            asked,
            Command::ReadRemoteSupportedFeatures { connection_handle },
        )
    }

    /// How a call of [`Device::update_connection_parameters_on_handle`] shows.
    pub open spec fn update_connection_parameters_on_handle_shows(
        self,
        after: DeviceView,
        connection_handle: u16,
        parameters: LeConnectionUpdateParameters,
        asked: bool,
        log_before: Seq<HostAction>,
        log_after: Seq<HostAction>,
    ) -> bool {
        &&& asked == self.le.le_connections.contains_key(connection_handle)
        &&& after == self.control_asked(asked, connection_handle, HCI_LE_CONNECTION_UPDATE_COMMAND)
        &&& log_after == with_command_if(
            log_before,
            self.controller_id,
            asked,
            Command::LeConnectionUpdate {
                connection_handle,
                connection_interval_min: parameters.connection_interval_min,
                connection_interval_max: parameters.connection_interval_max,
                max_latency: parameters.max_latency,
                supervision_timeout: parameters.supervision_timeout,
                min_ce_length: parameters.min_ce_length,
                max_ce_length: parameters.max_ce_length,
            },
        )
    }

    /// How a call of [`Device::update_connection_rate_on_handle`] shows.
    pub open spec fn update_connection_rate_on_handle_shows(
        self,
        after: DeviceView,
        connection_handle: u16,
        parameters: LeConnectionRateParameters,
        asked: bool,
        log_before: Seq<HostAction>,
        log_after: Seq<HostAction>,
    ) -> bool {
        &&& asked == self.le.le_connections.contains_key(connection_handle)
        &&& after == self.control_asked(asked, connection_handle, HCI_LE_CONNECTION_RATE_REQUEST_COMMAND)
        &&& log_after == with_command_if(
            log_before,
            self.controller_id,
            asked,
            Command::LeConnectionRateRequest {
                connection_handle,
                connection_interval_min: parameters.connection_interval_min,
                connection_interval_max: parameters.connection_interval_max,
                subrate_min: parameters.subrate_min,
                subrate_max: parameters.subrate_max,
                max_latency: parameters.max_latency,
                continuation_number: parameters.continuation_number,
                supervision_timeout: parameters.supervision_timeout,
                min_ce_length: parameters.min_ce_length,
                max_ce_length: parameters.max_ce_length,
            },
        )
    }

    /// How a call of [`Device::set_default_connection_rate`] shows.
    pub open spec fn set_default_connection_rate_shows(
        self,
        after: DeviceView,
        parameters: LeConnectionRateParameters,
        log_before: Seq<HostAction>,
        log_after: Seq<HostAction>,
    ) -> bool {
        &&& after == self
        &&& log_after == with_command(
            log_before,
            self.controller_id,
            Command::LeSetDefaultRateParameters {
                connection_interval_min: parameters.connection_interval_min,
                connection_interval_max: parameters.connection_interval_max,
                subrate_min: parameters.subrate_min,
                subrate_max: parameters.subrate_max,
                max_latency: parameters.max_latency,
                continuation_number: parameters.continuation_number,
                supervision_timeout: parameters.supervision_timeout,
                min_ce_length: parameters.min_ce_length,
                max_ce_length: parameters.max_ce_length,
            },
        )
    }

    /// How a call of [`Device::set_default_subrate`] shows.
    pub open spec fn set_default_subrate_shows(
        self,
        after: DeviceView,
        parameters: LeSubrateRequestParameters,
        log_before: Seq<HostAction>,
        log_after: Seq<HostAction>,
    ) -> bool {
        &&& after == self
        &&& log_after == with_command(
            log_before,
            self.controller_id,
            Command::LeSetDefaultSubrate {
                subrate_min: parameters.subrate_min,
                subrate_max: parameters.subrate_max,
                max_latency: parameters.max_latency,
                continuation_number: parameters.continuation_number,
                supervision_timeout: parameters.supervision_timeout,
            },
        )
    }

    /// How a call of [`Device::set_data_length_on_handle`] shows.
    pub open spec fn set_data_length_on_handle_shows(
        self,
        after: DeviceView,
        connection_handle: u16,
        tx_octets: u16,
        tx_time: u16,
        asked: bool,
        log_before: Seq<HostAction>,
        log_after: Seq<HostAction>,
    ) -> bool {
        &&& asked == (self.le.le_connections.contains_key(connection_handle)
            && MIN_TX_OCTETS <= tx_octets <= MAX_TX_OCTETS && MIN_TX_TIME <= tx_time <= MAX_TX_TIME)
        &&& after == self.control_asked(asked, connection_handle, HCI_LE_SET_DATA_LENGTH_COMMAND)
        &&& log_after == with_command_if(
            log_before,
            self.controller_id,
            asked,
            Command::LeSetDataLength { connection_handle, tx_octets, tx_time },
        )
    }

    /// How a call of [`Device::read_phy_on_handle`] shows.
    pub open spec fn read_phy_on_handle_shows(
        self,
        after: DeviceView,
        connection_handle: u16,
        asked: bool,
        log_before: Seq<HostAction>,
        log_after: Seq<HostAction>,
    ) -> bool {
        &&& asked == self.le.le_connections.contains_key(connection_handle)
        &&& after == self.control_asked(asked, connection_handle, HCI_LE_READ_PHY_COMMAND)
        &&& log_after == with_command_if(
            log_before,
            self.controller_id,
            asked,
            Command::LeReadPhy { connection_handle },
        )
    }

    /// How a call of [`Device::set_phy_on_handle`] shows.
    pub open spec fn set_phy_on_handle_shows(
        self,
        after: DeviceView,
        connection_handle: u16,
        tx_phys: Option<u8>,
        rx_phys: Option<u8>,
        phy_options: u16,
        asked: bool,
        log_before: Seq<HostAction>,
        log_after: Seq<HostAction>,
    ) -> bool {
        &&& asked == self.le.le_connections.contains_key(connection_handle)
        &&& after == self.control_asked(asked, connection_handle, HCI_LE_SET_PHY_COMMAND)
        &&& log_after == with_command_if(
            log_before,
            self.controller_id,
            asked,
            Command::LeSetPhy {
                connection_handle,
                all_phys: spec_all_phys(tx_phys, rx_phys),
                tx_phys: spec_preferred_phys(tx_phys),
                rx_phys: spec_preferred_phys(rx_phys),
                phy_options,
            },
        )
    }

    /// How a call of [`Device::set_default_phy`] shows.
    pub open spec fn set_default_phy_shows(
        self,
        after: DeviceView,
        tx_phys: Option<u8>,
        rx_phys: Option<u8>,
        log_before: Seq<HostAction>,
        log_after: Seq<HostAction>,
    ) -> bool {
        &&& after == self
        &&& log_after == with_command(
            log_before,
            self.controller_id,
            Command::LeSetDefaultPhy {
                all_phys: spec_all_phys(tx_phys, rx_phys),
                tx_phys: spec_preferred_phys(tx_phys),
                rx_phys: spec_preferred_phys(rx_phys),
            },
        )
    }

    /// How a call of [`Device::read_rssi_on_handle`] shows.
    pub open spec fn read_rssi_on_handle_shows(
        self,
        after: DeviceView,
        connection_handle: u16,
        asked: bool,
        log_before: Seq<HostAction>,
        log_after: Seq<HostAction>,
    ) -> bool {
        &&& asked == self.le.le_connections.contains_key(connection_handle)
        &&& after == self.control_asked(asked, connection_handle, HCI_READ_RSSI_COMMAND)
        &&& log_after == with_command_if(
            log_before,
            self.controller_id,
            asked,
            Command::ReadRssi { handle: connection_handle },
        )
    }

    /// How a call of [`Device::request_le_subrate_on_handle`] shows.
    pub open spec fn request_le_subrate_on_handle_shows(
        self,
        after: DeviceView,
        connection_handle: u16,
        parameters: LeSubrateRequestParameters,
        asked: bool,
        log_before: Seq<HostAction>,
        log_after: Seq<HostAction>,
    ) -> bool {
        &&& asked == self.le.le_connections.contains_key(connection_handle)
        &&& after == self.control_asked(asked, connection_handle, HCI_LE_SUBRATE_REQUEST_COMMAND)
        &&& log_after == with_command_if(
            log_before,
            self.controller_id,
            asked,
            Command::LeSubrateRequest {
                connection_handle,
                subrate_min: parameters.subrate_min,
                subrate_max: parameters.subrate_max,
                max_latency: parameters.max_latency,
                continuation_number: parameters.continuation_number,
                supervision_timeout: parameters.supervision_timeout,
            },
        )
    }

    /// How a call of [`Device::enter_sniff_mode_on_handle`] shows.
    pub open spec fn enter_sniff_mode_on_handle_shows(
        self,
        after: DeviceView,
        connection_handle: u16,
        interval: u16,
        attempt: u16,
        timeout: u16,
        asked: bool,
        log_before: Seq<HostAction>,
        log_after: Seq<HostAction>,
    ) -> bool {
        &&& asked == (self.le.le_connections.contains_key(connection_handle)
            || self.classic.classic_connections.contains_key(connection_handle))
        &&& after == self
        &&& log_after == with_command_if(
            log_before,
            self.controller_id,
            asked,
            Command::SniffMode {
                connection_handle,
                sniff_max_interval: interval,
                sniff_min_interval: interval,
                sniff_attempt: attempt,
                sniff_timeout: timeout,
            },
        )
    }

    /// How a call of [`Device::exit_sniff_mode_on_handle`] shows.
    pub open spec fn exit_sniff_mode_on_handle_shows(
        self,
        after: DeviceView,
        connection_handle: u16,
        asked: bool,
        log_before: Seq<HostAction>,
        log_after: Seq<HostAction>,
    ) -> bool {
        &&& asked == (self.le.le_connections.contains_key(connection_handle)
            || self.classic.classic_connections.contains_key(connection_handle))
        &&& after == self
        &&& log_after == with_command_if(
            log_before,
            self.controller_id,
            asked,
            Command::ExitSniffMode { connection_handle },
        )
    }

    /// How a call of [`Device::set_random_address`] shows.
    pub open spec fn set_random_address_shows(
        self,
        after: DeviceView,
        address: Address,
        log_before: Seq<HostAction>,
        log_after: Seq<HostAction>,
    ) -> bool {
        &&& after == self.with_random_address(address)
        &&& log_after == with_command(
            log_before,
            self.controller_id,
            Command::LeSetRandomAddress { random_address: address },
        )
    }
}

impl Device {
    /// Make a request for a connection and remember it.
    fn ask_control<L: HostTransport + ?Sized>(
        &mut self,
        link: &mut L,
        connection_handle: u16,
        command_opcode: u16,
        command: Command,
    )
        requires
            old(self).wf(),
            old(self)@.after_command(command) == old(self)@,
        ensures
            final(self).wf(),
            final(self)@ == old(self)@.control_asked(true, connection_handle, command_opcode),
            final(link).log() == with_command(old(link).log(), old(self).controller_id, command),
    {
        self.le.begin_control(command_opcode, connection_handle);
        assert(self@ =~= old(self)@.control_asked(true, connection_handle, command_opcode));
        link.handle_command(self.controller_id, command);
    }

    /// Ask for the features of the peer of an LE connection.
    pub fn read_remote_le_features_on_handle<L: HostTransport + ?Sized>(
        &mut self,
        link: &mut L,
        connection_handle: u16,
    ) -> (asked: bool)
        requires
            old(self).wf(),
        ensures
            final(self).wf(),
            old(self)@.read_remote_le_features_on_handle_shows(
                final(self)@,
                connection_handle,
                asked,
                old(link).log(),
                final(link).log(),
            ),
    {
        if !self.le.le_connections.contains_key(&connection_handle) {
            return false;
        }
        self.send_hci_command(
            link,
            Command::LeReadRemoteFeatures { connection_handle },
        );
        true
    }

    /// Ask for the features of the peer of a Classic connection.
    pub fn read_remote_classic_features_on_handle<L: HostTransport + ?Sized>(
        &mut self,
        link: &mut L,
        connection_handle: u16,
    ) -> (asked: bool)
        requires
            old(self).wf(),
        ensures
            final(self).wf(),
            old(self)@.read_remote_classic_features_on_handle_shows(
                final(self)@,
                connection_handle,
                asked,
                old(link).log(),
                final(link).log(),
            ),
    {
        if !self.classic.classic_connections.contains_key(&connection_handle) {
            return false;
        }
        self.send_hci_command(
            link,
            Command::ReadRemoteSupportedFeatures { connection_handle },
        );
        true
    }

    /// Request legacy LE connection parameters on one established ACL.
    pub fn update_connection_parameters_on_handle<L: HostTransport + ?Sized>(
        &mut self,
        link: &mut L,
        connection_handle: u16,
        parameters: LeConnectionUpdateParameters,
    ) -> (asked: bool)
        requires
            old(self).wf(),
        ensures
            final(self).wf(),
            old(self)@.update_connection_parameters_on_handle_shows(
                final(self)@,
                connection_handle,
                parameters,
                asked,
                old(link).log(),
                final(link).log(),
            ),
    {
        if !self.le.le_connections.contains_key(&connection_handle) {
            return false;
        }
        self.ask_control(
            link,
            connection_handle,
            HCI_LE_CONNECTION_UPDATE_COMMAND,
            Command::LeConnectionUpdate {
                connection_handle,
                connection_interval_min: parameters.connection_interval_min,
                connection_interval_max: parameters.connection_interval_max,
                max_latency: parameters.max_latency,
                supervision_timeout: parameters.supervision_timeout,
                min_ce_length: parameters.min_ce_length,
                max_ce_length: parameters.max_ce_length,
            },
        );
        true
    }

    /// Request Bluetooth 6.2 connection-rate and subrate parameters on one ACL.
    pub fn update_connection_rate_on_handle<L: HostTransport + ?Sized>(
        &mut self,
        link: &mut L,
        connection_handle: u16,
        parameters: LeConnectionRateParameters,
    ) -> (asked: bool)
        requires
            old(self).wf(),
        ensures
            final(self).wf(),
            old(self)@.update_connection_rate_on_handle_shows(
                final(self)@,
                connection_handle,
                parameters,
                asked,
                old(link).log(),
                final(link).log(),
            ),
    {
        if !self.le.le_connections.contains_key(&connection_handle) {
            return false;
        }
        self.ask_control(
            link,
            connection_handle,
            HCI_LE_CONNECTION_RATE_REQUEST_COMMAND,
            Command::LeConnectionRateRequest {
                connection_handle,
                connection_interval_min: parameters.connection_interval_min,
                connection_interval_max: parameters.connection_interval_max,
                subrate_min: parameters.subrate_min,
                subrate_max: parameters.subrate_max,
                max_latency: parameters.max_latency,
                continuation_number: parameters.continuation_number,
                supervision_timeout: parameters.supervision_timeout,
                min_ce_length: parameters.min_ce_length,
                max_ce_length: parameters.max_ce_length,
            },
        );
        true
    }

    /// Set controller-wide Bluetooth 6.2 connection-rate defaults.
    pub fn set_default_connection_rate<L: HostTransport + ?Sized>(
        &mut self,
        link: &mut L,
        parameters: LeConnectionRateParameters,
    )
        requires
            old(self).wf(),
        ensures
            final(self).wf(),
            old(self)@.set_default_connection_rate_shows(
                final(self)@,
                parameters,
                old(link).log(),
                final(link).log(),
            ),
    {
        self.send_hci_command(
            link,
            Command::LeSetDefaultRateParameters {
                connection_interval_min: parameters.connection_interval_min,
                connection_interval_max: parameters.connection_interval_max,
                subrate_min: parameters.subrate_min,
                subrate_max: parameters.subrate_max,
                max_latency: parameters.max_latency,
                continuation_number: parameters.continuation_number,
                supervision_timeout: parameters.supervision_timeout,
                min_ce_length: parameters.min_ce_length,
                max_ce_length: parameters.max_ce_length,
            },
        );
    }

    /// Set controller-wide subrate defaults for new connections.
    pub fn set_default_subrate<L: HostTransport + ?Sized>(
        &mut self,
        link: &mut L,
        parameters: LeSubrateRequestParameters,
    )
        requires
            old(self).wf(),
        ensures
            final(self).wf(),
            old(self)@.set_default_subrate_shows(
                final(self)@,
                parameters,
                old(link).log(),
                final(link).log(),
            ),
    {
        self.send_hci_command(
            link,
            Command::LeSetDefaultSubrate {
                subrate_min: parameters.subrate_min,
                subrate_max: parameters.subrate_max,
                max_latency: parameters.max_latency,
                continuation_number: parameters.continuation_number,
                supervision_timeout: parameters.supervision_timeout,
            },
        );
    }

    /// Set the preferred LE data length for one established ACL. Returns `false`,
    /// with nothing done, for a length or time out of bounds.
    pub fn set_data_length_on_handle<L: HostTransport + ?Sized>(
        &mut self,
        link: &mut L,
        connection_handle: u16,
        tx_octets: u16,
        tx_time: u16,
    ) -> (asked: bool)
        requires
            old(self).wf(),
        ensures
            final(self).wf(),
            old(self)@.set_data_length_on_handle_shows(
                final(self)@,
                connection_handle,
                tx_octets,
                tx_time,
                asked,
                old(link).log(),
                final(link).log(),
            ),
    {
        if !self.le.le_connections.contains_key(&connection_handle) || tx_octets < MIN_TX_OCTETS
            || tx_octets > MAX_TX_OCTETS || tx_time < MIN_TX_TIME || tx_time > MAX_TX_TIME {
            return false;
        }
        self.ask_control(
            link,
            connection_handle,
            HCI_LE_SET_DATA_LENGTH_COMMAND,
            Command::LeSetDataLength { connection_handle, tx_octets, tx_time },
        );
        true
    }

    /// Query the current LE PHY for one established ACL.
    pub fn read_phy_on_handle<L: HostTransport + ?Sized>(
        &mut self,
        link: &mut L,
        connection_handle: u16,
    ) -> (asked: bool)
        requires
            old(self).wf(),
        ensures
            final(self).wf(),
            old(self)@.read_phy_on_handle_shows(
                final(self)@,
                connection_handle,
                asked,
                old(link).log(),
                final(link).log(),
            ),
    {
        if !self.le.le_connections.contains_key(&connection_handle) {
            return false;
        }
        self.ask_control(
            link,
            connection_handle,
            HCI_LE_READ_PHY_COMMAND,
            Command::LeReadPhy { connection_handle },
        );
        true
    }

    /// Request transmit and receive LE PHY preferences for one ACL.
    /// `None` means no preference in that direction.
    pub fn set_phy_on_handle<L: HostTransport + ?Sized>(
        &mut self,
        link: &mut L,
        connection_handle: u16,
        tx_phys: Option<u8>,
        rx_phys: Option<u8>,
        phy_options: u16,
    ) -> (asked: bool)
        requires
            old(self).wf(),
        ensures
            final(self).wf(),
            old(self)@.set_phy_on_handle_shows(
                final(self)@,
                connection_handle,
                tx_phys,
                rx_phys,
                phy_options,
                asked,
                old(link).log(),
                final(link).log(),
            ),
    {
        if !self.le.le_connections.contains_key(&connection_handle) {
            return false;
        }
        self.ask_control(
            link,
            connection_handle,
            HCI_LE_SET_PHY_COMMAND,
            Command::LeSetPhy {
                connection_handle,
                all_phys: all_phys(tx_phys, rx_phys),
                tx_phys: preferred_phys(tx_phys),
                rx_phys: preferred_phys(rx_phys),
                phy_options,
            },
        );
        true
    }

    /// Set the controller-wide LE PHY preferences used for new ACLs.
    pub fn set_default_phy<L: HostTransport + ?Sized>(
        &mut self,
        link: &mut L,
        tx_phys: Option<u8>,
        rx_phys: Option<u8>,
    )
        requires
            old(self).wf(),
        ensures
            final(self).wf(),
            old(self)@.set_default_phy_shows(
                final(self)@,
                tx_phys,
                rx_phys,
                old(link).log(),
                final(link).log(),
            ),
    {
        self.send_hci_command(
            link,
            Command::LeSetDefaultPhy {
                all_phys: all_phys(tx_phys, rx_phys),
                tx_phys: preferred_phys(tx_phys),
                rx_phys: preferred_phys(rx_phys),
            },
        );
    }

    /// Query the controller's RSSI for one established LE ACL.
    pub fn read_rssi_on_handle<L: HostTransport + ?Sized>(
        &mut self,
        link: &mut L,
        connection_handle: u16,
    ) -> (asked: bool)
        requires
            old(self).wf(),
        ensures
            final(self).wf(),
            old(self)@.read_rssi_on_handle_shows(
                final(self)@,
                connection_handle,
                asked,
                old(link).log(),
                final(link).log(),
            ),
    {
        if !self.le.le_connections.contains_key(&connection_handle) {
            return false;
        }
        self.ask_control(
            link,
            connection_handle,
            HCI_READ_RSSI_COMMAND,
            Command::ReadRssi { handle: connection_handle },
        );
        true
    }

    /// Request a subrate for one established LE ACL.
    pub fn request_le_subrate_on_handle<L: HostTransport + ?Sized>(
        &mut self,
        link: &mut L,
        connection_handle: u16,
        parameters: LeSubrateRequestParameters,
    ) -> (asked: bool)
        requires
            old(self).wf(),
        ensures
            final(self).wf(),
            old(self)@.request_le_subrate_on_handle_shows(
                final(self)@,
                connection_handle,
                parameters,
                asked,
                old(link).log(),
                final(link).log(),
            ),
    {
        if !self.le.le_connections.contains_key(&connection_handle) {
            return false;
        }
        self.ask_control(
            link,
            connection_handle,
            HCI_LE_SUBRATE_REQUEST_COMMAND,
            Command::LeSubrateRequest {
                connection_handle,
                subrate_min: parameters.subrate_min,
                subrate_max: parameters.subrate_max,
                max_latency: parameters.max_latency,
                continuation_number: parameters.continuation_number,
                supervision_timeout: parameters.supervision_timeout,
            },
        );
        true
    }

    /// Ask for sniff mode on a connection, at one interval.
    pub fn enter_sniff_mode_on_handle<L: HostTransport + ?Sized>(
        &mut self,
        link: &mut L,
        connection_handle: u16,
        interval: u16,
        attempt: u16,
        timeout: u16,
    ) -> (asked: bool)
        requires
            old(self).wf(),
        ensures
            final(self).wf(),
            old(self)@.enter_sniff_mode_on_handle_shows(
                final(self)@,
                connection_handle,
                interval,
                attempt,
                timeout,
                asked,
                old(link).log(),
                final(link).log(),
            ),
    {
        if !self.le.le_connections.contains_key(&connection_handle)
            && !self.classic.classic_connections.contains_key(&connection_handle) {
            return false;
        }
        self.send_hci_command(
            link,
            Command::SniffMode {
                connection_handle,
                sniff_max_interval: interval,
                sniff_min_interval: interval,
                sniff_attempt: attempt,
                sniff_timeout: timeout,
            },
        );
        true
    }

    /// Ask for active mode on a connection.
    pub fn exit_sniff_mode_on_handle<L: HostTransport + ?Sized>(
        &mut self,
        link: &mut L,
        connection_handle: u16,
    ) -> (asked: bool)
        requires
            old(self).wf(),
        ensures
            final(self).wf(),
            old(self)@.exit_sniff_mode_on_handle_shows(
                final(self)@,
                connection_handle,
                asked,
                old(link).log(),
                final(link).log(),
            ),
    {
        if !self.le.le_connections.contains_key(&connection_handle)
            && !self.classic.classic_connections.contains_key(&connection_handle) {
            return false;
        }
        self.send_hci_command(
            link,
            Command::ExitSniffMode { connection_handle },
        );
        true
    }

    /// Set the controller's random address. From now on it is the one that
    /// [`Device::random_address`] tells.
    pub fn set_random_address<L: HostTransport + ?Sized>(
        &mut self,
        link: &mut L,
        address: Address,
    )
        requires
            old(self).wf(),
        ensures
            final(self).wf(),
            old(self)@.set_random_address_shows(
                final(self)@,
                address,
                old(link).log(),
                final(link).log(),
            ),
    {
        self.send_hci_command(
            link,
            Command::LeSetRandomAddress { random_address: address },
        );
    }
}

} // verus!
