//! Powering a device on and off, resetting it, and rotating its address.

use crate::address::{Address, AddressType};
use crate::configuration::DeviceConfiguration;
use crate::device::{Device, DeviceView, Identity};
use crate::hci::Command;
use crate::pools::{PacketPools, PoolsView};
use crate::setup::{HostSetup, SetupStatus, SetupView};
use crate::state::{ClassicView, GapView, IsoView, LeView, LookupView, SecurityView};
use crate::transport::{
    command_if, commands, lemma_commands_none, push_when, send_all, HostAction, HostTransport,
};
use std::collections::BTreeSet;
use vstd::prelude::*;
use vstd::utf8::encode_utf8;

verus! {

broadcast use vstd::laws_cmp::group_laws_cmp;

/// LE feature bits that the host sets on its own behalf.
pub const LE_FEATURE_CONNECTED_ISOCHRONOUS_STREAM: u8 = 32;

pub const LE_FEATURE_CONNECTION_SUBRATING_HOST_SUPPORT: u8 = 38;

pub const LE_FEATURE_CHANNEL_SOUNDING_HOST_SUPPORT: u8 = 47;

pub const LE_FEATURE_SHORTER_CONNECTION_INTERVALS_HOST_SUPPORT: u8 = 73;

/// The longest local name, in bytes.
pub const MAX_LOCAL_NAME: usize = 248;

/// The longest name in an Extended Inquiry Response, in bytes.
pub const MAX_INQUIRY_NAME: usize = 238;

/// The largest class of device.
pub const MAX_CLASS_OF_DEVICE: u32 = 0x00FF_FFFF;

/// Validation failures raised before a configured [`Device`] is powered on.
#[derive(Clone, Copy, Debug, PartialEq, Eq, Structural)]
pub enum DevicePowerError {
    InvalidIrkLength { actual: usize },
    LocalNameTooLong { actual: usize, maximum: usize },
    ClassOfDeviceOutOfRange { value: u32 },
    NotPoweredOn,
    PrivacyDisabled,
}

/// The number that stands for a flag.
pub open spec fn spec_bit(flag: bool) -> u8 {
    if flag {
        1
    } else {
        0
    }
}

/// The number that stands for a flag.
pub fn bit(flag: bool) -> (number: u8)
    ensures
        number == spec_bit(flag),
{
    if flag {
        1
    } else {
        0
    }
}

/// The inquiry and page scan bits.
pub open spec fn spec_scan_bits(inquiry_scan: bool, page_scan: bool) -> u8 {
    (spec_bit(inquiry_scan) + 2 * spec_bit(page_scan)) as u8
}

/// The inquiry and page scan bits.
pub fn scan_bits(inquiry_scan: bool, page_scan: bool) -> (bits: u8)
    ensures
        bits == spec_scan_bits(inquiry_scan, page_scan),
{
    bit(inquiry_scan) + 2 * bit(page_scan)
}

/// Whether a field holds a name, padded with zeros.
pub open spec fn is_local_name(field: [u8; 248], name: Seq<u8>) -> bool {
    forall|index: int|
        0 <= index < 248 ==> #[trigger] field@[index] == if index < name.len() {
            name[index]
        } else {
            0
        }
}

/// Whether a field is the Extended Inquiry Response with a complete local name
/// and nothing else.
pub open spec fn is_name_response(field: [u8; 240], name: Seq<u8>) -> bool {
    &&& field@[0] == name.len() + 1
    &&& field@[1] == 0x09
    &&& forall|index: int|
        2 <= index < 240 ==> #[trigger] field@[index] == if index < 2 + name.len() {
            name[index - 2]
        } else {
            0
        }
}

/// The local name as the controller takes it, padded with zeros.
pub fn padded_local_name(name: &str) -> (field: Result<[u8; 248], DevicePowerError>)
    ensures
        match field {
            Ok(field) => encode_utf8(name@).len() <= MAX_LOCAL_NAME && is_local_name(
                field,
                encode_utf8(name@),
            ),
            Err(error) => encode_utf8(name@).len() > MAX_LOCAL_NAME && error
                == (DevicePowerError::LocalNameTooLong {
                actual: encode_utf8(name@).len() as usize,
                maximum: MAX_LOCAL_NAME,
            }),
        },
{
    let bytes: &[u8] = name.as_bytes();
    if bytes.len() > MAX_LOCAL_NAME {
        return Err(
            DevicePowerError::LocalNameTooLong { actual: bytes.len(), maximum: MAX_LOCAL_NAME },
        );
    }
    let mut field: [u8; 248] = [0; 248];
    let mut next: usize = 0;
    while next < bytes.len()
        invariant
            next <= bytes@.len() <= 248,
            forall|index: int|
                0 <= index < 248 ==> #[trigger] field@[index] == if index < next {
                    bytes@[index]
                } else {
                    0
                },
        decreases bytes@.len() - next,
    {
        field[next] = bytes[next];
        next += 1;
    }
    Ok(field)
}

/// The Extended Inquiry Response of a device that was given none: its name.
pub fn default_inquiry_response(name: &str) -> (field: Result<[u8; 240], DevicePowerError>)
    ensures
        match field {
            Ok(field) => encode_utf8(name@).len() <= MAX_INQUIRY_NAME && is_name_response(
                field,
                encode_utf8(name@),
            ),
            Err(error) => encode_utf8(name@).len() > MAX_INQUIRY_NAME && error
                == (DevicePowerError::LocalNameTooLong {
                actual: encode_utf8(name@).len() as usize,
                maximum: MAX_INQUIRY_NAME,
            }),
        },
{
    let bytes: &[u8] = name.as_bytes();
    if bytes.len() > MAX_INQUIRY_NAME {
        return Err(
            DevicePowerError::LocalNameTooLong { actual: bytes.len(), maximum: MAX_INQUIRY_NAME },
        );
    }
    let mut field: [u8; 240] = [0; 240];
    field[0] = (bytes.len() + 1) as u8;
    field[1] = 0x09;
    let mut next: usize = 0;
    while next < bytes.len()
        invariant
            next <= bytes@.len() <= 238,
            field@[0] == bytes@.len() + 1,
            field@[1] == 0x09,
            forall|index: int|
                2 <= index < 240 ==> #[trigger] field@[index] == if index < 2 + next {
                    bytes@[index - 2]
                } else {
                    0
                },
        decreases bytes@.len() - next,
    {
        field[2 + next] = bytes[next];
        next += 1;
    }
    Ok(field)
}

/// Whether an address stands for any random address.
pub open spec fn is_any_random(address: Address) -> bool {
    &&& address.address_type == AddressType::RANDOM_DEVICE
    &&& forall|index: int| 0 <= index < 6 ==> #[trigger] address.address_bytes@[index] == 0
}

/// Whether an address stands for any random address.
pub fn stands_for_any_random(address: &Address) -> (any: bool)
    ensures
        any == is_any_random(*address),
{
    address.address_type == AddressType::RANDOM_DEVICE && address.address_bytes[0] == 0
        && address.address_bytes[1] == 0 && address.address_bytes[2] == 0
        && address.address_bytes[3] == 0 && address.address_bytes[4] == 0
        && address.address_bytes[5] == 0
}

impl DeviceConfiguration {
    /// The bytes of the configured name.
    pub open spec fn name_bytes(self) -> Seq<u8> {
        encode_utf8(self.name@)
    }

    /// What keeps a device with this configuration from being powered on.
    pub open spec fn power_error(self, inquiry_response_given: bool) -> Option<DevicePowerError> {
        let length = self.name_bytes().len();
        if self.classic_enabled && self.class_of_device > MAX_CLASS_OF_DEVICE {
            Some(DevicePowerError::ClassOfDeviceOutOfRange { value: self.class_of_device })
        } else if self.classic_enabled && !inquiry_response_given && length > MAX_INQUIRY_NAME {
            Some(
                DevicePowerError::LocalNameTooLong {
                    actual: length as usize,
                    maximum: MAX_INQUIRY_NAME,
                },
            )
        } else if self.classic_enabled && length > MAX_LOCAL_NAME {
            Some(
                DevicePowerError::LocalNameTooLong {
                    actual: length as usize,
                    maximum: MAX_LOCAL_NAME,
                },
            )
        } else if self.le_privacy_enabled && self.irk@.len() != 16 {
            Some(DevicePowerError::InvalidIrkLength { actual: self.irk@.len() as usize })
        } else {
            None
        }
    }

    /// The commands that configure LE.
    pub open spec fn le_power_commands(self, random_address: Address) -> Seq<Command> {
        command_if(self.le_enabled, Command::LeSetRandomAddress { random_address }) + command_if(
            self.le_enabled && self.address_resolution_offload,
            Command::LeSetAddressResolutionEnable { address_resolution_enable: 1 },
        ) + command_if(
            self.le_enabled && self.cis_enabled,
            Command::LeSetHostFeature {
                bit_number: LE_FEATURE_CONNECTED_ISOCHRONOUS_STREAM,
                bit_value: 1,
            },
        ) + command_if(
            self.le_enabled && self.le_subrate_enabled,
            Command::LeSetHostFeature {
                bit_number: LE_FEATURE_CONNECTION_SUBRATING_HOST_SUPPORT,
                bit_value: 1,
            },
        ) + command_if(
            self.le_enabled && self.channel_sounding_enabled,
            Command::LeSetHostFeature {
                bit_number: LE_FEATURE_CHANNEL_SOUNDING_HOST_SUPPORT,
                bit_value: 1,
            },
        ) + command_if(
            self.le_enabled && self.channel_sounding_enabled,
            Command::LeCsReadLocalSupportedCapabilities,
        ) + command_if(
            self.le_enabled && self.le_shorter_connection_intervals_enabled,
            Command::LeSetHostFeature {
                bit_number: LE_FEATURE_SHORTER_CONNECTION_INTERVALS_HOST_SUPPORT,
                bit_value: 1,
            },
        )
    }

    /// The commands that configure Classic.
    pub open spec fn classic_power_commands(
        self,
        local_name: [u8; 248],
        extended_inquiry_response: [u8; 240],
    ) -> Seq<Command> {
        let scan_enable = spec_scan_bits(self.discoverable, self.connectable);
        if self.classic_enabled {
            seq![
                Command::WriteLocalName { local_name },
                Command::WriteClassOfDevice { class_of_device: self.class_of_device },
                Command::WriteSimplePairingMode {
                    simple_pairing_mode: spec_bit(self.classic_ssp_enabled),
                },
                Command::WriteSecureConnectionsHostSupport {
                    secure_connections_host_support: spec_bit(self.classic_sc_enabled),
                },
                Command::WriteScanEnable { scan_enable },
                Command::WriteExtendedInquiryResponse {
                    fec_required: 0,
                    extended_inquiry_response,
                },
                Command::WriteScanEnable { scan_enable },
            ]
        } else {
            Seq::empty()
        }
    }

    /// The commands that power a device on.
    pub open spec fn power_commands(
        self,
        random_address: Address,
        local_name: [u8; 248],
        extended_inquiry_response: [u8; 240],
    ) -> Seq<Command> {
        seq![
            Command::Reset,
            Command::ReadBdAddr,
            Command::WriteLeHostSupport {
                le_supported_host: spec_bit(self.le_enabled),
                simultaneous_le_host: spec_bit(self.le_simultaneous_enabled),
            },
        ] + self.le_power_commands(random_address) + self.classic_power_commands(
            local_name,
            extended_inquiry_response,
        ) + seq![Command::ReadLocalSupportedCommands]
    }

    /// List the commands that configure LE.
    fn list_le_power_commands(&self, list: &mut Vec<Command>, random_address: Address)
        ensures
            final(list)@ == old(list)@ + self.le_power_commands(random_address),
    {
        let le: bool = self.le_enabled;
        push_when(list, le, Command::LeSetRandomAddress { random_address });
        push_when(
            list,
            le && self.address_resolution_offload,
            Command::LeSetAddressResolutionEnable { address_resolution_enable: 1 },
        );
        push_when(
            list,
            le && self.cis_enabled,
            Command::LeSetHostFeature {
                bit_number: LE_FEATURE_CONNECTED_ISOCHRONOUS_STREAM,
                bit_value: 1,
            },
        );
        push_when(
            list,
            le && self.le_subrate_enabled,
            Command::LeSetHostFeature {
                bit_number: LE_FEATURE_CONNECTION_SUBRATING_HOST_SUPPORT,
                bit_value: 1,
            },
        );
        push_when(
            list,
            le && self.channel_sounding_enabled,
            Command::LeSetHostFeature {
                bit_number: LE_FEATURE_CHANNEL_SOUNDING_HOST_SUPPORT,
                bit_value: 1,
            },
        );
        push_when(
            list,
            le && self.channel_sounding_enabled,
            Command::LeCsReadLocalSupportedCapabilities,
        );
        push_when(
            list,
            le && self.le_shorter_connection_intervals_enabled,
            Command::LeSetHostFeature {
                bit_number: LE_FEATURE_SHORTER_CONNECTION_INTERVALS_HOST_SUPPORT,
                bit_value: 1,
            },
        );
        assert(list@ =~= old(list)@ + self.le_power_commands(random_address));
    }

    /// List the commands that configure Classic.
    fn list_classic_power_commands(
        &self,
        list: &mut Vec<Command>,
        local_name: [u8; 248],
        extended_inquiry_response: [u8; 240],
    )
        ensures
            final(list)@ == old(list)@ + self.classic_power_commands(
                local_name,
                extended_inquiry_response,
            ),
    {
        if self.classic_enabled {
            let scan_enable: u8 = scan_bits(self.discoverable, self.connectable);
            list.push(Command::WriteLocalName { local_name });
            list.push(Command::WriteClassOfDevice { class_of_device: self.class_of_device });
            list.push(
                Command::WriteSimplePairingMode {
                    simple_pairing_mode: bit(self.classic_ssp_enabled),
                },
            );
            list.push(
                Command::WriteSecureConnectionsHostSupport {
                    secure_connections_host_support: bit(self.classic_sc_enabled),
                },
            );
            list.push(Command::WriteScanEnable { scan_enable });
            list.push(
                Command::WriteExtendedInquiryResponse {
                    fec_required: 0,
                    extended_inquiry_response,
                },
            );
            list.push(Command::WriteScanEnable { scan_enable });
        }
        assert(list@ =~= old(list)@ + self.classic_power_commands(
            local_name,
            extended_inquiry_response,
        ));
    }
}

impl DeviceConfiguration {
    /// List the commands that power a device on.
    fn list_power_commands(
        &self,
        random_address: Address,
        local_name: [u8; 248],
        response: [u8; 240],
    ) -> (list: Vec<Command>)
        ensures
            list@ == self.power_commands(random_address, local_name, response),
    {
        let mut list: Vec<Command> = Vec::new();
        list.push(Command::Reset);
        list.push(Command::ReadBdAddr);
        list.push(
            Command::WriteLeHostSupport {
                le_supported_host: bit(self.le_enabled),
                simultaneous_le_host: bit(self.le_simultaneous_enabled),
            },
        );
        self.list_le_power_commands(&mut list, random_address);
        self.list_classic_power_commands(&mut list, local_name, response);
        list.push(Command::ReadLocalSupportedCommands);
        assert(list@ =~= self.power_commands(random_address, local_name, response));
        list
    }
}

impl SetupView {
    /// What is known after a reset: only what does not depend on it.
    pub open spec fn after_reset(self) -> SetupView {
        SetupView {
            status: SetupStatus {
                local_channel_sounding_capabilities:
                    self.status.local_channel_sounding_capabilities,
                local_channel_sounding_capabilities_status:
                    self.status.local_channel_sounding_capabilities_status,
                ..SetupStatus::spec_initial(false)
            },
            ..SetupView::initial(false)
        }
    }
}

impl DeviceView {
    /// Whether anything is connected.
    pub open spec fn connected(self) -> bool {
        ||| self.le.le_connections.dom() != Set::<u16>::empty()
        ||| self.classic.classic_connections.dom() != Set::<u16>::empty()
        ||| self.iso.cis_links.dom() != Set::<u16>::empty()
        ||| self.classic.synchronous_connections.len() > 0
    }

    /// Whether powering on finds something to flush.
    pub open spec fn flushes_on_power(self) -> bool {
        ||| self.identity.powered_on
        ||| self.connected()
        ||| self.classic.pending_remote_name_requests.len() > 0
        ||| self.setup.pending_lmp_pages.len() > 0
    }

    /// Whether powering off finds something to flush.
    pub open spec fn flushes_off_power(self) -> bool {
        ||| self.identity.powered_on
        ||| self.connected()
        ||| self.lookups.pending_peer_lookups.dom() != Set::<u64>::empty()
        ||| self.classic.pending_remote_name_requests.len() > 0
        ||| self.le.le_connecting
        ||| self.le.pending_disconnections != Set::<u16>::empty()
    }

    /// Whether a reset finds something to flush.
    pub open spec fn flushes_on_reset(self) -> bool {
        self.flushes_off_power() || self.setup.pending_lmp_pages.len() > 0
    }

    /// The device flushed where there is something to flush.
    pub open spec fn flushed_if(self, needed: bool) -> DeviceView {
        if needed {
            self.flushed()
        } else {
            self
        }
    }

    /// A device on which nothing goes on.
    pub open spec fn quieted(self) -> DeviceView {
        DeviceView {
            identity: Identity {
                powered_on: false,
                rpa_timeout_elapsed_seconds: 0,
                ..self.identity
            },
            gap: GapView {
                scanning: false,
                legacy_advertising: false,
                extended_advertising_handles: Set::empty(),
                ..self.gap
            },
            le: LeView {
                le_connecting: false,
                pending_disconnections: Set::empty(),
                ..self.le
            },
            classic: ClassicView {
                classic_discovering: false,
                classic_auto_restart_inquiry: true,
                pending_remote_name_commands: Seq::empty(),
                pending_remote_name_requests: Seq::empty(),
                ..self.classic
            },
            lookups: LookupView { peer_lookup_results: Seq::empty(), ..self.lookups.flushed() },
            iso: IsoView {
                pending_bigs: Set::empty(),
                pending_big_commands: Seq::empty(),
                pending_big_syncs: Set::empty(),
                pending_big_sync_commands: Seq::empty(),
                ..self.iso
            },
            ..self
        }
    }

    /// The static address after powering on: the configured one, or a fresh
    /// one where any will do.
    pub open spec fn static_after_power(self, fresh_static_address: Address) -> Address {
        if is_any_random(self.identity.static_address) {
            fresh_static_address
        } else {
            self.identity.static_address
        }
    }

    /// The random address after powering on: a private one with privacy, and
    /// the static one without.
    pub open spec fn random_after_power(
        self,
        fresh_static_address: Address,
        fresh_private_address: Address,
    ) -> Address {
        if self.config.le_privacy_enabled {
            fresh_private_address
        } else {
            self.static_after_power(fresh_static_address)
        }
    }

    /// The device after powering on, up to its Extended Inquiry Response.
    pub open spec fn powered(
        self,
        fresh_static_address: Address,
        fresh_private_address: Address,
    ) -> DeviceView {
        let quiet = self.flushed_if(self.flushes_on_power()).quieted();
        DeviceView {
            identity: Identity {
                powered_on: true,
                public_address: None,
                static_address: self.static_after_power(fresh_static_address),
                random_address: self.random_after_power(
                    fresh_static_address,
                    fresh_private_address,
                ),
                rpa_timeout_elapsed_seconds: 0,
            },
            setup: SetupView::initial(false),
            pools: PoolsView::initial(),
            security: SecurityView { address_resolver_ready: false, ..quiet.security },
            ..quiet
        }
    }

    /// The device with its Extended Inquiry Response kept.
    pub open spec fn responding(self, response: [u8; 240]) -> DeviceView {
        if self.config.classic_enabled {
            DeviceView {
                classic: ClassicView {
                    classic_inquiry_response: Some(response),
                    ..self.classic
                },
                ..self
            }
        } else {
            self
        }
    }

    /// Whether the fields that powering on sends are those that it should.
    pub open spec fn power_fields(self, local_name: [u8; 248], response: [u8; 240]) -> bool {
        self.config.classic_enabled ==> {
            &&& is_local_name(local_name, self.config.name_bytes())
            &&& match self.classic.classic_inquiry_response {
                Some(given) => response == given,
                None => is_name_response(response, self.config.name_bytes()),
            }
        }
    }

    /// How powering on shows.
    pub open spec fn powers_on(
        self,
        after: DeviceView,
        fresh_static_address: Address,
        fresh_private_address: Address,
        log_before: Seq<HostAction>,
        log_after: Seq<HostAction>,
    ) -> bool {
        exists|local_name: [u8; 248], response: [u8; 240]|
            {
                &&& #[trigger] self.power_fields(local_name, response)
                &&& after == self.powered(
                    fresh_static_address,
                    fresh_private_address,
                ).responding(response)
                &&& log_after == log_before + commands(
                    self.controller_id,
                    self.config.power_commands(
                        self.random_after_power(fresh_static_address, fresh_private_address),
                        local_name,
                        response,
                    ),
                )
            }
    }

    /// The device after a reset.
    pub open spec fn reset(self) -> DeviceView {
        let flushed = self.flushed_if(self.flushes_on_reset());
        DeviceView {
            setup: flushed.setup.after_reset(),
            pools: PoolsView::initial(),
            ..flushed
        }
    }
}

/// The commands that reset the controller.
pub open spec fn reset_commands() -> Seq<Command> {
    seq![Command::Reset, Command::ReadLocalSupportedCommands]
}

impl DeviceView {
    /// How a call of [`Device::update_rpa`] shows.
    pub open spec fn update_rpa_shows(
        self,
        after: DeviceView,
        fresh_private_address: Address,
        result: Result<Address, DevicePowerError>,
        log_before: Seq<HostAction>,
        log_after: Seq<HostAction>,
    ) -> bool {
        &&& result == match self.rotation_error() {
            Some(error) => Err(error),
            None => Ok(fresh_private_address),
        }
        &&& after == if result is Ok {
            self.with_random_address(fresh_private_address)
        } else {
            self
        }
        &&& log_after == log_before + commands(
            self.controller_id,
            command_if(
                result is Ok,
                Command::LeSetRandomAddress { random_address: fresh_private_address },
            ),
        )
    }

    /// How a call of [`Device::advance_rpa_timeout`] shows.
    pub open spec fn advance_rpa_timeout_shows(
        self,
        after: DeviceView,
        elapsed_seconds: u64,
        fresh_private_address: Address,
        result: Result<Option<Address>, DevicePowerError>,
        log_before: Seq<HostAction>,
        log_after: Seq<HostAction>,
    ) -> bool {
        &&& result == if !self.rotates(elapsed_seconds) {
            Ok(None)
        } else {
            match self.rotation_error() {
                Some(error) => Err(error),
                None => Ok(Some(fresh_private_address)),
            }
        }
        &&& after == if result == Ok::<Option<Address>, DevicePowerError>(
            Some(fresh_private_address),
        ) {
            self.with_rpa_elapsed(
                self.rpa_elapsed_after(elapsed_seconds),
            ).with_random_address(fresh_private_address)
        } else {
            self.with_rpa_elapsed(self.rpa_elapsed_after(elapsed_seconds))
        }
        &&& log_after == log_before + commands(
            self.controller_id,
            command_if(
                self.rotates(elapsed_seconds) && result is Ok,
                Command::LeSetRandomAddress { random_address: fresh_private_address },
            ),
        )
    }
}

impl Device {
    /// Whether anything is connected.
    fn is_connected_somehow(&self) -> (connected: bool)
        ensures
            connected == self@.connected(),
    {
        let no_le = self.le.le_connections.is_empty();
        let no_classic = self.classic.classic_connections.is_empty();
        let no_cis = self.iso.cis_links.is_empty();
        proof {
            assert(self@.le.le_connections.dom() =~= self.le.le_connections@.dom());
            assert(self@.classic.classic_connections.dom()
                =~= self.classic.classic_connections@.dom());
            assert(no_le == (self@.le.le_connections.dom() =~= Set::<u16>::empty()));
            assert(no_classic == (self@.classic.classic_connections.dom() =~= Set::<
                u16,
            >::empty()));
            assert(no_cis == (self@.iso.cis_links.dom() =~= Set::<u16>::empty()));
        }
        !no_le || !no_classic || !no_cis || self.classic.synchronous_connections.len() > 0
    }

    /// Whether powering off would find something to flush.
    fn has_state_to_flush(&self) -> (found: bool)
        ensures
            found == self@.flushes_off_power(),
    {
        let no_lookup = self.lookups.pending_peer_lookups.is_empty();
        let no_disconnection = self.le.pending_disconnections.is_empty();
        proof {
            assert(self@.lookups.pending_peer_lookups.dom()
                =~= self.lookups.pending_peer_lookups@.dom());
            assert(no_lookup == (self@.lookups.pending_peer_lookups.dom() =~= Set::<
                u64,
            >::empty()));
            assert(no_disconnection == (self@.le.pending_disconnections =~= Set::<u16>::empty()));
        }
        self.identity.powered_on || self.is_connected_somehow() || !no_lookup
            || self.classic.pending_remote_name_requests.len() > 0 || self.le.le_connecting
            || !no_disconnection
    }

    /// End everything that goes on.
    fn quiet_down(&mut self)
        requires
            old(self).wf(),
        ensures
            final(self).wf(),
            final(self)@ == old(self)@.quieted(),
    {
        self.identity.powered_on = false;
        self.identity.rpa_timeout_elapsed_seconds = 0;
        self.gap.scanning = false;
        self.gap.legacy_advertising = false;
        self.gap.extended_advertising_handles = BTreeSet::new();
        self.le.le_connecting = false;
        self.le.pending_disconnections = BTreeSet::new();
        self.classic.classic_discovering = false;
        self.classic.classic_auto_restart_inquiry = true;
        self.classic.pending_remote_name_commands.clear();
        self.classic.pending_remote_name_requests.clear();
        self.lookups.flush();
        self.lookups.peer_lookup_results.clear();
        self.iso.pending_bigs = BTreeSet::new();
        self.iso.pending_big_commands.clear();
        self.iso.pending_big_syncs = BTreeSet::new();
        self.iso.pending_big_sync_commands.clear();
        assert(self@ =~= old(self)@.quieted());
    }

    /// Check the configuration, and give the local name and the Extended
    /// Inquiry Response that the controller will be told.
    fn power_fields(&self) -> (fields: Result<([u8; 248], [u8; 240]), DevicePowerError>)
        ensures
            match fields {
                Ok((local_name, response)) => {
                    &&& self@.config.power_error(
                        self@.classic.classic_inquiry_response is Some,
                    ) is None
                    &&& self@.power_fields(local_name, response)
                },
                Err(error) => self@.config.power_error(
                    self@.classic.classic_inquiry_response is Some,
                ) == Some(error),
            },
    {
        let mut local_name: [u8; 248] = [0; 248];
        let mut response: [u8; 240] = [0; 240];
        if self.config.classic_enabled {
            if self.config.class_of_device > MAX_CLASS_OF_DEVICE {
                return Err(
                    DevicePowerError::ClassOfDeviceOutOfRange {
                        value: self.config.class_of_device,
                    },
                );
            }
            match self.classic.classic_inquiry_response {
                Some(given) => {
                    response = given;
                },
                None => {
                    match default_inquiry_response(self.config.name.as_str()) {
                        Ok(field) => {
                            response = field;
                        },
                        Err(error) => {
                            return Err(error);
                        },
                    }
                },
            }
            match padded_local_name(self.config.name.as_str()) {
                Ok(field) => {
                    local_name = field;
                },
                Err(error) => {
                    return Err(error);
                },
            }
        }
        if self.config.le_privacy_enabled && self.config.irk.len() != 16 {
            return Err(DevicePowerError::InvalidIrkLength { actual: self.config.irk.len() });
        }
        Ok((local_name, response))
    }

    /// Reset and configure the controller from this device's loaded
    /// configuration.
    ///
    /// Command completions remain asynchronous and are consumed by
    /// [`Device::poll`]. The caller draws a fresh static random address, which
    /// is used where the configuration leaves the address open, and a fresh
    /// resolvable private address, which is used with LE privacy.
    pub fn power_on<L: HostTransport + ?Sized>(
        &mut self,
        link: &mut L,
        fresh_static_address: Address,
        fresh_private_address: Address,
    ) -> (result: Result<(), DevicePowerError>)
        requires
            old(self).wf(),
        ensures
            final(self).wf(),
            match old(self)@.config.power_error(
                old(self)@.classic.classic_inquiry_response is Some,
            ) {
                Some(error) => {
                    &&& result == Err::<(), DevicePowerError>(error)
                    &&& final(self)@ == old(self)@
                    &&& final(link).log() == old(link).log()
                },
                None => {
                    &&& result is Ok
                    &&& old(self)@.powers_on(
                        final(self)@,
                        fresh_static_address,
                        fresh_private_address,
                        old(link).log(),
                        final(link).log(),
                    )
                },
            },
    {
        let (local_name, response): ([u8; 248], [u8; 240]) = match self.power_fields() {
            Ok(fields) => fields,
            Err(error) => {
                return Err(error);
            },
        };
        self.enter_power(fresh_static_address, fresh_private_address);
        if self.config.classic_enabled {
            self.classic.classic_inquiry_response = Some(response);
        }
        let list = self.config.list_power_commands(
            self.identity.random_address,
            local_name,
            response,
        );
        send_all(link, self.controller_id, list);
        proof {
            assert(old(self)@.power_fields(local_name, response));
            assert(self@ =~= old(self)@.powered(
                fresh_static_address,
                fresh_private_address,
            ).responding(response));
        }
        Ok(())
    }

    /// Forget what a reset makes void and take on the addresses.
    fn enter_power(&mut self, fresh_static_address: Address, fresh_private_address: Address)
        requires
            old(self).wf(),
        ensures
            final(self).wf(),
            final(self)@ == old(self)@.powered(fresh_static_address, fresh_private_address),
    {
        if self.identity.powered_on || self.is_connected_somehow()
            || self.classic.pending_remote_name_requests.len() > 0
            || self.setup.pending_local_lmp_feature_pages.len() > 0 {
            self.flush();
        }
        self.quiet_down();
        if stands_for_any_random(&self.identity.static_address) {
            self.identity.static_address = fresh_static_address;
        }
        self.identity.random_address = if self.config.le_privacy_enabled {
            fresh_private_address
        } else {
            self.identity.static_address
        };
        self.identity.public_address = None;
        self.identity.powered_on = true;
        self.setup = HostSetup::new(false);
        self.pools = PacketPools::new();
        self.security.address_resolver_ready = false;
        assert(self@ =~= old(self)@.powered(fresh_static_address, fresh_private_address));
    }

    /// Reset the controller and restart host capability discovery.
    ///
    /// This preserves the device's powered flag, while an already-ready host is
    /// flushed before the reset command.
    pub fn reset<L: HostTransport + ?Sized>(&mut self, link: &mut L)
        requires
            old(self).wf(),
        ensures
            final(self).wf(),
            final(self)@ == old(self)@.reset(),
            final(link).log() == old(link).log() + commands(
                old(self).controller_id,
                reset_commands(),
            ),
    {
        if self.has_state_to_flush() || self.setup.pending_local_lmp_feature_pages.len() > 0 {
            self.flush();
        }
        let mut setup = HostSetup::new(false);
        setup.status.local_channel_sounding_capabilities =
        self.setup.status.local_channel_sounding_capabilities;
        setup.status.local_channel_sounding_capabilities_status =
        self.setup.status.local_channel_sounding_capabilities_status;
        self.setup = setup;
        self.pools = PacketPools::new();
        assert(self@ =~= old(self)@.reset());
        let mut list: Vec<Command> = Vec::new();
        list.push(Command::Reset);
        list.push(Command::ReadLocalSupportedCommands);
        assert(list@ =~= reset_commands());
        send_all(link, self.controller_id, list);
    }

    /// Mark the host side powered off after any transport-specific flush.
    pub fn power_off(&mut self)
        requires
            old(self).wf(),
        ensures
            final(self).wf(),
            final(self)@ == old(self)@.flushed_if(old(self)@.flushes_off_power()).quieted(),
    {
        if self.has_state_to_flush() {
            self.flush();
        }
        self.quiet_down();
    }

    /// Whether any legacy or extended LE advertising procedure is active.
    pub fn is_advertising(&self) -> (advertising: bool)
        ensures
            advertising == self@.advertises(),
    {
        let none = self.gap.extended_advertising_handles.is_empty();
        assert(none == (self@.gap.extended_advertising_handles =~= Set::<u8>::empty()));
        self.gap.legacy_advertising || !none
    }

    /// The identity resolving key that private addresses are drawn from, where
    /// the device uses them and the key has its length.
    pub fn private_address_key(&self) -> (key: Option<[u8; 16]>)
        ensures
            key is Some == (self@.config.le_privacy_enabled && self@.config.irk@.len() == 16),
            key is Some ==> key->0@ == self@.config.irk@,
    {
        if !self.config.le_privacy_enabled || self.config.irk.len() != 16 {
            return None;
        }
        let mut key: [u8; 16] = [0u8; 16];
        let mut index: usize = 0;
        while index < 16
            invariant
                index <= 16,
                self.config.irk@.len() == 16,
                forall|earlier: int|
                    0 <= earlier < index ==> #[trigger] key@[earlier] == self.config.irk@[earlier],
            decreases 16 - index,
        {
            key[index] = self.config.irk[index];
            index += 1;
        }
        assert(key@ =~= self.config.irk@);
        Some(key)
    }

    /// Whether the private address is due to be rotated once more time has gone
    /// by.
    pub fn rotates_address(&self, elapsed_seconds: u64) -> (due: bool)
        ensures
            due == self@.rotates(elapsed_seconds),
    {
        self.identity.powered_on && self.config.le_privacy_enabled && self.config.le_rpa_timeout
            != 0 && self.identity.rpa_timeout_elapsed_seconds.saturating_add(elapsed_seconds)
            >= self.config.le_rpa_timeout && !self.is_advertising() && !self.gap.scanning
            && !self.le.le_connecting
    }

    /// Program a fresh resolvable private address, which the caller has
    /// generated from the identity resolving key.
    ///
    /// This is the explicit, forced rotation surface. Configured periodic
    /// rotation should be driven through [`Device::advance_rpa_timeout`], which
    /// applies the suppression policy for advertising, scanning and connecting.
    pub fn update_rpa<L: HostTransport + ?Sized>(
        &mut self,
        link: &mut L,
        fresh_private_address: Address,
    ) -> (result: Result<Address, DevicePowerError>)
        requires
            old(self).wf(),
        ensures
            final(self).wf(),
            old(self)@.update_rpa_shows(
                final(self)@,
                fresh_private_address,
                result,
                old(link).log(),
                final(link).log(),
            ),
    {
        proof {
            lemma_commands_none(link.log(), self.controller_id);
        }
        if !self.identity.powered_on {
            return Err(DevicePowerError::NotPoweredOn);
        }
        if !self.config.le_privacy_enabled {
            return Err(DevicePowerError::PrivacyDisabled);
        }
        if self.config.irk.len() != 16 {
            return Err(DevicePowerError::InvalidIrkLength { actual: self.config.irk.len() });
        }
        self.identity.random_address = fresh_private_address;
        let mut list: Vec<Command> = Vec::new();
        push_when(
            &mut list,
            true,
            Command::LeSetRandomAddress { random_address: fresh_private_address },
        );
        assert(list@ =~= command_if(
            true,
            Command::LeSetRandomAddress { random_address: fresh_private_address },
        ));
        send_all(link, self.controller_id, list);
        assert(self@ =~= old(self)@.with_random_address(fresh_private_address));
        Ok(fresh_private_address)
    }

    /// Advance the configured periodic RPA timer by a caller-supplied duration.
    ///
    /// The host deliberately owns no async runtime or wall clock. Its event
    /// loop supplies elapsed whole seconds here. A late wake is coalesced into
    /// one attempt and starts a fresh timeout interval. Rotation is suppressed
    /// while legacy or extended advertising, scanning, or LE connection
    /// initiation is active. A suppressed attempt also starts a fresh interval.
    ///
    /// `Ok(Some(address))` means a new RPA was submitted to the controller.
    /// `Ok(None)` means the timer is disabled, not armed, not yet due, or the
    /// device is currently busy.
    pub fn advance_rpa_timeout<L: HostTransport + ?Sized>(
        &mut self,
        link: &mut L,
        elapsed_seconds: u64,
        fresh_private_address: Address,
    ) -> (result: Result<Option<Address>, DevicePowerError>)
        requires
            old(self).wf(),
        ensures
            final(self).wf(),
            old(self)@.advance_rpa_timeout_shows(
                final(self)@,
                elapsed_seconds,
                fresh_private_address,
                result,
                old(link).log(),
                final(link).log(),
            ),
    {
        proof {
            lemma_commands_none(link.log(), self.controller_id);
        }
        if !self.identity.powered_on || !self.config.le_privacy_enabled
            || self.config.le_rpa_timeout == 0 {
            self.identity.rpa_timeout_elapsed_seconds = 0;
            return Ok(None);
        }
        let elapsed: u64 = self.identity.rpa_timeout_elapsed_seconds.saturating_add(
            elapsed_seconds,
        );
        if elapsed < self.config.le_rpa_timeout {
            self.identity.rpa_timeout_elapsed_seconds = elapsed;
            return Ok(None);
        }
        self.identity.rpa_timeout_elapsed_seconds = 0;
        if self.is_advertising() || self.gap.scanning || self.le.le_connecting {
            return Ok(None);
        }
        match self.update_rpa(link, fresh_private_address) {
            Ok(address) => Ok(Some(address)),
            Err(error) => Err(error),
        }
    }
}

impl DeviceView {
    /// Whether any legacy or extended LE advertising procedure is active.
    pub open spec fn advertises(self) -> bool {
        self.gap.legacy_advertising || self.gap.extended_advertising_handles != Set::<u8>::empty()
    }

    /// What keeps the private address from being rotated.
    pub open spec fn rotation_error(self) -> Option<DevicePowerError> {
        if !self.identity.powered_on {
            Some(DevicePowerError::NotPoweredOn)
        } else if !self.config.le_privacy_enabled {
            Some(DevicePowerError::PrivacyDisabled)
        } else if self.config.irk@.len() != 16 {
            Some(DevicePowerError::InvalidIrkLength { actual: self.config.irk@.len() as usize })
        } else {
            None
        }
    }

    /// The device with another random address.
    pub open spec fn with_random_address(self, random_address: Address) -> DeviceView {
        DeviceView { identity: Identity { random_address, ..self.identity }, ..self }
    }

    /// The device with its rotation timer at another time.
    pub open spec fn with_rpa_elapsed(self, seconds: u64) -> DeviceView {
        DeviceView {
            identity: Identity { rpa_timeout_elapsed_seconds: seconds, ..self.identity },
            ..self
        }
    }

    /// Whether the rotation timer runs.
    pub open spec fn rotation_armed(self) -> bool {
        self.identity.powered_on && self.config.le_privacy_enabled && self.config.le_rpa_timeout
            != 0
    }

    /// Whether the rotation timer is due after more seconds.
    pub open spec fn rotation_due(self, elapsed_seconds: u64) -> bool {
        let elapsed = self.identity.rpa_timeout_elapsed_seconds + elapsed_seconds;
        self.rotation_armed() && (elapsed >= self.config.le_rpa_timeout || elapsed >= u64::MAX)
    }

    /// Whether something goes on that the address must not change under.
    pub open spec fn uses_address(self) -> bool {
        self.advertises() || self.gap.scanning || self.le.le_connecting
    }

    /// Whether the address is rotated after more seconds.
    pub open spec fn rotates(self, elapsed_seconds: u64) -> bool {
        self.rotation_due(elapsed_seconds) && !self.uses_address()
    }

    /// The rotation timer after more seconds.
    pub open spec fn rpa_elapsed_after(self, elapsed_seconds: u64) -> u64 {
        if !self.rotation_armed() || self.rotation_due(elapsed_seconds) {
            0
        } else {
            (self.identity.rpa_timeout_elapsed_seconds + elapsed_seconds) as u64
        }
    }
}

} // verus!
