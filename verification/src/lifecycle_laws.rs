//! What powering on and off, a reset and a lost controller leave of a device.

use crate::address::Address;
use crate::configuration::DeviceConfiguration;
use crate::device::{DeviceView, Identity};
use crate::events::DeviceEventView;
use crate::hci::Command;
use crate::lifecycle::disconnections;
use crate::ordered::{lemma_sorted_lists, sorted};
use crate::pools::PoolsView;
use crate::power::{
    is_any_random, is_local_name, is_name_response, reset_commands, DevicePowerError,
};
use crate::request_laws::handed;
use crate::setup::SetupView;
use crate::state::{ClassicView, GapView, IsoView, LeView};
use crate::transport::{commands, lemma_commands_none, HostAction};
use vstd::prelude::*;

verus! {

/// Whether nothing of a device's connections, channels and lookups is left.
pub open spec fn bare(device: DeviceView) -> bool {
    &&& forall|handle: u16| !device.knows(handle)
    &&& forall|handle: u16| !device.le.encrypted_handles.contains(handle)
    &&& device.le.connection_handle is None
    &&& device.le.connection_role is None
    &&& device.le.peer_address is None
    &&& !device.le.le_connecting
    &&& device.le.pending_connection_controls.len() == 0
    &&& device.le.pending_channel_sounding_configs.len() == 0
    &&& device.classic.classic_connection_handle is None
    &&& device.classic.classic_connection_role is None
    &&& device.classic.pending_classic_roles.len() == 0
    &&& device.classic.pending_remote_name_commands.len() == 0
    &&& device.classic.pending_remote_name_requests.len() == 0
    &&& device.classic.synchronous_requests.len() == 0
    &&& device.classic.synchronous_inbox.len() == 0
    &&& device.iso.cis_requests.len() == 0
    &&& device.iso.pending_iso_data_path_setups.len() == 0
    &&& device.iso.pending_iso_data_path_removals.len() == 0
    &&& device.iso.pending_iso_tx_syncs.len() == 0
    &&& device.channels.inbox.len() == 0
    &&& device.channels.eatt_inbox.len() == 0
    &&& device.channels.eatt_bearers.len() == 0
    &&& device.channels.pending_att_indications.len() == 0
    &&& device.channels.l2cap_inbox.len() == 0
    &&& device.security.security_requests.len() == 0
    &&& device.security.long_term_key_requests.len() == 0
    &&& device.lookups.peer_lookup_started_scanning is None
    &&& !device.lookups.peer_lookup_started_discovery
    &&& device.setup.pending_lmp_pages.len() == 0
}

/// A flush leaves no connection, no key, no channel and no lookup.
pub proof fn lemma_flush_leaves_no_state(device: DeviceView, handle: u16, lookup_id: u64)
    ensures
        bare(device.flushed()),
        !device.flushed().le.pending_disconnections.contains(handle),
        !device.flushed().classic.classic_link_keys.contains_key(handle),
        !device.flushed().security.pairing_encryption_started.contains(handle),
        !device.flushed().security.pairing_terminal_handles.contains(handle),
        !device.flushed().lookups.pending_peer_lookups.contains_key(lookup_id),
        device.flushed().lookups.peer_lookup_results == device.lookups.peer_lookup_results,
        device.flushed().config == device.config,
        device.flushed().identity == device.identity,
        device.flushed().gap == device.gap,
{
}

/// A flush is announced first, and then the end of every connection that was
/// live, once and without a reason.
pub proof fn lemma_flush_is_announced(device: DeviceView, handle: u16)
    ensures
        ({
            let before = device.journal.device_events;
            let events = device.flushed().journal.device_events;
            let ended = DeviceEventView::Disconnected { connection_handle: handle, reason: 0 };
            &&& events.len() > before.len()
            &&& events.take(before.len() as int) == before
            &&& events[before.len() as int] == DeviceEventView::Flush
            &&& forall|place: int|
                before.len() < place < events.len() ==> {
                    &&& #[trigger] events[place] is Disconnected
                    &&& events[place]->Disconnected_reason == 0
                    &&& device.knows(events[place]->Disconnected_connection_handle)
                }
            &&& device.knows(handle) ==> exists|place: int|
                before.len() < place < events.len() && #[trigger] events[place] == ended
            &&& forall|first: int, second: int|
                before.len() < first < second < events.len() ==> (
                #[trigger] events[first])->Disconnected_connection_handle < (
                #[trigger] events[second])->Disconnected_connection_handle
        }),
{
    let before = device.journal.device_events;
    let events = device.flushed().journal.device_events;
    let handles = sorted(device.live());
    lemma_sorted_lists(device.live());
    assert(events =~= before.push(DeviceEventView::Flush) + disconnections(handles));
    assert forall|place: int| before.len() < place < events.len() implies {
        &&& #[trigger] events[place] is Disconnected
        &&& events[place]->Disconnected_reason == 0
        &&& device.knows(events[place]->Disconnected_connection_handle)
    } by {
        let live = handles[place - before.len() - 1];
        assert(handles.contains(live));
        assert(device.live().contains(live));
    }
    if device.knows(handle) {
        assert(device.live().contains(handle));
        assert(handles.contains(handle));
        let place = choose|place: int| 0 <= place < handles.len() && handles[place] == handle;
        assert(events[before.len() + 1 + place] == (DeviceEventView::Disconnected {
            connection_handle: handle,
            reason: 0,
        }));
    }
}

/// A flush empties the queues: what waited or was on its way counts as done.
pub proof fn lemma_flush_empties_queues(pools: PoolsView, handle: u16)
    ensures
        pools.flushed_all().acl.waiting.len() == 0,
        !pools.flushed_all().acl.counters.contains_key(handle),
        pools.flushed_all().acl.completed == pools.acl.completed + pools.acl.waiting.len()
            + pools.acl.in_flight(),
        pools.le_acl is Some <==> pools.flushed_all().le_acl is Some,
        pools.le_acl is Some ==> {
            &&& pools.flushed_all().le_acl->0.waiting.len() == 0
            &&& !pools.flushed_all().le_acl->0.counters.contains_key(handle)
            &&& pools.flushed_all().le_acl->0.completed == pools.le_acl->0.completed
                + pools.le_acl->0.waiting.len() + pools.le_acl->0.in_flight()
        },
        pools.iso is Some <==> pools.flushed_all().iso is Some,
        pools.iso is Some ==> {
            &&& pools.flushed_all().iso->0.waiting.len() == 0
            &&& !pools.flushed_all().iso->0.counters.contains_key(handle)
            &&& pools.flushed_all().iso->0.completed == pools.iso->0.completed
                + pools.iso->0.waiting.len() + pools.iso->0.in_flight()
        },
{
}

/// A device that is powered off does nothing any more. What it had advertised,
/// scanned for, connected to or looked for has ended.
pub proof fn lemma_powered_off(device: DeviceView, handle: u16, set: u8, lookup_id: u64)
    ensures
        ({
            let off = device.quieted();
            &&& !off.identity.powered_on
            &&& off.identity.rpa_timeout_elapsed_seconds == 0
            &&& off.identity == (Identity {
                powered_on: false,
                rpa_timeout_elapsed_seconds: 0,
                ..device.identity
            })
            &&& !off.gap.scanning
            &&& !off.gap.legacy_advertising
            &&& !off.gap.extended_advertising_handles.contains(set)
            &&& off.gap == (GapView {
                scanning: false,
                legacy_advertising: false,
                extended_advertising_handles: off.gap.extended_advertising_handles,
                ..device.gap
            })
            &&& !off.le.le_connecting
            &&& !off.le.pending_disconnections.contains(handle)
            &&& off.le == (LeView {
                le_connecting: false,
                pending_disconnections: off.le.pending_disconnections,
                ..device.le
            })
            &&& !off.classic.classic_discovering
            &&& off.classic.classic_auto_restart_inquiry
            &&& off.classic.pending_remote_name_commands.len() == 0
            &&& off.classic.pending_remote_name_requests.len() == 0
            &&& off.classic == (ClassicView {
                classic_discovering: false,
                classic_auto_restart_inquiry: true,
                pending_remote_name_commands: off.classic.pending_remote_name_commands,
                pending_remote_name_requests: off.classic.pending_remote_name_requests,
                ..device.classic
            })
            &&& !off.lookups.pending_peer_lookups.contains_key(lookup_id)
            &&& off.lookups.peer_lookup_results.len() == 0
            &&& off.lookups.peer_lookup_started_scanning is None
            &&& !off.lookups.peer_lookup_started_discovery
            &&& off.lookups.next_peer_lookup_id == device.lookups.next_peer_lookup_id
            &&& !off.iso.pending_bigs.contains(set)
            &&& !off.iso.pending_big_syncs.contains(set)
            &&& off.iso.pending_big_commands.len() == 0
            &&& off.iso.pending_big_sync_commands.len() == 0
            &&& off.iso == (IsoView {
                pending_bigs: off.iso.pending_bigs,
                pending_big_syncs: off.iso.pending_big_syncs,
                pending_big_commands: off.iso.pending_big_commands,
                pending_big_sync_commands: off.iso.pending_big_sync_commands,
                ..device.iso
            })
            &&& off == (DeviceView {
                identity: off.identity,
                gap: off.gap,
                le: off.le,
                classic: off.classic,
                lookups: off.lookups,
                iso: off.iso,
                ..device
            })
        }),
{
}

/// A device that is on, or has a connection, is flushed when it is powered on or
/// off or reset. One on which nothing goes on is not.
pub proof fn lemma_when_flushed(device: DeviceView, handle: u16, lookup_id: u64)
    ensures
        device.identity.powered_on ==> device.flushes_on_power() && device.flushes_off_power()
            && device.flushes_on_reset(),
        device.knows(handle) ==> device.flushes_on_power() && device.flushes_off_power()
            && device.flushes_on_reset(),
        device.classic.pending_remote_name_requests.len() > 0 ==> device.flushes_on_power()
            && device.flushes_off_power() && device.flushes_on_reset(),
        device.setup.pending_lmp_pages.len() > 0 ==> device.flushes_on_power()
            && device.flushes_on_reset(),
        device.lookups.pending_peer_lookups.contains_key(lookup_id) || device.le.le_connecting
            || device.le.pending_disconnections.contains(handle) ==> device.flushes_off_power()
            && device.flushes_on_reset(),
        device.flushed_if(true) == device.flushed(),
        device.flushed_if(false) == device,
        !device.identity.powered_on && device.le.le_connections.dom() =~= Set::empty()
            && device.classic.classic_connections.dom() =~= Set::empty()
            && device.iso.cis_links.dom() =~= Set::empty()
            && device.classic.synchronous_connections.len() == 0
            && device.classic.pending_remote_name_requests.len() == 0 ==> {
            &&& device.setup.pending_lmp_pages.len() == 0 ==> !device.flushes_on_power()
            &&& device.lookups.pending_peer_lookups.dom() =~= Set::empty()
                && !device.le.le_connecting
                && device.le.pending_disconnections =~= Set::empty() ==> !device.flushes_off_power()
        },
{
    assert(device.le.le_connections.dom().contains(handle)
        == device.le.le_connections.contains_key(handle));
    assert(device.classic.classic_connections.dom().contains(handle)
        == device.classic.classic_connections.contains_key(handle));
    assert(device.iso.cis_links.dom().contains(handle) == device.iso.cis_links.contains_key(
        handle,
    ));
    assert(device.lookups.pending_peer_lookups.dom().contains(lookup_id)
        == device.lookups.pending_peer_lookups.contains_key(lookup_id));
}

/// Powering on keeps a configured static address and takes the fresh one where any
/// will do. With privacy the random address is the fresh private one, and without
/// it the static one. Nothing is known of the controller yet.
pub proof fn lemma_powered_on(device: DeviceView, fresh_static: Address, fresh_private: Address)
    ensures
        ({
            let on = device.powered(fresh_static, fresh_private);
            let any = is_any_random(device.identity.static_address);
            &&& on.identity.powered_on
            &&& on.identity.public_address is None
            &&& on.identity.rpa_timeout_elapsed_seconds == 0
            &&& any ==> on.identity.static_address == fresh_static
            &&& !any ==> on.identity.static_address == device.identity.static_address
            &&& device.config.le_privacy_enabled ==> on.identity.random_address == fresh_private
            &&& !device.config.le_privacy_enabled ==> on.identity.random_address
                == on.identity.static_address
            &&& on.setup == SetupView::initial(false)
            &&& on.pools == PoolsView::initial()
            &&& !on.security.address_resolver_ready
            &&& on.config == device.config
            &&& !on.gap.scanning && !on.gap.legacy_advertising
            &&& !on.classic.classic_discovering
            &&& !on.le.le_connecting
            &&& device.flushes_on_power() ==> on.le.le_connections.dom() =~= Set::empty()
            &&& device.flushes_on_power() ==> on.journal.device_events.len()
                > device.journal.device_events.len()
            &&& !device.flushes_on_power() ==> on.journal == device.journal
        }),
{
}

/// A static address that any address may take the place of is a random one of
/// zeroes.
pub proof fn lemma_any_random(address: Address)
    ensures
        is_any_random(address) <==> address.address_type == 1 && address.address_bytes@ =~= seq![
            0u8,
            0,
            0,
            0,
            0,
            0,
        ],
{
}

/// Powering on is refused for a class of device of more than 24 bits, a name that
/// does not fit its field, or a key that is not of sixteen bytes where privacy
/// needs one. The class and the name matter on BR/EDR alone.
pub proof fn lemma_power_refusals(config: DeviceConfiguration, given: bool)
    ensures
        ({
            let length = config.name_bytes().len();
            let wide = config.classic_enabled && config.class_of_device > 0xFF_FFFF;
            let unanswerable = config.classic_enabled && !given && length > 238;
            let unnamable = config.classic_enabled && length > 248;
            let keyless = config.le_privacy_enabled && config.irk@.len() != 16;
            let error = config.power_error(given);
            &&& error is None <==> !wide && !unanswerable && !unnamable && !keyless
            &&& wide ==> error == Some(
                DevicePowerError::ClassOfDeviceOutOfRange { value: config.class_of_device },
            )
            &&& !wide && unanswerable ==> error == Some(
                DevicePowerError::LocalNameTooLong { actual: length as usize, maximum: 238 },
            )
            &&& !wide && !unanswerable && unnamable ==> error == Some(
                DevicePowerError::LocalNameTooLong { actual: length as usize, maximum: 248 },
            )
            &&& !wide && !unanswerable && !unnamable && keyless ==> error == Some(
                DevicePowerError::InvalidIrkLength { actual: config.irk@.len() as usize },
            )
        }),
{
}

/// A reset forgets the controller but for its Channel Sounding capabilities, and
/// asks anew for the commands that it supports.
pub proof fn lemma_device_reset(device: DeviceView)
    ensures
        reset_commands().len() == 2,
        reset_commands()[0] == Command::Reset,
        reset_commands()[1] == Command::ReadLocalSupportedCommands,
        device.reset().pools == PoolsView::initial(),
        device.reset().setup.status.local_channel_sounding_capabilities
            == device.setup.status.local_channel_sounding_capabilities,
        device.reset().setup.status.local_channel_sounding_capabilities_status
            == device.setup.status.local_channel_sounding_capabilities_status,
        device.reset().setup.le_features == SetupView::initial(false).le_features,
        device.reset().setup.pending_lmp_pages.len() == 0,
        device.reset().config == device.config,
        device.reset().identity == device.identity,
        device.flushes_on_reset() ==> bare(device.reset()),
{
}

/// The private address is rotated on a device that is on, has privacy and has a
/// key of sixteen bytes. It is then the fresh one, and the controller has it.
pub proof fn lemma_rotation(
    device: DeviceView,
    after: DeviceView,
    fresh: Address,
    result: Result<Address, DevicePowerError>,
    log_before: Seq<HostAction>,
    log_after: Seq<HostAction>,
)
    requires
        device.update_rpa_shows(after, fresh, result, log_before, log_after),
    ensures
        ({
            let on = device.identity.powered_on;
            let private = device.config.le_privacy_enabled;
            let length = device.config.irk@.len();
            &&& result is Ok <==> on && private && length == 16
            &&& !on ==> result == Err::<Address, _>(DevicePowerError::NotPoweredOn)
            &&& on && !private ==> result == Err::<Address, _>(DevicePowerError::PrivacyDisabled)
            &&& on && private && length != 16 ==> result == Err::<Address, _>(
                DevicePowerError::InvalidIrkLength { actual: length as usize },
            )
            &&& result is Err ==> after == device && log_after =~= log_before
            &&& result is Ok ==> {
                &&& result == Ok::<Address, DevicePowerError>(fresh)
                &&& after == (DeviceView {
                    identity: Identity { random_address: fresh, ..device.identity },
                    ..device
                })
                &&& handed(
                    device,
                    Command::LeSetRandomAddress { random_address: fresh },
                    log_before,
                    log_after,
                )
            }
        }),
{
    let command = Command::LeSetRandomAddress { random_address: fresh };
    lemma_commands_none(log_before, device.controller_id);
    assert(log_before + commands(device.controller_id, seq![command]) =~= log_before.push(
        HostAction::Command { controller_id: device.controller_id, command },
    ));
}

/// The rotation timer counts the seconds of a device that is on and has privacy
/// and a timeout. When it is due it starts again, and the address is rotated
/// unless the device advertises, scans or connects.
pub proof fn lemma_rotation_timer(
    device: DeviceView,
    after: DeviceView,
    seconds: u64,
    fresh: Address,
    result: Result<Option<Address>, DevicePowerError>,
    log_before: Seq<HostAction>,
    log_after: Seq<HostAction>,
)
    requires
        device.advance_rpa_timeout_shows(after, seconds, fresh, result, log_before, log_after),
    ensures
        ({
            let runs = device.identity.powered_on && device.config.le_privacy_enabled
                && device.config.le_rpa_timeout != 0;
            let elapsed = device.identity.rpa_timeout_elapsed_seconds + seconds;
            let due = runs && (elapsed >= device.config.le_rpa_timeout || elapsed >= u64::MAX);
            let busy = device.gap.legacy_advertising || device.gap.scanning
                || device.le.le_connecting || !(device.gap.extended_advertising_handles
                =~= Set::empty());
            let timer = after.identity.rpa_timeout_elapsed_seconds;
            let keyed = device.config.irk@.len() == 16;
            &&& !runs ==> timer == 0
            &&& runs && !due ==> timer == elapsed
            &&& due ==> timer == 0
            &&& !due || busy ==> {
                &&& result == Ok::<Option<Address>, DevicePowerError>(None)
                &&& log_after =~= log_before
                &&& after.identity.random_address == device.identity.random_address
            }
            &&& due && !busy && keyed ==> {
                &&& result == Ok::<Option<Address>, DevicePowerError>(Some(fresh))
                &&& after.identity.random_address == fresh
                &&& handed(
                    device,
                    Command::LeSetRandomAddress { random_address: fresh },
                    log_before,
                    log_after,
                )
            }
            &&& due && !busy && !keyed ==> {
                &&& result == Err::<Option<Address>, _>(
                    DevicePowerError::InvalidIrkLength {
                        actual: device.config.irk@.len() as usize,
                    },
                )
                &&& log_after =~= log_before
                &&& after.identity.random_address == device.identity.random_address
            }
            &&& after == (DeviceView {
                identity: Identity {
                    random_address: after.identity.random_address,
                    rpa_timeout_elapsed_seconds: timer,
                    ..device.identity
                },
                ..device
            })
        }),
{
    let command = Command::LeSetRandomAddress { random_address: fresh };
    lemma_commands_none(log_before, device.controller_id);
    assert(log_before + commands(device.controller_id, seq![command]) =~= log_before.push(
        HostAction::Command { controller_id: device.controller_id, command },
    ));
}

/// The local name stands at the start of its field, with zeros behind it.
pub proof fn lemma_name_field(field: [u8; 248], name: Seq<u8>)
    requires
        is_local_name(field, name),
        name.len() <= 248,
    ensures
        field@.take(name.len() as int) =~= name,
        forall|index: int| name.len() <= index < 248 ==> #[trigger] field@[index] == 0,
{
}

/// The response to inquiries is one element: the complete local name. Zeros follow.
pub proof fn lemma_response_field(field: [u8; 240], name: Seq<u8>)
    requires
        is_name_response(field, name),
        name.len() <= 238,
    ensures
        field@[0] == name.len() + 1,
        field@[1] == 9,
        field@.subrange(2, 2 + name.len() as int) =~= name,
        forall|index: int| 2 + name.len() <= index < 240 ==> #[trigger] field@[index] == 0,
{
}

/// A response that the application gave is the one that goes out, and else the one
/// with the name.
pub proof fn lemma_response_given(device: DeviceView, response: [u8; 240])
    ensures
        device.classic.classic_inquiry_response is Some ==> (device.gives_response(response)
            <==> response == device.classic.classic_inquiry_response->0),
        device.classic.classic_inquiry_response is None && device.gives_response(response)
            && device.config.name_bytes().len() <= 238 ==> {
            &&& response@[1] == 9
            &&& response@.subrange(2, 2 + device.config.name_bytes().len() as int)
                =~= device.config.name_bytes()
        },
{
}

/// A device that was given no configuration has LE alone, without privacy, from a
/// random address of zeros, under the default name and with a timeout of fifteen
/// minutes. Its BR/EDR settings are on for when BR/EDR is enabled.
pub proof fn lemma_default_configuration(config: DeviceConfiguration)
    requires
        config.is_default(),
    ensures
        config.name@ =~= "Bumble"@,
        config.address.address_type == 1,
        config.address.address_bytes@ =~= seq![0u8, 0, 0, 0, 0, 0],
        config.irk@.len() == 16,
        config.class_of_device == 0,
        config.le_rpa_timeout == 900,
        config.advertising_data@.len() == 8,
        config.advertising_data@[0] == 7,
        config.advertising_data@[1] == 9,
        config.advertising_data@.skip(2) =~= seq![0x42u8, 0x75, 0x6D, 0x62, 0x6C, 0x65],
        config.scan_response_data@.len() == 0,
        config.le_enabled && !config.classic_enabled,
        !config.le_simultaneous_enabled && !config.le_privacy_enabled,
        !config.cis_enabled && !config.le_subrate_enabled,
        !config.channel_sounding_enabled && !config.le_shorter_connection_intervals_enabled,
        !config.address_resolution_offload && !config.address_generation_offload,
        config.classic_ssp_enabled && config.classic_sc_enabled && config.classic_smp_enabled,
        config.classic_accept_any && config.classic_interlaced_scan_enabled,
        config.discoverable && config.connectable,
        config.keystore is None,
{
}

} // verus!
