//! What Channel Sounding events leave behind.

use crate::channel_sounding::{
    ChannelSoundingCapabilities, ChannelSoundingConfig, ChannelSoundingCreateConfigParameters,
    ChannelSoundingError, ChannelSoundingOperation, ChannelSoundingProcedure,
    ChannelSoundingSubeventResult, ChannelSoundingSubeventResultContinue,
};
use crate::connection::LeConnectionInfoView;
use crate::device::DeviceView;
use crate::events::DeviceEventView;
use crate::hci::{Command, LeMetaEvent};
use crate::le_laws::heard_le;
use crate::pairing_laws::journaled;
use crate::sounding_ops::create_config_command;
use crate::state::LeView;
use crate::transport::{lemma_commands_none, HostAction};
use vstd::prelude::*;

verus! {

/// A device with other LE state, and which is else the same.
pub open spec fn with_le(device: DeviceView, le: LeView) -> DeviceView {
    DeviceView { le, ..device }
}

/// LE state with one connection's record replaced.
pub open spec fn with_record(le: LeView, handle: u16, record: LeConnectionInfoView) -> LeView {
    LeView { le_connections: le.le_connections.insert(handle, record), ..le }
}

/// LE state with one more Channel Sounding error.
pub open spec fn with_error(
    le: LeView,
    operation: ChannelSoundingOperation,
    handle: u16,
    config_id: Option<u8>,
    status: u8,
) -> LeView {
    LeView {
        channel_sounding_errors: le.channel_sounding_errors.push(
            ChannelSoundingError { operation, connection_handle: handle, config_id, status },
        ),
        ..le
    }
}

/// The capabilities of a peer are kept with its connection.
pub proof fn lemma_peer_capabilities(
    device: DeviceView,
    after: DeviceView,
    status: u8,
    handle: u16,
    capabilities: ChannelSoundingCapabilities,
    log_before: Seq<HostAction>,
    log_after: Seq<HostAction>,
)
    requires
        heard_le(
            device,
            LeMetaEvent::CsReadRemoteSupportedCapabilitiesComplete {
                status,
                connection_handle: handle,
                capabilities,
            },
            after,
            log_before,
            log_after,
        ),
    ensures
        log_after == log_before,
        ({
            let known = device.le.le_connections.contains_key(handle);
            &&& !known ==> after == device
            &&& known && status == 0 ==> after == with_le(
                device,
                with_record(
                    device.le,
                    handle,
                    LeConnectionInfoView {
                        channel_sounding_capabilities: Some(capabilities),
                        ..device.le.le_connections[handle]
                    },
                ),
            )
            &&& known && status != 0 ==> after == with_le(
                device,
                with_error(
                    device.le,
                    ChannelSoundingOperation::ReadRemoteCapabilities,
                    handle,
                    None,
                    status,
                ),
            )
        }),
{
    lemma_commands_none(log_before, device.controller_id);
}

/// The outcome of enabling security is kept whatever it is, and a failure is an
/// error too.
pub proof fn lemma_security_enabled(
    device: DeviceView,
    after: DeviceView,
    status: u8,
    handle: u16,
    log_before: Seq<HostAction>,
    log_after: Seq<HostAction>,
)
    requires
        heard_le(
            device,
            LeMetaEvent::CsSecurityEnableComplete { status, connection_handle: handle },
            after,
            log_before,
            log_after,
        ),
    ensures
        log_after == log_before,
        ({
            let known = device.le.le_connections.contains_key(handle);
            let noted = LeView {
                channel_sounding_security_results:
                    device.le.channel_sounding_security_results.push((handle, status)),
                ..device.le
            };
            &&& !known ==> after == device
            &&& known && status == 0 ==> after == with_le(device, noted)
            &&& known && status != 0 ==> after == with_le(
                device,
                with_error(
                    noted,
                    ChannelSoundingOperation::SecurityEnable,
                    handle,
                    None,
                    status,
                ),
            )
        }),
{
    lemma_commands_none(log_before, device.controller_id);
}

/// A configuration that was created is kept with its connection under its
/// number, and one that was removed is gone. Either way its request is settled.
pub proof fn lemma_configuration_complete(
    device: DeviceView,
    after: DeviceView,
    status: u8,
    handle: u16,
    action: u8,
    config: ChannelSoundingConfig,
    log_before: Seq<HostAction>,
    log_after: Seq<HostAction>,
)
    requires
        heard_le(
            device,
            LeMetaEvent::CsConfigComplete { status, connection_handle: handle, action, config },
            after,
            log_before,
            log_after,
        ),
    ensures
        log_after == log_before,
        ({
            let known = device.le.le_connections.contains_key(handle);
            let former = device.le.le_connections[handle];
            let settled = LeView {
                pending_channel_sounding_configs:
                    device.le.pending_channel_sounding_configs.remove_value(
                    (handle, config.config_id),
                ),
                ..device.le
            };
            &&& !known ==> after == with_le(device, settled)
            &&& known && status != 0 ==> after == with_le(
                device,
                with_error(
                    settled,
                    ChannelSoundingOperation::Config,
                    handle,
                    Some(config.config_id),
                    status,
                ),
            )
            &&& known && status == 0 && action == 1 ==> after == with_le(
                device,
                with_record(
                    settled,
                    handle,
                    LeConnectionInfoView {
                        channel_sounding_configs: former.channel_sounding_configs.insert(
                            config.config_id,
                            config,
                        ),
                        ..former
                    },
                ),
            )
            &&& known && status == 0 && action == 0 ==> after == with_le(
                device,
                with_record(
                    settled,
                    handle,
                    LeConnectionInfoView {
                        channel_sounding_configs: former.channel_sounding_configs.remove(
                            config.config_id,
                        ),
                        ..former
                    },
                ),
            )
            &&& known && status == 0 && action > 1 ==> after == with_le(device, settled)
        }),
{
    lemma_commands_none(log_before, device.controller_id);
}

/// A procedure that was enabled is kept with its connection under the number of
/// its configuration.
pub proof fn lemma_procedure_enabled(
    device: DeviceView,
    after: DeviceView,
    status: u8,
    handle: u16,
    procedure: ChannelSoundingProcedure,
    log_before: Seq<HostAction>,
    log_after: Seq<HostAction>,
)
    requires
        heard_le(
            device,
            LeMetaEvent::CsProcedureEnableComplete {
                status,
                connection_handle: handle,
                procedure,
            },
            after,
            log_before,
            log_after,
        ),
    ensures
        log_after == log_before,
        ({
            let known = device.le.le_connections.contains_key(handle);
            let former = device.le.le_connections[handle];
            &&& !known ==> after == device
            &&& known && status == 0 ==> after == with_le(
                device,
                with_record(
                    device.le,
                    handle,
                    LeConnectionInfoView {
                        channel_sounding_procedures: former.channel_sounding_procedures.insert(
                            procedure.config_id,
                            procedure,
                        ),
                        ..former
                    },
                ),
            )
            &&& known && status != 0 ==> after == with_le(
                device,
                with_error(
                    device.le,
                    ChannelSoundingOperation::ProcedureEnable,
                    handle,
                    Some(procedure.config_id),
                    status,
                ),
            )
        }),
{
    lemma_commands_none(log_before, device.controller_id);
}

/// Results are kept and announced in the order of their arrival.
pub proof fn lemma_subevent_result(
    device: DeviceView,
    after: DeviceView,
    result: ChannelSoundingSubeventResult,
    log_before: Seq<HostAction>,
    log_after: Seq<HostAction>,
)
    requires
        heard_le(
            device,
            LeMetaEvent::CsSubeventResult { result },
            after,
            log_before,
            log_after,
        ),
    ensures
        log_after == log_before,
        after == journaled(
            with_le(
                device,
                LeView {
                    channel_sounding_subevent_results:
                        device.le.channel_sounding_subevent_results.push(result@),
                    ..device.le
                },
            ),
            DeviceEventView::ChannelSoundingSubeventResult(result@),
        ),
{
    lemma_commands_none(log_before, device.controller_id);
}

/// Continuations of results are kept and announced in the order of their arrival.
pub proof fn lemma_subevent_continuation(
    device: DeviceView,
    after: DeviceView,
    result: ChannelSoundingSubeventResultContinue,
    log_before: Seq<HostAction>,
    log_after: Seq<HostAction>,
)
    requires
        heard_le(
            device,
            LeMetaEvent::CsSubeventResultContinue { result },
            after,
            log_before,
            log_after,
        ),
    ensures
        log_after == log_before,
        after == journaled(
            with_le(
                device,
                LeView {
                    channel_sounding_subevent_result_continuations:
                        device.le.channel_sounding_subevent_result_continuations.push(result@),
                    ..device.le
                },
            ),
            DeviceEventView::ChannelSoundingSubeventResultContinue(result@),
        ),
{
    lemma_commands_none(log_before, device.controller_id);
}

/// A configuration's identifier is from zero to three. A wanted one is given where
/// it is free on the connection, and otherwise none is. Without a wish the least
/// free one is given. There is none on a connection that is not live.
pub proof fn lemma_configuration_number(
    device: DeviceView,
    handle: u16,
    wanted: Option<u8>,
    chosen: Option<u8>,
    other: u8,
)
    requires
        device.sounding_id_chosen(handle, wanted, chosen),
    ensures
        ({
            let live = device.le.le_connections.contains_key(handle);
            let configs = device.le.le_connections[handle].channel_sounding_configs;
            let pending = device.le.pending_channel_sounding_configs;
            &&& !live ==> chosen is None
            &&& chosen is Some ==> {
                &&& live
                &&& chosen->0 <= 3
                &&& !configs.contains_key(chosen->0)
                &&& !pending.contains((handle, chosen->0))
            }
            &&& wanted is Some && chosen is Some ==> chosen == wanted
            &&& live && wanted is Some && chosen is None ==> wanted->0 > 3
                || configs.contains_key(wanted->0) || pending.contains((handle, wanted->0))
            &&& live && wanted is None && other <= 3 && (chosen is None || other < chosen->0)
                ==> configs.contains_key(other) || pending.contains((handle, other))
        }),
{
    let free = device.sounding_id_free(handle, other);
    assert(free == device.sounding_id_free(handle, other));
}

/// A configuration that was asked for is waited for on its connection.
pub proof fn lemma_configuration_waited_for(device: DeviceView, handle: u16, chosen: Option<u8>)
    ensures
        chosen is None ==> device.sounding_config_asked(handle, chosen) == device,
        chosen is Some ==> device.sounding_config_asked(handle, chosen) == (DeviceView {
            le: LeView {
                pending_channel_sounding_configs: device.le.pending_channel_sounding_configs.push(
                    (handle, chosen->0),
                ),
                ..device.le
            },
            ..device
        }),
{
}

/// A configuration is asked for with every parameter in its own place.
pub proof fn lemma_configuration_request(
    handle: u16,
    config_id: u8,
    parameters: ChannelSoundingCreateConfigParameters,
    command: Command,
)
    requires
        command == create_config_command(handle, config_id, parameters),
    ensures
        command is LeCsCreateConfig,
        command->LeCsCreateConfig_connection_handle == handle,
        command->LeCsCreateConfig_config_id == config_id,
        command->LeCsCreateConfig_create_context == parameters.create_context,
        command->LeCsCreateConfig_main_mode_type == parameters.main_mode_type,
        command->LeCsCreateConfig_sub_mode_type == parameters.sub_mode_type,
        command->LeCsCreateConfig_min_main_mode_steps == parameters.min_main_mode_steps,
        command->LeCsCreateConfig_max_main_mode_steps == parameters.max_main_mode_steps,
        command->LeCsCreateConfig_main_mode_repetition == parameters.main_mode_repetition,
        command->LeCsCreateConfig_mode_0_steps == parameters.mode_0_steps,
        command->LeCsCreateConfig_role == parameters.role,
        command->LeCsCreateConfig_rtt_type == parameters.rtt_type,
        command->LeCsCreateConfig_cs_sync_phy == parameters.cs_sync_phy,
        command->LeCsCreateConfig_channel_map == parameters.channel_map,
        command->LeCsCreateConfig_channel_map_repetition == parameters.channel_map_repetition,
        command->LeCsCreateConfig_channel_selection_type == parameters.channel_selection_type,
        command->LeCsCreateConfig_ch3c_shape == parameters.ch3c_shape,
        command->LeCsCreateConfig_ch3c_jump == parameters.ch3c_jump,
        command->LeCsCreateConfig_reserved == 0,
{
}

} // verus!
