//! What each request asks of the controller.

use crate::address::Address;
use crate::channel_sounding::{ChannelSoundingDefaultSettings, ChannelSoundingProcedureParameters};
use crate::connection::{
    LeConnectionRateParameters, LeConnectionUpdateParameters, LeSubrateRequestParameters,
    LongTermKeyRequestInfo,
};
use crate::device::DeviceView;
use crate::hci::Command;
use crate::state::{ClassicView, GapView, IsoView, LeView, SecurityView};
use crate::transport::HostAction;
use vstd::prelude::*;

verus! {

/// Whether exactly one command was handed to the device's own controller.
pub open spec fn handed(
    device: DeviceView,
    command: Command,
    log_before: Seq<HostAction>,
    log_after: Seq<HostAction>,
) -> bool {
    log_after == log_before.push(
        HostAction::Command { controller_id: device.controller_id, command },
    )
}

/// Whether a request was made where a condition holds: then exactly one command
/// was handed over, and else nothing was done at all.
pub open spec fn asked_where(
    device: DeviceView,
    after: DeviceView,
    condition: bool,
    asked: bool,
    command: Command,
    log_before: Seq<HostAction>,
    log_after: Seq<HostAction>,
) -> bool {
    &&& asked == condition
    &&& asked ==> handed(device, command, log_before, log_after)
    &&& !asked ==> after == device && log_after == log_before
}

/// Whether a procedure was begun on a known LE connection: it is the last one
/// that is pending, under its own command.
pub open spec fn procedure_begun(
    device: DeviceView,
    after: DeviceView,
    handle: u16,
    opcode: u16,
    asked: bool,
    command: Command,
    log_before: Seq<HostAction>,
    log_after: Seq<HostAction>,
) -> bool {
    &&& asked_where(
        device,
        after,
        device.le.le_connections.contains_key(handle),
        asked,
        command,
        log_before,
        log_after,
    )
    &&& asked ==> after == (DeviceView {
        le: LeView {
            pending_connection_controls: device.le.pending_connection_controls.push(
                (handle, opcode),
            ),
            ..device.le
        },
        ..device
    })
}

/// Readings on a known LE connection ask for that connection, and those that
/// are answered later are pending until then.
pub proof fn lemma_le_readings(
    device: DeviceView,
    after: DeviceView,
    handle: u16,
    asked: bool,
    log_before: Seq<HostAction>,
    log_after: Seq<HostAction>,
)
    ensures
        device.read_phy_on_handle_shows(after, handle, asked, log_before, log_after)
            ==> procedure_begun(
            device,
            after,
            handle,
            0x2030,
            asked,
            Command::LeReadPhy { connection_handle: handle },
            log_before,
            log_after,
        ),
        device.read_rssi_on_handle_shows(after, handle, asked, log_before, log_after)
            ==> procedure_begun(
            device,
            after,
            handle,
            0x1405,
            asked,
            Command::ReadRssi { handle },
            log_before,
            log_after,
        ),
        device.read_remote_le_features_on_handle_shows(
            after,
            handle,
            asked,
            log_before,
            log_after,
        ) ==> after == device && asked_where(
            device,
            after,
            device.le.le_connections.contains_key(handle),
            asked,
            Command::LeReadRemoteFeatures { connection_handle: handle },
            log_before,
            log_after,
        ),
        device.read_remote_classic_features_on_handle_shows(
            after,
            handle,
            asked,
            log_before,
            log_after,
        ) ==> after == device && asked_where(
            device,
            after,
            device.classic.classic_connections.contains_key(handle),
            asked,
            Command::ReadRemoteSupportedFeatures { connection_handle: handle },
            log_before,
            log_after,
        ),
{
}

/// A connection update asks for the given bounds, each in its own place.
pub proof fn lemma_connection_update_request(
    device: DeviceView,
    after: DeviceView,
    handle: u16,
    parameters: LeConnectionUpdateParameters,
    asked: bool,
    log_before: Seq<HostAction>,
    log_after: Seq<HostAction>,
)
    requires
        device.update_connection_parameters_on_handle_shows(
            after,
            handle,
            parameters,
            asked,
            log_before,
            log_after,
        ),
    ensures
        procedure_begun(
            device,
            after,
            handle,
            0x2013,
            asked,
            Command::LeConnectionUpdate {
                connection_handle: handle,
                connection_interval_min: parameters.connection_interval_min,
                connection_interval_max: parameters.connection_interval_max,
                max_latency: parameters.max_latency,
                supervision_timeout: parameters.supervision_timeout,
                min_ce_length: parameters.min_ce_length,
                max_ce_length: parameters.max_ce_length,
            },
            log_before,
            log_after,
        ),
{
}

/// A connection rate request asks for the given bounds, each in its own place,
/// and the defaults are written the same way.
pub proof fn lemma_connection_rate_requests(
    device: DeviceView,
    after: DeviceView,
    handle: u16,
    parameters: LeConnectionRateParameters,
    asked: bool,
    log_before: Seq<HostAction>,
    log_after: Seq<HostAction>,
)
    ensures
        device.update_connection_rate_on_handle_shows(
            after,
            handle,
            parameters,
            asked,
            log_before,
            log_after,
        ) ==> procedure_begun(
            device,
            after,
            handle,
            0x20A1,
            asked,
            Command::LeConnectionRateRequest {
                connection_handle: handle,
                connection_interval_min: parameters.connection_interval_min,
                connection_interval_max: parameters.connection_interval_max,
                subrate_min: parameters.subrate_min,
                subrate_max: parameters.subrate_max,
                max_latency: parameters.max_latency,
                continuation_number: parameters.continuation_number,
                supervision_timeout: parameters.supervision_timeout,
                min_ce_length: parameters.min_ce_length,
                max_ce_length: parameters.max_ce_length,
            },
            log_before,
            log_after,
        ),
        device.set_default_connection_rate_shows(after, parameters, log_before, log_after)
            ==> after == device && handed(
            device,
            Command::LeSetDefaultRateParameters {
                connection_interval_min: parameters.connection_interval_min,
                connection_interval_max: parameters.connection_interval_max,
                subrate_min: parameters.subrate_min,
                subrate_max: parameters.subrate_max,
                max_latency: parameters.max_latency,
                continuation_number: parameters.continuation_number,
                supervision_timeout: parameters.supervision_timeout,
                min_ce_length: parameters.min_ce_length,
                max_ce_length: parameters.max_ce_length,
            },
            log_before,
            log_after,
        ),
{
}

/// A subrate request asks for the given bounds, each in its own place, and the
/// defaults are written the same way.
pub proof fn lemma_subrate_requests(
    device: DeviceView,
    after: DeviceView,
    handle: u16,
    parameters: LeSubrateRequestParameters,
    asked: bool,
    log_before: Seq<HostAction>,
    log_after: Seq<HostAction>,
)
    ensures
        device.request_le_subrate_on_handle_shows(
            after,
            handle,
            parameters,
            asked,
            log_before,
            log_after,
        ) ==> procedure_begun(
            device,
            after,
            handle,
            0x207E,
            asked,
            Command::LeSubrateRequest {
                connection_handle: handle,
                subrate_min: parameters.subrate_min,
                subrate_max: parameters.subrate_max,
                max_latency: parameters.max_latency,
                continuation_number: parameters.continuation_number,
                supervision_timeout: parameters.supervision_timeout,
            },
            log_before,
            log_after,
        ),
        device.set_default_subrate_shows(after, parameters, log_before, log_after) ==> after
            == device && handed(
            device,
            Command::LeSetDefaultSubrate {
                subrate_min: parameters.subrate_min,
                subrate_max: parameters.subrate_max,
                max_latency: parameters.max_latency,
                continuation_number: parameters.continuation_number,
                supervision_timeout: parameters.supervision_timeout,
            },
            log_before,
            log_after,
        ),
{
}

/// A data length is asked for exactly where the connection is known, the octets
/// are from 27 to 251, and the time is from 328 to 17040 microseconds.
pub proof fn lemma_data_length_request(
    device: DeviceView,
    after: DeviceView,
    handle: u16,
    octets: u16,
    time: u16,
    asked: bool,
    log_before: Seq<HostAction>,
    log_after: Seq<HostAction>,
)
    requires
        device.set_data_length_on_handle_shows(
            after,
            handle,
            octets,
            time,
            asked,
            log_before,
            log_after,
        ),
    ensures
        asked <==> device.le.le_connections.contains_key(handle) && 27 <= octets <= 251 && 328
            <= time <= 17040,
        asked ==> procedure_begun(
            device,
            after,
            handle,
            0x2022,
            asked,
            Command::LeSetDataLength { connection_handle: handle, tx_octets: octets, tx_time: time },
            log_before,
            log_after,
        ),
        !asked ==> after == device && log_after == log_before,
{
}

/// Whether two preferences are told: bit zero of the first number says that
/// there is none for transmission, and bit one that there is none for reception.
pub open spec fn preferences_told(
    tx: Option<u8>,
    rx: Option<u8>,
    without: u8,
    tx_phys: u8,
    rx_phys: u8,
) -> bool {
    &&& without == (if tx is None {
        1int
    } else {
        0
    }) + (if rx is None {
        2int
    } else {
        0
    })
    &&& tx is Some ==> tx_phys == tx->0
    &&& rx is Some ==> rx_phys == rx->0
    &&& tx is None ==> tx_phys == 0
    &&& rx is None ==> rx_phys == 0
}

/// A PHY request tells the preference of each direction, and says where there is
/// none. So do the defaults.
pub proof fn lemma_phy_requests(
    device: DeviceView,
    after: DeviceView,
    handle: u16,
    tx: Option<u8>,
    rx: Option<u8>,
    options: u16,
    asked: bool,
    log_before: Seq<HostAction>,
    log_after: Seq<HostAction>,
)
    ensures
        device.set_phy_on_handle_shows(
            after,
            handle,
            tx,
            rx,
            options,
            asked,
            log_before,
            log_after,
        ) ==> {
            let command = log_after.last()->Command_command;
            &&& asked <==> device.le.le_connections.contains_key(handle)
            &&& !asked ==> after == device && log_after == log_before
            &&& asked ==> procedure_begun(
                device,
                after,
                handle,
                0x2032,
                asked,
                command,
                log_before,
                log_after,
            )
            &&& asked ==> (command matches Command::LeSetPhy {
                connection_handle,
                all_phys,
                tx_phys,
                rx_phys,
                phy_options,
            } && {
                &&& connection_handle == handle
                &&& preferences_told(tx, rx, all_phys, tx_phys, rx_phys)
                &&& phy_options == options
            })
        },
        device.set_default_phy_shows(after, tx, rx, log_before, log_after) ==> {
            let command = log_after.last()->Command_command;
            &&& after == device
            &&& handed(device, command, log_before, log_after)
            &&& command matches Command::LeSetDefaultPhy { all_phys, tx_phys, rx_phys }
                && preferences_told(tx, rx, all_phys, tx_phys, rx_phys)
        },
{
}

/// Sniff mode is asked for at one interval, on any known connection, and ended
/// there.
pub proof fn lemma_sniff_requests(
    device: DeviceView,
    after: DeviceView,
    handle: u16,
    interval: u16,
    attempt: u16,
    timeout: u16,
    asked: bool,
    log_before: Seq<HostAction>,
    log_after: Seq<HostAction>,
)
    ensures
        device.enter_sniff_mode_on_handle_shows(
            after,
            handle,
            interval,
            attempt,
            timeout,
            asked,
            log_before,
            log_after,
        ) ==> after == device && asked_where(
            device,
            after,
            device.le.le_connections.contains_key(handle)
                || device.classic.classic_connections.contains_key(handle),
            asked,
            Command::SniffMode {
                connection_handle: handle,
                sniff_max_interval: interval,
                sniff_min_interval: interval,
                sniff_attempt: attempt,
                sniff_timeout: timeout,
            },
            log_before,
            log_after,
        ),
        device.exit_sniff_mode_on_handle_shows(after, handle, asked, log_before, log_after)
            ==> after == device && asked_where(
            device,
            after,
            device.le.le_connections.contains_key(handle)
                || device.classic.classic_connections.contains_key(handle),
            asked,
            Command::ExitSniffMode { connection_handle: handle },
            log_before,
            log_after,
        ),
{
}

/// A random address that is set is the one that is handed over and the one that
/// the device has from then on.
pub proof fn lemma_random_address_set(
    device: DeviceView,
    after: DeviceView,
    address: Address,
    log_before: Seq<HostAction>,
    log_after: Seq<HostAction>,
)
    requires
        device.set_random_address_shows(after, address, log_before, log_after),
    ensures
        after.identity.random_address == address,
        after.identity.static_address == device.identity.static_address,
        after.identity.public_address == device.identity.public_address,
        after.identity.powered_on == device.identity.powered_on,
        after == (DeviceView { identity: after.identity, ..device }),
        handed(
            device,
            Command::LeSetRandomAddress { random_address: address },
            log_before,
            log_after,
        ),
{
}

/// An attempt to connect is cancelled exactly where there is one, and then there
/// is none.
pub proof fn lemma_le_connect_cancelled(
    device: DeviceView,
    after: DeviceView,
    cancelled: bool,
    log_before: Seq<HostAction>,
    log_after: Seq<HostAction>,
)
    requires
        device.cancel_le_connection_shows(after, cancelled, log_before, log_after),
    ensures
        asked_where(
            device,
            device,
            device.le.le_connecting,
            cancelled,
            Command::LeCreateConnectionCancel,
            log_before,
            log_after,
        ),
        !after.le.le_connecting,
        after == (DeviceView { le: LeView { le_connecting: false, ..device.le }, ..device }),
{
}

/// A periodic train is looked for exactly where the set is at most 15, no more
/// than 499 events are skipped, and the timeout is from 10 to 16384. The command
/// names the advertiser, with the type of its address.
pub proof fn lemma_periodic_sync_request(
    device: DeviceView,
    after: DeviceView,
    address: Address,
    sid: u8,
    skip: u16,
    timeout: u16,
    filter: bool,
    asked: bool,
    log_before: Seq<HostAction>,
    log_after: Seq<HostAction>,
)
    requires
        device.create_periodic_advertising_sync_shows(
            after,
            address,
            sid,
            skip,
            timeout,
            filter,
            asked,
            log_before,
            log_after,
        ),
    ensures
        after == device,
        asked_where(
            device,
            after,
            sid <= 15 && skip <= 499 && 10 <= timeout <= 16384,
            asked,
            Command::LePeriodicAdvertisingCreateSync {
                options: if filter {
                    1
                } else {
                    0
                },
                advertising_sid: sid,
                advertiser_address_type: address.address_type,
                advertiser_address: address,
                skip,
                sync_timeout: timeout,
                sync_cte_type: 0,
            },
            log_before,
            log_after,
        ),
{
}

/// The other requests on periodic trains: cancelling a search, ending a sync, of
/// which nothing is kept, and listening to it or not.
pub proof fn lemma_periodic_sync_requests(
    device: DeviceView,
    after: DeviceView,
    sync_handle: u16,
    enabled: bool,
    log_before: Seq<HostAction>,
    log_after: Seq<HostAction>,
)
    ensures
        device.cancel_periodic_advertising_sync_shows(after, log_before, log_after) ==> after
            == device && handed(
            device,
            Command::LePeriodicAdvertisingCreateSyncCancel,
            log_before,
            log_after,
        ),
        device.terminate_periodic_advertising_sync_shows(
            after,
            sync_handle,
            log_before,
            log_after,
        ) ==> {
            &&& handed(
                device,
                Command::LePeriodicAdvertisingTerminateSync { sync_handle },
                log_before,
                log_after,
            )
            &&& after == (DeviceView {
                gap: GapView {
                    periodic_syncs: device.gap.periodic_syncs.remove(sync_handle),
                    periodic_report_accumulators: device.gap.periodic_report_accumulators.remove(
                        sync_handle,
                    ),
                    ..device.gap
                },
                ..device
            })
        },
        device.set_periodic_advertising_receive_enabled_shows(
            after,
            sync_handle,
            enabled,
            log_before,
            log_after,
        ) ==> after == device && handed(
            device,
            Command::LeSetPeriodicAdvertisingReceiveEnable {
                sync_handle,
                enable: if enabled {
                    1
                } else {
                    0
                },
            },
            log_before,
            log_after,
        ),
{
}

/// A train is handed to the peer of a connection: the given one, or the selected
/// one. A sync is named by its handle, and an own set by its own.
pub proof fn lemma_periodic_transfers(
    device: DeviceView,
    after: DeviceView,
    handle: u16,
    sync_handle: u16,
    set_handle: u8,
    service_data: u16,
    asked: bool,
    log_before: Seq<HostAction>,
    log_after: Seq<HostAction>,
)
    ensures
        device.transfer_periodic_advertising_sync_on_handle_shows(
            after,
            handle,
            sync_handle,
            service_data,
            asked,
            log_before,
            log_after,
        ) ==> after == device && asked_where(
            device,
            after,
            device.le.le_connections.contains_key(handle),
            asked,
            Command::LePeriodicAdvertisingSyncTransfer {
                connection_handle: handle,
                service_data,
                sync_handle,
            },
            log_before,
            log_after,
        ),
        device.transfer_periodic_advertising_set_info_on_handle_shows(
            after,
            handle,
            set_handle,
            service_data,
            asked,
            log_before,
            log_after,
        ) ==> after == device && asked_where(
            device,
            after,
            device.le.le_connections.contains_key(handle),
            asked,
            Command::LePeriodicAdvertisingSetInfoTransfer {
                connection_handle: handle,
                service_data,
                advertising_handle: set_handle,
            },
            log_before,
            log_after,
        ),
        device.le.connection_handle == Some(handle)
            && device.transfer_periodic_advertising_sync_shows(
            after,
            sync_handle,
            service_data,
            asked,
            log_before,
            log_after,
        ) ==> after == device && asked_where(
            device,
            after,
            true,
            asked,
            Command::LePeriodicAdvertisingSyncTransfer {
                connection_handle: handle,
                service_data,
                sync_handle,
            },
            log_before,
            log_after,
        ),
        device.le.connection_handle == Some(handle)
            && device.transfer_periodic_advertising_set_info_shows(
            after,
            set_handle,
            service_data,
            asked,
            log_before,
            log_after,
        ) ==> after == device && asked_where(
            device,
            after,
            true,
            asked,
            Command::LePeriodicAdvertisingSetInfoTransfer {
                connection_handle: handle,
                service_data,
                advertising_handle: set_handle,
            },
            log_before,
            log_after,
        ),
{
}

/// Whether a command starts the encryption of an LE connection with a key, and
/// with the diversifier and the random number that name it.
pub open spec fn encrypts_with(
    command: Command,
    handle: u16,
    key: [u8; 16],
    diversifier: u16,
    random: Seq<u8>,
) -> bool {
    command matches Command::LeEnableEncryption {
        connection_handle,
        random_number,
        encrypted_diversifier,
        long_term_key,
    } && {
        &&& connection_handle == handle
        &&& random_number@ =~= random
        &&& encrypted_diversifier == diversifier
        &&& long_term_key == key
    }
}

/// Encryption is started on the connection that is given, or on the selected
/// one, with the key that is given. Without parameters, the diversifier and the
/// random number are zero.
pub proof fn lemma_encryption_requests(
    device: DeviceView,
    after: DeviceView,
    handle: u16,
    key: [u8; 16],
    diversifier: u16,
    random: [u8; 8],
    asked: bool,
    log_before: Seq<HostAction>,
    log_after: Seq<HostAction>,
)
    ensures
        ({
            let command = log_after.last()->Command_command;
            let known = device.le.le_connections.contains_key(handle);
            let zero = Seq::new(8, |index: int| 0u8);
            &&& device.enable_encryption_on_handle_shows(
                after,
                handle,
                key,
                asked,
                log_before,
                log_after,
            ) ==> {
                &&& after == device
                &&& asked_where(device, after, known, asked, command, log_before, log_after)
                &&& asked ==> encrypts_with(command, handle, key, 0, zero)
            }
            &&& device.enable_encryption_with_parameters_on_handle_shows(
                after,
                handle,
                key,
                diversifier,
                random,
                asked,
                log_before,
                log_after,
            ) ==> {
                &&& after == device
                &&& asked_where(device, after, known, asked, command, log_before, log_after)
                &&& asked ==> encrypts_with(command, handle, key, diversifier, random@)
            }
            &&& device.le.connection_handle == Some(handle) && device.enable_encryption_shows(
                after,
                key,
                asked,
                log_before,
                log_after,
            ) ==> {
                &&& after == device
                &&& asked_where(device, after, true, asked, command, log_before, log_after)
                &&& encrypts_with(command, handle, key, 0, zero)
            }
            &&& device.le.connection_handle == Some(handle)
                && device.enable_encryption_with_parameters_shows(
                after,
                key,
                diversifier,
                random,
                asked,
                log_before,
                log_after,
            ) ==> {
                &&& after == device
                &&& asked_where(device, after, true, asked, command, log_before, log_after)
                &&& encrypts_with(command, handle, key, diversifier, random@)
            }
        }),
{
}

/// A request for a long term key is answered for the connection that it came
/// for: with the key that was found, or not at all before the owner has one.
pub proof fn lemma_key_request_answers(
    device: DeviceView,
    after: DeviceView,
    request: LongTermKeyRequestInfo,
    key: [u8; 16],
    done: bool,
    log_before: Seq<HostAction>,
    log_after: Seq<HostAction>,
)
    ensures
        ({
            let handle = request.connection_handle;
            let known = device.le.le_connections.contains_key(handle);
            let reply = Command::LeLongTermKeyRequestReply {
                connection_handle: handle,
                long_term_key: key,
            };
            let refusal = Command::LeLongTermKeyRequestNegativeReply { connection_handle: handle };
            &&& device.reply_long_term_key_request_shows(
                after,
                handle,
                key,
                done,
                log_before,
                log_after,
            ) ==> after == device && asked_where(
                device,
                after,
                known,
                done,
                reply,
                log_before,
                log_after,
            )
            &&& device.reject_long_term_key_request_shows(
                after,
                handle,
                done,
                log_before,
                log_after,
            ) ==> after == device && asked_where(
                device,
                after,
                known,
                done,
                refusal,
                log_before,
                log_after,
            )
            &&& device.answer_long_term_key_request_shows(
                after,
                request,
                Some(key),
                log_before,
                log_after,
            ) ==> after == device && asked_where(
                device,
                after,
                known,
                known,
                reply,
                log_before,
                log_after,
            )
            &&& device.answer_long_term_key_request_shows(
                after,
                request,
                None,
                log_before,
                log_after,
            ) ==> {
                &&& log_after == log_before
                &&& after == (DeviceView {
                    security: SecurityView {
                        long_term_key_requests: device.security.long_term_key_requests.push(
                            request,
                        ),
                        ..device.security
                    },
                    ..device
                })
            }
        }),
{
}

/// The requests on Classic connections and peers name the connection or the
/// peer that is given.
pub proof fn lemma_classic_requests(
    device: DeviceView,
    after: DeviceView,
    handle: u16,
    peer: Address,
    role: u8,
    enabled: bool,
    asked: bool,
    log_before: Seq<HostAction>,
    log_after: Seq<HostAction>,
)
    ensures
        ({
            let known = device.classic.classic_connections.contains_key(handle);
            let encryption = Command::SetConnectionEncryption {
                connection_handle: handle,
                encryption_enable: if enabled {
                    1
                } else {
                    0
                },
            };
            &&& device.authenticate_classic_on_handle_shows(
                after,
                handle,
                asked,
                log_before,
                log_after,
            ) ==> after == device && asked_where(
                device,
                after,
                known,
                asked,
                Command::AuthenticationRequested { connection_handle: handle },
                log_before,
                log_after,
            )
            &&& device.set_classic_encryption_on_handle_shows(
                after,
                handle,
                enabled,
                asked,
                log_before,
                log_after,
            ) ==> after == device && asked_where(
                device,
                after,
                known,
                asked,
                encryption,
                log_before,
                log_after,
            )
            &&& device.classic.classic_connection_handle == Some(handle)
                && device.set_classic_encryption_shows(
                after,
                enabled,
                asked,
                log_before,
                log_after,
            ) ==> after == device && asked_where(
                device,
                after,
                true,
                asked,
                encryption,
                log_before,
                log_after,
            )
            &&& device.switch_classic_role_shows(after, peer, role, log_before, log_after)
                ==> after == device && handed(
                device,
                Command::SwitchRole { bd_addr: peer, role },
                log_before,
                log_after,
            )
            &&& device.cancel_classic_connection_shows(after, peer, log_before, log_after)
                ==> after == device && handed(
                device,
                Command::CreateConnectionCancel { bd_addr: peer },
                log_before,
                log_after,
            )
        }),
{
}

/// A Classic connection is asked for with the peer's address, allows a role
/// switch, and notes that the device will be its central.
pub proof fn lemma_classic_connect(
    device: DeviceView,
    after: DeviceView,
    peer: Address,
    log_before: Seq<HostAction>,
    log_after: Seq<HostAction>,
)
    requires
        device.connect_classic_shows(after, peer, log_before, log_after),
    ensures
        handed(
            device,
            Command::CreateConnection {
                bd_addr: peer,
                packet_type: 0,
                page_scan_repetition_mode: 0,
                reserved: 0,
                clock_offset: 0,
                allow_role_switch: 1,
            },
            log_before,
            log_after,
        ),
        exists|index: int|
            0 <= index < after.classic.pending_classic_roles.len() && (
            #[trigger] after.classic.pending_classic_roles[index]) == (peer, 0u8),
        after == (DeviceView {
            classic: ClassicView {
                pending_classic_roles: after.classic.pending_classic_roles,
                ..device.classic
            },
            ..device
        }),
{
    let roles = device.classic.pending_classic_roles;
    let filed = crate::commands::addresses(roles);
    filed.index_of_first_ensures(peer);
    match crate::commands::first_at(roles, peer) {
        Some(index) => {
            assert(after.classic.pending_classic_roles[index] == (peer, 0u8));
        },
        None => {
            assert(after.classic.pending_classic_roles[roles.len() as int] == (peer, 0u8));
        },
    }
}

/// The number that enables inquiry scan by bit zero and page scan by bit one.
pub open spec fn scan_number(inquiry: bool, page: bool) -> u8 {
    if inquiry && page {
        3
    } else if page {
        2
    } else if inquiry {
        1
    } else {
        0
    }
}

/// Scanning is enabled as asked, and a device that becomes connectable keeps its
/// discoverability. Without Classic, nothing is handed over.
pub proof fn lemma_scan_enable(
    device: DeviceView,
    after: DeviceView,
    inquiry: bool,
    page: bool,
    log_before: Seq<HostAction>,
    log_after: Seq<HostAction>,
)
    ensures
        device.set_classic_scan_enable_shows(after, inquiry, page, log_before, log_after)
            ==> after == device && handed(
            device,
            Command::WriteScanEnable { scan_enable: scan_number(inquiry, page) },
            log_before,
            log_after,
        ),
        device.set_connectable_shows(after, page, log_before, log_after) ==> {
            &&& after.config.connectable == page
            &&& after.config.discoverable == device.config.discoverable
            &&& after == (DeviceView { config: after.config, ..device })
            &&& device.config.classic_enabled ==> handed(
                device,
                Command::WriteScanEnable {
                    scan_enable: scan_number(device.config.discoverable, page),
                },
                log_before,
                log_after,
            )
            &&& !device.config.classic_enabled ==> log_after == log_before
        },
{
}

/// The requests on streams and groups name what is given. A group is ended
/// exactly where it is known.
pub proof fn lemma_stream_requests(
    device: DeviceView,
    after: DeviceView,
    handle: u16,
    big: u8,
    reason: u8,
    asked: bool,
    log_before: Seq<HostAction>,
    log_after: Seq<HostAction>,
)
    ensures
        device.accept_cis_shows(after, handle, log_before, log_after) ==> after == device
            && handed(
            device,
            Command::LeAcceptCisRequest { connection_handle: handle },
            log_before,
            log_after,
        ),
        device.reject_cis_shows(after, handle, reason, log_before, log_after) ==> after == device
            && handed(
            device,
            Command::LeRejectCisRequest { connection_handle: handle, reason },
            log_before,
            log_after,
        ),
        device.terminate_big_shows(after, big, reason, asked, log_before, log_after) ==> after
            == device && asked_where(
            device,
            after,
            device.iso.bigs.contains_key(big),
            asked,
            Command::LeTerminateBig { big_handle: big, reason },
            log_before,
            log_after,
        ),
        device.terminate_big_sync_shows(after, big, asked, log_before, log_after) ==> after
            == device && asked_where(
            device,
            after,
            device.iso.big_syncs.contains_key(big),
            asked,
            Command::LeBigTerminateSync { big_handle: big },
            log_before,
            log_after,
        ),
        device.read_iso_tx_sync_shows(after, handle, asked, log_before, log_after) ==> {
            &&& asked_where(
                device,
                after,
                device.iso.cis_links.contains_key(handle)
                    || device.iso.bis_directions.contains_key(handle),
                asked,
                Command::LeReadIsoTxSync { connection_handle: handle },
                log_before,
                log_after,
            )
            &&& asked ==> after == (DeviceView {
                iso: IsoView {
                    pending_iso_tx_syncs: device.iso.pending_iso_tx_syncs.push(handle),
                    ..device.iso
                },
                ..device
            })
        },
{
}

/// Whether a stream has a data path in a direction.
pub open spec fn has_path(device: DeviceView, handle: u16, direction: u8) -> bool {
    device.iso.iso_data_paths.contains_key(handle)
        && device.iso.iso_data_paths[handle].contains_key(direction)
}

/// Data paths are removed from a known stream in one direction or in both: bit
/// zero of the directions stands for the path away from the host, and bit one
/// for the path towards it. Only those that there are, are asked for, and where
/// there is none, nothing is.
pub proof fn lemma_data_path_removal(
    device: DeviceView,
    after: DeviceView,
    handle: u16,
    directions: u8,
    accepted: bool,
    log_before: Seq<HostAction>,
    log_after: Seq<HostAction>,
)
    requires
        device.remove_iso_data_path_shows(
            after,
            handle,
            directions,
            accepted,
            log_before,
            log_after,
        ),
    ensures
        accepted <==> (device.iso.cis_links.contains_key(handle)
            || device.iso.bis_directions.contains_key(handle)) && 1 <= directions <= 3,
        ({
            let away = directions % 2 == 1 && has_path(device, handle, 0);
            let towards = directions / 2 == 1 && has_path(device, handle, 1);
            let number: u8 = if away && towards {
                3
            } else if towards {
                2
            } else {
                1
            };
            &&& !accepted || !(away || towards) ==> after == device && log_after == log_before
            &&& accepted && (away || towards) && !device.iso.pending_iso_data_path_removals.contains(
                (handle, number),
            ) ==> {
                &&& handed(
                    device,
                    Command::LeRemoveIsoDataPath {
                        connection_handle: handle,
                        data_path_direction: number,
                    },
                    log_before,
                    log_after,
                )
                &&& after == (DeviceView {
                    iso: IsoView {
                        pending_iso_data_path_removals:
                            device.iso.pending_iso_data_path_removals.push((handle, number)),
                        ..device.iso
                    },
                    ..device
                })
            }
            &&& device.iso.pending_iso_data_path_removals.contains((handle, number)) && (away
                || towards) ==> after == device && log_after == log_before
        }),
{
    assert((directions & 0x01 != 0) == (directions % 2 == 1) && (directions <= 3 ==> (directions
        & 0x02 != 0) == (directions / 2 == 1))) by (bit_vector);
}

/// Legacy and periodic advertising are stopped by one command each.
pub proof fn lemma_advertising_stopped(
    device: DeviceView,
    after: DeviceView,
    handle: u8,
    log_before: Seq<HostAction>,
    log_after: Seq<HostAction>,
)
    ensures
        device.stop_advertising_shows(after, log_before, log_after) ==> {
            &&& handed(
                device,
                Command::LeSetAdvertisingEnable { advertising_enable: 0 },
                log_before,
                log_after,
            )
            &&& after == (DeviceView {
                gap: GapView { legacy_advertising: false, ..device.gap },
                ..device
            })
        },
        device.stop_periodic_advertising_shows(after, handle, log_before, log_after) ==> after
            == device && handed(
            device,
            Command::LeSetPeriodicAdvertisingEnable { enable: 0, advertising_handle: handle },
            log_before,
            log_after,
        ),
{
}

/// Whether a configuration of Channel Sounding is known on a connection.
pub open spec fn knows_configuration(device: DeviceView, handle: u16, config_id: u8) -> bool {
    device.le.le_connections.contains_key(handle)
        && device.le.le_connections[handle].channel_sounding_configs.contains_key(config_id)
}

/// The requests of Channel Sounding name the connection, and the configuration
/// where they concern one, which has to be known.
pub proof fn lemma_sounding_requests(
    device: DeviceView,
    after: DeviceView,
    handle: u16,
    config_id: u8,
    settings: ChannelSoundingDefaultSettings,
    enabled: bool,
    asked: bool,
    log_before: Seq<HostAction>,
    log_after: Seq<HostAction>,
)
    ensures
        ({
            let known = device.le.le_connections.contains_key(handle);
            &&& device.read_remote_channel_sounding_capabilities_on_handle_shows(
                after,
                handle,
                asked,
                log_before,
                log_after,
            ) ==> after == device && asked_where(
                device,
                after,
                known,
                asked,
                Command::LeCsReadRemoteSupportedCapabilities { connection_handle: handle },
                log_before,
                log_after,
            )
            &&& device.set_default_channel_sounding_settings_on_handle_shows(
                after,
                handle,
                settings,
                asked,
                log_before,
                log_after,
            ) ==> after == device && asked_where(
                device,
                after,
                known,
                asked,
                Command::LeCsSetDefaultSettings {
                    connection_handle: handle,
                    role_enable: settings.role_enable,
                    cs_sync_antenna_selection: settings.cs_sync_antenna_selection,
                    max_tx_power: settings.max_tx_power,
                },
                log_before,
                log_after,
            )
            &&& device.enable_channel_sounding_security_on_handle_shows(
                after,
                handle,
                asked,
                log_before,
                log_after,
            ) ==> after == device && asked_where(
                device,
                after,
                known,
                asked,
                Command::LeCsSecurityEnable { connection_handle: handle },
                log_before,
                log_after,
            )
            &&& device.remove_channel_sounding_config_on_handle_shows(
                after,
                handle,
                config_id,
                asked,
                log_before,
                log_after,
            ) ==> after == device && asked_where(
                device,
                after,
                knows_configuration(device, handle, config_id),
                asked,
                Command::LeCsRemoveConfig { connection_handle: handle, config_id },
                log_before,
                log_after,
            )
            &&& device.enable_channel_sounding_procedure_on_handle_shows(
                after,
                handle,
                config_id,
                enabled,
                asked,
                log_before,
                log_after,
            ) ==> after == device && asked_where(
                device,
                after,
                knows_configuration(device, handle, config_id),
                asked,
                Command::LeCsProcedureEnable {
                    connection_handle: handle,
                    config_id,
                    enable: if enabled {
                        1
                    } else {
                        0
                    },
                },
                log_before,
                log_after,
            )
        }),
{
}

/// The parameters of a procedure are handed over each in its own place, for a
/// configuration that is known.
pub proof fn lemma_procedure_parameters(
    device: DeviceView,
    after: DeviceView,
    handle: u16,
    config_id: u8,
    parameters: ChannelSoundingProcedureParameters,
    asked: bool,
    log_before: Seq<HostAction>,
    log_after: Seq<HostAction>,
)
    requires
        device.set_channel_sounding_procedure_parameters_on_handle_shows(
            after,
            handle,
            config_id,
            parameters,
            asked,
            log_before,
            log_after,
        ),
    ensures
        after == device,
        asked_where(
            device,
            after,
            knows_configuration(device, handle, config_id),
            asked,
            Command::LeCsSetProcedureParameters {
                connection_handle: handle,
                config_id,
                max_procedure_len: parameters.max_procedure_len,
                min_procedure_interval: parameters.min_procedure_interval,
                max_procedure_interval: parameters.max_procedure_interval,
                max_procedure_count: parameters.max_procedure_count,
                min_subevent_len: parameters.min_subevent_len,
                max_subevent_len: parameters.max_subevent_len,
                tone_antenna_config_selection: parameters.tone_antenna_config_selection,
                phy: parameters.phy,
                tx_power_delta: parameters.tx_power_delta,
                preferred_peer_antenna: parameters.preferred_peer_antenna,
                snr_control_initiator: parameters.snr_control_initiator,
                snr_control_reflector: parameters.snr_control_reflector,
            },
            log_before,
            log_after,
        ),
{
}

/// A discovery that is under way is cancelled, and none is from then on.
pub proof fn lemma_discovery_stopped(
    device: DeviceView,
    after: DeviceView,
    log_before: Seq<HostAction>,
    log_after: Seq<HostAction>,
)
    requires
        device.stop_discovery_shows(after, log_before, log_after),
    ensures
        !after.classic.classic_discovering,
        device.classic.classic_discovering ==> handed(
            device,
            Command::InquiryCancel,
            log_before,
            log_after,
        ),
        !device.classic.classic_discovering ==> log_after == log_before,
{
    if device.classic.classic_discovering {
        assert(log_after =~= log_before.push(
            HostAction::Command {
                controller_id: device.controller_id,
                command: Command::InquiryCancel,
            },
        ));
    } else {
        assert(log_after =~= log_before);
    }
}

} // verus!
