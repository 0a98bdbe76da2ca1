//! What a host asks of its controller after a reset, and what it learns.

use crate::connection::{
    ControllerBufferInfo, LeSuggestedDefaultDataLength, LocalVersionInformation,
};
use crate::device::DeviceView;
use crate::hci::{Command, Event, ReturnParameters};
use crate::pairing_laws::heard;
use crate::pools::PoolsView;
use crate::power_laws::lemma_in_either;
use crate::setup::{le_feature_bit, OptionalCommand, SetupStatus, SetupView};
use crate::transport::{command_if, lemma_sent_between, only_commands, sent_between, HostAction};
use vstd::prelude::*;

verus! {

/// The value of a bit in a byte.
pub open spec fn bit_weight(bit: int) -> int {
    if bit == 0 {
        1
    } else if bit == 1 {
        2
    } else if bit == 2 {
        4
    } else if bit == 3 {
        8
    } else if bit == 4 {
        16
    } else if bit == 5 {
        32
    } else if bit == 6 {
        64
    } else {
        128
    }
}

/// Whether a byte has a bit.
pub open spec fn byte_has(byte: u8, bit: int) -> bool {
    (byte as int / bit_weight(bit)) % 2 == 1
}

/// A bit that is tested by its mask.
proof fn lemma_masked(byte: u8, bit: u8)
    requires
        bit < 8,
    ensures
        (byte & (1u8 << bit) != 0) == byte_has(byte, bit as int),
        byte & 1 != 0 <==> byte_has(byte, 0),
        byte & 2 != 0 <==> byte_has(byte, 1),
        byte & 4 != 0 <==> byte_has(byte, 2),
        byte & 8 != 0 <==> byte_has(byte, 3),
        byte & 16 != 0 <==> byte_has(byte, 4),
        byte & 32 != 0 <==> byte_has(byte, 5),
        byte & 64 != 0 <==> byte_has(byte, 6),
        byte & 128 != 0 <==> byte_has(byte, 7),
{
    assert((byte & 1 != 0) == ((byte / 1) % 2 == 1) && (byte & 2 != 0) == ((byte / 2) % 2 == 1)
        && (byte & 4 != 0) == ((byte / 4) % 2 == 1) && (byte & 8 != 0) == ((byte / 8) % 2 == 1)
        && (byte & 16 != 0) == ((byte / 16) % 2 == 1) && (byte & 32 != 0) == ((byte / 32) % 2
        == 1) && (byte & 64 != 0) == ((byte / 64) % 2 == 1) && (byte & 128 != 0) == ((byte / 128)
        % 2 == 1)) by (bit_vector);
    assert(1u8 << 0u8 == 1u8 && 1u8 << 1u8 == 2u8 && 1u8 << 2u8 == 4u8 && 1u8 << 3u8 == 8u8 && 1u8
        << 4u8 == 16u8 && 1u8 << 5u8 == 32u8 && 1u8 << 6u8 == 64u8 && 1u8 << 7u8 == 128u8)
        by (bit_vector);
}

/// Where the bitmap of supported commands speaks of a command: the octet and the
/// bit.
pub open spec fn command_bit(command: OptionalCommand) -> (int, int) {
    match command {
        OptionalCommand::ReadLocalVersionInformation => (14, 3),
        OptionalCommand::ReadLocalSupportedFeatures => (14, 5),
        OptionalCommand::ReadLocalExtendedFeatures => (14, 6),
        OptionalCommand::ReadBufferSize => (14, 7),
        OptionalCommand::SetEventMaskPage2 => (22, 2),
        OptionalCommand::LeReadBufferSize => (25, 1),
        OptionalCommand::LeReadLocalSupportedFeatures => (25, 2),
        OptionalCommand::LeReadSuggestedDefaultDataLength => (33, 7),
        OptionalCommand::LeWriteSuggestedDefaultDataLength => (34, 0),
        OptionalCommand::LeReadMaximumAdvertisingDataLength => (36, 6),
        OptionalCommand::LeReadNumberOfSupportedAdvertisingSets => (36, 7),
        OptionalCommand::LeReadBufferSizeV2 => (41, 5),
        OptionalCommand::LeReadAllLocalSupportedFeatures => (47, 2),
    }
}

/// A command is supported if and only if its own bit of the bitmap is set.
/// Before the bitmap is known, none is.
pub proof fn lemma_supported_commands(status: SetupStatus, command: OptionalCommand)
    ensures
        status.local_supported_commands is None ==> !status.spec_supports(command),
        status.local_supported_commands is Some ==> (status.spec_supports(command) <==> byte_has(
            status.local_supported_commands->0@[command_bit(command).0],
            command_bit(command).1,
        )),
{
    if status.local_supported_commands is Some {
        lemma_masked(status.local_supported_commands->0@[command_bit(command).0], 0);
    }
}

/// An LMP feature is bit `feature % 64` of page `feature / 64`, and an LE feature
/// is bit `feature` of the bitmap, eight to a byte from the least significant.
pub proof fn lemma_feature_bits(setup: SetupView, lmp: u16, le: u8)
    ensures
        lmp < 16384 ==> {
            let page = (lmp / 64) as u8;
            setup.lmp_feature(lmp) <==> setup.lmp_features.contains_key(page) && byte_has(
                setup.lmp_features[page]@[(lmp % 64) as int / 8],
                (lmp % 64) as int % 8,
            )
        },
        lmp >= 16384 ==> !setup.lmp_feature(lmp),
        le_feature_bit(setup.le_features, le) <==> setup.le_features is Some && (le / 8)
            < setup.le_features->0.len() && byte_has(
            setup.le_features->0[le as int / 8],
            le as int % 8,
        ),
{
    let page = (lmp / 64) as u8;
    let bit = lmp % 64;
    if lmp < 16384 && setup.lmp_features.contains_key(page) {
        lemma_masked(setup.lmp_features[page]@[(bit / 8) as int], (bit % 8) as u8);
        assert(setup.lmp_features[page][(bit / 8) as int] == setup.lmp_features[page]@[(bit
            / 8) as int]);
    }
    if setup.le_features is Some && le as int / 8 < setup.le_features->0.len() {
        lemma_masked(setup.le_features->0[le as int / 8], le % 8);
    }
}

/// What is in a list that holds a command where a condition holds.
proof fn lemma_in_optional(condition: bool, command: Command, entry: Command)
    ensures
        command_if(condition, command).contains(entry) == (condition && entry == command),
{
    if condition {
        assert(command_if(condition, command)[0] == command);
    }
}

/// The first questions are asked exactly where the controller can answer them.
/// Of two forms of a question, the better one is asked.
pub proof fn lemma_first_questions(setup: SetupView, command: Command)
    ensures
        ({
            let can = |optional: OptionalCommand| setup.status.spec_supports(optional);
            setup.discovery_commands().contains(command) <==> {
                ||| command == Command::ReadLocalVersionInformation && can(
                    OptionalCommand::ReadLocalVersionInformation,
                )
                ||| command == Command::LeReadAllLocalSupportedFeatures && can(
                    OptionalCommand::LeReadAllLocalSupportedFeatures,
                )
                ||| command == Command::LeReadLocalSupportedFeatures && can(
                    OptionalCommand::LeReadLocalSupportedFeatures,
                ) && !can(OptionalCommand::LeReadAllLocalSupportedFeatures)
                ||| command == (Command::ReadLocalExtendedFeatures { page_number: 0 }) && can(
                    OptionalCommand::ReadLocalExtendedFeatures,
                )
                ||| command == Command::ReadLocalSupportedFeatures && can(
                    OptionalCommand::ReadLocalSupportedFeatures,
                ) && !can(OptionalCommand::ReadLocalExtendedFeatures)
            }
        }),
{
    let status = setup.status;
    let c1 = status.spec_supports(OptionalCommand::ReadLocalVersionInformation);
    let c2 = status.spec_supports(OptionalCommand::LeReadAllLocalSupportedFeatures);
    let c3 = !c2 && status.spec_supports(OptionalCommand::LeReadLocalSupportedFeatures);
    let c4 = status.spec_supports(OptionalCommand::ReadLocalExtendedFeatures);
    let c5 = !c4 && status.spec_supports(OptionalCommand::ReadLocalSupportedFeatures);
    let s1 = command_if(c1, Command::ReadLocalVersionInformation);
    let s2 = command_if(c2, Command::LeReadAllLocalSupportedFeatures);
    let s3 = command_if(c3, Command::LeReadLocalSupportedFeatures);
    let s4 = command_if(c4, Command::ReadLocalExtendedFeatures { page_number: 0 });
    let s5 = command_if(c5, Command::ReadLocalSupportedFeatures);
    lemma_in_optional(c1, Command::ReadLocalVersionInformation, command);
    lemma_in_optional(c2, Command::LeReadAllLocalSupportedFeatures, command);
    lemma_in_optional(c3, Command::LeReadLocalSupportedFeatures, command);
    lemma_in_optional(c4, Command::ReadLocalExtendedFeatures { page_number: 0 }, command);
    lemma_in_optional(c5, Command::ReadLocalSupportedFeatures, command);
    lemma_in_either(s1, s2, command);
    lemma_in_either(s1 + s2, s3, command);
    lemma_in_either(s1 + s2 + s3, s4, command);
    lemma_in_either(s1 + s2 + s3 + s4, s5, command);
    assert(setup.discovery_commands() == s1 + s2 + s3 + s4 + s5);
}

/// The event masks that a host asks for. A controller of Bluetooth 4.0 or older
/// is only asked for the events that it can know.
pub proof fn lemma_event_masks(setup: SetupView)
    ensures
        crate::setup::HOST_EVENT_MASK@ =~= seq![
            0xFFu8,
            0x9Fu8,
            0xFFu8,
            0xBFu8,
            0x07u8,
            0xF8u8,
            0xBFu8,
            0x3Du8,
        ],
        crate::setup::HOST_EVENT_MASK_PAGE_2@ =~= seq![0u8, 0u8, 0u8, 2u8, 0u8, 0u8, 0u8, 0u8],
        setup.status.local_version is Some && setup.status.local_version->0.hci_version <= 6
            ==> setup.le_event_mask()@ =~= seq![0x1Fu8, 0u8, 0u8, 0u8, 0u8, 0u8, 0u8, 0u8],
        setup.status.local_version is None || setup.status.local_version->0.hci_version >= 7
            ==> setup.le_event_mask()@ =~= seq![
            0xFFu8,
            0xFFu8,
            0xF7u8,
            0xFFu8,
            0x0Fu8,
            0xEDu8,
            0x7Bu8,
            0x00u8,
        ],
{
}

/// Initialization asks for the event masks, and for everything else that the
/// controller can tell. Of two forms of a question, the better one is asked. The
/// suggested length is only read where it can be written too.
pub proof fn lemma_initialization_commands(setup: SetupView, command: Command)
    ensures
        ({
            let can = |optional: OptionalCommand| setup.status.spec_supports(optional);
            setup.start_commands().contains(command) <==> {
                ||| command == (Command::SetEventMask {
                    event_mask: crate::setup::HOST_EVENT_MASK,
                })
                ||| command == (Command::SetEventMaskPage2 {
                    event_mask_page_2: crate::setup::HOST_EVENT_MASK_PAGE_2,
                }) && can(OptionalCommand::SetEventMaskPage2)
                ||| command == (Command::LeSetEventMask { le_event_mask: setup.le_event_mask() })
                ||| command == Command::ReadBufferSize && can(OptionalCommand::ReadBufferSize)
                ||| command == Command::LeReadBufferSizeV2 && can(
                    OptionalCommand::LeReadBufferSizeV2,
                )
                ||| command == Command::LeReadBufferSize && can(OptionalCommand::LeReadBufferSize)
                    && !can(OptionalCommand::LeReadBufferSizeV2)
                ||| command == Command::LeReadSuggestedDefaultDataLength && can(
                    OptionalCommand::LeReadSuggestedDefaultDataLength,
                ) && can(OptionalCommand::LeWriteSuggestedDefaultDataLength)
                ||| command == Command::LeReadNumberOfSupportedAdvertisingSets && can(
                    OptionalCommand::LeReadNumberOfSupportedAdvertisingSets,
                )
                ||| command == Command::LeReadMaximumAdvertisingDataLength && can(
                    OptionalCommand::LeReadMaximumAdvertisingDataLength,
                )
            }
        }),
{
    let status = setup.status;
    let m1 = Command::SetEventMask { event_mask: crate::setup::HOST_EVENT_MASK };
    let m2 = Command::SetEventMaskPage2 {
        event_mask_page_2: crate::setup::HOST_EVENT_MASK_PAGE_2,
    };
    let m3 = Command::LeSetEventMask { le_event_mask: setup.le_event_mask() };
    let c2 = status.spec_supports(OptionalCommand::SetEventMaskPage2);
    let c4 = status.spec_supports(OptionalCommand::ReadBufferSize);
    let c5 = status.spec_supports(OptionalCommand::LeReadBufferSizeV2);
    let c6 = !c5 && status.spec_supports(OptionalCommand::LeReadBufferSize);
    let c7 = status.spec_manages_suggested_length();
    let c8 = status.spec_supports(OptionalCommand::LeReadNumberOfSupportedAdvertisingSets);
    let c9 = status.spec_supports(OptionalCommand::LeReadMaximumAdvertisingDataLength);
    let s1 = seq![m1];
    let s2 = command_if(c2, m2);
    let s3 = seq![m3];
    let s4 = command_if(c4, Command::ReadBufferSize);
    let s5 = command_if(c5, Command::LeReadBufferSizeV2);
    let s6 = command_if(c6, Command::LeReadBufferSize);
    let s7 = command_if(c7, Command::LeReadSuggestedDefaultDataLength);
    let s8 = command_if(c8, Command::LeReadNumberOfSupportedAdvertisingSets);
    let s9 = command_if(c9, Command::LeReadMaximumAdvertisingDataLength);
    assert(s1[0] == m1 && s3[0] == m3);
    assert(s1.contains(command) == (command == m1));
    assert(s3.contains(command) == (command == m3));
    lemma_in_optional(c2, m2, command);
    lemma_in_optional(c4, Command::ReadBufferSize, command);
    lemma_in_optional(c5, Command::LeReadBufferSizeV2, command);
    lemma_in_optional(c6, Command::LeReadBufferSize, command);
    lemma_in_optional(c7, Command::LeReadSuggestedDefaultDataLength, command);
    lemma_in_optional(c8, Command::LeReadNumberOfSupportedAdvertisingSets, command);
    lemma_in_optional(c9, Command::LeReadMaximumAdvertisingDataLength, command);
    lemma_in_either(s1, s2, command);
    lemma_in_either(s1 + s2, s3, command);
    lemma_in_either(s1 + s2 + s3, s4, command);
    lemma_in_either(s1 + s2 + s3 + s4, s5, command);
    lemma_in_either(s1 + s2 + s3 + s4 + s5, s6, command);
    lemma_in_either(s1 + s2 + s3 + s4 + s5 + s6, s7, command);
    lemma_in_either(s1 + s2 + s3 + s4 + s5 + s6 + s7, s8, command);
    lemma_in_either(s1 + s2 + s3 + s4 + s5 + s6 + s7 + s8, s9, command);
    assert(setup.start_commands() == s1 + s2 + s3 + s4 + s5 + s6 + s7 + s8 + s9);
}

/// Interlaced scanning is asked for exactly where it is configured and the
/// controller can do it: page scan by LMP feature 29, and inquiry scan by 28.
pub proof fn lemma_interlaced_scanning(setup: SetupView, interlaced: bool, command: Command)
    ensures
        setup.scan_type_commands(interlaced).contains(command) <==> interlaced && {
            ||| command == (Command::WritePageScanType { page_scan_type: 1 })
                && setup.lmp_feature(29)
            ||| command == (Command::WriteInquiryScanType { scan_type: 1 })
                && setup.lmp_feature(28)
        },
{
    let c1 = interlaced && setup.lmp_feature(29);
    let c2 = interlaced && setup.lmp_feature(28);
    let m1 = Command::WritePageScanType { page_scan_type: 1 };
    let m2 = Command::WriteInquiryScanType { scan_type: 1 };
    lemma_in_optional(c1, m1, command);
    lemma_in_optional(c2, m2, command);
    lemma_in_either(command_if(c1, m1), command_if(c2, m2), command);
}

/// Initialization is complete once everything that was asked has been answered,
/// and a success where every answer but those on advertising was one.
pub proof fn lemma_initialization_outcome(status: SetupStatus)
    ensures
        ({
            let can = |optional: OptionalCommand| status.spec_supports(optional);
            let le_buffers = can(OptionalCommand::LeReadBufferSizeV2) || can(
                OptionalCommand::LeReadBufferSize,
            );
            let length = can(OptionalCommand::LeReadSuggestedDefaultDataLength) && can(
                OptionalCommand::LeWriteSuggestedDefaultDataLength,
            );
            &&& status.all_answered() <==> {
                &&& status.event_mask_status is Some
                &&& status.le_event_mask_status is Some
                &&& can(OptionalCommand::SetEventMaskPage2) ==> status.event_mask_page_2_status is
                    Some
                &&& can(OptionalCommand::ReadBufferSize) ==> status.classic_buffer_status is Some
                &&& le_buffers ==> status.le_buffer_status is Some
                &&& length ==> status.suggested_default_data_length_read_status is Some
                &&& status.suggested_default_data_length_write_required
                    ==> status.suggested_default_data_length_write_status is Some
                &&& can(OptionalCommand::LeReadNumberOfSupportedAdvertisingSets)
                    ==> status.number_of_supported_advertising_sets_status is Some
                &&& can(OptionalCommand::LeReadMaximumAdvertisingDataLength)
                    ==> status.maximum_advertising_data_length_status is Some
            }
            &&& status.spec_succeeded() <==> {
                &&& status.host_initialization_complete
                &&& status.event_mask_status == Some(0u8)
                &&& status.le_event_mask_status == Some(0u8)
                &&& can(OptionalCommand::SetEventMaskPage2) ==> status.event_mask_page_2_status
                    == Some(0u8)
                &&& can(OptionalCommand::ReadBufferSize) ==> status.classic_buffer_status == Some(
                    0u8,
                )
                &&& le_buffers ==> status.le_buffer_status == Some(0u8)
                &&& length ==> status.suggested_default_data_length_read_status == Some(0u8)
                &&& length && status.suggested_default_data_length_write_required
                    ==> status.suggested_default_data_length_write_status == Some(0u8)
            }
        }),
{
}

/// A host that has just reset its controller knows nothing of it: no command,
/// version, feature, status or buffer. Legacy advertisements hold 31 bytes.
pub proof fn lemma_nothing_known(ready: bool)
    ensures
        ({
            let setup = SetupView::initial(ready);
            let status = setup.status;
            &&& status.controller_ready == ready
            &&& status.local_supported_commands is None && status.local_version is None
            &&& status.local_lmp_features_max_page is None && status.local_le_features_max_page is
                None
            &&& status.reset_status is None
            &&& !status.host_initialization_started && !status.host_initialization_complete
            &&& status.classic_acl_buffer is None && status.le_acl_buffer is None
            &&& status.iso_buffer is None
            &&& status.suggested_default_data_length is None
            &&& !status.suggested_default_data_length_write_required
            &&& status.number_of_supported_advertising_sets == 0
            &&& status.maximum_advertising_data_length == 31
            &&& status.local_channel_sounding_capabilities is None
            &&& status.event_mask_status is None && status.le_event_mask_status is None
            &&& status.classic_buffer_status is None && status.le_buffer_status is None
            &&& setup.lmp_features.dom() =~= Set::empty()
            &&& setup.lmp_feature_statuses.dom() =~= Set::empty()
            &&& setup.pending_lmp_pages.len() == 0
            &&& setup.le_features is None
        }),
{
}

/// Whether a device has learned something of its controller: what it knows is as
/// expected, but that initialization may have begun or ended by it. Nothing else
/// of the device changes but its packet pools.
pub open spec fn learned(device: DeviceView, after: DeviceView, expected: SetupView) -> bool {
    &&& after.setup == (SetupView {
        status: SetupStatus {
            host_initialization_started: after.setup.status.host_initialization_started,
            host_initialization_complete: after.setup.status.host_initialization_complete,
            ..expected.status
        },
        ..expected
    })
    &&& device.setup.status.host_initialization_started
        ==> after.setup.status.host_initialization_started
    &&& device.setup.status.host_initialization_complete
        ==> after.setup.status.host_initialization_complete
    &&& after == (DeviceView { setup: after.setup, pools: after.pools, ..device })
}

/// What is known with other single values.
pub open spec fn knowing(setup: SetupView, status: SetupStatus) -> SetupView {
    SetupView { status, ..setup }
}

/// How the end of a command shows on a device that is ready.
pub open spec fn command_ended(
    device: DeviceView,
    opcode: u16,
    packets: u8,
    parameters: ReturnParameters,
    after: DeviceView,
    log_before: Seq<HostAction>,
    log_after: Seq<HostAction>,
) -> bool {
    heard(
        device,
        Event::CommandComplete {
            num_hci_command_packets: packets,
            command_opcode: opcode,
            return_parameters: parameters,
        },
        after,
        log_before,
        log_after,
    )
}

/// The version of a controller is kept field by field.
pub proof fn lemma_version_learned(
    device: DeviceView,
    after: DeviceView,
    packets: u8,
    status: u8,
    version: LocalVersionInformation,
    log_before: Seq<HostAction>,
    log_after: Seq<HostAction>,
)
    requires
        command_ended(
            device,
            0x1001,
            packets,
            ReturnParameters::ReadLocalVersionInformation {
                status,
                hci_version: version.hci_version,
                hci_subversion: version.hci_subversion,
                lmp_version: version.lmp_version,
                company_identifier: version.company_identifier,
                lmp_subversion: version.lmp_subversion,
            },
            after,
            log_before,
            log_after,
        ),
    ensures
        after.pools == device.pools,
        learned(
            device,
            after,
            knowing(
                device.setup,
                SetupStatus {
                    local_version_status: Some(status),
                    local_version: if status == 0 {
                        Some(version)
                    } else {
                        device.setup.status.local_version
                    },
                    ..device.setup.status
                },
            ),
        ),
{
}

/// The commands of a controller are kept as they are told. Where it has extended
/// features, the first page of them is awaited from then on.
pub proof fn lemma_commands_learned(
    device: DeviceView,
    after: DeviceView,
    packets: u8,
    status: u8,
    supported: [u8; 64],
    log_before: Seq<HostAction>,
    log_after: Seq<HostAction>,
)
    requires
        command_ended(
            device,
            0x1002,
            packets,
            ReturnParameters::ReadLocalSupportedCommands {
                status,
                supported_commands: supported,
            },
            after,
            log_before,
            log_after,
        ),
    ensures
        after.pools == device.pools,
        only_commands(log_before, log_after, device.controller_id),
        after.setup.status.local_supported_commands_status == Some(status),
        status == 0 ==> after.setup.status.local_supported_commands == Some(supported),
        status == 0 ==> after.setup.pending_lmp_pages == if byte_has(supported@[14], 6) {
            device.setup.pending_lmp_pages.push(0)
        } else {
            device.setup.pending_lmp_pages
        },
        status != 0 ==> after.setup.status.local_supported_commands
            == device.setup.status.local_supported_commands,
        status != 0 ==> sent_between(log_before, log_after).len() == 0,
        after.setup.lmp_features == device.setup.lmp_features,
        after.setup.le_features == device.setup.le_features,
        after.setup.status.local_version == device.setup.status.local_version,
{
    lemma_masked(supported@[14], 6);
    lemma_sent_between(
        log_before,
        log_after,
        device.controller_id,
        device.event_step(
            Event::CommandComplete {
                num_hci_command_packets: packets,
                command_opcode: 0x1002,
                return_parameters: ReturnParameters::ReadLocalSupportedCommands {
                    status,
                    supported_commands: supported,
                },
            },
        ).sent,
    );
}

/// A page of LMP features is kept under its number, is no longer awaited, and the
/// next one is asked for until the last one has come.
pub proof fn lemma_lmp_page_learned(
    device: DeviceView,
    after: DeviceView,
    packets: u8,
    status: u8,
    page: u8,
    last: u8,
    features: [u8; 8],
    log_before: Seq<HostAction>,
    log_after: Seq<HostAction>,
)
    requires
        command_ended(
            device,
            0x1004,
            packets,
            ReturnParameters::ReadLocalExtendedFeatures {
                status,
                page_number: page,
                maximum_page_number: last,
                extended_lmp_features: features,
            },
            after,
            log_before,
            log_after,
        ),
    ensures
        after.pools == device.pools,
        only_commands(log_before, log_after, device.controller_id),
        ({
            let more = status == 0 && page < last;
            let sent = sent_between(log_before, log_after);
            let awaited = device.setup.pending_lmp_pages.remove_value(page);
            &&& learned(
                device,
                after,
                SetupView {
                    status: SetupStatus {
                        local_lmp_features_max_page: if status == 0 {
                            Some(last)
                        } else {
                            device.setup.status.local_lmp_features_max_page
                        },
                        ..device.setup.status
                    },
                    lmp_feature_statuses: device.setup.lmp_feature_statuses.insert(page, status),
                    lmp_features: if status == 0 {
                        device.setup.lmp_features.insert(page, features)
                    } else {
                        device.setup.lmp_features
                    },
                    pending_lmp_pages: if more {
                        awaited.push((page + 1) as u8)
                    } else {
                        awaited
                    },
                    ..device.setup
                },
            )
            &&& more ==> {
                &&& sent.len() > 0
                &&& sent[0] matches Command::ReadLocalExtendedFeatures { page_number }
                    && page_number == page + 1
            }
        }),
{
    let step = device.event_step(
        Event::CommandComplete {
            num_hci_command_packets: packets,
            command_opcode: 0x1004,
            return_parameters: ReturnParameters::ReadLocalExtendedFeatures {
                status,
                page_number: page,
                maximum_page_number: last,
                extended_lmp_features: features,
            },
        },
    );
    lemma_sent_between(log_before, log_after, device.controller_id, step.sent);
}

/// The only page of an older controller's LMP features is page zero, and the last.
pub proof fn lemma_lmp_features_learned(
    device: DeviceView,
    after: DeviceView,
    packets: u8,
    status: u8,
    features: [u8; 8],
    log_before: Seq<HostAction>,
    log_after: Seq<HostAction>,
)
    requires
        command_ended(
            device,
            0x1003,
            packets,
            ReturnParameters::ReadLocalSupportedFeatures { status, lmp_features: features },
            after,
            log_before,
            log_after,
        ),
    ensures
        after.pools == device.pools,
        learned(
            device,
            after,
            SetupView {
                status: SetupStatus {
                    local_lmp_features_max_page: if status == 0 {
                        Some(0)
                    } else {
                        device.setup.status.local_lmp_features_max_page
                    },
                    ..device.setup.status
                },
                lmp_feature_statuses: device.setup.lmp_feature_statuses.insert(0, status),
                lmp_features: if status == 0 {
                    device.setup.lmp_features.insert(0, features)
                } else {
                    device.setup.lmp_features
                },
                ..device.setup
            },
        ),
{
}

/// The LE features of a controller are kept as told, with the number of the last
/// page where all were told.
pub proof fn lemma_le_features_learned(
    device: DeviceView,
    after: DeviceView,
    packets: u8,
    status: u8,
    last: u8,
    all: [u8; 248],
    some: [u8; 8],
    every: bool,
    log_before: Seq<HostAction>,
    log_after: Seq<HostAction>,
)
    requires
        command_ended(
            device,
            if every {
                0x2087
            } else {
                0x2003
            },
            packets,
            if every {
                ReturnParameters::LeReadAllLocalSupportedFeatures {
                    status,
                    max_page: last,
                    le_features: all,
                }
            } else {
                ReturnParameters::LeReadLocalSupportedFeatures { status, le_features: some }
            },
            after,
            log_before,
            log_after,
        ),
    ensures
        after.pools == device.pools,
        learned(
            device,
            after,
            SetupView {
                status: SetupStatus {
                    local_le_features_status: Some(status),
                    local_le_features_max_page: if status != 0 {
                        device.setup.status.local_le_features_max_page
                    } else if every {
                        Some(last)
                    } else {
                        None
                    },
                    ..device.setup.status
                },
                le_features: if status != 0 {
                    device.setup.le_features
                } else if every {
                    Some(all@)
                } else {
                    Some(some@)
                },
                ..device.setup
            },
        ),
{
}

/// Whether a queue is empty, with a window of a given size.
pub open spec fn empty_window<P>(queue: crate::data_queue::QueueView<P>, size: int) -> bool {
    &&& queue.max_in_flight == size
    &&& queue.waiting.len() == 0
    &&& queue.counters.dom() =~= Set::empty()
    &&& queue.queued == 0 && queue.completed == 0
}

/// The Classic packet pool is kept as told, and it is the one that Classic
/// packets go through from then on, unless it has no room.
pub proof fn lemma_classic_pool_learned(
    device: DeviceView,
    after: DeviceView,
    packets: u8,
    status: u8,
    length: u16,
    synchronous_length: u8,
    total: u16,
    synchronous_total: u16,
    log_before: Seq<HostAction>,
    log_after: Seq<HostAction>,
)
    requires
        command_ended(
            device,
            0x1005,
            packets,
            ReturnParameters::ReadBufferSize {
                status,
                hc_acl_data_packet_length: length,
                hc_synchronous_data_packet_length: synchronous_length,
                hc_total_num_acl_data_packets: total,
                hc_total_num_synchronous_data_packets: synchronous_total,
            },
            after,
            log_before,
            log_after,
        ),
    ensures
        learned(
            device,
            after,
            knowing(
                device.setup,
                SetupStatus {
                    classic_buffer_status: Some(status),
                    classic_acl_buffer: if status == 0 {
                        Some(
                            ControllerBufferInfo {
                                data_packet_length: length,
                                total_num_data_packets: total,
                            },
                        )
                    } else {
                        device.setup.status.classic_acl_buffer
                    },
                    ..device.setup.status
                },
            ),
        ),
        status == 0 && length > 0 && total > 0 ==> {
            &&& after.pools.acl_data_packet_length == length
            &&& empty_window(after.pools.acl, total as int)
        },
        !(status == 0 && length > 0 && total > 0) ==> after.pools == device.pools,
        after.pools.le_acl == device.pools.le_acl,
        after.pools.iso == device.pools.iso,
{
}

/// The LE and ISO packet pools are kept as told. Each is used from then on where
/// it has room, and is none where it has not.
pub proof fn lemma_le_pools_learned(
    device: DeviceView,
    after: DeviceView,
    packets: u8,
    status: u8,
    length: u16,
    total: u8,
    iso_length: u16,
    iso_total: u8,
    log_before: Seq<HostAction>,
    log_after: Seq<HostAction>,
)
    requires
        command_ended(
            device,
            0x2060,
            packets,
            ReturnParameters::LeReadBufferSizeV2 {
                status,
                le_acl_data_packet_length: length,
                total_num_le_acl_data_packets: total,
                iso_data_packet_length: iso_length,
                total_num_iso_data_packets: iso_total,
            },
            after,
            log_before,
            log_after,
        ),
    ensures
        learned(
            device,
            after,
            knowing(
                device.setup,
                SetupStatus {
                    le_buffer_status: Some(status),
                    le_acl_buffer: if status == 0 {
                        Some(
                            ControllerBufferInfo {
                                data_packet_length: length,
                                total_num_data_packets: total as u16,
                            },
                        )
                    } else {
                        device.setup.status.le_acl_buffer
                    },
                    iso_buffer: if status == 0 {
                        Some(
                            ControllerBufferInfo {
                                data_packet_length: iso_length,
                                total_num_data_packets: iso_total as u16,
                            },
                        )
                    } else {
                        device.setup.status.iso_buffer
                    },
                    ..device.setup.status
                },
            ),
        ),
        status != 0 ==> after.pools == device.pools,
        after.pools.acl == device.pools.acl,
        after.pools.acl_data_packet_length == device.pools.acl_data_packet_length,
        status == 0 ==> {
            &&& after.pools.le_acl is Some <==> length > 0 && total > 0
            &&& after.pools.le_acl is Some ==> {
                &&& after.pools.le_acl_data_packet_length is Some
                &&& after.pools.le_acl_data_packet_length->0 == length
                &&& empty_window(after.pools.le_acl->0, total as int)
            }
            &&& after.pools.le_acl is None ==> after.pools.le_acl_data_packet_length is None
            &&& after.pools.iso is Some <==> iso_length > 0 && iso_total > 0
            &&& after.pools.iso is Some ==> {
                &&& after.pools.iso_data_packet_length is Some
                &&& after.pools.iso_data_packet_length->0 == iso_length
                &&& empty_window(after.pools.iso->0, iso_total as int)
            }
            &&& after.pools.iso is None ==> after.pools.iso_data_packet_length is None
        },
{
}

/// The older form of the answer tells the LE pool alone.
pub proof fn lemma_le_pool_learned(
    device: DeviceView,
    after: DeviceView,
    packets: u8,
    status: u8,
    length: u16,
    total: u8,
    log_before: Seq<HostAction>,
    log_after: Seq<HostAction>,
)
    requires
        command_ended(
            device,
            0x2002,
            packets,
            ReturnParameters::LeReadBufferSize {
                status,
                le_acl_data_packet_length: length,
                total_num_le_acl_data_packets: total,
            },
            after,
            log_before,
            log_after,
        ),
    ensures
        learned(
            device,
            after,
            knowing(
                device.setup,
                SetupStatus {
                    le_buffer_status: Some(status),
                    le_acl_buffer: if status == 0 {
                        Some(
                            ControllerBufferInfo {
                                data_packet_length: length,
                                total_num_data_packets: total as u16,
                            },
                        )
                    } else {
                        device.setup.status.le_acl_buffer
                    },
                    ..device.setup.status
                },
            ),
        ),
        status != 0 ==> after.pools == device.pools,
        after.pools.acl == device.pools.acl,
        after.pools.iso == device.pools.iso,
        status == 0 ==> {
            &&& after.pools.le_acl is Some <==> length > 0 && total > 0
            &&& after.pools.le_acl is Some ==> {
                &&& after.pools.le_acl_data_packet_length is Some
                &&& after.pools.le_acl_data_packet_length->0 == length
                &&& empty_window(after.pools.le_acl->0, total as int)
            }
        },
{
}

/// The suggested data length is kept as told. Where it is not the longest, the
/// longest is written: 251 octets in 2120 microseconds.
pub proof fn lemma_suggested_length_learned(
    device: DeviceView,
    after: DeviceView,
    packets: u8,
    status: u8,
    octets: u16,
    time: u16,
    log_before: Seq<HostAction>,
    log_after: Seq<HostAction>,
)
    requires
        command_ended(
            device,
            0x2023,
            packets,
            ReturnParameters::LeReadSuggestedDefaultDataLength {
                status,
                suggested_max_tx_octets: octets,
                suggested_max_tx_time: time,
            },
            after,
            log_before,
            log_after,
        ),
    ensures
        after.pools == device.pools,
        only_commands(log_before, log_after, device.controller_id),
        ({
            let shorter = octets != 251 || time != 2120;
            let sent = sent_between(log_before, log_after);
            &&& learned(
                device,
                after,
                knowing(
                    device.setup,
                    SetupStatus {
                        suggested_default_data_length_read_status: Some(status),
                        suggested_default_data_length: if status == 0 {
                            Some(
                                LeSuggestedDefaultDataLength {
                                    suggested_max_tx_octets: octets,
                                    suggested_max_tx_time: time,
                                },
                            )
                        } else {
                            device.setup.status.suggested_default_data_length
                        },
                        suggested_default_data_length_write_required: if status == 0 {
                            shorter
                        } else {
                            device.setup.status.suggested_default_data_length_write_required
                        },
                        ..device.setup.status
                    },
                ),
            )
            &&& status == 0 && shorter ==> {
                &&& sent.len() > 0
                &&& sent[0] == (Command::LeWriteSuggestedDefaultDataLength {
                    suggested_max_tx_octets: 251,
                    suggested_max_tx_time: 2120,
                })
            }
        }),
{
    let step = device.event_step(
        Event::CommandComplete {
            num_hci_command_packets: packets,
            command_opcode: 0x2023,
            return_parameters: ReturnParameters::LeReadSuggestedDefaultDataLength {
                status,
                suggested_max_tx_octets: octets,
                suggested_max_tx_time: time,
            },
        },
    );
    lemma_sent_between(log_before, log_after, device.controller_id, step.sent);
}

/// How many advertising sets there are, and how much they hold, is kept as told.
pub proof fn lemma_advertising_limits_learned(
    device: DeviceView,
    after: DeviceView,
    packets: u8,
    status: u8,
    sets: u8,
    length: u16,
    of_sets: bool,
    log_before: Seq<HostAction>,
    log_after: Seq<HostAction>,
)
    requires
        command_ended(
            device,
            if of_sets {
                0x203B
            } else {
                0x203A
            },
            packets,
            if of_sets {
                ReturnParameters::LeReadNumberOfSupportedAdvertisingSets {
                    status,
                    num_supported_advertising_sets: sets,
                }
            } else {
                ReturnParameters::LeReadMaximumAdvertisingDataLength {
                    status,
                    max_advertising_data_length: length,
                }
            },
            after,
            log_before,
            log_after,
        ),
    ensures
        after.pools == device.pools,
        of_sets ==> learned(
            device,
            after,
            knowing(
                device.setup,
                SetupStatus {
                    number_of_supported_advertising_sets_status: Some(status),
                    number_of_supported_advertising_sets: if status == 0 {
                        sets
                    } else {
                        device.setup.status.number_of_supported_advertising_sets
                    },
                    ..device.setup.status
                },
            ),
        ),
        !of_sets ==> learned(
            device,
            after,
            knowing(
                device.setup,
                SetupStatus {
                    maximum_advertising_data_length_status: Some(status),
                    maximum_advertising_data_length: if status == 0 {
                        length
                    } else {
                        device.setup.status.maximum_advertising_data_length
                    },
                    ..device.setup.status
                },
            ),
        ),
{
}

/// The status that one setup command ended with.
pub open spec fn status_after(before: SetupStatus, opcode: u16, status: u8) -> SetupStatus {
    let told = Some(status);
    if opcode == 0x1001 {
        SetupStatus { local_version_status: told, ..before }
    } else if opcode == 0x2003 || opcode == 0x2087 {
        SetupStatus { local_le_features_status: told, ..before }
    } else if opcode == 0x0C01 {
        SetupStatus { event_mask_status: told, ..before }
    } else if opcode == 0x0C63 {
        SetupStatus { event_mask_page_2_status: told, ..before }
    } else if opcode == 0x2001 {
        SetupStatus { le_event_mask_status: told, ..before }
    } else if opcode == 0x1005 {
        SetupStatus { classic_buffer_status: told, ..before }
    } else if opcode == 0x2002 || opcode == 0x2060 {
        SetupStatus { le_buffer_status: told, ..before }
    } else if opcode == 0x2023 {
        SetupStatus { suggested_default_data_length_read_status: told, ..before }
    } else if opcode == 0x203B {
        SetupStatus { number_of_supported_advertising_sets_status: told, ..before }
    } else if opcode == 0x203A {
        SetupStatus { maximum_advertising_data_length_status: told, ..before }
    } else if opcode == 0x1002 {
        SetupStatus { local_supported_commands_status: told, ..before }
    } else {
        SetupStatus { local_channel_sounding_capabilities_status: told, ..before }
    }
}

/// A setup command that ends with nothing but a status tells that status, each
/// command its own, and no value.
pub proof fn lemma_bare_statuses(
    device: DeviceView,
    after: DeviceView,
    packets: u8,
    opcode: u16,
    status: u8,
    log_before: Seq<HostAction>,
    log_after: Seq<HostAction>,
)
    requires
        opcode == 0x1001 || opcode == 0x2003 || opcode == 0x2087 || opcode == 0x0C01 || opcode
            == 0x0C63 || opcode == 0x2001 || opcode == 0x1005 || opcode == 0x2002 || opcode
            == 0x2060 || opcode == 0x2023 || opcode == 0x203B || opcode == 0x203A || opcode
            == 0x1002 || opcode == 0x2089,
        command_ended(
            device,
            opcode,
            packets,
            ReturnParameters::Status { status },
            after,
            log_before,
            log_after,
        ),
    ensures
        after.pools == device.pools,
        learned(
            device,
            after,
            knowing(device.setup, status_after(device.setup.status, opcode, status)),
        ),
{
}

/// A suggested length that was written is known from then on, and one that could
/// not be is as it was.
pub proof fn lemma_suggested_length_written(
    device: DeviceView,
    after: DeviceView,
    packets: u8,
    status: u8,
    log_before: Seq<HostAction>,
    log_after: Seq<HostAction>,
)
    requires
        command_ended(
            device,
            0x2024,
            packets,
            ReturnParameters::Status { status },
            after,
            log_before,
            log_after,
        ),
    ensures
        after.pools == device.pools,
        learned(
            device,
            after,
            knowing(
                device.setup,
                SetupStatus {
                    suggested_default_data_length_write_status: Some(status),
                    suggested_default_data_length: if status == 0 {
                        Some(
                            LeSuggestedDefaultDataLength {
                                suggested_max_tx_octets: 251,
                                suggested_max_tx_time: 2120,
                            },
                        )
                    } else {
                        device.setup.status.suggested_default_data_length
                    },
                    ..device.setup.status
                },
            ),
        ),
{
}

/// A page of LMP features that could not be read is the one that has been awaited
/// longest.
pub proof fn lemma_lmp_page_failed(
    device: DeviceView,
    after: DeviceView,
    packets: u8,
    status: u8,
    log_before: Seq<HostAction>,
    log_after: Seq<HostAction>,
)
    requires
        command_ended(
            device,
            0x1004,
            packets,
            ReturnParameters::Status { status },
            after,
            log_before,
            log_after,
        ),
    ensures
        after.pools == device.pools,
        device.setup.pending_lmp_pages.len() > 0 ==> learned(
            device,
            after,
            SetupView {
                lmp_feature_statuses: device.setup.lmp_feature_statuses.insert(
                    device.setup.pending_lmp_pages[0],
                    status,
                ),
                pending_lmp_pages: device.setup.pending_lmp_pages.skip(1),
                ..device.setup
            },
        ),
        device.setup.pending_lmp_pages.len() == 0 ==> learned(device, after, device.setup),
{
}

/// The end of a reset makes the controller ready exactly where it succeeded, and
/// is heeded whether it was ready or not.
pub proof fn lemma_reset_ended(
    device: DeviceView,
    after: DeviceView,
    packets: u8,
    status: u8,
    log_before: Seq<HostAction>,
    log_after: Seq<HostAction>,
)
    requires
        device.packet_handled(
            after,
            crate::hci::HciPacket::Event(
                Event::CommandComplete {
                    num_hci_command_packets: packets,
                    command_opcode: 0x0C03,
                    return_parameters: ReturnParameters::Status { status },
                },
            ),
            log_before,
            log_after,
        ),
    ensures
        after.setup.status.controller_ready <==> status == 0,
        after.setup.status.reset_status == Some(status),
        after.pools == device.pools,
        after == (DeviceView {
            setup: SetupView {
                status: SetupStatus {
                    controller_ready: status == 0,
                    reset_status: Some(status),
                    ..device.setup.status
                },
                ..device.setup
            },
            ..device
        }),
        log_after == log_before,
{
    crate::transport::lemma_commands_none(log_before, device.controller_id);
}

/// The pools of a controller that has told nothing, or that an application told:
/// packets of 27 bytes and 64 in flight for Classic, and no pool of their own for
/// LE and ISO.
pub proof fn lemma_pools_reported(
    classic: Option<ControllerBufferInfo>,
    le: Option<ControllerBufferInfo>,
    iso: Option<ControllerBufferInfo>,
)
    ensures
        ({
            let first = PoolsView::initial();
            let pools = PoolsView::reported(classic, le, iso);
            let usable = |buffer: Option<ControllerBufferInfo>|
                buffer is Some && buffer->0.data_packet_length > 0
                    && buffer->0.total_num_data_packets > 0;
            &&& first.acl_data_packet_length == 27 && empty_window(first.acl, 64)
            &&& first.le_acl is None && first.iso is None
            &&& usable(classic) ==> {
                &&& pools.acl_data_packet_length == classic->0.data_packet_length
                &&& empty_window(pools.acl, classic->0.total_num_data_packets as int)
            }
            &&& !usable(classic) ==> pools.acl_data_packet_length == 27 && empty_window(
                pools.acl,
                64,
            )
            &&& pools.le_acl is Some <==> usable(le)
            &&& usable(le) ==> {
                &&& pools.le_acl_data_packet_length == Some(le->0.data_packet_length as usize)
                &&& empty_window(pools.le_acl->0, le->0.total_num_data_packets as int)
            }
            &&& pools.iso is Some <==> usable(iso)
            &&& usable(iso) ==> {
                &&& pools.iso_data_packet_length == Some(iso->0.data_packet_length as usize)
                &&& empty_window(pools.iso->0, iso->0.total_num_data_packets as int)
            }
        }),
{
}

} // verus!
