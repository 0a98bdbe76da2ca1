//! What a device asks of its controller when it is powered on.

use crate::address::Address;
use crate::configuration::DeviceConfiguration;
use crate::device::DeviceView;
use crate::hci::Command;
use crate::transport::{
    command_if, commands, lemma_sent_between, only_commands, sent_between, HostAction,
};
use vstd::prelude::*;

verus! {

/// What is in one of two lists.
pub proof fn lemma_in_either<T>(first: Seq<T>, second: Seq<T>, entry: T)
    ensures
        (first + second).contains(entry) == (first.contains(entry) || second.contains(entry)),
{
    let both = first + second;
    if first.contains(entry) {
        let place = choose|place: int| 0 <= place < first.len() && first[place] == entry;
        assert(both[place] == entry);
    }
    if second.contains(entry) {
        let place = choose|place: int| 0 <= place < second.len() && second[place] == entry;
        assert(both[first.len() + place] == entry);
    }
    if both.contains(entry) {
        let place = choose|place: int| 0 <= place < both.len() && both[place] == entry;
        if place < first.len() {
            assert(first[place] == entry);
        } else {
            assert(second[place - first.len()] == entry);
        }
    }
}

/// What is in a list that holds a command where a condition holds.
proof fn lemma_in_command_if(condition: bool, command: Command, entry: Command)
    ensures
        command_if(condition, command).contains(entry) == (condition && entry == command),
{
    if condition {
        assert(command_if(condition, command)[0] == command);
    }
}

/// The LE part of powering on.
proof fn lemma_le_part(config: DeviceConfiguration, random: Address, command: Command)
    ensures
        config.le_power_commands(random).contains(command) == (config.le_enabled && {
            ||| command == (Command::LeSetRandomAddress { random_address: random })
            ||| config.address_resolution_offload && command
                == (Command::LeSetAddressResolutionEnable { address_resolution_enable: 1 })
            ||| config.cis_enabled && command == (Command::LeSetHostFeature {
                bit_number: 32,
                bit_value: 1,
            })
            ||| config.le_subrate_enabled && command == (Command::LeSetHostFeature {
                bit_number: 38,
                bit_value: 1,
            })
            ||| config.channel_sounding_enabled && command == (Command::LeSetHostFeature {
                bit_number: 47,
                bit_value: 1,
            })
            ||| config.channel_sounding_enabled && command
                == Command::LeCsReadLocalSupportedCapabilities
            ||| config.le_shorter_connection_intervals_enabled && command
                == (Command::LeSetHostFeature { bit_number: 73, bit_value: 1 })
        }),
{
    let le = config.le_enabled;
    let c1 = Command::LeSetRandomAddress { random_address: random };
    let c2 = Command::LeSetAddressResolutionEnable { address_resolution_enable: 1 };
    let c3 = Command::LeSetHostFeature { bit_number: 32, bit_value: 1 };
    let c4 = Command::LeSetHostFeature { bit_number: 38, bit_value: 1 };
    let c5 = Command::LeSetHostFeature { bit_number: 47, bit_value: 1 };
    let c6 = Command::LeCsReadLocalSupportedCapabilities;
    let c7 = Command::LeSetHostFeature { bit_number: 73, bit_value: 1 };
    let s1 = command_if(le, c1);
    let s2 = command_if(le && config.address_resolution_offload, c2);
    let s3 = command_if(le && config.cis_enabled, c3);
    let s4 = command_if(le && config.le_subrate_enabled, c4);
    let s5 = command_if(le && config.channel_sounding_enabled, c5);
    let s6 = command_if(le && config.channel_sounding_enabled, c6);
    let s7 = command_if(le && config.le_shorter_connection_intervals_enabled, c7);
    lemma_in_command_if(le, c1, command);
    lemma_in_command_if(le && config.address_resolution_offload, c2, command);
    lemma_in_command_if(le && config.cis_enabled, c3, command);
    lemma_in_command_if(le && config.le_subrate_enabled, c4, command);
    lemma_in_command_if(le && config.channel_sounding_enabled, c5, command);
    lemma_in_command_if(le && config.channel_sounding_enabled, c6, command);
    lemma_in_command_if(le && config.le_shorter_connection_intervals_enabled, c7, command);
    lemma_in_either(s1, s2, command);
    lemma_in_either(s1 + s2, s3, command);
    lemma_in_either(s1 + s2 + s3, s4, command);
    lemma_in_either(s1 + s2 + s3 + s4, s5, command);
    lemma_in_either(s1 + s2 + s3 + s4 + s5, s6, command);
    lemma_in_either(s1 + s2 + s3 + s4 + s5 + s6, s7, command);
    assert(config.le_power_commands(random) == s1 + s2 + s3 + s4 + s5 + s6 + s7);
}

/// Whether a command that Classic is configured with belongs to a configuration.
/// Inquiry scan is bit zero of the scan enable, and page scan is bit one.
pub open spec fn configures_classic(
    config: DeviceConfiguration,
    command: Command,
    local_name: [u8; 248],
    response: [u8; 240],
) -> bool {
    match command {
        Command::WriteLocalName { local_name: name } => name == local_name,
        Command::WriteClassOfDevice { class_of_device } => class_of_device
            == config.class_of_device,
        Command::WriteSimplePairingMode { simple_pairing_mode } => {
            &&& simple_pairing_mode <= 1
            &&& simple_pairing_mode == 1 <==> config.classic_ssp_enabled
        },
        Command::WriteSecureConnectionsHostSupport { secure_connections_host_support } => {
            &&& secure_connections_host_support <= 1
            &&& secure_connections_host_support == 1 <==> config.classic_sc_enabled
        },
        Command::WriteScanEnable { scan_enable } => {
            &&& scan_enable <= 3
            &&& (scan_enable == 1 || scan_enable == 3) <==> config.discoverable
            &&& (scan_enable == 2 || scan_enable == 3) <==> config.connectable
        },
        Command::WriteExtendedInquiryResponse { fec_required, extended_inquiry_response } => {
            &&& fec_required == 0
            &&& extended_inquiry_response == response
        },
        _ => false,
    }
}

/// The Classic part of powering on: each command belongs to the configuration,
/// and each kind of command is there.
proof fn lemma_classic_part(
    config: DeviceConfiguration,
    local_name: [u8; 248],
    response: [u8; 240],
)
    ensures
        ({
            let list = config.classic_power_commands(local_name, response);
            &&& !config.classic_enabled ==> list.len() == 0
            &&& config.classic_enabled ==> {
                &&& list.len() == 7
                &&& list[0] is WriteLocalName
                &&& list[1] is WriteClassOfDevice
                &&& list[2] is WriteSimplePairingMode
                &&& list[3] is WriteSecureConnectionsHostSupport
                &&& list[4] is WriteScanEnable
                &&& list[5] is WriteExtendedInquiryResponse
                &&& list[6] is WriteScanEnable
            }
            &&& forall|command: Command| #[trigger]
                list.contains(command) ==> configures_classic(
                    config,
                    command,
                    local_name,
                    response,
                )
        }),
{
    let list = config.classic_power_commands(local_name, response);
    assert forall|command: Command| #[trigger] list.contains(command) implies configures_classic(
        config,
        command,
        local_name,
        response,
    ) by {
        let place = choose|place: int| 0 <= place < list.len() && list[place] == command;
        assert(0 <= place < 7);
    }
}

/// Whether a command has a place when a device with a configuration is powered
/// on with a random address. LE host support is announced exactly as the
/// configuration has it, host features are switched on and never off, and what
/// concerns LE or Classic is only sent where that is enabled.
pub open spec fn belongs_to_power_on(
    config: DeviceConfiguration,
    random: Address,
    local_name: [u8; 248],
    response: [u8; 240],
    command: Command,
) -> bool {
    match command {
        Command::Reset | Command::ReadBdAddr | Command::ReadLocalSupportedCommands => true,
        Command::WriteLeHostSupport { le_supported_host, simultaneous_le_host } => {
            &&& le_supported_host <= 1 && simultaneous_le_host <= 1
            &&& le_supported_host == 1 <==> config.le_enabled
            &&& simultaneous_le_host == 1 <==> config.le_simultaneous_enabled
        },
        Command::LeSetRandomAddress { random_address } => config.le_enabled && random_address
            == random,
        Command::LeSetAddressResolutionEnable { address_resolution_enable } => config.le_enabled
            && config.address_resolution_offload && address_resolution_enable == 1,
        Command::LeSetHostFeature { bit_number, bit_value } => {
            &&& config.le_enabled
            &&& bit_value == 1
            &&& {
                ||| bit_number == 32 && config.cis_enabled
                ||| bit_number == 38 && config.le_subrate_enabled
                ||| bit_number == 47 && config.channel_sounding_enabled
                ||| bit_number == 73 && config.le_shorter_connection_intervals_enabled
            }
        },
        Command::LeCsReadLocalSupportedCapabilities => config.le_enabled
            && config.channel_sounding_enabled,
        _ => config.classic_enabled && configures_classic(config, command, local_name, response),
    }
}

/// The four parts of what powering on hands over.
proof fn lemma_parts(
    config: DeviceConfiguration,
    random: Address,
    local_name: [u8; 248],
    response: [u8; 240],
) -> (first: Seq<Command>)
    ensures
        first.len() == 3,
        first[0] == Command::Reset,
        first[1] == Command::ReadBdAddr,
        first[2] is WriteLeHostSupport,
        belongs_to_power_on(config, random, local_name, response, first[2]),
        config.power_commands(random, local_name, response) == first + config.le_power_commands(
            random,
        ) + config.classic_power_commands(local_name, response)
            + seq![Command::ReadLocalSupportedCommands],
{
    let list = config.power_commands(random, local_name, response);
    let first = list.take(3);
    assert(list =~= first + config.le_power_commands(random) + config.classic_power_commands(
        local_name,
        response,
    ) + seq![Command::ReadLocalSupportedCommands]);
    first
}

/// Everything that powering on hands over belongs to the configuration.
proof fn lemma_all_belong(
    config: DeviceConfiguration,
    random: Address,
    local_name: [u8; 248],
    response: [u8; 240],
    command: Command,
)
    requires
        config.power_commands(random, local_name, response).contains(command),
    ensures
        belongs_to_power_on(config, random, local_name, response, command),
{
    let first = lemma_parts(config, random, local_name, response);
    let le = config.le_power_commands(random);
    let classic = config.classic_power_commands(local_name, response);
    let last = seq![Command::ReadLocalSupportedCommands];
    lemma_classic_part(config, local_name, response);
    lemma_in_either(first, le, command);
    lemma_in_either(first + le, classic, command);
    lemma_in_either(first + le + classic, last, command);
    lemma_le_part(config, random, command);
}

/// What belongs to LE is handed over.
proof fn lemma_le_handed_over(
    config: DeviceConfiguration,
    random: Address,
    local_name: [u8; 248],
    response: [u8; 240],
    command: Command,
)
    requires
        config.le_power_commands(random).contains(command),
    ensures
        config.power_commands(random, local_name, response).contains(command),
{
    let first = lemma_parts(config, random, local_name, response);
    let le = config.le_power_commands(random);
    let classic = config.classic_power_commands(local_name, response);
    let last = seq![Command::ReadLocalSupportedCommands];
    lemma_in_either(first, le, command);
    lemma_in_either(first + le, classic, command);
    lemma_in_either(first + le + classic, last, command);
}

/// LE host support is written once.
proof fn lemma_host_support_once(
    config: DeviceConfiguration,
    random: Address,
    local_name: [u8; 248],
    response: [u8; 240],
    place: int,
)
    requires
        0 <= place < config.power_commands(random, local_name, response).len(),
        config.power_commands(random, local_name, response)[place] is WriteLeHostSupport,
    ensures
        place == 2,
{
    let first = lemma_parts(config, random, local_name, response);
    let le = config.le_power_commands(random);
    let classic = config.classic_power_commands(local_name, response);
    let command = config.power_commands(random, local_name, response)[place];
    lemma_classic_part(config, local_name, response);
    if 3 <= place < 3 + le.len() {
        assert(le[place - 3] == command);
        assert(le.contains(command));
        lemma_le_part(config, random, command);
    } else if 3 + le.len() <= place < 3 + le.len() + classic.len() {
        assert(classic[place - 3 - le.len()] == command);
        assert(classic.contains(command));
    }
}

/// The fields that powering on fills in, and what it hands over.
proof fn lemma_power_on_list(
    device: DeviceView,
    after: DeviceView,
    fresh_static: Address,
    fresh_private: Address,
    log_before: Seq<HostAction>,
    log_after: Seq<HostAction>,
) -> (fields: ([u8; 248], [u8; 240]))
    requires
        device.powers_on(after, fresh_static, fresh_private, log_before, log_after),
    ensures
        device.power_fields(fields.0, fields.1),
        after == device.powered(fresh_static, fresh_private).responding(fields.1),
        only_commands(log_before, log_after, device.controller_id),
        sent_between(log_before, log_after) == device.config.power_commands(
            after.identity.random_address,
            fields.0,
            fields.1,
        ),
{
    let (local_name, response) = choose|local_name: [u8; 248], response: [u8; 240]|
        {
            &&& #[trigger] device.power_fields(local_name, response)
            &&& after == device.powered(fresh_static, fresh_private).responding(response)
            &&& log_after == log_before + commands(
                device.controller_id,
                device.config.power_commands(
                    device.random_after_power(fresh_static, fresh_private),
                    local_name,
                    response,
                ),
            )
        };
    lemma_sent_between(
        log_before,
        log_after,
        device.controller_id,
        device.config.power_commands(
            device.random_after_power(fresh_static, fresh_private),
            local_name,
            response,
        ),
    );
    (local_name, response)
}

/// A device that is powered on writes LE host support exactly once: LE is
/// announced as supported if and only if the configuration enables it, and
/// simultaneous LE if and only if the configuration enables that.
pub proof fn lemma_power_on_host_support(
    device: DeviceView,
    after: DeviceView,
    fresh_static: Address,
    fresh_private: Address,
    log_before: Seq<HostAction>,
    log_after: Seq<HostAction>,
)
    requires
        device.powers_on(after, fresh_static, fresh_private, log_before, log_after),
    ensures
        ({
            let sent = sent_between(log_before, log_after);
            &&& sent.len() > 2
            &&& sent[2] matches Command::WriteLeHostSupport {
                le_supported_host,
                simultaneous_le_host,
            } && {
                &&& le_supported_host <= 1 && simultaneous_le_host <= 1
                &&& le_supported_host == 1 <==> device.config.le_enabled
                &&& simultaneous_le_host == 1 <==> device.config.le_simultaneous_enabled
            }
            &&& forall|place: int|
                0 <= place < sent.len() && place != 2 ==> !(#[trigger] sent[place] is
                    WriteLeHostSupport)
        }),
{
    let fields = lemma_power_on_list(
        device,
        after,
        fresh_static,
        fresh_private,
        log_before,
        log_after,
    );
    let random = after.identity.random_address;
    let sent = sent_between(log_before, log_after);
    let first = lemma_parts(device.config, random, fields.0, fields.1);
    assert(sent[2] == first[2]);
    assert forall|place: int| 0 <= place < sent.len() && place != 2 implies !(#[trigger] sent[place] is
        WriteLeHostSupport) by {
        if sent[place] is WriteLeHostSupport {
            lemma_host_support_once(device.config, random, fields.0, fields.1, place);
        }
    }
}

/// A device that is powered on resets its controller first, asks for its
/// address, and last asks which commands there are. All that it hands over
/// belongs to its configuration.
pub proof fn lemma_power_on_belongs(
    device: DeviceView,
    after: DeviceView,
    fresh_static: Address,
    fresh_private: Address,
    log_before: Seq<HostAction>,
    log_after: Seq<HostAction>,
) -> (fields: ([u8; 248], [u8; 240]))
    requires
        device.powers_on(after, fresh_static, fresh_private, log_before, log_after),
    ensures
        device.config.classic_enabled ==> after.classic.classic_inquiry_response == Some(fields.1),
        only_commands(log_before, log_after, device.controller_id),
        ({
            let sent = sent_between(log_before, log_after);
            &&& sent.len() >= 4
            &&& sent[0] == Command::Reset
            &&& sent[1] == Command::ReadBdAddr
            &&& sent.last() == Command::ReadLocalSupportedCommands
            &&& forall|command: Command| #[trigger]
                sent.contains(command) ==> belongs_to_power_on(
                    device.config,
                    after.identity.random_address,
                    fields.0,
                    fields.1,
                    command,
                )
        }),
{
    let fields = lemma_power_on_list(
        device,
        after,
        fresh_static,
        fresh_private,
        log_before,
        log_after,
    );
    let random = after.identity.random_address;
    let sent = sent_between(log_before, log_after);
    let first = lemma_parts(device.config, random, fields.0, fields.1);
    assert(sent[0] == first[0] && sent[1] == first[1]);
    assert forall|command: Command| #[trigger] sent.contains(command) implies belongs_to_power_on(
        device.config,
        random,
        fields.0,
        fields.1,
        command,
    ) by {
        lemma_all_belong(device.config, random, fields.0, fields.1, command);
    }
    fields
}

/// A device with LE that is powered on hands over its random address, address
/// resolution and every host feature that its configuration enables.
pub proof fn lemma_power_on_le(
    device: DeviceView,
    after: DeviceView,
    fresh_static: Address,
    fresh_private: Address,
    log_before: Seq<HostAction>,
    log_after: Seq<HostAction>,
)
    requires
        device.powers_on(after, fresh_static, fresh_private, log_before, log_after),
        device.config.le_enabled,
    ensures
        ({
            let sent = sent_between(log_before, log_after);
            let config = device.config;
            &&& sent.contains(
                Command::LeSetRandomAddress { random_address: after.identity.random_address },
            )
            &&& config.address_resolution_offload ==> sent.contains(
                Command::LeSetAddressResolutionEnable { address_resolution_enable: 1 },
            )
            &&& config.cis_enabled ==> sent.contains(
                Command::LeSetHostFeature { bit_number: 32, bit_value: 1 },
            )
            &&& config.le_subrate_enabled ==> sent.contains(
                Command::LeSetHostFeature { bit_number: 38, bit_value: 1 },
            )
            &&& config.channel_sounding_enabled ==> {
                &&& sent.contains(Command::LeSetHostFeature { bit_number: 47, bit_value: 1 })
                &&& sent.contains(Command::LeCsReadLocalSupportedCapabilities)
            }
            &&& config.le_shorter_connection_intervals_enabled ==> sent.contains(
                Command::LeSetHostFeature { bit_number: 73, bit_value: 1 },
            )
        }),
{
    let fields = lemma_power_on_list(
        device,
        after,
        fresh_static,
        fresh_private,
        log_before,
        log_after,
    );
    let random = after.identity.random_address;
    let config = device.config;
    let sent = sent_between(log_before, log_after);
    let le = config.le_power_commands(random);
    assert forall|command: Command| #[trigger] le.contains(command) implies sent.contains(
        command,
    ) by {
        lemma_le_handed_over(config, random, fields.0, fields.1, command);
    }
    lemma_le_part(config, random, Command::LeSetRandomAddress { random_address: random });
    lemma_le_part(
        config,
        random,
        Command::LeSetAddressResolutionEnable { address_resolution_enable: 1 },
    );
    lemma_le_part(config, random, Command::LeSetHostFeature { bit_number: 32, bit_value: 1 });
    lemma_le_part(config, random, Command::LeSetHostFeature { bit_number: 38, bit_value: 1 });
    lemma_le_part(config, random, Command::LeSetHostFeature { bit_number: 47, bit_value: 1 });
    lemma_le_part(config, random, Command::LeSetHostFeature { bit_number: 73, bit_value: 1 });
    lemma_le_part(config, random, Command::LeCsReadLocalSupportedCapabilities);
}

/// A device with Classic that is powered on writes its name, its class, its
/// pairing modes, its scanning and its inquiry response. The response that it
/// was given is kept. Where there is none, it holds the name as a complete local
/// name. Both fields are filled up with zeroes.
pub proof fn lemma_power_on_classic(
    device: DeviceView,
    after: DeviceView,
    fresh_static: Address,
    fresh_private: Address,
    log_before: Seq<HostAction>,
    log_after: Seq<HostAction>,
) -> (place: int)
    requires
        device.powers_on(after, fresh_static, fresh_private, log_before, log_after),
        device.config.classic_enabled,
    ensures
        ({
            let sent = sent_between(log_before, log_after);
            let config = device.config;
            let name = config.name_bytes();
            &&& 3 <= place
            &&& place + 7 < sent.len()
            &&& sent[place] matches Command::WriteLocalName { local_name } && forall|index: int|
                0 <= index < 248 ==> #[trigger] local_name@[index] == if index < name.len() {
                    name[index]
                } else {
                    0
                }
            &&& sent[place + 1] == (Command::WriteClassOfDevice {
                class_of_device: config.class_of_device,
            })
            &&& sent[place + 2] is WriteSimplePairingMode
            &&& sent[place + 3] is WriteSecureConnectionsHostSupport
            &&& sent[place + 4] is WriteScanEnable
            &&& sent[place + 6] == sent[place + 4]
            &&& sent[place + 5] matches Command::WriteExtendedInquiryResponse {
                fec_required,
                extended_inquiry_response,
            } && {
                &&& fec_required == 0
                &&& after.classic.classic_inquiry_response == Some(extended_inquiry_response)
                &&& match device.classic.classic_inquiry_response {
                    Some(kept) => extended_inquiry_response == kept,
                    None => {
                        &&& extended_inquiry_response@[0] == name.len() + 1
                        &&& extended_inquiry_response@[1] == 0x09
                        &&& forall|index: int|
                            2 <= index < 240 ==> #[trigger] extended_inquiry_response@[index]
                                == if index - 2 < name.len() {
                                name[index - 2]
                            } else {
                                0
                            }
                    },
                }
            }
        }),
{
    let fields = lemma_power_on_list(
        device,
        after,
        fresh_static,
        fresh_private,
        log_before,
        log_after,
    );
    let random = after.identity.random_address;
    let config = device.config;
    let sent = sent_between(log_before, log_after);
    let first = lemma_parts(config, random, fields.0, fields.1);
    let classic = config.classic_power_commands(fields.0, fields.1);
    let place = 3 + config.le_power_commands(random).len() as int;
    assert(classic.len() == 7);
    assert(sent[place] == classic[0]);
    assert(sent[place + 1] == classic[1]);
    assert(sent[place + 2] == classic[2]);
    assert(sent[place + 3] == classic[3]);
    assert(sent[place + 4] == classic[4]);
    assert(sent[place + 5] == classic[5]);
    assert(sent[place + 6] == classic[6]);
    place
}

} // verus!
