//! What bonds and pairings give, and what the resolving list is loaded with.

use crate::address::Address;
use crate::bonding::{is_choice, is_some_address, kind_end, KeyStoreChoice};
use crate::classic::ClassicPairingEvent;
use crate::connection::LongTermKeyRequestInfo;
use crate::device::DeviceView;
use crate::events::DeviceEventView;
use crate::hci::Command;
use crate::pairing::{
    is_stored_link_key, link_key_answer, requirement, ClassicPairingStep, PairingFlowError,
    PairingProgress,
};
use crate::pairing_laws::told;
use crate::request_laws::{encrypts_with, handed};
use crate::resolving::{adds_device, adds_devices, loads_list, offloads_list, usable};
use crate::security::{
    authenticated_key_type, is_encryption_parameters, DeviceKeyStoreError, Key, KeyField,
    PairingKeys,
};
use crate::state::{ClassicView, SecurityView};
use crate::transport::HostAction;
use vstd::prelude::*;

verus! {

/// The key of a bond that encrypts an LE connection: the one of Secure
/// Connections where there is one, and else the one of the own role.
pub open spec fn key_for_role(keys: PairingKeys, role: u8) -> Option<Key> {
    match keys.ltk {
        Some(key) => Some(key),
        None => if role == 0 {
            keys.ltk_central
        } else {
            keys.ltk_peripheral
        },
    }
}

/// A bond gives a long term key of sixteen bytes, with its diversifier and its
/// random number of eight bytes. Each is zero where the bond has none. A bond
/// without a key, or with one of another length, gives an error that says so.
pub proof fn lemma_bond_parameters(
    keys: PairingKeys,
    role: u8,
    peer: Address,
    result: Result<([u8; 16], u16, [u8; 8]), DeviceKeyStoreError>,
)
    requires
        is_encryption_parameters(keys, role, peer, result),
    ensures
        match key_for_role(keys, role) {
            None => result == Err::<([u8; 16], u16, [u8; 8]), _>(
                DeviceKeyStoreError::NoLongTermKey { peer_address: peer },
            ),
            Some(key) => {
                let wrong_random = key.rand is Some && key.rand->0@.len() != 8;
                &&& result is Ok <==> key.value@.len() == 16 && !wrong_random
                &&& key.value@.len() != 16 ==> result == Err::<([u8; 16], u16, [u8; 8]), _>(
                    DeviceKeyStoreError::InvalidKeyLength {
                        field: KeyField::Ltk,
                        expected: 16,
                        actual: key.value@.len() as usize,
                    },
                )
                &&& key.value@.len() == 16 && wrong_random ==> result == Err::<
                    ([u8; 16], u16, [u8; 8]),
                    _,
                >(
                    DeviceKeyStoreError::InvalidKeyLength {
                        field: KeyField::LtkRand,
                        expected: 8,
                        actual: key.rand->0@.len() as usize,
                    },
                )
                &&& result is Ok ==> {
                    &&& result->Ok_0.0@ == key.value@
                    &&& key.ediv is Some ==> result->Ok_0.1 == key.ediv->0
                    &&& key.ediv is None ==> result->Ok_0.1 == 0
                    &&& key.rand is Some ==> result->Ok_0.2@ == key.rand->0@
                    &&& key.rand is None ==> result->Ok_0.2@ =~= Seq::new(8, |index: int| 0u8)
                }
            },
        },
{
}

/// Encryption from a bond is started on the connection, with what the bond of its
/// peer gives for the own role, and not at all where it gives nothing.
pub proof fn lemma_encryption_from_bond(
    device: DeviceView,
    handle: u16,
    bond: Option<PairingKeys>,
    parameters: Result<([u8; 16], u16, [u8; 8]), DeviceKeyStoreError>,
    result: Result<bool, DeviceKeyStoreError>,
    log_before: Seq<HostAction>,
    log_after: Seq<HostAction>,
)
    requires
        device.stored_parameters(handle, bond, parameters),
        device.started_with(handle, parameters, result, log_before, log_after),
    ensures
        ({
            let known = device.le.le_connections.contains_key(handle);
            let connection = device.le.le_connections[handle];
            let command = log_after.last()->Command_command;
            &&& !known ==> result == Err::<bool, _>(DeviceKeyStoreError::NoConnection)
            &&& known && bond is None ==> result == Err::<bool, _>(
                DeviceKeyStoreError::BondNotFound { peer_address: connection.peer_address },
            )
            &&& result is Err ==> log_after == log_before
            &&& result is Ok ==> {
                let key = key_for_role(bond->0, connection.role)->0;
                &&& result == Ok::<bool, DeviceKeyStoreError>(true)
                &&& known && bond is Some
                &&& key_for_role(bond->0, connection.role) is Some
                &&& handed(device, command, log_before, log_after)
                &&& command is LeEnableEncryption
                &&& command->LeEnableEncryption_connection_handle == handle
                &&& command->LeEnableEncryption_long_term_key@ == key.value@
                &&& key.ediv is Some ==> command->LeEnableEncryption_encrypted_diversifier
                    == key.ediv->0
                &&& key.ediv is None ==> command->LeEnableEncryption_encrypted_diversifier == 0
                &&& key.rand is Some ==> command->LeEnableEncryption_random_number@
                    == key.rand->0@
            }
        }),
{
}

/// A bond gives its link key where that has sixteen bytes, and says whether it is
/// authenticated. A bond without one gives none.
pub proof fn lemma_bond_link_key(
    bond: Option<PairingKeys>,
    result: Result<Option<([u8; 16], bool)>, DeviceKeyStoreError>,
)
    requires
        is_stored_link_key(bond, result),
    ensures
        bond is None ==> result == Ok::<Option<([u8; 16], bool)>, DeviceKeyStoreError>(None),
        bond is Some && bond->0.link_key is None ==> result == Ok::<
            Option<([u8; 16], bool)>,
            DeviceKeyStoreError,
        >(None),
        bond is Some && bond->0.link_key is Some ==> {
            let key = bond->0.link_key->0;
            &&& key.value@.len() == 16 ==> {
                &&& result is Ok && result->Ok_0 is Some
                &&& (result->Ok_0->0).0@ == key.value@
                &&& (result->Ok_0->0).1 == key.authenticated
            }
            &&& key.value@.len() != 16 ==> result == Err::<Option<([u8; 16], bool)>, _>(
                DeviceKeyStoreError::InvalidKeyLength {
                    field: KeyField::LinkKey,
                    expected: 16,
                    actual: key.value@.len() as usize,
                },
            )
        },
{
}

/// A link key is authenticated if it comes from a comparison or a passkey, over
/// P-192 or P-256.
pub proof fn lemma_authenticated_link_keys(key_type: u8)
    ensures
        authenticated_key_type(key_type) <==> key_type == 5 || key_type == 8,
{
}

/// A request for a link key is answered to the peer that asked: with the key,
/// where there is one, and else with a refusal.
pub proof fn lemma_link_key_answer(
    peer: Address,
    key: [u8; 16],
    authenticated: bool,
    error: DeviceKeyStoreError,
)
    ensures
        link_key_answer(peer, Ok(Some((key, authenticated)))) == (Command::LinkKeyRequestReply {
            bd_addr: peer,
            link_key: key,
        }),
        link_key_answer(peer, Ok(None)) == (Command::LinkKeyRequestNegativeReply {
            bd_addr: peer,
        }),
        link_key_answer(peer, Err(error)) == (Command::LinkKeyRequestNegativeReply {
            bd_addr: peer,
        }),
{
}

/// A request for a link key is recorded and answered. A key that was given is
/// kept for the connection to the peer, and for no other.
pub proof fn lemma_link_key_request_answered(
    device: DeviceView,
    after: DeviceView,
    peer: Address,
    key: Option<([u8; 16], bool)>,
    log_before: Seq<HostAction>,
    log_after: Seq<HostAction>,
)
    requires
        device.answer_link_key_request_shows(after, peer, key, log_before, log_after),
    ensures
        key is None ==> {
            &&& told(device, after, ClassicPairingEvent::LinkKeyRequest { peer_address: peer })
            &&& handed(
                device,
                Command::LinkKeyRequestNegativeReply { bd_addr: peer },
                log_before,
                log_after,
            )
        },
        key is Some ==> {
            &&& handed(
                device,
                Command::LinkKeyRequestReply { bd_addr: peer, link_key: (key->0).0 },
                log_before,
                log_after,
            )
            &&& told(
                DeviceView {
                    classic: ClassicView {
                        classic_link_keys: after.classic.classic_link_keys,
                        ..device.classic
                    },
                    ..device
                },
                after,
                ClassicPairingEvent::LinkKeyRequest { peer_address: peer },
            )
            &&& match device.classic.handle_for(peer) {
                Some(handle) => after.classic.classic_link_keys
                    == device.classic.classic_link_keys.insert(handle, key->0),
                None => after.classic.classic_link_keys == device.classic.classic_link_keys,
            }
        },
{
}

/// A Classic pairing goes on with a connection that is encrypted and has a link
/// key, and says who began it and who takes part. Without a connection there is
/// nothing to do, without encryption it ends, and without a key one is looked for.
pub proof fn lemma_classic_pairing_step(device: DeviceView, handle: u16)
    ensures
        ({
            let known = device.classic.classic_connections.contains_key(handle);
            let connection = device.classic.classic_connections[handle];
            let keyed = device.classic.classic_link_keys.contains_key(handle);
            let key = device.classic.classic_link_keys[handle];
            let step = device.pairing_step(handle);
            &&& !known ==> step is Nothing
            &&& known && connection.encryption_enabled == 0 ==> step is Disconnect
            &&& known && connection.encryption_enabled != 0 && !keyed ==> step
                == (ClassicPairingStep::LoadLinkKey { peer_address: connection.peer_address })
            &&& known && connection.encryption_enabled != 0 && keyed
                && !device.config.classic_smp_enabled ==> step is Nothing
            &&& known && connection.encryption_enabled != 0 && keyed
                && device.config.classic_smp_enabled ==> {
                &&& step is Register
                &&& step->Register_0.connection_handle == handle
                &&& step->Register_0.initiator <==> connection.role == 0
                &&& step->Register_0.peer_address == connection.peer_address
                &&& step->Register_0.link_key == key.0
                &&& step->Register_0.authenticated == key.1
                &&& device.identity.public_address is Some ==> step->Register_0.local_address
                    == device.identity.public_address->0
                &&& device.identity.public_address is None ==> step->Register_0.local_address
                    == device.identity.static_address
            }
        }),
{
}

/// A pairing that waits for encryption has the central start it, once, with the
/// key that it made. One that fails is announced once, and one that is complete
/// leaves its keys to be stored once.
pub proof fn lemma_pairing_advances(
    device: DeviceView,
    after: DeviceView,
    handle: u16,
    progress: PairingProgress,
    result: Result<bool, PairingFlowError>,
    log_before: Seq<HostAction>,
    log_after: Seq<HostAction>,
)
    requires
        device.advance_pairing_shows(after, handle, progress, result, log_before, log_after),
    ensures
        ({
            let central = device.le.le_connections.contains_key(handle)
                && device.le.le_connections[handle].role == 0;
            let begins = progress.waiting_for_encryption && central
                && !device.security.pairing_encryption_started.contains(handle);
            let ended = device.security.pairing_terminal_handles.contains(handle);
            let command = log_after.last()->Command_command;
            let keyless = begins && progress.encryption_key is None;
            &&& begins && !keyless ==> {
                &&& handed(device, command, log_before, log_after)
                &&& encrypts_with(
                    command,
                    handle,
                    progress.encryption_key->0,
                    0,
                    Seq::new(8, |index: int| 0u8),
                )
            }
            &&& !begins || keyless ==> log_after == log_before
            &&& begins ==> after.security.pairing_encryption_started.contains(handle)
            &&& !begins ==> after.security.pairing_encryption_started
                == device.security.pairing_encryption_started
            &&& keyless ==> result == Err::<bool, _>(PairingFlowError::NoEncryptionKey)
                && after.journal == device.journal
            &&& !keyless && !ended && progress.failure is Some ==> {
                &&& result == Ok::<bool, PairingFlowError>(false)
                &&& after.security.pairing_terminal_handles.contains(handle)
                &&& after.journal.device_events == device.journal.device_events.push(
                    DeviceEventView::PairingFailed {
                        connection_handle: handle,
                        reason: progress.failure->0,
                    },
                )
            }
            &&& !keyless && !ended && progress.failure is None && progress.complete ==> {
                &&& after.security.pairing_terminal_handles.contains(handle)
                &&& after.journal == device.journal
                &&& progress.has_keys ==> result == Ok::<bool, PairingFlowError>(true)
                &&& !progress.has_keys ==> result == Err::<bool, _>(
                    PairingFlowError::NoPairingKeys,
                )
            }
            &&& !keyless && (ended || (progress.failure is None && !progress.complete)) ==> {
                &&& result == Ok::<bool, PairingFlowError>(false)
                &&& after.security.pairing_terminal_handles
                    == device.security.pairing_terminal_handles
                &&& after.journal == device.journal
            }
            &&& after == (DeviceView {
                security: SecurityView {
                    pairing_encryption_started: after.security.pairing_encryption_started,
                    pairing_terminal_handles: after.security.pairing_terminal_handles,
                    ..device.security
                },
                journal: after.journal,
                ..device
            })
        }),
{
}

/// Whether a command adds an identity to the resolving list: the address goes
/// with its kind, which is zero for a public one and one for a random one.
pub open spec fn adds_identity(
    command: Command,
    identity: Address,
    irk: Seq<u8>,
    own_irk: Seq<u8>,
) -> bool {
    let public = identity.address_type == 0 || identity.address_type == 2;
    command matches Command::LeAddDeviceToResolvingList {
        peer_identity_address_type,
        peer_identity_address,
        peer_irk,
        local_irk,
    } && {
        &&& peer_identity_address == identity
        &&& public ==> peer_identity_address_type == 0
        &&& !public ==> peer_identity_address_type == 1
        &&& peer_irk@ == irk
        &&& local_irk@ == own_irk
    }
}

/// The resolving list is cleared, loaded with every identity in order, and
/// resolution is switched on exactly where anything was loaded.
pub proof fn lemma_resolving_list_loaded(
    list: Seq<Command>,
    entries: Seq<(Vec<u8>, Address)>,
    own_key: [u8; 16],
    place: int,
)
    requires
        loads_list(list, entries, own_key),
    ensures
        list.len() == entries.len() + 2,
        list[0] == Command::LeClearResolvingList,
        0 <= place < entries.len() ==> adds_identity(
            list[1 + place],
            entries[place].1,
            entries[place].0@,
            own_key@,
        ),
        list.last() == (Command::LeSetAddressResolutionEnable {
            address_resolution_enable: if entries.len() > 0 {
                1
            } else {
                0
            },
        }),
{
    let devices = list.subrange(1, 1 + entries.len() as int);
    if 0 <= place < entries.len() {
        assert(adds_device(devices[place], entries[place], own_key));
        assert(devices[place] == list[1 + place]);
    }
}

/// An offloaded list begins with the own key, for any peer, and switches
/// resolution on where that is offloaded too.
pub proof fn lemma_resolving_list_offloaded(
    list: Seq<Command>,
    entries: Seq<(Vec<u8>, Address)>,
    own_key: [u8; 16],
    resolution: bool,
    place: int,
)
    requires
        offloads_list(list, entries, own_key, resolution),
    ensures
        list.len() == entries.len() + if resolution {
            3int
        } else {
            2
        },
        list[0] == Command::LeClearResolvingList,
        list[1] is LeAddDeviceToResolvingList,
        list[1]->LeAddDeviceToResolvingList_peer_identity_address_type == 0,
        list[1]->LeAddDeviceToResolvingList_peer_identity_address.address_type == 0,
        list[1]->LeAddDeviceToResolvingList_peer_identity_address.address_bytes@ =~= Seq::new(
            6,
            |index: int| 0u8,
        ),
        list[1]->LeAddDeviceToResolvingList_peer_irk@ =~= Seq::new(16, |index: int| 0u8),
        list[1]->LeAddDeviceToResolvingList_local_irk == own_key,
        0 <= place < entries.len() ==> adds_identity(
            list[2 + place],
            entries[place].1,
            entries[place].0@,
            own_key@,
        ),
        resolution ==> list.last() == (Command::LeSetAddressResolutionEnable {
            address_resolution_enable: 1,
        }),
{
    let devices = list.subrange(2, 2 + entries.len() as int);
    if 0 <= place < entries.len() {
        assert(adds_devices(devices, entries, own_key));
        assert(adds_device(devices[place], entries[place], own_key));
        assert(devices[place] == list[2 + place]);
    }
}

/// Keys of sixteen bytes can be loaded, and no others. The list is offloaded
/// where resolution or generation is.
pub proof fn lemma_loadable_keys(device: DeviceView, entry: (Vec<u8>, Address))
    ensures
        usable()(entry) <==> entry.0@.len() == 16,
        device.offloads() <==> device.config.address_resolution_offload
            || device.config.address_generation_offload,
{
}

/// A key store is named by the public address where that is known and not zero,
/// and else by the random one where that is not zero.
pub proof fn lemma_store_name(device: DeviceView)
    ensures
        ({
            let public = device.identity.public_address;
            let random = device.identity.random_address;
            &&& public is Some && is_some_address(public->0) ==> device.namespace() == public
            &&& (public is None || !is_some_address(public->0)) && is_some_address(random)
                ==> device.namespace() == Some(random)
            &&& (public is None || !is_some_address(public->0)) && !is_some_address(random)
                ==> device.namespace() is None
        }),
{
}

/// An address is none where all its bytes are zero.
pub proof fn lemma_zero_address(address: Address)
    ensures
        is_some_address(address) <==> !(address.address_bytes@ =~= Seq::new(6, |index: int| 0u8)),
{
    if !is_some_address(address) {
        assert forall|index: int| 0 <= index < 6 implies address.address_bytes@[index] == 0u8 by {}
    }
}

/// Errors of the key store and of pairings are kept with the connection and the
/// words that they came with, in order.
pub proof fn lemma_security_errors(
    device: DeviceView,
    handle: u16,
    known: Option<u16>,
    message: String,
)
    ensures
        device.store_failed(known, message) == (DeviceView {
            security: SecurityView {
                key_store_errors: device.security.key_store_errors.push((known, message)),
                ..device.security
            },
            ..device
        }),
        device.pairing_broken(handle, message) == (DeviceView {
            security: SecurityView {
                pairing_errors: device.security.pairing_errors.push((handle, message)),
                ..device.security
            },
            ..device
        }),
{
}

/// Encryption of a connection is told by its own handle, and only while it is
/// live.
pub proof fn lemma_encryption_told(device: DeviceView, handle: u16)
    ensures
        device.le_encrypted(handle) <==> device.le.le_connections.contains_key(handle)
            && device.le.encrypted_handles.contains(handle),
        device.classic_encrypted(handle) <==> device.classic.classic_connections.contains_key(
            handle,
        ) && device.le.encrypted_handles.contains(handle),
        device.is_central(handle) <==> device.le.le_connections.contains_key(handle)
            && device.le.le_connections[handle].role == 0,
{
}

/// A device without a description of its key store keeps keys in memory, and so
/// does one whose description is of another kind than a file. The file's name is
/// what follows the first colon, and without one the file is in the default place.
pub proof fn lemma_store_choice(choice: KeyStoreChoice, description: Seq<char>, name: Seq<char>)
    requires
        is_choice(choice, Some(description)),
    ensures
        description =~= "JsonKeyStore"@ ==> choice is DefaultFile,
        description =~= "JsonKeyStore:"@ + name && name.len() > 0 ==> choice is File
            && choice->file_name@ == name,
        description =~= "JsonKeyStore:"@ ==> choice is DefaultFile,
        description.len() < 12 || !(description.take(12) =~= "JsonKeyStore"@) ==> choice is Memory,
{
    reveal_strlit("JsonKeyStore");
    reveal_strlit("JsonKeyStore:");
    let colon = ':';
    description.index_of_first_ensures(colon);
    let plain = "JsonKeyStore"@;
    let end = kind_end(description);
    if description =~= plain {
        assert(!description.contains(colon));
        assert(description.take(end) =~= plain);
    }
    if description =~= "JsonKeyStore:"@ + name {
        assert(description[12] == colon);
        assert(description.contains(colon));
        assert(end == 12);
        assert(description.take(12) =~= plain);
        assert(description.skip(13) =~= name);
    }
    if description =~= "JsonKeyStore:"@ {
        assert(description[12] == colon);
        assert(description.contains(colon));
        assert(end == 12);
        assert(description.take(12) =~= plain);
    }
    if description.take(end) == plain {
        assert(description.take(end).len() == 12);
        assert(end == 12);
    }
}

/// Whether a key store is open, and whether addresses can be resolved, are set
/// together and change nothing else.
pub proof fn lemma_store_state(device: DeviceView, open: bool, ready: bool)
    ensures
        device.with_store(open, ready).security.key_store_open == open,
        device.with_store(open, ready).security.address_resolver_ready == ready,
        device.with_store(open, ready) == (DeviceView {
            security: SecurityView {
                key_store_open: open,
                address_resolver_ready: ready,
                ..device.security
            },
            ..device
        }),
{
}

/// A request for a long term key is answered with the key that was found, on the
/// connection that asked and while it is live. Without a key it is kept, and a key
/// that cannot be used is recorded for the connection.
pub proof fn lemma_key_request_settled(
    device: DeviceView,
    after: DeviceView,
    request: LongTermKeyRequestInfo,
    parameters: Result<([u8; 16], u16, [u8; 8]), DeviceKeyStoreError>,
    log_before: Seq<HostAction>,
    log_after: Seq<HostAction>,
)
    requires
        device.key_request_settled(
            request,
            parameters,
            after,
            log_before,
            log_after,
            device.controller_id,
        ),
    ensures
        ({
            let handle = request.connection_handle;
            let live = device.le.le_connections.contains_key(handle);
            let error = parameters->Err_0;
            let missing = error is BondNotFound || error is NoLongTermKey;
            let errors = after.security.key_store_errors;
            &&& parameters is Ok && live ==> after == device && handed(
                device,
                Command::LeLongTermKeyRequestReply {
                    connection_handle: handle,
                    long_term_key: parameters->Ok_0.0,
                },
                log_before,
                log_after,
            )
            &&& parameters is Ok && !live ==> after == device && log_after == log_before
            &&& parameters is Err ==> {
                &&& log_after == log_before
                &&& after.security.long_term_key_requests
                    == device.security.long_term_key_requests.push(request)
                &&& missing ==> errors == device.security.key_store_errors
                &&& !missing ==> {
                    &&& errors.len() == device.security.key_store_errors.len() + 1
                    &&& errors.drop_last() =~= device.security.key_store_errors
                    &&& errors.last().0 == Some(handle)
                    &&& errors.last().1@ == error.spec_message(Seq::empty())
                }
                &&& after == (DeviceView {
                    security: SecurityView {
                        long_term_key_requests: after.security.long_term_key_requests,
                        key_store_errors: errors,
                        ..device.security
                    },
                    ..device
                })
            }
        }),
{
}

/// Encryption with a bond needs a live connection on which the device is central,
/// and then the bond of its peer.
pub proof fn lemma_encryption_needs_central(
    device: DeviceView,
    handle: u16,
    bond: Option<PairingKeys>,
    result: Result<bool, DeviceKeyStoreError>,
    log_before: Seq<HostAction>,
    log_after: Seq<HostAction>,
)
    requires
        device.encrypts_with_bond(handle, bond, result, log_before, log_after),
    ensures
        ({
            let live = device.le.le_connections.contains_key(handle);
            let connection = device.le.le_connections[handle];
            let command = log_after.last()->Command_command;
            &&& !live ==> result == Err::<bool, _>(DeviceKeyStoreError::NoConnection)
            &&& live && connection.role != 0 ==> result == Err::<bool, _>(
                DeviceKeyStoreError::NotCentral { connection_handle: handle },
            )
            &&& live && connection.role == 0 && bond is None ==> result == Err::<bool, _>(
                DeviceKeyStoreError::BondNotFound { peer_address: connection.peer_address },
            )
            &&& result is Err ==> log_after == log_before
            &&& result is Ok ==> {
                &&& live && connection.role == 0 && bond is Some
                &&& handed(device, command, log_before, log_after)
                &&& command is LeEnableEncryption
                &&& command->LeEnableEncryption_connection_handle == handle
                &&& command->LeEnableEncryption_long_term_key@ == key_for_role(
                    bond->0,
                    0,
                )->0.value@
            }
        }),
{
    if device.le.le_connections.contains_key(handle) && device.le.le_connections[handle].role == 0 {
        let parameters = choose|parameters: Result<([u8; 16], u16, [u8; 8]), DeviceKeyStoreError>|
            {
                &&& #[trigger] device.stored_parameters(handle, bond, parameters)
                &&& device.started_with(handle, parameters, result, log_before, log_after)
            };
        lemma_encryption_from_bond(
            device,
            handle,
            bond,
            parameters,
            result,
            log_before,
            log_after,
        );
    }
}

/// A request for a link key is always told. A key that was found is kept for the
/// peer's connection, and one that cannot be used is recorded for it.
pub proof fn lemma_link_key_settled(
    device: DeviceView,
    after: DeviceView,
    peer: Address,
    stored: Result<Option<([u8; 16], bool)>, DeviceKeyStoreError>,
)
    requires
        device.link_key_settled(peer, stored, after),
    ensures
        ({
            let event = ClassicPairingEvent::LinkKeyRequest { peer_address: peer };
            let handle = device.classic.handle_for(peer);
            let errors = after.security.key_store_errors;
            &&& after.classic.classic_pairing_events
                == device.classic.classic_pairing_events.push(event)
            &&& stored is Ok ==> errors == device.security.key_store_errors
            &&& stored is Ok && stored->Ok_0 is Some && handle is Some
                ==> after.classic.classic_link_keys == device.classic.classic_link_keys.insert(
                handle->0,
                stored->Ok_0->0,
            )
            &&& stored is Err || stored->Ok_0 is None || handle is None
                ==> after.classic.classic_link_keys == device.classic.classic_link_keys
            &&& stored is Err ==> {
                &&& errors.len() == device.security.key_store_errors.len() + 1
                &&& errors.drop_last() =~= device.security.key_store_errors
                &&& errors.last().0 == handle
                &&& errors.last().1@ == stored->Err_0.spec_message(Seq::empty())
            }
        }),
{
}

/// A taken Security Request gives what it asked for.
pub proof fn lemma_requirements(requests: Seq<(u16, u8)>, place: int)
    requires
        0 <= place < requests.len(),
    ensures
        requests.map_values(requirement()).len() == requests.len(),
        requests.map_values(requirement())[place] == requests[place].1,
{
}

} // verus!
