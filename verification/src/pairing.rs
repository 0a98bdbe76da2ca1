//! Link keys and the course of a pairing.

use crate::address::Address;
use crate::att::{SMP_BR_CID, SMP_CID};
use crate::classic::ClassicPairingEvent;
use crate::commands::{with_command, with_command_if};
use crate::connection::ROLE_CENTRAL;
use crate::device::{Device, DeviceView};
use crate::events::{DeviceEvent, DeviceEventView};
use crate::hci::Command;
use crate::retain::{not_of_connection, of_connection, take_all, take_of_connection};
use crate::security::{
    authenticated_key_type, is_authenticated_key_type, DeviceKeyStoreError, KeyField, PairingKeys,
    NO_DIVERSIFIER, NO_RANDOM,
};
use crate::state::{ClassicView, SecurityView};
use crate::transport::{HostAction, HostTransport};
use vstd::prelude::*;

verus! {

broadcast use vstd::laws_cmp::group_laws_cmp;

/// What the pairing manager is told of an encrypted Classic connection.
#[derive(Clone, Copy, Debug, PartialEq, Eq)]
pub struct ClassicPairingConnection {
    pub connection_handle: u16,
    /// Whether the local device starts pairings on this connection.
    pub initiator: bool,
    pub local_address: Address,
    pub peer_address: Address,
    pub link_key: [u8; 16],
    pub authenticated: bool,
}

/// What is to be done for the pairing of a Classic connection.
#[derive(Clone, Copy, Debug, PartialEq, Eq)]
pub enum ClassicPairingStep {
    Nothing,
    /// The connection is not encrypted: pairings on it end.
    Disconnect,
    /// Look for the link key first.
    LoadLinkKey { peer_address: Address },
    Register(ClassicPairingConnection),
}

/// What the pairing manager tells of the pairing on a connection.
#[derive(Clone, Copy, Debug, PartialEq, Eq)]
pub struct PairingProgress {
    pub waiting_for_encryption: bool,
    pub complete: bool,
    pub encryption_key: Option<[u8; 16]>,
    pub failure: Option<u8>,
    pub has_keys: bool,
}

/// Whether a pairing goes on when a link's encryption has changed.
pub fn resumes_pairing(encryption_enabled: u8, waiting_for_encryption: bool) -> (resumes: bool)
    ensures
        resumes == (encryption_enabled != 0 && waiting_for_encryption),
{
    encryption_enabled != 0 && waiting_for_encryption
}

/// Why a pairing cannot go on.
#[derive(Clone, Copy, Debug, PartialEq, Eq, Structural)]
pub enum PairingFlowError {
    /// Pairing reached encryption without a key.
    NoEncryptionKey,
    /// Completed pairing did not retain pairing keys.
    NoPairingKeys,
}

/// The link key that a bond holds, if any.
pub open spec fn is_stored_link_key(
    bond: Option<PairingKeys>,
    result: Result<Option<([u8; 16], bool)>, DeviceKeyStoreError>,
) -> bool {
    if bond is None || bond->0.link_key is None {
        result == Ok::<Option<([u8; 16], bool)>, DeviceKeyStoreError>(None)
    } else {
        let key = bond->0.link_key->0;
        if key.value@.len() != 16 {
            result == Err::<Option<([u8; 16], bool)>, _>(
                DeviceKeyStoreError::InvalidKeyLength {
                    field: KeyField::LinkKey,
                    expected: 16,
                    actual: key.value@.len() as usize,
                },
            )
        } else {
            &&& result is Ok
            &&& result->Ok_0 is Some
            &&& (result->Ok_0->0).0@ == key.value@
            &&& (result->Ok_0->0).1 == key.authenticated
        }
    }
}

/// Read the link key of a bond.
pub fn stored_classic_link_key(bond: &Option<PairingKeys>) -> (result: Result<
    Option<([u8; 16], bool)>,
    DeviceKeyStoreError,
>)
    ensures
        is_stored_link_key(*bond, result),
{
    match bond {
        None => Ok(None),
        Some(keys) => keys.classic_link_key(),
    }
}

impl ClassicView {
    /// The state with the link key of a connection.
    pub open spec fn with_link_key(
        self,
        connection_handle: u16,
        link_key: ([u8; 16], bool),
    ) -> ClassicView {
        ClassicView {
            classic_link_keys: self.classic_link_keys.insert(connection_handle, link_key),
            ..self
        }
    }

    /// The state with the link key of the connection to a peer, if there is
    /// one.
    pub open spec fn with_peer_key(
        self,
        peer_address: Address,
        link_key: ([u8; 16], bool),
    ) -> ClassicView {
        match self.handle_for(peer_address) {
            Some(handle) => self.with_link_key(handle, link_key),
            None => self,
        }
    }
}

impl DeviceView {
    /// What is known for registering a Classic connection with the pairing
    /// manager: only an encrypted connection with a known link key can be.
    pub open spec fn pairing_connection(self, connection_handle: u16) -> Option<
        ClassicPairingConnection,
    > {
        let known = self.classic.classic_connections.contains_key(connection_handle);
        let connection = self.classic.classic_connections[connection_handle];
        let keyed = self.classic.classic_link_keys.contains_key(connection_handle);
        let key = self.classic.classic_link_keys[connection_handle];
        if self.config.classic_smp_enabled && known && connection.encryption_enabled != 0
            && keyed {
            Some(
                ClassicPairingConnection {
                    connection_handle,
                    initiator: connection.role == ROLE_CENTRAL,
                    local_address: match self.identity.public_address {
                        Some(address) => address,
                        None => self.identity.static_address,
                    },
                    peer_address: connection.peer_address,
                    link_key: key.0,
                    authenticated: key.1,
                },
            )
        } else {
            None
        }
    }

    /// What is to be done for the pairing of a Classic connection.
    pub open spec fn pairing_step(self, connection_handle: u16) -> ClassicPairingStep {
        if !self.classic.classic_connections.contains_key(connection_handle) {
            ClassicPairingStep::Nothing
        } else if self.classic.classic_connections[connection_handle].encryption_enabled == 0 {
            ClassicPairingStep::Disconnect
        } else if !self.classic.classic_link_keys.contains_key(connection_handle) {
            ClassicPairingStep::LoadLinkKey {
                peer_address: self.classic.classic_connections[connection_handle].peer_address,
            }
        } else {
            match self.pairing_connection(connection_handle) {
                Some(connection) => ClassicPairingStep::Register(connection),
                None => ClassicPairingStep::Nothing,
            }
        }
    }

    /// A device that has learnt the link key of a peer.
    pub open spec fn peer_key_learnt(
        self,
        peer_address: Address,
        link_key: ([u8; 16], bool),
    ) -> DeviceView {
        DeviceView { classic: self.classic.with_peer_key(peer_address, link_key), ..self }
    }

    /// A device that has marked a pairing's encryption as started.
    pub open spec fn encryption_begun(self, connection_handle: u16) -> DeviceView {
        DeviceView {
            security: SecurityView {
                pairing_encryption_started: self.security.pairing_encryption_started.insert(
                    connection_handle,
                ),
                ..self.security
            },
            ..self
        }
    }

    /// A device that has marked a pairing as ended.
    pub open spec fn pairing_ended(self, connection_handle: u16) -> DeviceView {
        DeviceView {
            security: SecurityView {
                pairing_terminal_handles: self.security.pairing_terminal_handles.insert(
                    connection_handle,
                ),
                ..self.security
            },
            ..self
        }
    }

    /// Whether a pairing's progress makes the device start encryption: the
    /// central does, once.
    pub open spec fn begins_encryption(
        self,
        connection_handle: u16,
        progress: PairingProgress,
    ) -> bool {
        &&& progress.waiting_for_encryption
        &&& self.is_central(connection_handle)
        &&& !self.security.pairing_encryption_started.contains(connection_handle)
    }

    /// A device after the encryption part of a pairing's progress.
    pub open spec fn encryption_settled(
        self,
        connection_handle: u16,
        progress: PairingProgress,
    ) -> DeviceView {
        if self.begins_encryption(connection_handle, progress) {
            self.encryption_begun(connection_handle)
        } else {
            self
        }
    }

    /// A device after a pairing's progress: its end is marked, and a failure
    /// announced, once.
    pub open spec fn pairing_advanced(
        self,
        connection_handle: u16,
        progress: PairingProgress,
    ) -> DeviceView {
        let settled = self.encryption_settled(connection_handle, progress);
        if self.begins_encryption(connection_handle, progress) && progress.encryption_key is None {
            settled
        } else if self.security.pairing_terminal_handles.contains(connection_handle) {
            settled
        } else {
            match progress.failure {
                Some(reason) => settled.pairing_ended(connection_handle).emitted(
                    DeviceEventView::PairingFailed { connection_handle, reason },
                ),
                None => if progress.complete {
                    settled.pairing_ended(connection_handle)
                } else {
                    settled
                },
            }
        }
    }

    /// What a pairing's progress leaves to be done: `true` stands for a bond to
    /// be stored, and the completion to be announced.
    pub open spec fn pairing_outcome(
        self,
        connection_handle: u16,
        progress: PairingProgress,
    ) -> Result<bool, PairingFlowError> {
        if self.begins_encryption(connection_handle, progress) && progress.encryption_key is None {
            Err(PairingFlowError::NoEncryptionKey)
        } else if progress.failure is None && progress.complete
            && !self.security.pairing_terminal_handles.contains(connection_handle) {
            if progress.has_keys {
                Ok(true)
            } else {
                Err(PairingFlowError::NoPairingKeys)
            }
        } else {
            Ok(false)
        }
    }
}

/// The answer to a request for a link key.
pub open spec fn link_key_answer(
    peer_address: Address,
    stored: Result<Option<([u8; 16], bool)>, DeviceKeyStoreError>,
) -> Command {
    match stored {
        Ok(Some(link_key)) => Command::LinkKeyRequestReply {
            bd_addr: peer_address,
            link_key: link_key.0,
        },
        _ => Command::LinkKeyRequestNegativeReply { bd_addr: peer_address },
    }
}

impl DeviceView {
    /// Whether a device has recorded that the bond of a peer holds no usable
    /// link key.
    pub open spec fn recorded_unusable_link_key(
        self,
        peer_address: Address,
        error: DeviceKeyStoreError,
        after: DeviceView,
    ) -> bool {
        exists|message: String|
            {
                &&& message@ == error.spec_message(Seq::empty())
                &&& after == #[trigger] self.store_failed(
                    self.classic.handle_for(peer_address),
                    message,
                )
            }
    }

    /// A device after a request for a link key: a found key is kept for the
    /// connection, an unusable one recorded, and the request reported.
    pub open spec fn link_key_settled(
        self,
        peer_address: Address,
        stored: Result<Option<([u8; 16], bool)>, DeviceKeyStoreError>,
        after: DeviceView,
    ) -> bool {
        let report = ClassicPairingEvent::LinkKeyRequest { peer_address };
        match stored {
            Ok(Some(link_key)) => after == self.peer_key_learnt(
                peer_address,
                link_key,
            ).pairing_recorded(report),
            Ok(None) => after == self.pairing_recorded(report),
            Err(error) => exists|failed: DeviceView|
                {
                    &&& #[trigger] self.recorded_unusable_link_key(peer_address, error, failed)
                    &&& after == failed.pairing_recorded(report)
                },
        }
    }
}

impl DeviceView {
    /// How a call of [`Device::answer_link_key_request`] shows.
    pub open spec fn answer_link_key_request_shows(
        self,
        after: DeviceView,
        peer_address: Address,
        key: Option<([u8; 16], bool)>,
        log_before: Seq<HostAction>,
        log_after: Seq<HostAction>,
    ) -> bool {
        &&& match key {
            Some(link_key) => {
                &&& after == self.peer_key_learnt(
                    peer_address,
                    link_key,
                ).pairing_recorded(ClassicPairingEvent::LinkKeyRequest { peer_address })
                &&& log_after == with_command(
                    log_before,
                    self.controller_id,
                    Command::LinkKeyRequestReply { bd_addr: peer_address, link_key: link_key.0 },
                )
            },
            None => {
                &&& after == self.pairing_recorded(
                    ClassicPairingEvent::LinkKeyRequest { peer_address },
                )
                &&& log_after == with_command(
                    log_before,
                    self.controller_id,
                    Command::LinkKeyRequestNegativeReply { bd_addr: peer_address },
                )
            },
        }
    }

    /// How a call of [`Device::advance_pairing`] shows.
    pub open spec fn advance_pairing_shows(
        self,
        after: DeviceView,
        connection_handle: u16,
        progress: PairingProgress,
        result: Result<bool, PairingFlowError>,
        log_before: Seq<HostAction>,
        log_after: Seq<HostAction>,
    ) -> bool {
        &&& after == self.pairing_advanced(connection_handle, progress)
        &&& result == self.pairing_outcome(connection_handle, progress)
        &&& log_after == with_command_if(
            log_before,
            self.controller_id,
            self.begins_encryption(connection_handle, progress)
                && progress.encryption_key is Some,
            Command::LeEnableEncryption {
                connection_handle,
                random_number: NO_RANDOM,
                encrypted_diversifier: NO_DIVERSIFIER,
                long_term_key: progress.encryption_key->0,
            },
        )
    }
}

impl Device {
    /// The channel that carries security messages on a connection.
    pub fn smp_channel(&self, connection_handle: u16) -> (cid: u16)
        ensures
            cid == if self@.classic.classic_connections.contains_key(connection_handle) {
                SMP_BR_CID
            } else {
                SMP_CID
            },
    {
        if self.classic.classic_connections.contains_key(&connection_handle) {
            SMP_BR_CID
        } else {
            SMP_CID
        }
    }

    /// Keep the link key that a bond holds for a connection's peer. Returns
    /// whether there was one.
    pub fn load_classic_link_key(&mut self, connection_handle: u16, bond: &Option<PairingKeys>) -> (
    result: Result<bool, DeviceKeyStoreError>)
        requires
            old(self).wf(),
        ensures
            final(self).wf(),
            if !old(self)@.classic.classic_connections.contains_key(connection_handle) {
                &&& result == Err::<bool, _>(DeviceKeyStoreError::NoConnection)
                &&& final(self)@ == old(self)@
            } else {
                exists|stored: Result<Option<([u8; 16], bool)>, DeviceKeyStoreError>|
                    {
                        &&& #[trigger] is_stored_link_key(*bond, stored)
                        &&& match stored {
                            Ok(Some(link_key)) => {
                                &&& result == Ok::<bool, DeviceKeyStoreError>(true)
                                &&& final(self)@ == (DeviceView {
                                    classic: old(self)@.classic.with_link_key(
                                        connection_handle,
                                        link_key,
                                    ),
                                    ..old(self)@
                                })
                            },
                            Ok(None) => result == Ok::<bool, DeviceKeyStoreError>(false)
                                && final(self)@ == old(self)@,
                            Err(error) => result == Err::<bool, _>(error) && final(self)@ == old(
                                self,
                            )@,
                        }
                    }
            },
    {
        if !self.classic.classic_connections.contains_key(&connection_handle) {
            return Err(DeviceKeyStoreError::NoConnection);
        }
        let stored = stored_classic_link_key(bond);
        assert(is_stored_link_key(*bond, stored));
        match stored {
            Ok(Some(link_key)) => {
                self.classic.classic_link_keys.insert(connection_handle, link_key);
                assert(self@ =~= (DeviceView {
                    classic: old(self)@.classic.with_link_key(connection_handle, link_key),
                    ..old(self)@
                }));
                Ok(true)
            },
            Ok(None) => Ok(false),
            Err(error) => Err(error),
        }
    }

    /// What is known for registering a Classic connection with the pairing
    /// manager.
    pub fn classic_pairing_connection(&self, connection_handle: u16) -> (connection: Option<
        ClassicPairingConnection,
    >)
        ensures
            connection == self@.pairing_connection(connection_handle),
    {
        if !self.config.classic_smp_enabled {
            return None;
        }
        match (
            self.classic.classic_connections.get(&connection_handle),
            self.classic.classic_link_keys.get(&connection_handle),
        ) {
            (Some(connection), Some(key)) => {
                if connection.encryption_enabled == 0 {
                    return None;
                }
                let local_address: Address = match self.identity.public_address {
                    Some(address) => address,
                    None => self.identity.static_address,
                };
                Some(
                    ClassicPairingConnection {
                        connection_handle,
                        initiator: connection.role == ROLE_CENTRAL,
                        local_address,
                        peer_address: connection.peer_address,
                        link_key: key.0,
                        authenticated: key.1,
                    },
                )
            },
            _ => None,
        }
    }

    /// What is to be done for the pairing of a Classic connection.
    pub fn classic_pairing_step(&self, connection_handle: u16) -> (step: ClassicPairingStep)
        ensures
            step == self@.pairing_step(connection_handle),
    {
        match self.classic.classic_connections.get(&connection_handle) {
            None => ClassicPairingStep::Nothing,
            Some(connection) => {
                if connection.encryption_enabled == 0 {
                    ClassicPairingStep::Disconnect
                } else if !self.classic.classic_link_keys.contains_key(&connection_handle) {
                    ClassicPairingStep::LoadLinkKey { peer_address: connection.peer_address }
                } else {
                    match self.classic_pairing_connection(connection_handle) {
                        Some(connection) => ClassicPairingStep::Register(connection),
                        None => ClassicPairingStep::Nothing,
                    }
                }
            },
        }
    }

    /// Keep the link key of the connection to a peer, and return its handle.
    fn learn_peer_key(&mut self, peer_address: Address, link_key: ([u8; 16], bool)) -> (handle:
        Option<u16>)
        requires
            old(self).wf(),
        ensures
            final(self).wf(),
            handle == old(self)@.classic.handle_for(peer_address),
            final(self)@ == old(self)@.peer_key_learnt(peer_address, link_key),
    {
        let handle = self.classic.find_handle(peer_address);
        if let Some(connection_handle) = handle {
            self.classic.classic_link_keys.insert(connection_handle, link_key);
        }
        assert(self@ =~= old(self)@.peer_key_learnt(peer_address, link_key));
        handle
    }

    /// Answer a request for a link key with the stored one, or say that there
    /// is none. The request is recorded either way.
    pub fn answer_link_key_request<L: HostTransport + ?Sized>(
        &mut self,
        link: &mut L,
        peer_address: Address,
        key: Option<([u8; 16], bool)>,
    )
        requires
            old(self).wf(),
        ensures
            final(self).wf(),
            old(self)@.answer_link_key_request_shows(
                final(self)@,
                peer_address,
                key,
                old(link).log(),
                final(link).log(),
            ),
    {
        match key {
            Some(link_key) => {
                let _ = self.learn_peer_key(peer_address, link_key);
                self.send_hci_command(
                    link,
                    Command::LinkKeyRequestReply { bd_addr: peer_address, link_key: link_key.0 },
                );
            },
            None => {
                self.send_hci_command(
                    link,
                    Command::LinkKeyRequestNegativeReply { bd_addr: peer_address },
                );
            },
        }
        self.record_classic_pairing_event(ClassicPairingEvent::LinkKeyRequest { peer_address });
    }

    /// Answer a request for a link key from the bond that the store holds for
    /// the peer. A bond that cannot be used counts as none, and is recorded as
    /// an error of the store.
    pub fn answer_link_key_request_with_bond<L: HostTransport + ?Sized>(
        &mut self,
        link: &mut L,
        peer_address: Address,
        bond: &Option<PairingKeys>,
    )
        requires
            old(self).wf(),
        ensures
            final(self).wf(),
            exists|stored: Result<Option<([u8; 16], bool)>, DeviceKeyStoreError>|
                {
                    &&& #[trigger] is_stored_link_key(*bond, stored)
                    &&& old(self)@.link_key_settled(peer_address, stored, final(self)@)
                    &&& final(link).log() == with_command(
                        old(link).log(),
                        old(self).controller_id,
                        link_key_answer(peer_address, stored),
                    )
                },
    {
        let stored = stored_classic_link_key(bond);
        match stored {
            Ok(key) => {
                self.answer_link_key_request(link, peer_address, key);
            },
            Err(error) => {
                let handle = self.classic_connection_handle_for_peer(&peer_address);
                let message = error.message("");
                proof {
                    reveal_strlit("");
                    assert(""@ =~= Seq::<char>::empty());
                }
                let ghost failed = old(self)@.store_failed(handle, message);
                self.record_key_store_error(handle, message);
                self.answer_link_key_request(link, peer_address, None);
                assert(old(self)@.recorded_unusable_link_key(peer_address, error, failed));
            },
        }
    }

    /// Keep a new link key for the connection to its peer, and return the
    /// connection's handle.
    pub fn keep_link_key(&mut self, peer_address: Address, link_key: [u8; 16], key_type: u8) -> (
    handle: Option<u16>)
        requires
            old(self).wf(),
        ensures
            final(self).wf(),
            handle == old(self)@.classic.handle_for(peer_address),
            final(self)@ == old(self)@.peer_key_learnt(
                peer_address,
                (link_key, authenticated_key_type(key_type)),
            ),
    {
        self.learn_peer_key(peer_address, (link_key, is_authenticated_key_type(key_type)))
    }

    /// Announce that the key store has changed.
    pub fn announce_key_store_update(&mut self)
        requires
            old(self).wf(),
        ensures
            final(self).wf(),
            final(self)@ == old(self)@.emitted(DeviceEventView::KeyStoreUpdated),
    {
        self.emit_device_event(DeviceEvent::KeyStoreUpdated);
    }

    /// Begin a new pairing on a connection: nothing of an earlier one counts.
    pub fn begin_pairing(&mut self, connection_handle: u16)
        requires
            old(self).wf(),
        ensures
            final(self).wf(),
            final(self)@ == (DeviceView {
                security: SecurityView {
                    pairing_encryption_started: old(
                        self,
                    )@.security.pairing_encryption_started.remove(connection_handle),
                    pairing_terminal_handles: old(self)@.security.pairing_terminal_handles.remove(
                        connection_handle,
                    ),
                    ..old(self)@.security
                },
                ..old(self)@
            }),
    {
        self.security.pairing_encryption_started.remove(&connection_handle);
        self.security.pairing_terminal_handles.remove(&connection_handle);
        assert(self@ =~= (DeviceView {
            security: SecurityView {
                pairing_encryption_started: old(
                    self,
                )@.security.pairing_encryption_started.remove(connection_handle),
                pairing_terminal_handles: old(self)@.security.pairing_terminal_handles.remove(
                    connection_handle,
                ),
                ..old(self)@.security
            },
            ..old(self)@
        }));
    }

    /// Act on the progress of a pairing: start encryption as the central, once,
    /// and mark its end, once. `true` means that the bond is to be stored and
    /// the completion announced.
    pub fn advance_pairing<L: HostTransport + ?Sized>(
        &mut self,
        link: &mut L,
        connection_handle: u16,
        progress: PairingProgress,
    ) -> (result: Result<bool, PairingFlowError>)
        requires
            old(self).wf(),
        ensures
            final(self).wf(),
            old(self)@.advance_pairing_shows(
                final(self)@,
                connection_handle,
                progress,
                result,
                old(link).log(),
                final(link).log(),
            ),
    {
        let ghost before = self@;
        let central: bool = match self.le.le_connections.get(&connection_handle) {
            Some(connection) => connection.role == ROLE_CENTRAL,
            None => false,
        };
        assert(central == before.is_central(connection_handle));
        if progress.waiting_for_encryption && central
            && self.security.pairing_encryption_started.insert(connection_handle) {
            assert(self@ =~= before.encryption_begun(connection_handle));
            match progress.encryption_key {
                None => {
                    return Err(PairingFlowError::NoEncryptionKey);
                },
                Some(key) => {
                    let _ = self.enable_encryption_on_handle(link, connection_handle, key);
                },
            }
        } else {
            assert(self@ =~= before);
        }
        assert(self@ == before.encryption_settled(connection_handle, progress));
        let ghost settled = self@;
        if let Some(reason) = progress.failure {
            if self.security.pairing_terminal_handles.insert(connection_handle) {
                assert(self@ =~= settled.pairing_ended(connection_handle));
                self.emit_device_event(DeviceEvent::PairingFailed { connection_handle, reason });
            } else {
                assert(self@ =~= settled);
            }
            Ok(false)
        } else if progress.complete {
            if self.security.pairing_terminal_handles.insert(connection_handle) {
                assert(self@ =~= settled.pairing_ended(connection_handle));
                if progress.has_keys {
                    Ok(true)
                } else {
                    Err(PairingFlowError::NoPairingKeys)
                }
            } else {
                assert(self@ =~= settled);
                Ok(false)
            }
        } else {
            Ok(false)
        }
    }

    /// Announce that a pairing is complete.
    pub fn announce_pairing_complete(&mut self, connection_handle: u16, keys: PairingKeys)
        requires
            old(self).wf(),
        ensures
            final(self).wf(),
            final(self)@ == old(self)@.emitted(
                DeviceEventView::PairingComplete { connection_handle, keys: keys@ },
            ),
    {
        self.emit_device_event(DeviceEvent::PairingComplete { connection_handle, keys });
    }

    /// Take the authentication requirements of all security requests, oldest
    /// first, with the connections that they came on.
    fn take_requests(&mut self) -> (requests: Vec<(u16, u8)>)
        requires
            old(self).wf(),
        ensures
            final(self).wf(),
            requests@ == old(self)@.security.security_requests,
            final(self)@ == old(self)@.with_security_requests(Seq::empty()),
    {
        let requests = take_all(&mut self.security.security_requests);
        assert(self@ =~= old(self)@.with_security_requests(Seq::empty()));
        requests
    }

    /// Take the authentication requirements of the security requests seen so
    /// far, oldest first.
    pub fn take_security_requests(&mut self) -> (requests: Vec<u8>)
        requires
            old(self).wf(),
        ensures
            final(self).wf(),
            requests@ == old(self)@.security.security_requests.map_values(requirement()),
            final(self)@ == old(self)@.with_security_requests(Seq::empty()),
    {
        requirements(self.take_requests())
    }

    /// Take the authentication requirements of the security requests seen on
    /// one connection; those of others stay.
    pub fn take_security_requests_on_handle(&mut self, connection_handle: u16) -> (requests: Vec<
        u8,
    >)
        requires
            old(self).wf(),
        ensures
            final(self).wf(),
            requests@ == old(self)@.security.security_requests.filter(
                of_connection(connection_handle),
            ).map_values(requirement()),
            final(self)@ == old(self)@.with_security_requests(
                old(self)@.security.security_requests.filter(
                    not_of_connection(connection_handle),
                ),
            ),
    {
        let taken = take_of_connection(&mut self.security.security_requests, connection_handle);
        assert(self@ =~= old(self)@.with_security_requests(
            old(self)@.security.security_requests.filter(not_of_connection(connection_handle)),
        ));
        requirements(taken)
    }
}

impl DeviceView {
    /// A device with given security requests.
    pub open spec fn with_security_requests(self, requests: Seq<(u16, u8)>) -> DeviceView {
        DeviceView {
            security: SecurityView { security_requests: requests, ..self.security },
            ..self
        }
    }
}

/// The authentication requirements of a security request.
pub open spec fn requirement() -> spec_fn((u16, u8)) -> u8 {
    |request: (u16, u8)| request.1
}

fn requirements(requests: Vec<(u16, u8)>) -> (list: Vec<u8>)
    ensures
        list@ == requests@.map_values(requirement()),
{
    let mut list: Vec<u8> = Vec::new();
    let mut index: usize = 0;
    while index < requests.len()
        invariant
            index <= requests@.len(),
            list@ == requests@.take(index as int).map_values(requirement()),
        decreases requests@.len() - index,
    {
        list.push(requests[index].1);
        index += 1;
        assert(list@ =~= requests@.take(index as int).map_values(requirement()));
    }
    assert(requests@.take(index as int) =~= requests@);
    list
}

} // verus!
