//! Encryption of connections and the answers to requests for long term keys.

use crate::commands::with_command_if;
use crate::connection::{LongTermKeyRequestInfo, ROLE_CENTRAL};
use crate::device::{Device, DeviceView};
use crate::hci::Command;
use crate::retain::{not_of_connection, of_connection, take_all, take_of_connection};
use crate::security::{
    is_encryption_parameters, DeviceKeyStoreError, PairingKeys, NO_DIVERSIFIER, NO_RANDOM,
};
use crate::state::SecurityView;
use crate::transport::{HostAction, HostTransport};
use vstd::prelude::*;

verus! {

broadcast use vstd::laws_cmp::group_laws_cmp;

impl DeviceView {
    /// Whether a handle names an encrypted LE connection.
    pub open spec fn le_encrypted(self, connection_handle: u16) -> bool {
        &&& self.le.le_connections.contains_key(connection_handle)
        &&& self.le.encrypted_handles.contains(connection_handle)
    }

    /// Whether a handle names an encrypted Classic connection.
    pub open spec fn classic_encrypted(self, connection_handle: u16) -> bool {
        &&& self.classic.classic_connections.contains_key(connection_handle)
        &&& self.le.encrypted_handles.contains(connection_handle)
    }

    /// Whether a device is the central of an LE connection.
    pub open spec fn is_central(self, connection_handle: u16) -> bool {
        &&& self.le.le_connections.contains_key(connection_handle)
        &&& self.le.le_connections[connection_handle].role == ROLE_CENTRAL
    }

    /// A device with one more request for a long term key to answer.
    pub open spec fn with_key_request(self, request: LongTermKeyRequestInfo) -> DeviceView {
        DeviceView {
            security: SecurityView {
                long_term_key_requests: self.security.long_term_key_requests.push(request),
                ..self.security
            },
            ..self
        }
    }

    /// A device without any request for a long term key.
    pub open spec fn with_key_requests(self, requests: Seq<LongTermKeyRequestInfo>) -> DeviceView {
        DeviceView {
            security: SecurityView { long_term_key_requests: requests, ..self.security },
            ..self
        }
    }

    /// The encryption parameters that a bond gives for a connection; `None`
    /// for the bond means that the store holds none for the peer.
    pub open spec fn stored_parameters(
        self,
        connection_handle: u16,
        bond: Option<PairingKeys>,
        result: Result<([u8; 16], u16, [u8; 8]), DeviceKeyStoreError>,
    ) -> bool {
        if !self.le.le_connections.contains_key(connection_handle) {
            result == Err::<([u8; 16], u16, [u8; 8]), _>(DeviceKeyStoreError::NoConnection)
        } else {
            let connection = self.le.le_connections[connection_handle];
            match bond {
                None => result == Err::<([u8; 16], u16, [u8; 8]), _>(
                    DeviceKeyStoreError::BondNotFound { peer_address: connection.peer_address },
                ),
                Some(keys) => is_encryption_parameters(
                    keys,
                    connection.role,
                    connection.peer_address,
                    result,
                ),
            }
        }
    }

    /// How encryption is started from given parameters: with one command, where
    /// they could be had, and otherwise not at all.
    pub open spec fn started_with(
        self,
        connection_handle: u16,
        parameters: Result<([u8; 16], u16, [u8; 8]), DeviceKeyStoreError>,
        result: Result<bool, DeviceKeyStoreError>,
        before: Seq<HostAction>,
        after: Seq<HostAction>,
    ) -> bool {
        match parameters {
            Ok((long_term_key, encrypted_diversifier, random_number)) => {
                &&& result == Ok::<bool, DeviceKeyStoreError>(true)
                &&& after == with_command_if(
                    before,
                    self.controller_id,
                    true,
                    Command::LeEnableEncryption {
                        connection_handle,
                        random_number,
                        encrypted_diversifier,
                        long_term_key,
                    },
                )
            },
            Err(error) => result == Err::<bool, _>(error) && after == before,
        }
    }
}

impl DeviceView {
    /// How a call of [`Device::enable_encryption`] shows.
    pub open spec fn enable_encryption_shows(
        self,
        after: DeviceView,
        key: [u8; 16],
        asked: bool,
        log_before: Seq<HostAction>,
        log_after: Seq<HostAction>,
    ) -> bool {
        &&& after == self
        &&& asked == (self.le.connection_handle is Some)
        &&& log_after == with_command_if(
            log_before,
            self.controller_id,
            asked,
            Command::LeEnableEncryption {
                connection_handle: self.le.connection_handle->0,
                random_number: NO_RANDOM,
                encrypted_diversifier: NO_DIVERSIFIER,
                long_term_key: key,
            },
        )
    }

    /// How a call of [`Device::enable_encryption_with_parameters`] shows.
    pub open spec fn enable_encryption_with_parameters_shows(
        self,
        after: DeviceView,
        key: [u8; 16],
        encrypted_diversifier: u16,
        random_number: [u8; 8],
        asked: bool,
        log_before: Seq<HostAction>,
        log_after: Seq<HostAction>,
    ) -> bool {
        &&& after == self
        &&& asked == (self.le.connection_handle is Some)
        &&& log_after == with_command_if(
            log_before,
            self.controller_id,
            asked,
            Command::LeEnableEncryption {
                connection_handle: self.le.connection_handle->0,
                random_number,
                encrypted_diversifier,
                long_term_key: key,
            },
        )
    }

    /// How a call of [`Device::enable_encryption_on_handle`] shows.
    pub open spec fn enable_encryption_on_handle_shows(
        self,
        after: DeviceView,
        connection_handle: u16,
        key: [u8; 16],
        asked: bool,
        log_before: Seq<HostAction>,
        log_after: Seq<HostAction>,
    ) -> bool {
        &&& after == self
        &&& asked == self.le.le_connections.contains_key(connection_handle)
        &&& log_after == with_command_if(
            log_before,
            self.controller_id,
            asked,
            Command::LeEnableEncryption {
                connection_handle,
                random_number: NO_RANDOM,
                encrypted_diversifier: NO_DIVERSIFIER,
                long_term_key: key,
            },
        )
    }

    /// How a call of [`Device::enable_encryption_with_parameters_on_handle`] shows.
    pub open spec fn enable_encryption_with_parameters_on_handle_shows(
        self,
        after: DeviceView,
        connection_handle: u16,
        key: [u8; 16],
        encrypted_diversifier: u16,
        random_number: [u8; 8],
        asked: bool,
        log_before: Seq<HostAction>,
        log_after: Seq<HostAction>,
    ) -> bool {
        &&& after == self
        &&& asked == self.le.le_connections.contains_key(connection_handle)
        &&& log_after == with_command_if(
            log_before,
            self.controller_id,
            asked,
            Command::LeEnableEncryption {
                connection_handle,
                random_number,
                encrypted_diversifier,
                long_term_key: key,
            },
        )
    }

    /// How a call of [`Device::reply_long_term_key_request`] shows.
    pub open spec fn reply_long_term_key_request_shows(
        self,
        after: DeviceView,
        connection_handle: u16,
        long_term_key: [u8; 16],
        replied: bool,
        log_before: Seq<HostAction>,
        log_after: Seq<HostAction>,
    ) -> bool {
        &&& after == self
        &&& replied == self.le.le_connections.contains_key(connection_handle)
        &&& log_after == with_command_if(
            log_before,
            self.controller_id,
            replied,
            Command::LeLongTermKeyRequestReply { connection_handle, long_term_key },
        )
    }

    /// How a call of [`Device::reject_long_term_key_request`] shows.
    pub open spec fn reject_long_term_key_request_shows(
        self,
        after: DeviceView,
        connection_handle: u16,
        rejected: bool,
        log_before: Seq<HostAction>,
        log_after: Seq<HostAction>,
    ) -> bool {
        &&& after == self
        &&& rejected == self.le.le_connections.contains_key(connection_handle)
        &&& log_after == with_command_if(
            log_before,
            self.controller_id,
            rejected,
            Command::LeLongTermKeyRequestNegativeReply { connection_handle },
        )
    }

    /// How a call of [`Device::answer_long_term_key_request`] shows.
    pub open spec fn answer_long_term_key_request_shows(
        self,
        after: DeviceView,
        request: LongTermKeyRequestInfo,
        key: Option<[u8; 16]>,
        log_before: Seq<HostAction>,
        log_after: Seq<HostAction>,
    ) -> bool {
        &&& match key {
            Some(long_term_key) => {
                &&& after == self
                &&& log_after == with_command_if(
                    log_before,
                    self.controller_id,
                    self.le.le_connections.contains_key(request.connection_handle),
                    Command::LeLongTermKeyRequestReply {
                        connection_handle: request.connection_handle,
                        long_term_key,
                    },
                )
            },
            None => {
                &&& after == self.with_key_request(request)
                &&& log_after == log_before
            },
        }
    }
}

impl Device {
    /// Whether the selected LE connection is encrypted.
    pub fn is_encrypted(&self) -> (encrypted: bool)
        requires
            self.wf(),
        ensures
            encrypted == match self@.le.connection_handle {
                Some(handle) => self@.le_encrypted(handle),
                None => false,
            },
    {
        match self.le.connection_handle {
            Some(handle) => self.le.encrypted_handles.contains(&handle),
            None => false,
        }
    }

    pub fn is_encrypted_on_handle(&self, connection_handle: u16) -> (encrypted: bool)
        ensures
            encrypted == self@.le_encrypted(connection_handle),
    {
        self.le.le_connections.contains_key(&connection_handle)
            && self.le.encrypted_handles.contains(&connection_handle)
    }

    /// Whether the selected Classic connection is encrypted.
    pub fn is_classic_encrypted(&self) -> (encrypted: bool)
        requires
            self.wf(),
        ensures
            encrypted == match self@.classic.classic_connection_handle {
                Some(handle) => self@.classic_encrypted(handle),
                None => false,
            },
    {
        match self.classic.classic_connection_handle {
            Some(handle) => self.le.encrypted_handles.contains(&handle),
            None => false,
        }
    }

    pub fn is_classic_encrypted_on_handle(&self, connection_handle: u16) -> (encrypted: bool)
        ensures
            encrypted == self@.classic_encrypted(connection_handle),
    {
        self.classic.classic_connections.contains_key(&connection_handle)
            && self.le.encrypted_handles.contains(&connection_handle)
    }

    /// Enable LE encryption of the selected connection with a pairing-derived
    /// key.
    pub fn enable_encryption<L: HostTransport + ?Sized>(&mut self, link: &mut L, key: [u8; 16]) -> (
    asked: bool)
        requires
            old(self).wf(),
        ensures
            final(self).wf(),
            old(self)@.enable_encryption_shows(
                final(self)@,
                key,
                asked,
                old(link).log(),
                final(link).log(),
            ),
    {
        self.enable_encryption_with_parameters(link, key, NO_DIVERSIFIER, NO_RANDOM)
    }

    /// Enable LE encryption of the selected connection from a persisted bond.
    /// Legacy bonds keep their diversifier and random number; Secure
    /// Connections bonds pass zero values.
    pub fn enable_encryption_with_parameters<L: HostTransport + ?Sized>(
        &mut self,
        link: &mut L,
        key: [u8; 16],
        encrypted_diversifier: u16,
        random_number: [u8; 8],
    ) -> (asked: bool)
        requires
            old(self).wf(),
        ensures
            final(self).wf(),
            old(self)@.enable_encryption_with_parameters_shows(
                final(self)@,
                key,
                encrypted_diversifier,
                random_number,
                asked,
                old(link).log(),
                final(link).log(),
            ),
    {
        match self.le.connection_handle {
            Some(connection_handle) => self.enable_encryption_with_parameters_on_handle(
                link,
                connection_handle,
                key,
                encrypted_diversifier,
                random_number,
            ),
            None => false,
        }
    }

    /// Enable encryption of one LE connection with a pairing-derived key.
    pub fn enable_encryption_on_handle<L: HostTransport + ?Sized>(
        &mut self,
        link: &mut L,
        connection_handle: u16,
        key: [u8; 16],
    ) -> (asked: bool)
        requires
            old(self).wf(),
        ensures
            final(self).wf(),
            old(self)@.enable_encryption_on_handle_shows(
                final(self)@,
                connection_handle,
                key,
                asked,
                old(link).log(),
                final(link).log(),
            ),
    {
        self.enable_encryption_with_parameters_on_handle(
            link,
            connection_handle,
            key,
            NO_DIVERSIFIER,
            NO_RANDOM,
        )
    }

    /// Enable encryption of one LE connection from a persisted bond. Returns
    /// `false`, with nothing done, where there is no such connection.
    pub fn enable_encryption_with_parameters_on_handle<L: HostTransport + ?Sized>(
        &mut self,
        link: &mut L,
        connection_handle: u16,
        key: [u8; 16],
        encrypted_diversifier: u16,
        random_number: [u8; 8],
    ) -> (asked: bool)
        requires
            old(self).wf(),
        ensures
            final(self).wf(),
            old(self)@.enable_encryption_with_parameters_on_handle_shows(
                final(self)@,
                connection_handle,
                key,
                encrypted_diversifier,
                random_number,
                asked,
                old(link).log(),
                final(link).log(),
            ),
    {
        if !self.le.le_connections.contains_key(&connection_handle) {
            return false;
        }
        self.send_hci_command(
            link,
            Command::LeEnableEncryption {
                connection_handle,
                random_number,
                encrypted_diversifier,
                long_term_key: key,
            },
        );
        true
    }

    /// Answer a controller's request for a long term key.
    pub fn reply_long_term_key_request<L: HostTransport + ?Sized>(
        &mut self,
        link: &mut L,
        connection_handle: u16,
        long_term_key: [u8; 16],
    ) -> (replied: bool)
        requires
            old(self).wf(),
        ensures
            final(self).wf(),
            old(self)@.reply_long_term_key_request_shows(
                final(self)@,
                connection_handle,
                long_term_key,
                replied,
                old(link).log(),
                final(link).log(),
            ),
    {
        if !self.le.le_connections.contains_key(&connection_handle) {
            return false;
        }
        self.send_hci_command(
            link,
            Command::LeLongTermKeyRequestReply { connection_handle, long_term_key },
        );
        true
    }

    /// Reject a controller's request for a long term key.
    pub fn reject_long_term_key_request<L: HostTransport + ?Sized>(
        &mut self,
        link: &mut L,
        connection_handle: u16,
    ) -> (rejected: bool)
        requires
            old(self).wf(),
        ensures
            final(self).wf(),
            old(self)@.reject_long_term_key_request_shows(
                final(self)@,
                connection_handle,
                rejected,
                old(link).log(),
                final(link).log(),
            ),
    {
        if !self.le.le_connections.contains_key(&connection_handle) {
            return false;
        }
        self.send_hci_command(
            link,
            Command::LeLongTermKeyRequestNegativeReply { connection_handle },
        );
        true
    }

    /// Take all open requests for long term keys, oldest first.
    pub fn take_long_term_key_requests(&mut self) -> (requests: Vec<LongTermKeyRequestInfo>)
        requires
            old(self).wf(),
        ensures
            final(self).wf(),
            requests@ == old(self)@.security.long_term_key_requests,
            final(self)@ == old(self)@.with_key_requests(Seq::empty()),
    {
        let requests = take_all(&mut self.security.long_term_key_requests);
        assert(self@ =~= old(self)@.with_key_requests(Seq::empty()));
        requests
    }

    /// Take the open requests for long term keys of one connection; those of
    /// other connections stay.
    pub fn take_long_term_key_requests_on_handle(&mut self, connection_handle: u16) -> (requests:
        Vec<LongTermKeyRequestInfo>)
        requires
            old(self).wf(),
        ensures
            final(self).wf(),
            requests@ == old(self)@.security.long_term_key_requests.filter(
                of_connection(connection_handle),
            ),
            final(self)@ == old(self)@.with_key_requests(
                old(self)@.security.long_term_key_requests.filter(
                    not_of_connection(connection_handle),
                ),
            ),
    {
        let requests = take_of_connection(
            &mut self.security.long_term_key_requests,
            connection_handle,
        );
        assert(self@ =~= old(self)@.with_key_requests(
            old(self)@.security.long_term_key_requests.filter(
                not_of_connection(connection_handle),
            ),
        ));
        requests
    }

    /// The encryption parameters that a bond gives for a connection.
    pub fn stored_encryption_parameters(
        &self,
        connection_handle: u16,
        bond: &Option<PairingKeys>,
    ) -> (result: Result<([u8; 16], u16, [u8; 8]), DeviceKeyStoreError>)
        ensures
            self@.stored_parameters(connection_handle, *bond, result),
    {
        match self.le.le_connections.get(&connection_handle) {
            None => Err(DeviceKeyStoreError::NoConnection),
            Some(connection) => match bond {
                None => Err(
                    DeviceKeyStoreError::BondNotFound { peer_address: connection.peer_address },
                ),
                Some(keys) => keys.encryption_parameters(connection.role, connection.peer_address),
            },
        }
    }

    /// Start encryption of the selected LE connection with the bond that the
    /// store holds for its peer.
    pub fn enable_encryption_with_bond<L: HostTransport + ?Sized>(
        &mut self,
        link: &mut L,
        bond: &Option<PairingKeys>,
    ) -> (result: Result<bool, DeviceKeyStoreError>)
        requires
            old(self).wf(),
        ensures
            final(self).wf(),
            final(self)@ == old(self)@,
            match old(self)@.le.connection_handle {
                None => result == Err::<bool, _>(DeviceKeyStoreError::NoConnection)
                    && final(link).log() == old(link).log(),
                Some(handle) => old(self)@.encrypts_with_bond(
                    handle,
                    *bond,
                    result,
                    old(link).log(),
                    final(link).log(),
                ),
            },
    {
        match self.le.connection_handle {
            None => Err(DeviceKeyStoreError::NoConnection),
            Some(handle) => self.enable_encryption_with_bond_on_handle(link, handle, bond),
        }
    }

    /// Start encryption of one LE connection with the bond that the store holds
    /// for its peer. Only a central can.
    pub fn enable_encryption_with_bond_on_handle<L: HostTransport + ?Sized>(
        &mut self,
        link: &mut L,
        connection_handle: u16,
        bond: &Option<PairingKeys>,
    ) -> (result: Result<bool, DeviceKeyStoreError>)
        requires
            old(self).wf(),
        ensures
            final(self).wf(),
            final(self)@ == old(self)@,
            old(self)@.encrypts_with_bond(
                connection_handle,
                *bond,
                result,
                old(link).log(),
                final(link).log(),
            ),
    {
        match self.le.le_connections.get(&connection_handle) {
            None => {
                return Err(DeviceKeyStoreError::NoConnection);
            },
            Some(connection) => {
                if connection.role != ROLE_CENTRAL {
                    return Err(DeviceKeyStoreError::NotCentral { connection_handle });
                }
            },
        }
        let parameters = self.stored_encryption_parameters(connection_handle, bond);
        let ghost device = self@;
        let ghost log = link.log();
        let result = match parameters {
            Ok((key, encrypted_diversifier, random_number)) => Ok(
                self.enable_encryption_with_parameters_on_handle(
                    link,
                    connection_handle,
                    key,
                    encrypted_diversifier,
                    random_number,
                ),
            ),
            Err(error) => Err(error),
        };
        assert(device.started_with(connection_handle, parameters, result, log, link.log()));
        result
    }

    /// Answer a request for a long term key with the key of a pairing or a
    /// bond; without one the request is kept for the application.
    pub fn answer_long_term_key_request<L: HostTransport + ?Sized>(
        &mut self,
        link: &mut L,
        request: LongTermKeyRequestInfo,
        key: Option<[u8; 16]>,
    )
        requires
            old(self).wf(),
        ensures
            final(self).wf(),
            old(self)@.answer_long_term_key_request_shows(
                final(self)@,
                request,
                key,
                old(link).log(),
                final(link).log(),
            ),
    {
        match key {
            Some(long_term_key) => {
                let _ = self.reply_long_term_key_request(
                    link,
                    request.connection_handle,
                    long_term_key,
                );
            },
            None => {
                self.security.long_term_key_requests.push(request);
                assert(self@ =~= old(self)@.with_key_request(request));
            },
        }
    }
}

impl Device {
    /// Answer a request for a long term key with the key of a pairing, or else
    /// with the bond that the store holds for the peer. Without a key the
    /// request is kept for the application; a bond that cannot be used is
    /// recorded as an error of the store.
    pub fn answer_long_term_key_request_with_bond<L: HostTransport + ?Sized>(
        &mut self,
        link: &mut L,
        request: LongTermKeyRequestInfo,
        pairing_key: Option<[u8; 16]>,
        bond: &Option<PairingKeys>,
    )
        requires
            old(self).wf(),
        ensures
            final(self).wf(),
            match pairing_key {
                Some(key) => old(self)@.key_request_settled(
                    request,
                    Ok((key, NO_DIVERSIFIER, NO_RANDOM)),
                    final(self)@,
                    old(link).log(),
                    final(link).log(),
                    old(self).controller_id,
                ),
                None => exists|parameters: Result<([u8; 16], u16, [u8; 8]), DeviceKeyStoreError>|
                    {
                        &&& #[trigger] old(self)@.stored_parameters(
                            request.connection_handle,
                            *bond,
                            parameters,
                        )
                        &&& old(self)@.key_request_settled(
                            request,
                            parameters,
                            final(self)@,
                            old(link).log(),
                            final(link).log(),
                            old(self).controller_id,
                        )
                    },
            },
    {
        if pairing_key.is_some() {
            self.answer_long_term_key_request(link, request, pairing_key);
            return;
        }
        let parameters = self.stored_encryption_parameters(request.connection_handle, bond);
        match parameters {
            Ok((key, _, _)) => {
                self.answer_long_term_key_request(link, request, Some(key));
            },
            Err(error) => {
                if !error.says_no_key() {
                    let message = error.message("");
                    proof {
                        reveal_strlit("");
                        assert(""@ =~= Seq::<char>::empty());
                    }
                    let ghost failed = old(self)@.store_failed(
                        Some(request.connection_handle),
                        message,
                    );
                    self.record_key_store_error(Some(request.connection_handle), message);
                    self.answer_long_term_key_request(link, request, None);
                    assert(old(self)@.recorded_unusable(request, error, failed));
                } else {
                    self.answer_long_term_key_request(link, request, None);
                }
            },
        }
    }
}

impl DeviceKeyStoreError {
    /// Whether the error only says that a bond gives no long term key.
    pub open spec fn is_missing_key(self) -> bool {
        self is BondNotFound || self is NoLongTermKey
    }

    /// Whether the error only says that a bond gives no long term key.
    fn says_no_key(&self) -> (missing: bool)
        ensures
            missing == self.is_missing_key(),
    {
        match self {
            DeviceKeyStoreError::BondNotFound { .. } => true,
            DeviceKeyStoreError::NoLongTermKey { .. } => true,
            _ => false,
        }
    }
}

impl DeviceView {
    /// Whether a device has recorded that a bond cannot be used for a request.
    pub open spec fn recorded_unusable(
        self,
        request: LongTermKeyRequestInfo,
        error: DeviceKeyStoreError,
        after: DeviceView,
    ) -> bool {
        exists|message: String|
            {
                &&& message@ == error.spec_message(Seq::empty())
                &&& after == #[trigger] self.store_failed(Some(request.connection_handle), message)
            }
    }

    /// How a request for a long term key is settled: it is answered with the
    /// key that was found, or else kept, with an unusable bond recorded.
    pub open spec fn key_request_settled(
        self,
        request: LongTermKeyRequestInfo,
        parameters: Result<([u8; 16], u16, [u8; 8]), DeviceKeyStoreError>,
        after: DeviceView,
        log: Seq<HostAction>,
        log_after: Seq<HostAction>,
        controller_id: usize,
    ) -> bool {
        match parameters {
            Ok((long_term_key, _, _)) => {
                &&& after == self
                &&& log_after == with_command_if(
                    log,
                    controller_id,
                    self.le.le_connections.contains_key(request.connection_handle),
                    Command::LeLongTermKeyRequestReply {
                        connection_handle: request.connection_handle,
                        long_term_key,
                    },
                )
            },
            Err(error) => {
                &&& log_after == log
                &&& if error.is_missing_key() {
                    after == self.with_key_request(request)
                } else {
                    exists|failed: DeviceView|
                        {
                            &&& #[trigger] self.recorded_unusable(request, error, failed)
                            &&& after == failed.with_key_request(request)
                        }
                }
            },
        }
    }
}

impl DeviceView {
    /// How encryption with a bond goes: it needs the connection, the central's
    /// role and the bond's parameters, in this order.
    pub open spec fn encrypts_with_bond(
        self,
        connection_handle: u16,
        bond: Option<PairingKeys>,
        result: Result<bool, DeviceKeyStoreError>,
        before: Seq<HostAction>,
        after: Seq<HostAction>,
    ) -> bool {
        if !self.le.le_connections.contains_key(connection_handle) {
            result == Err::<bool, _>(DeviceKeyStoreError::NoConnection) && after == before
        } else if !self.is_central(connection_handle) {
            result == Err::<bool, _>(DeviceKeyStoreError::NotCentral { connection_handle })
                && after == before
        } else {
            exists|parameters: Result<([u8; 16], u16, [u8; 8]), DeviceKeyStoreError>|
                {
                    &&& #[trigger] self.stored_parameters(connection_handle, bond, parameters)
                    &&& self.started_with(connection_handle, parameters, result, before, after)
                }
        }
    }
}

} // verus!
