//! Bond records and the keys that the host takes from them.

use crate::address::Address;
use crate::connection::ROLE_CENTRAL;
use crate::content::{clone_optional_bytes, optional_bytes};
use vstd::prelude::*;

verus! {

/// One key of a bond record.
#[derive(Debug, PartialEq, Eq)]
pub struct Key {
    pub value: Vec<u8>,
    pub authenticated: bool,
    pub ediv: Option<u16>,
    pub rand: Option<Vec<u8>>,
}

/// The content of a [`Key`].
#[verifier::ext_equal]
pub struct KeyView {
    pub value: Seq<u8>,
    pub authenticated: bool,
    pub ediv: Option<u16>,
    pub rand: Option<Seq<u8>>,
}

impl View for Key {
    type V = KeyView;

    open spec fn view(&self) -> KeyView {
        KeyView {
            value: self.value@,
            authenticated: self.authenticated,
            ediv: self.ediv,
            rand: optional_bytes(self.rand),
        }
    }
}

impl Clone for Key {
    fn clone(&self) -> (copy: Self)
        ensures
            copy@ == self@,
    {
        Key {
            value: self.value.clone(),
            authenticated: self.authenticated,
            ediv: self.ediv,
            rand: clone_optional_bytes(&self.rand),
        }
    }
}

/// The content of an optional key.
pub open spec fn key_view(key: Option<Key>) -> Option<KeyView> {
    match key {
        Some(key) => Some(key@),
        None => None,
    }
}

fn clone_key(key: &Option<Key>) -> (copy: Option<Key>)
    ensures
        key_view(copy) == key_view(*key),
{
    match key {
        Some(key) => Some(key.clone()),
        None => None,
    }
}

/// The keys that a bond record holds.
#[derive(Debug, PartialEq, Eq)]
pub struct PairingKeys {
    pub address_type: Option<u8>,
    pub ltk: Option<Key>,
    pub ltk_central: Option<Key>,
    pub ltk_peripheral: Option<Key>,
    pub irk: Option<Key>,
    pub csrk: Option<Key>,
    pub link_key: Option<Key>,
    pub link_key_type: Option<u8>,
}

/// The content of a [`PairingKeys`].
#[verifier::ext_equal]
pub struct PairingKeysView {
    pub address_type: Option<u8>,
    pub ltk: Option<KeyView>,
    pub ltk_central: Option<KeyView>,
    pub ltk_peripheral: Option<KeyView>,
    pub irk: Option<KeyView>,
    pub csrk: Option<KeyView>,
    pub link_key: Option<KeyView>,
    pub link_key_type: Option<u8>,
}

impl View for PairingKeys {
    type V = PairingKeysView;

    open spec fn view(&self) -> PairingKeysView {
        PairingKeysView {
            address_type: self.address_type,
            ltk: key_view(self.ltk),
            ltk_central: key_view(self.ltk_central),
            ltk_peripheral: key_view(self.ltk_peripheral),
            irk: key_view(self.irk),
            csrk: key_view(self.csrk),
            link_key: key_view(self.link_key),
            link_key_type: self.link_key_type,
        }
    }
}

impl Clone for PairingKeys {
    fn clone(&self) -> (copy: Self)
        ensures
            copy@ == self@,
    {
        PairingKeys {
            address_type: self.address_type,
            ltk: clone_key(&self.ltk),
            ltk_central: clone_key(&self.ltk_central),
            ltk_peripheral: clone_key(&self.ltk_peripheral),
            irk: clone_key(&self.irk),
            csrk: clone_key(&self.csrk),
            link_key: clone_key(&self.link_key),
            link_key_type: self.link_key_type,
        }
    }
}

/// The key fields whose length the host checks.
#[derive(Clone, Copy, Debug, PartialEq, Eq, Structural)]
pub enum KeyField {
    Ltk,
    LtkRand,
    LinkKey,
    Irk,
}

/// Failures produced while using configured pairing bonds.
#[derive(Clone, Copy, Debug, PartialEq, Eq)]
pub enum DeviceKeyStoreError {
    /// The store itself failed; its own error is kept by whoever asked it.
    Store,
    NoConnection,
    BondNotFound { peer_address: Address },
    NoLongTermKey { peer_address: Address },
    InvalidKeyLength { field: KeyField, expected: usize, actual: usize },
    NotCentral { connection_handle: u16 },
}

/// Sixteen bytes as a key, where there are sixteen.
pub fn key_of_16(bytes: &[u8]) -> (key: Option<[u8; 16]>)
    ensures
        match key {
            Some(key) => key@ == bytes@,
            None => bytes@.len() != 16,
        },
{
    if bytes.len() != 16 {
        return None;
    }
    let mut key: [u8; 16] = [0;16];
    let mut index: usize = 0;
    while index < 16
        invariant
            index <= 16,
            bytes@.len() == 16,
            forall|done: int| 0 <= done < index ==> key@[done] == bytes@[done],
        decreases 16 - index,
    {
        key[index] = bytes[index];
        index += 1;
    }
    assert(key@ =~= bytes@);
    Some(key)
}

/// Eight bytes as a random number, where there are eight.
pub fn random_of_8(bytes: &[u8]) -> (random: Option<[u8; 8]>)
    ensures
        match random {
            Some(random) => random@ == bytes@,
            None => bytes@.len() != 8,
        },
{
    if bytes.len() != 8 {
        return None;
    }
    let mut random: [u8; 8] = [0;8];
    let mut index: usize = 0;
    while index < 8
        invariant
            index <= 8,
            bytes@.len() == 8,
            forall|done: int| 0 <= done < index ==> random@[done] == bytes@[done],
        decreases 8 - index,
    {
        random[index] = bytes[index];
        index += 1;
    }
    assert(random@ =~= bytes@);
    Some(random)
}

/// The diversifier that goes with a Secure Connections key.
pub const NO_DIVERSIFIER: u16 = 0;

/// The random number that goes with a Secure Connections key.
pub const NO_RANDOM: [u8; 8] = [0, 0, 0, 0, 0, 0, 0, 0];

/// What a bond gives for encryption in a role: the long term key, its
/// diversifier and its random number, both zero where the bond has none, or
/// the reason why it gives nothing.
pub open spec fn is_encryption_parameters(
    keys: PairingKeys,
    role: u8,
    peer_address: Address,
    result: Result<([u8; 16], u16, [u8; 8]), DeviceKeyStoreError>,
) -> bool {
    match keys.long_term_key(role) {
        None => result == Err::<([u8; 16], u16, [u8; 8]), _>(
            DeviceKeyStoreError::NoLongTermKey { peer_address },
        ),
        Some(key) => if key.value@.len() != 16 {
            result == Err::<([u8; 16], u16, [u8; 8]), _>(
                DeviceKeyStoreError::InvalidKeyLength {
                    field: KeyField::Ltk,
                    expected: 16,
                    actual: key.value@.len() as usize,
                },
            )
        } else if key.rand is Some && key.rand->0@.len() != 8 {
            result == Err::<([u8; 16], u16, [u8; 8]), _>(
                DeviceKeyStoreError::InvalidKeyLength {
                    field: KeyField::LtkRand,
                    expected: 8,
                    actual: key.rand->0@.len() as usize,
                },
            )
        } else {
            &&& result is Ok
            &&& result->Ok_0.0@ == key.value@
            &&& result->Ok_0.1 == match key.ediv {
                Some(diversifier) => diversifier,
                None => NO_DIVERSIFIER,
            }
            &&& match key.rand {
                Some(bytes) => result->Ok_0.2@ == bytes@,
                None => result->Ok_0.2 == NO_RANDOM,
            }
        },
    }
}

impl PairingKeys {
    /// The long term key for the given local role: a Secure Connections key
    /// serves both roles, a legacy key one of them.
    pub open spec fn long_term_key(self, role: u8) -> Option<Key> {
        if self.ltk is Some {
            self.ltk
        } else if role == ROLE_CENTRAL {
            self.ltk_central
        } else {
            self.ltk_peripheral
        }
    }

    /// The encryption parameters that a bond gives for a connection: the long
    /// term key, its diversifier and its random number.
    pub fn encryption_parameters(&self, role: u8, peer_address: Address) -> (result: Result<
        ([u8; 16], u16, [u8; 8]),
        DeviceKeyStoreError,
    >)
        ensures
            is_encryption_parameters(*self, role, peer_address, result),
    {
        let key: &Option<Key> = if self.ltk.is_some() {
            &self.ltk
        } else if role == ROLE_CENTRAL {
            &self.ltk_central
        } else {
            &self.ltk_peripheral
        };
        match key {
            None => Err(DeviceKeyStoreError::NoLongTermKey { peer_address }),
            Some(key) => {
                let long_term_key: [u8; 16] = match key_of_16(key.value.as_slice()) {
                    Some(long_term_key) => long_term_key,
                    None => {
                        return Err(
                            DeviceKeyStoreError::InvalidKeyLength {
                                field: KeyField::Ltk,
                                expected: 16,
                                actual: key.value.len(),
                            },
                        );
                    },
                };
                let random: [u8; 8] = match &key.rand {
                    Some(bytes) => match random_of_8(bytes.as_slice()) {
                        Some(random) => random,
                        None => {
                            return Err(
                                DeviceKeyStoreError::InvalidKeyLength {
                                    field: KeyField::LtkRand,
                                    expected: 8,
                                    actual: bytes.len(),
                                },
                            );
                        },
                    },
                    None => NO_RANDOM,
                };
                let diversifier: u16 = match key.ediv {
                    Some(diversifier) => diversifier,
                    None => NO_DIVERSIFIER,
                };
                Ok((long_term_key, diversifier, random))
            },
        }
    }

    /// The Classic link key of a bond, and whether it is authenticated.
    pub fn classic_link_key(&self) -> (result: Result<
        Option<([u8; 16], bool)>,
        DeviceKeyStoreError,
    >)
        ensures
            match result {
                Ok(None) => self.link_key is None,
                Ok(Some((link_key, authenticated))) => self.link_key is Some && link_key@
                    == self.link_key->0.value@ && authenticated == self.link_key->0.authenticated,
                Err(DeviceKeyStoreError::InvalidKeyLength { field, expected, actual }) => {
                    &&& self.link_key is Some
                    &&& self.link_key->0.value@.len() != 16
                    &&& field == KeyField::LinkKey
                    &&& expected == 16
                    &&& actual == self.link_key->0.value@.len()
                },
                Err(_) => false,
            },
    {
        match &self.link_key {
            None => Ok(None),
            Some(key) => match key_of_16(key.value.as_slice()) {
                Some(link_key) => Ok(Some((link_key, key.authenticated))),
                None => Err(
                    DeviceKeyStoreError::InvalidKeyLength {
                        field: KeyField::LinkKey,
                        expected: 16,
                        actual: key.value.len(),
                    },
                ),
            },
        }
    }

    /// Put a Classic link key into a bond record; everything else stays.
    pub fn set_link_key(&mut self, link_key: [u8; 16], key_type: u8)
        ensures
            *final(self) == (PairingKeys {
                link_key: final(self).link_key,
                link_key_type: Some(key_type),
                ..*old(self)
            }),
            final(self).link_key is Some,
            final(self).link_key->0.value@ == link_key@,
            final(self).link_key->0.authenticated == authenticated_key_type(key_type),
            final(self).link_key->0.ediv is None,
            final(self).link_key->0.rand is None,
    {
        let mut value: Vec<u8> = Vec::new();
        value.extend_from_slice(link_key.as_slice());
        assert(value@ =~= link_key@);
        self.link_key = Some(
            Key {
                value,
                authenticated: is_authenticated_key_type(key_type),
                ediv: None,
                rand: None,
            },
        );
        self.link_key_type = Some(key_type);
    }
}

/// The link key types that come from authenticated pairing.
pub open spec fn authenticated_key_type(key_type: u8) -> bool {
    key_type == 0x05 || key_type == 0x08
}

pub fn is_authenticated_key_type(key_type: u8) -> (authenticated: bool)
    ensures
        authenticated == authenticated_key_type(key_type),
{
    key_type == 0x05 || key_type == 0x08
}

} // verus!
