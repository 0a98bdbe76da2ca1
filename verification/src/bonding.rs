//! The key store that holds a device's bonds.

use crate::address::Address;
use crate::device::{Device, DeviceView};
use crate::retain::take_all;
use crate::state::SecurityView;
use vstd::prelude::*;
use vstd::string::StrSliceExecFns;

verus! {

broadcast use vstd::laws_cmp::group_laws_cmp;

/// The kind of key store that is kept in a file.
pub const JSON_KEY_STORE: &'static str = "JsonKeyStore";

/// Which key store a device opens.
#[derive(Debug, PartialEq, Eq)]
pub enum KeyStoreChoice {
    /// One that lives as long as the device.
    Memory,
    /// A file in the default place.
    DefaultFile,
    /// A named file.
    File { file_name: String },
}

/// Where the kind of a key store ends in its description.
pub open spec fn kind_end(description: Seq<char>) -> int {
    match description.index_of_first(':') {
        Some(index) => index,
        None => description.len() as int,
    }
}

/// Whether a choice is what a description asks for.
pub open spec fn is_choice(choice: KeyStoreChoice, description: Option<Seq<char>>) -> bool {
    match description {
        Some(description) => {
            let end = kind_end(description);
            if description.take(end) != JSON_KEY_STORE@ {
                choice is Memory
            } else if end + 1 < description.len() {
                &&& choice is File
                &&& choice->file_name@ == description.skip(end + 1)
            } else {
                choice is DefaultFile
            }
        },
        None => choice is Memory,
    }
}

/// Find the first colon in a text, or its end.
fn find_colon(text: &str) -> (end: usize)
    ensures
        end == kind_end(text@),
        end <= text@.len(),
{
    let length: usize = text.unicode_len();
    let mut index: usize = 0;
    proof {
        text@.index_of_first_ensures(':');
    }
    while index < length
        invariant
            index <= length,
            length == text@.len(),
            forall|earlier: int| 0 <= earlier < index ==> text@[earlier] != ':',
        decreases length - index,
    {
        if text.get_char(index) == ':' {
            proof {
                assert(text@.contains(':'));
                text@.index_of_first_ensures(':');
            }
            return index;
        }
        index += 1;
    }
    proof {
        text@.index_of_first_ensures(':');
    }
    length
}

/// Whether two texts are the same.
fn same_text(first: &str, second: &str) -> (same: bool)
    ensures
        same == (first@ == second@),
{
    let length: usize = first.unicode_len();
    if length != second.unicode_len() {
        return false;
    }
    let mut index: usize = 0;
    while index < length
        invariant
            index <= length,
            length == first@.len(),
            length == second@.len(),
            forall|earlier: int| 0 <= earlier < index ==> first@[earlier] == second@[earlier],
        decreases length - index,
    {
        if first.get_char(index) != second.get_char(index) {
            return false;
        }
        index += 1;
    }
    assert(first@ =~= second@);
    true
}

/// Read the description of a key store.
pub fn key_store_choice(description: &Option<String>) -> (choice: KeyStoreChoice)
    ensures
        is_choice(
            choice,
            match *description {
                Some(description) => Some(description@),
                None => None,
            },
        ),
{
    match description {
        None => KeyStoreChoice::Memory,
        Some(description) => {
            let text: &str = description.as_str();
            let end: usize = find_colon(text);
            let kind: &str = text.substring_char(0, end);
            assert(kind@ =~= text@.take(end as int));
            if !same_text(kind, JSON_KEY_STORE) {
                return KeyStoreChoice::Memory;
            }
            let length: usize = text.unicode_len();
            if end < length && end + 1 < length {
                let file_name: &str = text.substring_char(end + 1, length);
                assert(file_name@ =~= text@.skip(end + 1));
                KeyStoreChoice::File { file_name: file_name.to_owned() }
            } else {
                KeyStoreChoice::DefaultFile
            }
        },
    }
}

/// Whether an address has a byte that is not zero.
pub open spec fn is_some_address(address: Address) -> bool {
    exists|index: int| 0 <= index < 6 && #[trigger] address.address_bytes@[index] != 0
}

fn has_some_byte(address: &Address) -> (some: bool)
    ensures
        some == is_some_address(*address),
{
    let mut index: usize = 0;
    while index < 6
        invariant
            index <= 6,
            forall|earlier: int| 0 <= earlier < index ==> address.address_bytes@[earlier] == 0,
        decreases 6 - index,
    {
        if address.address_bytes[index] != 0 {
            assert(address.address_bytes@[index as int] != 0);
            return true;
        }
        index += 1;
    }
    false
}

impl DeviceView {
    /// The address that names a device's part of a key store: the public one,
    /// or else the random one, where it is known.
    pub open spec fn namespace(self) -> Option<Address> {
        if self.identity.public_address is Some && is_some_address(
            self.identity.public_address->0,
        ) {
            self.identity.public_address
        } else if is_some_address(self.identity.random_address) {
            Some(self.identity.random_address)
        } else {
            None
        }
    }

    /// A device that has or has not opened its key store.
    pub open spec fn with_store(self, open: bool, resolver_ready: bool) -> DeviceView {
        DeviceView {
            security: SecurityView {
                key_store_open: open,
                address_resolver_ready: resolver_ready,
                ..self.security
            },
            ..self
        }
    }

    /// A device with one more error of its key store.
    pub open spec fn store_failed(
        self,
        connection_handle: Option<u16>,
        message: String,
    ) -> DeviceView {
        DeviceView {
            security: SecurityView {
                key_store_errors: self.security.key_store_errors.push((connection_handle, message)),
                ..self.security
            },
            ..self
        }
    }

    /// A device with one more error of a pairing.
    pub open spec fn pairing_broken(self, connection_handle: u16, message: String) -> DeviceView {
        DeviceView {
            security: SecurityView {
                pairing_errors: self.security.pairing_errors.push((connection_handle, message)),
                ..self.security
            },
            ..self
        }
    }
}

impl Device {
    /// The address that names this device's part of a key store.
    pub fn key_store_namespace(&self) -> (address: Option<Address>)
        ensures
            address == self@.namespace(),
    {
        if let Some(address) = self.identity.public_address {
            if has_some_byte(&address) {
                return Some(address);
            }
        }
        if has_some_byte(&self.identity.random_address) {
            Some(self.identity.random_address)
        } else {
            None
        }
    }

    /// Note that the configured key store is open.
    pub fn open_key_store(&mut self)
        requires
            old(self).wf(),
        ensures
            final(self).wf(),
            final(self)@ == old(self)@.with_store(
                true,
                old(self)@.security.address_resolver_ready,
            ),
    {
        self.security.key_store_open = true;
        assert(self@ =~= old(self)@.with_store(true, old(self)@.security.address_resolver_ready));
    }

    /// Note that an application's key store has taken the place of the
    /// configured one: what was resolved from that one is void.
    pub fn set_key_store(&mut self)
        requires
            old(self).wf(),
        ensures
            final(self).wf(),
            final(self)@ == old(self)@.with_store(true, false),
    {
        self.security.key_store_open = true;
        self.security.address_resolver_ready = false;
        assert(self@ =~= old(self)@.with_store(true, false));
    }

    /// Whether this device owns or is configured to create a pairing key store.
    pub fn has_key_store(&self) -> (has: bool)
        ensures
            has == (self@.security.key_store_open || self@.security.pairing_enabled),
    {
        self.security.key_store_open || self.security.pairing_enabled
    }

    /// Whether pairings are managed for this device.
    pub fn has_pairing_manager(&self) -> (has: bool)
        ensures
            has == self@.security.pairing_enabled,
    {
        self.security.pairing_enabled
    }

    /// Have pairings managed for this device.
    pub fn enable_pairing(&mut self)
        requires
            old(self).wf(),
        ensures
            final(self).wf(),
            final(self)@ == (DeviceView {
                security: SecurityView { pairing_enabled: true, ..old(self)@.security },
                ..old(self)@
            }),
    {
        self.security.pairing_enabled = true;
        assert(self@ =~= (DeviceView {
            security: SecurityView { pairing_enabled: true, ..old(self)@.security },
            ..old(self)@
        }));
    }

    /// Record an error of the key store.
    pub fn record_key_store_error(&mut self, connection_handle: Option<u16>, message: String)
        requires
            old(self).wf(),
        ensures
            final(self).wf(),
            final(self)@ == old(self)@.store_failed(connection_handle, message),
    {
        self.security.key_store_errors.push((connection_handle, message));
        assert(self@ =~= old(self)@.store_failed(connection_handle, message));
    }

    /// Record an error of a pairing.
    pub fn record_pairing_error(&mut self, connection_handle: u16, message: String)
        requires
            old(self).wf(),
        ensures
            final(self).wf(),
            final(self)@ == old(self)@.pairing_broken(connection_handle, message),
    {
        self.security.pairing_errors.push((connection_handle, message));
        assert(self@ =~= old(self)@.pairing_broken(connection_handle, message));
    }

    /// Take the errors of the key store, oldest first.
    pub fn take_key_store_errors(&mut self) -> (errors: Vec<(Option<u16>, String)>)
        requires
            old(self).wf(),
        ensures
            final(self).wf(),
            errors@ == old(self)@.security.key_store_errors,
            final(self)@ == (DeviceView {
                security: SecurityView { key_store_errors: Seq::empty(), ..old(self)@.security },
                ..old(self)@
            }),
    {
        let errors = take_all(&mut self.security.key_store_errors);
        assert(self@ =~= (DeviceView {
            security: SecurityView { key_store_errors: Seq::empty(), ..old(self)@.security },
            ..old(self)@
        }));
        errors
    }

    /// Take the errors of pairings, oldest first.
    pub fn take_pairing_errors(&mut self) -> (errors: Vec<(u16, String)>)
        requires
            old(self).wf(),
        ensures
            final(self).wf(),
            errors@ == old(self)@.security.pairing_errors,
            final(self)@ == (DeviceView {
                security: SecurityView { pairing_errors: Seq::empty(), ..old(self)@.security },
                ..old(self)@
            }),
    {
        let errors = take_all(&mut self.security.pairing_errors);
        assert(self@ =~= (DeviceView {
            security: SecurityView { pairing_errors: Seq::empty(), ..old(self)@.security },
            ..old(self)@
        }));
        errors
    }
}

} // verus!
