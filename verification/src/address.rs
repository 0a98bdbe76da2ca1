//! Bluetooth device addresses.

use vstd::prelude::*;

verus! {

/// The kinds of Bluetooth device address, as carried in HCI packets.
pub struct AddressType;

impl AddressType {
    pub const PUBLIC_DEVICE: u8 = 0;

    pub const RANDOM_DEVICE: u8 = 1;

    pub const PUBLIC_IDENTITY: u8 = 2;

    pub const RANDOM_IDENTITY: u8 = 3;
}

/// A Bluetooth device address: six bytes, least significant first, and a kind.
#[derive(Clone, Copy, Debug, Eq)]
pub struct Address {
    pub address_bytes: [u8; 6],
    pub address_type: u8,
}

impl PartialEq for Address {
    fn eq(&self, other: &Address) -> (same: bool) {
        let same: bool = self.address_type == other.address_type && self.address_bytes[0]
            == other.address_bytes[0] && self.address_bytes[1] == other.address_bytes[1]
            && self.address_bytes[2] == other.address_bytes[2] && self.address_bytes[3]
            == other.address_bytes[3] && self.address_bytes[4] == other.address_bytes[4]
            && self.address_bytes[5] == other.address_bytes[5];
        proof {
            if same {
                assert(self.address_bytes =~= other.address_bytes);
                assert(*self == *other);
            } else {
                assert(*self != *other);
            }
        }
        same
    }
}

impl vstd::std_specs::cmp::PartialEqSpecImpl for Address {
    open spec fn obeys_eq_spec() -> bool {
        true
    }

    open spec fn eq_spec(&self, other: &Address) -> bool {
        *self == *other
    }
}

impl Address {
    /// The address with the given bytes and kind.
    pub fn from_bytes(address_bytes: [u8; 6], address_type: u8) -> (address: Address)
        ensures
            address == (Address { address_bytes, address_type }),
    {
        Address { address_bytes, address_type }
    }

    pub open spec fn spec_is_public(self) -> bool {
        self.address_type == AddressType::PUBLIC_DEVICE || self.address_type
            == AddressType::PUBLIC_IDENTITY
    }

    /// Whether this is a public device or public identity address.
    pub fn is_public(&self) -> (public: bool)
        ensures
            public == self.spec_is_public(),
    {
        self.address_type == AddressType::PUBLIC_DEVICE || self.address_type
            == AddressType::PUBLIC_IDENTITY
    }
}

/// The bytes of an address that stands for any.
pub const ANY_ADDRESS_BYTES: [u8; 6] = [0, 0, 0, 0, 0, 0];

impl Address {
    /// The address that stands for any public device.
    pub open spec fn spec_any_public() -> Address {
        Address { address_bytes: ANY_ADDRESS_BYTES, address_type: AddressType::PUBLIC_DEVICE }
    }

    /// The address that stands for any public device.
    pub fn any_public() -> (address: Address)
        ensures
            address == Address::spec_any_public(),
    {
        Address { address_bytes: ANY_ADDRESS_BYTES, address_type: AddressType::PUBLIC_DEVICE }
    }
}

/// The bits that mark the most significant byte of a static address.
pub const STATIC_ADDRESS_BITS: u8 = 0xC0;

/// The static address that random bytes stand for: the first six of them, with
/// the two most significant bits set.
pub fn static_address(random: &[u8; 16]) -> (address: Address)
    ensures
        address.address_type == AddressType::RANDOM_DEVICE,
        forall|index: int|
            0 <= index < 5 ==> #[trigger] address.address_bytes@[index] == random@[index],
        address.address_bytes@[5] == random@[5] | STATIC_ADDRESS_BITS,
        address.address_bytes@[5] & STATIC_ADDRESS_BITS == STATIC_ADDRESS_BITS,
{
    let last: u8 = random[5];
    assert((last | 0xC0u8) & 0xC0u8 == 0xC0u8) by (bit_vector);
    Address {
        address_bytes: [
            random[0],
            random[1],
            random[2],
            random[3],
            random[4],
            last | STATIC_ADDRESS_BITS,
        ],
        address_type: AddressType::RANDOM_DEVICE,
    }
}

} // verus!
