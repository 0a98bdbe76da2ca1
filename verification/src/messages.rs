//! What errors say.

use crate::bearers::SubscriberError;
use crate::data_queue::DataPacketQueueError;
use crate::lookup::PeerLookupError;
use crate::pairing::PairingFlowError;
use crate::power::DevicePowerError;
use crate::security::{DeviceKeyStoreError, KeyField};
use crate::services::{EattChannelError, LePsmError};
use crate::setup::LePhyError;
use vstd::prelude::*;
use vstd::string::{StrSliceExecFns, StringExecFns};

verus! {

/// The digits of decimal and hexadecimal numbers.
pub const DIGITS: &'static str = "0123456789ABCDEF";

/// A digit as it is written.
pub open spec fn digit(value: nat) -> char {
    DIGITS@[value as int]
}

/// A number in decimal, without leading zeros.
pub open spec fn decimal(value: nat) -> Seq<char>
    decreases value,
{
    if value < 10 {
        seq![digit(value)]
    } else {
        decimal(value / 10).push(digit(value % 10))
    }
}

/// The last digits of a number in hexadecimal.
pub open spec fn hexadecimal(value: nat, width: nat) -> Seq<char>
    decreases width,
{
    if width == 0 {
        Seq::empty()
    } else {
        hexadecimal(value / 16, (width - 1) as nat).push(digit(value % 16))
    }
}

fn append_digit(text: &mut String, value: usize)
    requires
        value < 16,
    ensures
        final(text)@ == old(text)@.push(digit(value as nat)),
{
    proof {
        reveal_strlit("0123456789ABCDEF");
    }
    text.append(DIGITS.substring_char(value, value + 1));
    assert(text@ =~= old(text)@.push(digit(value as nat)));
}

fn append_decimal(text: &mut String, value: usize)
    ensures
        final(text)@ == old(text)@ + decimal(value as nat),
    decreases value,
{
    if value < 10 {
        append_digit(text, value);
        assert(text@ =~= old(text)@ + decimal(value as nat));
    } else {
        append_decimal(text, value / 10);
        append_digit(text, value % 10);
        assert(text@ =~= old(text)@ + decimal(value as nat));
    }
}

fn append_hexadecimal(text: &mut String, value: usize, width: usize)
    ensures
        final(text)@ == old(text)@ + hexadecimal(value as nat, width as nat),
    decreases width,
{
    if width > 0 {
        append_hexadecimal(text, value / 16, width - 1);
        append_digit(text, value % 16);
    }
    assert(text@ =~= old(text)@ + hexadecimal(value as nat, width as nat));
}

/// The digits of hexadecimal numbers in small letters.
pub const SMALL_DIGITS: &'static str = "0123456789abcdef";

/// The last digits of a number in hexadecimal, in small letters.
pub open spec fn small_hexadecimal(value: nat, width: nat) -> Seq<char>
    decreases width,
{
    if width == 0 {
        Seq::empty()
    } else {
        small_hexadecimal(value / 16, (width - 1) as nat).push(
            SMALL_DIGITS@[(value % 16) as int],
        )
    }
}

fn append_small_hexadecimal(text: &mut String, value: usize, width: usize)
    ensures
        final(text)@ == old(text)@ + small_hexadecimal(value as nat, width as nat),
    decreases width,
{
    if width > 0 {
        append_small_hexadecimal(text, value / 16, width - 1);
        proof {
            reveal_strlit("0123456789abcdef");
        }
        let digit: usize = value % 16;
        text.append(SMALL_DIGITS.substring_char(digit, digit + 1));
    }
    assert(text@ =~= old(text)@ + small_hexadecimal(value as nat, width as nat));
}

impl DataPacketQueueError {
    /// What the error says.
    pub open spec fn spec_message(self) -> Seq<char> {
        match self {
            DataPacketQueueError::ZeroCapacity => "packet queue capacity must be nonzero"@,
            DataPacketQueueError::UnknownConnection(handle) => {
                "completion for unknown connection 0x"@ + hexadecimal(handle as nat, 4)
            },
            DataPacketQueueError::CompletionOverflow {
                connection_handle,
                completed,
                in_flight,
            } => {
                decimal(completed as nat) + " packets completed for 0x"@ + hexadecimal(
                    connection_handle as nat,
                    4,
                ) + ", but only "@ + decimal(in_flight as nat) + " are in flight"@
            },
        }
    }

    /// What the error says.
    pub fn message(&self) -> (text: String)
        ensures
            text@ == self.spec_message(),
    {
        match self {
            DataPacketQueueError::ZeroCapacity => String::from_str(
                "packet queue capacity must be nonzero",
            ),
            DataPacketQueueError::UnknownConnection(handle) => {
                let mut text = String::from_str("completion for unknown connection 0x");
                append_hexadecimal(&mut text, *handle as usize, 4);
                text
            },
            DataPacketQueueError::CompletionOverflow {
                connection_handle,
                completed,
                in_flight,
            } => {
                let mut text = String::new();
                append_decimal(&mut text, *completed);
                assert(text@ =~= decimal(*completed as nat));
                text.append(" packets completed for 0x");
                append_hexadecimal(&mut text, *connection_handle as usize, 4);
                text.append(", but only ");
                append_decimal(&mut text, *in_flight);
                text.append(" are in flight");
                text
            },
        }
    }
}

impl DevicePowerError {
    /// What the error says.
    pub open spec fn spec_message(self) -> Seq<char> {
        match self {
            DevicePowerError::InvalidIrkLength { actual } => {
                "IRK must contain 16 bytes, got "@ + decimal(actual as nat)
            },
            DevicePowerError::LocalNameTooLong { actual, maximum } => {
                "UTF-8 local name is "@ + decimal(actual as nat) + " bytes, maximum is "@ + decimal(
                    maximum as nat,
                )
            },
            DevicePowerError::ClassOfDeviceOutOfRange { value } => {
                "Class of Device 0x"@ + hexadecimal(value as nat, 8) + " does not fit in 24 bits"@
            },
            DevicePowerError::NotPoweredOn => "device is not powered on"@,
            DevicePowerError::PrivacyDisabled => "LE privacy is disabled"@,
        }
    }

    /// What the error says.
    pub fn message(&self) -> (text: String)
        ensures
            text@ == self.spec_message(),
    {
        match self {
            DevicePowerError::InvalidIrkLength { actual } => {
                let mut text = String::from_str("IRK must contain 16 bytes, got ");
                append_decimal(&mut text, *actual);
                text
            },
            DevicePowerError::LocalNameTooLong { actual, maximum } => {
                let mut text = String::from_str("UTF-8 local name is ");
                append_decimal(&mut text, *actual);
                text.append(" bytes, maximum is ");
                append_decimal(&mut text, *maximum);
                text
            },
            DevicePowerError::ClassOfDeviceOutOfRange { value } => {
                let mut text = String::from_str("Class of Device 0x");
                append_hexadecimal(&mut text, *value as usize, 8);
                text.append(" does not fit in 24 bits");
                text
            },
            DevicePowerError::NotPoweredOn => String::from_str("device is not powered on"),
            DevicePowerError::PrivacyDisabled => String::from_str("LE privacy is disabled"),
        }
    }
}

impl LePhyError {
    /// What the error says.
    pub open spec fn spec_message(self) -> Seq<char> {
        match self {
            LePhyError::InvalidPhy { phy } => "invalid LE PHY 0x"@ + hexadecimal(phy as nat, 2),
        }
    }

    /// What the error says.
    pub fn message(&self) -> (text: String)
        ensures
            text@ == self.spec_message(),
    {
        match self {
            LePhyError::InvalidPhy { phy } => {
                let mut text = String::from_str("invalid LE PHY 0x");
                append_hexadecimal(&mut text, *phy as usize, 2);
                text
            },
        }
    }
}

impl PeerLookupError {
    /// What the error says.
    pub fn message(&self) -> (text: String)
        ensures
            text@ == "device has no address resolver"@,
    {
        String::from_str("device has no address resolver")
    }
}

impl SubscriberError {
    /// What the error says.
    pub fn message(&self) -> (text: String)
        ensures
            text@ == "cannot send subscribers without an ATT server"@,
    {
        String::from_str("cannot send subscribers without an ATT server")
    }
}

impl PairingFlowError {
    /// What the error says.
    pub open spec fn spec_message(self) -> Seq<char> {
        match self {
            PairingFlowError::NoEncryptionKey => "pairing reached encryption without an STK/LTK"@,
            PairingFlowError::NoPairingKeys => "completed pairing did not retain pairing keys"@,
        }
    }

    /// What the error says.
    pub fn message(&self) -> (text: String)
        ensures
            text@ == self.spec_message(),
    {
        match self {
            PairingFlowError::NoEncryptionKey => String::from_str(
                "pairing reached encryption without an STK/LTK",
            ),
            PairingFlowError::NoPairingKeys => String::from_str(
                "completed pairing did not retain pairing keys",
            ),
        }
    }
}

impl LePsmError {
    /// What the error says.
    pub open spec fn spec_message(self) -> Seq<char> {
        match self {
            LePsmError::Zero => "LE PSM cannot be zero"@,
            LePsmError::NoneFree => "no free LE PSM"@,
            LePsmError::InUse { psm } => {
                "LE PSM 0x"@ + small_hexadecimal(psm as nat, 4) + " is already in use"@
            },
            LePsmError::NoAttServer => "cannot register EATT without an ATT server"@,
        }
    }

    /// What the error says.
    pub fn message(&self) -> (text: String)
        ensures
            text@ == self.spec_message(),
    {
        match self {
            LePsmError::Zero => String::from_str("LE PSM cannot be zero"),
            LePsmError::NoneFree => String::from_str("no free LE PSM"),
            LePsmError::InUse { psm } => {
                let mut text = String::from_str("LE PSM 0x");
                append_small_hexadecimal(&mut text, *psm as usize, 4);
                text.append(" is already in use");
                text
            },
            LePsmError::NoAttServer => String::from_str(
                "cannot register EATT without an ATT server",
            ),
        }
    }
}

impl EattChannelError {
    /// What the error says.
    pub open spec fn spec_message(self) -> Seq<char> {
        match self {
            EattChannelError::UnknownChannel { source_cid } => {
                "unknown EATT CID 0x"@ + small_hexadecimal(source_cid as nat, 4)
            },
            EattChannelError::NotEatt { source_cid } => {
                "CID 0x"@ + small_hexadecimal(source_cid as nat, 4) + " is not an EATT bearer"@
            },
        }
    }

    /// What the error says.
    pub fn message(&self) -> (text: String)
        ensures
            text@ == self.spec_message(),
    {
        match self {
            EattChannelError::UnknownChannel { source_cid } => {
                let mut text = String::from_str("unknown EATT CID 0x");
                append_small_hexadecimal(&mut text, *source_cid as usize, 4);
                text
            },
            EattChannelError::NotEatt { source_cid } => {
                let mut text = String::from_str("CID 0x");
                append_small_hexadecimal(&mut text, *source_cid as usize, 4);
                text.append(" is not an EATT bearer");
                text
            },
        }
    }
}

impl KeyField {
    /// The name of the field.
    pub open spec fn spec_name(self) -> Seq<char> {
        match self {
            KeyField::Ltk => "LTK"@,
            KeyField::LtkRand => "LTK RAND"@,
            KeyField::LinkKey => "Link Key"@,
            KeyField::Irk => "IRK"@,
        }
    }

    /// The name of the field.
    pub fn name(&self) -> (name: &'static str)
        ensures
            name@ == self.spec_name(),
    {
        match self {
            KeyField::Ltk => "LTK",
            KeyField::LtkRand => "LTK RAND",
            KeyField::LinkKey => "Link Key",
            KeyField::Irk => "IRK",
        }
    }
}

impl DeviceKeyStoreError {
    /// What the error says, given how the store's own error or the peer's
    /// address is written.
    pub open spec fn spec_message(self, detail: Seq<char>) -> Seq<char> {
        match self {
            DeviceKeyStoreError::Store => "key store error: "@ + detail,
            DeviceKeyStoreError::NoConnection => "no active LE connection"@,
            DeviceKeyStoreError::BondNotFound { .. } => "no bond found for "@ + detail,
            DeviceKeyStoreError::NoLongTermKey { .. } => {
                "bond for "@ + detail + " has no usable LTK"@
            },
            DeviceKeyStoreError::InvalidKeyLength { field, expected, actual } => {
                field.spec_name() + " must contain "@ + decimal(expected as nat) + " bytes, got "@
                    + decimal(actual as nat)
            },
            DeviceKeyStoreError::NotCentral { connection_handle } => {
                "LE connection 0x"@ + hexadecimal(connection_handle as nat, 4)
                    + " is not locally central"@
            },
        }
    }

    /// What the error says, given how the store's own error or the peer's
    /// address is written.
    pub fn message(&self, detail: &str) -> (text: String)
        ensures
            text@ == self.spec_message(detail@),
    {
        match self {
            DeviceKeyStoreError::Store => {
                let mut text = String::from_str("key store error: ");
                text.append(detail);
                text
            },
            DeviceKeyStoreError::NoConnection => String::from_str("no active LE connection"),
            DeviceKeyStoreError::BondNotFound { .. } => {
                let mut text = String::from_str("no bond found for ");
                text.append(detail);
                text
            },
            DeviceKeyStoreError::NoLongTermKey { .. } => {
                let mut text = String::from_str("bond for ");
                text.append(detail);
                text.append(" has no usable LTK");
                text
            },
            DeviceKeyStoreError::InvalidKeyLength { field, expected, actual } => {
                let mut text = String::from_str(field.name());
                text.append(" must contain ");
                append_decimal(&mut text, *expected);
                text.append(" bytes, got ");
                append_decimal(&mut text, *actual);
                text
            },
            DeviceKeyStoreError::NotCentral { connection_handle } => {
                let mut text = String::from_str("LE connection 0x");
                append_hexadecimal(&mut text, *connection_handle as usize, 4);
                text.append(" is not locally central");
                text
            },
        }
    }
}

} // verus!
