//! What the texts of errors say, and that their numbers can be read back.

use crate::data_queue::DataPacketQueueError;
use crate::messages::{decimal, digit, hexadecimal, small_hexadecimal};
use crate::power::DevicePowerError;
use crate::security::{DeviceKeyStoreError, KeyField};
use crate::services::{EattChannelError, LePsmError};
use crate::setup::LePhyError;
use vstd::prelude::*;

verus! {

/// The number that a digit stands for.
pub open spec fn digit_value(written: char) -> int {
    let code = written as int;
    if '0' as int <= code <= '9' as int {
        code - '0' as int
    } else if 'A' as int <= code <= 'F' as int {
        code - 'A' as int + 10
    } else {
        code - 'a' as int + 10
    }
}

/// The number that some digits stand for.
pub open spec fn read_back(digits: Seq<char>, base: int) -> int
    decreases digits.len(),
{
    if digits.len() == 0 {
        0
    } else {
        read_back(digits.drop_last(), base) * base + digit_value(digits.last())
    }
}

/// How many numbers a count of hexadecimal digits tells apart.
pub open spec fn sixteens(width: nat) -> nat
    decreases width,
{
    if width == 0 {
        1
    } else {
        16 * sixteens((width - 1) as nat)
    }
}

proof fn lemma_digit(value: nat)
    requires
        value < 16,
    ensures
        digit_value(digit(value)) == value,
{
    reveal_strlit("0123456789ABCDEF");
}

proof fn lemma_small_digit(value: nat)
    requires
        value < 16,
    ensures
        digit_value(crate::messages::SMALL_DIGITS@[value as int]) == value,
{
    reveal_strlit("0123456789abcdef");
}

/// A decimal number reads back as it was, and has no leading zero.
pub proof fn lemma_decimal_reads_back(value: nat)
    ensures
        read_back(decimal(value), 10) == value,
        decimal(value).len() > 0,
        value > 0 ==> digit_value(decimal(value)[0]) > 0,
        value < 10 ==> decimal(value).len() == 1,
    decreases value,
{
    reveal_with_fuel(read_back, 2);
    if value < 10 {
        lemma_digit(value);
        assert(decimal(value).drop_last() =~= Seq::<char>::empty());
    } else {
        lemma_decimal_reads_back(value / 10);
        lemma_digit(value % 10);
        assert(decimal(value).drop_last() =~= decimal(value / 10));
    }
}

/// A hexadecimal number of enough digits reads back as it was, in either case of
/// letters, and is as long as was asked for.
pub proof fn lemma_hexadecimal_reads_back(value: nat, width: nat)
    requires
        value < sixteens(width),
    ensures
        hexadecimal(value, width).len() == width,
        read_back(hexadecimal(value, width), 16) == value,
        small_hexadecimal(value, width).len() == width,
        read_back(small_hexadecimal(value, width), 16) == value,
    decreases width,
{
    if width > 0 {
        let shorter = (width - 1) as nat;
        lemma_hexadecimal_reads_back(value / 16, shorter);
        lemma_digit(value % 16);
        lemma_small_digit(value % 16);
        assert(hexadecimal(value, width).drop_last() =~= hexadecimal(value / 16, shorter));
        assert(small_hexadecimal(value, width).drop_last() =~= small_hexadecimal(
            value / 16,
            shorter,
        ));
    }
}

/// Every handle, PSM and channel has four hexadecimal digits that tell it.
pub proof fn lemma_four_digits_tell(value: u16)
    ensures
        hexadecimal(value as nat, 4).len() == 4,
        read_back(hexadecimal(value as nat, 4), 16) == value,
        small_hexadecimal(value as nat, 4).len() == 4,
        read_back(small_hexadecimal(value as nat, 4), 16) == value,
{
    reveal_with_fuel(sixteens, 5);
    lemma_hexadecimal_reads_back(value as nat, 4);
}

/// A queue's error names the connection and both counts, the reported one first.
pub proof fn lemma_queue_errors(handle: u16, completed: usize, in_flight: usize)
    ensures
        DataPacketQueueError::UnknownConnection(handle).spec_message()
            =~= "completion for unknown connection 0x"@ + hexadecimal(handle as nat, 4),
        (DataPacketQueueError::CompletionOverflow {
            connection_handle: handle,
            completed,
            in_flight,
        }).spec_message() =~= decimal(completed as nat) + " packets completed for 0x"@
            + hexadecimal(handle as nat, 4) + ", but only "@ + decimal(in_flight as nat)
            + " are in flight"@,
{
}

/// A refusal to power on says how long the key or the name is, and how long the
/// name may be, or which class of device does not fit.
pub proof fn lemma_power_errors(actual: usize, maximum: usize, value: u32)
    ensures
        (DevicePowerError::InvalidIrkLength { actual }).spec_message()
            =~= "IRK must contain 16 bytes, got "@ + decimal(actual as nat),
        (DevicePowerError::LocalNameTooLong { actual, maximum }).spec_message()
            =~= "UTF-8 local name is "@ + decimal(actual as nat) + " bytes, maximum is "@
            + decimal(maximum as nat),
        (DevicePowerError::ClassOfDeviceOutOfRange { value }).spec_message()
            =~= "Class of Device 0x"@ + hexadecimal(value as nat, 8)
            + " does not fit in 24 bits"@,
        DevicePowerError::NotPoweredOn.spec_message() =~= "device is not powered on"@,
        DevicePowerError::PrivacyDisabled.spec_message() =~= "LE privacy is disabled"@,
{
}

/// An error of a channel names the channel or its PSM.
pub proof fn lemma_channel_errors(psm: u16, source_cid: u16, phy: u8)
    ensures
        (LePsmError::InUse { psm }).spec_message() =~= "LE PSM 0x"@ + small_hexadecimal(
            psm as nat,
            4,
        ) + " is already in use"@,
        (EattChannelError::UnknownChannel { source_cid }).spec_message()
            =~= "unknown EATT CID 0x"@ + small_hexadecimal(source_cid as nat, 4),
        (EattChannelError::NotEatt { source_cid }).spec_message() =~= "CID 0x"@
            + small_hexadecimal(source_cid as nat, 4) + " is not an EATT bearer"@,
        (LePhyError::InvalidPhy { phy }).spec_message() =~= "invalid LE PHY 0x"@ + hexadecimal(
            phy as nat,
            2,
        ),
{
}

/// An error of the key store names the key and both lengths, the expected one
/// first, or the peer or the connection that it is about.
pub proof fn lemma_store_errors(
    error: DeviceKeyStoreError,
    detail: Seq<char>,
    field: KeyField,
    expected: usize,
    actual: usize,
    handle: u16,
)
    ensures
        (DeviceKeyStoreError::InvalidKeyLength { field, expected, actual }).spec_message(detail)
            =~= field.spec_name() + " must contain "@ + decimal(expected as nat)
            + " bytes, got "@ + decimal(actual as nat),
        (DeviceKeyStoreError::NotCentral { connection_handle: handle }).spec_message(detail)
            =~= "LE connection 0x"@ + hexadecimal(handle as nat, 4) + " is not locally central"@,
        error is BondNotFound ==> error.spec_message(detail) =~= "no bond found for "@ + detail,
        error is NoLongTermKey ==> error.spec_message(detail) =~= "bond for "@ + detail
            + " has no usable LTK"@,
        error is Store ==> error.spec_message(detail) =~= "key store error: "@ + detail,
        KeyField::Ltk.spec_name() =~= "LTK"@,
        KeyField::LtkRand.spec_name() =~= "LTK RAND"@,
        KeyField::LinkKey.spec_name() =~= "Link Key"@,
        KeyField::Irk.spec_name() =~= "IRK"@,
{
}

} // verus!
