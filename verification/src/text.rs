//! Names that arrive as bytes.

use crate::classic::RemoteNameError;
use vstd::prelude::*;
use vstd::utf8::{decode_utf8, valid_utf8};

verus! {

/// The length of the longest prefix, up to a given one, that is UTF-8.
pub open spec fn longest_valid(bytes: Seq<u8>, length: nat) -> nat
    decreases length,
{
    if length == 0 || valid_utf8(bytes.take(length as int)) {
        length
    } else {
        longest_valid(bytes, (length - 1) as nat)
    }
}

/// The length of the invalid sequence behind the longest prefix that is UTF-8,
/// as `Utf8Error::error_len` reports it: none where the input ends too early.
pub uninterp spec fn utf8_error_len(bytes: Seq<u8>) -> Option<usize>;

/// Decode UTF-8 with `std::str::from_utf8`.
///
/// It succeeds exactly on valid UTF-8, with the characters that the bytes
/// encode. The error's `valid_up_to` is the length of the longest valid prefix.
/// Where its `error_len` is none, the input ends too early, one to three bytes
/// behind that prefix. Which length it gives else is left to its name.
#[verifier::external_body]
fn from_utf8(bytes: &[u8]) -> (decoded: Result<String, (usize, Option<usize>)>)
    ensures
        match decoded {
            Ok(name) => valid_utf8(bytes@) && name@ == decode_utf8(bytes@),
            Err((valid_up_to, error_len)) => {
                &&& !valid_utf8(bytes@)
                &&& valid_up_to == longest_valid(bytes@, bytes@.len())
                &&& error_len == utf8_error_len(bytes@)
                &&& error_len is None ==> 1 <= bytes@.len() - valid_up_to <= 3
            },
        },
{
    match std::str::from_utf8(bytes) {
        Ok(name) => Ok(String::from(name)),
        Err(error) => Err((error.valid_up_to(), error.error_len())),
    }
}

/// The bytes before the first zero byte.
pub open spec fn until_zero(bytes: Seq<u8>) -> Seq<u8> {
    match bytes.index_of_first(0u8) {
        Some(length) => bytes.take(length),
        None => bytes,
    }
}

/// The name that a zero-terminated field holds.
pub open spec fn name_in(bytes: Seq<u8>) -> Result<Seq<char>, RemoteNameError> {
    let name = until_zero(bytes);
    if valid_utf8(name) {
        Ok(decode_utf8(name))
    } else {
        Err(
            RemoteNameError::InvalidUtf8 {
                valid_up_to: longest_valid(name, name.len()) as usize,
                error_len: utf8_error_len(name),
            },
        )
    }
}

/// The length of a zero-terminated field's content.
fn length_until_zero(bytes: &[u8]) -> (length: usize)
    ensures
        length <= bytes@.len(),
        until_zero(bytes@) == bytes@.take(length as int),
{
    let mut length: usize = 0;
    while length < bytes.len()
        invariant
            length <= bytes@.len(),
            forall|earlier: int| 0 <= earlier < length ==> bytes@[earlier] != 0,
        decreases bytes@.len() - length,
    {
        if bytes[length] == 0 {
            proof {
                assert(bytes@.contains(0u8));
                bytes@.index_of_first_ensures(0u8);
            }
            return length;
        }
        length += 1;
    }
    proof {
        bytes@.index_of_first_ensures(0u8);
        assert(bytes@.take(length as int) =~= bytes@);
    }
    length
}

/// Read the name in a zero-terminated field. An error without a length stands
/// for a name that breaks off within its last character.
pub fn read_name(bytes: &[u8]) -> (name: Result<String, RemoteNameError>)
    ensures
        crate::classic::name_result(name) == name_in(bytes@),
        name matches Err(RemoteNameError::InvalidUtf8 { valid_up_to, error_len: None })
            ==> 1 <= until_zero(bytes@).len() - valid_up_to <= 3,
{
    let length: usize = length_until_zero(bytes);
    let content: &[u8] = vstd::slice::slice_subrange(bytes, 0, length);
    assert(content@ =~= until_zero(bytes@));
    match from_utf8(content) {
        Ok(name) => Ok(name),
        Err((valid_up_to, error_len)) => Err(
            RemoteNameError::InvalidUtf8 { valid_up_to, error_len },
        ),
    }
}

} // verus!
