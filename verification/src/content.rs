//! Contents of optional and nested values.

use vstd::prelude::*;

verus! {

/// The content of an optional string.
pub open spec fn text(value: Option<String>) -> Option<Seq<char>> {
    match value {
        Some(value) => Some(value@),
        None => None,
    }
}

/// A copy of an optional string.
pub fn clone_text(value: &Option<String>) -> (copy: Option<String>)
    ensures
        text(copy) == text(*value),
{
    match value {
        Some(value) => Some(value.clone()),
        None => None,
    }
}

/// The content of an optional byte string.
pub open spec fn optional_bytes(bytes: Option<Vec<u8>>) -> Option<Seq<u8>> {
    match bytes {
        Some(bytes) => Some(bytes@),
        None => None,
    }
}

/// A copy of an optional byte string.
pub fn clone_optional_bytes(bytes: &Option<Vec<u8>>) -> (copy: Option<Vec<u8>>)
    ensures
        optional_bytes(copy) == optional_bytes(*bytes),
{
    match bytes {
        Some(bytes) => Some(bytes.clone()),
        None => None,
    }
}

/// The contents of a list of byte strings.
pub open spec fn byte_strings(strings: Seq<Vec<u8>>) -> Seq<Seq<u8>> {
    Seq::new(strings.len(), |index: int| strings[index]@)
}

/// A copy of a list of byte strings.
pub fn clone_byte_strings(strings: &Vec<Vec<u8>>) -> (copy: Vec<Vec<u8>>)
    ensures
        byte_strings(copy@) == byte_strings(strings@),
{
    let mut copy: Vec<Vec<u8>> = Vec::new();
    let mut index: usize = 0;
    while index < strings.len()
        invariant
            index <= strings@.len(),
            copy@.len() == index,
            forall|done: int| 0 <= done < index ==> (#[trigger] copy@[done])@ == strings@[done]@,
        decreases strings@.len() - index,
    {
        copy.push(strings[index].clone());
        index += 1;
    }
    copy
}

/// A copy of a stretch of bytes.
pub fn copy_bytes(bytes: &[u8], start: usize, end: usize) -> (copy: Vec<u8>)
    requires
        start <= end <= bytes@.len(),
    ensures
        copy@ == bytes@.subrange(start as int, end as int),
{
    let mut copy: Vec<u8> = Vec::new();
    copy.extend_from_slice(vstd::slice::slice_subrange(bytes, start, end));
    assert(copy@ =~= bytes@.subrange(start as int, end as int));
    copy
}

} // verus!
