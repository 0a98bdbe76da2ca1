//! Loading advertising data in pieces that fit a command.

use crate::content::{byte_strings, copy_bytes};
use crate::hci::Command;
use vstd::prelude::*;

verus! {

/// How many bytes of advertising data a command takes.
pub const CHUNK_LENGTH: usize = 251;

/// How many bytes of advertising data a set takes.
pub const MAX_ADVERTISING_DATA: usize = 0x0672;

/// The data split into full pieces and a last one that may be shorter. There
/// is always at least one.
pub open spec fn chunks(data: Seq<u8>) -> Seq<Seq<u8>>
    decreases data.len(),
{
    if data.len() <= CHUNK_LENGTH {
        seq![data]
    } else {
        seq![data.take(CHUNK_LENGTH as int)] + chunks(data.skip(CHUNK_LENGTH as int))
    }
}

/// The concatenation of pieces.
pub open spec fn joined(pieces: Seq<Seq<u8>>) -> Seq<u8>
    decreases pieces.len(),
{
    if pieces.len() == 0 {
        Seq::empty()
    } else {
        pieces[0] + joined(pieces.skip(1))
    }
}

/// What the controller is told of a piece: that it is everything, the first,
/// the last, or one in between.
pub open spec fn spec_operation(index: int, count: int) -> u8 {
    if count == 1 {
        0x03
    } else if index == 0 {
        0x01
    } else if index + 1 == count {
        0x02
    } else {
        0x00
    }
}

/// What the controller is told of a piece.
pub fn operation(index: usize, count: usize) -> (operation: u8)
    requires
        index < count,
    ensures
        operation == spec_operation(index as int, count as int),
{
    if count == 1 {
        0x03
    } else if index == 0 {
        0x01
    } else if index + 1 == count {
        0x02
    } else {
        0x00
    }
}

/// What a piece of data is loaded into.
#[derive(Clone, Copy, Debug, PartialEq, Eq, Structural)]
pub enum DataKind {
    Advertising,
    ScanResponse,
    Periodic,
}

/// Whether a command loads a piece of data.
pub open spec fn loads(
    command: Command,
    kind: DataKind,
    handle: u8,
    operation: u8,
    data: Seq<u8>,
) -> bool {
    match kind {
        DataKind::Advertising => command matches Command::LeSetExtendedAdvertisingData {
            advertising_handle,
            operation: sent,
            fragment_preference,
            advertising_data,
        } && advertising_handle == handle && sent == operation && fragment_preference == 1
            && advertising_data@ == data,
        DataKind::ScanResponse => command matches Command::LeSetExtendedScanResponseData {
            advertising_handle,
            operation: sent,
            fragment_preference,
            scan_response_data,
        } && advertising_handle == handle && sent == operation && fragment_preference == 1
            && scan_response_data@ == data,
        DataKind::Periodic => command matches Command::LeSetPeriodicAdvertisingData {
            advertising_handle,
            operation: sent,
            advertising_data,
        } && advertising_handle == handle && sent == operation && advertising_data@ == data,
    }
}

/// Whether commands load data, piece by piece.
pub open spec fn load_all(
    list: Seq<Command>,
    kind: DataKind,
    handle: u8,
    data: Seq<u8>,
) -> bool {
    let pieces = chunks(data);
    &&& list.len() == pieces.len()
    &&& forall|index: int|
        0 <= index < list.len() ==> loads(
            #[trigger] list[index],
            kind,
            handle,
            spec_operation(index, pieces.len() as int),
            pieces[index],
        )
}

/// Split data into pieces.
pub fn split(data: &[u8]) -> (pieces: Vec<Vec<u8>>)
    ensures
        byte_strings(pieces@) == chunks(data@),
{
    let mut pieces: Vec<Vec<u8>> = Vec::new();
    let mut start: usize = 0;
    assert(data@.skip(0) =~= data@);
    assert(byte_strings(pieces@) + chunks(data@.skip(0)) =~= chunks(data@));
    while data.len() - start > CHUNK_LENGTH
        invariant
            start <= data@.len(),
            byte_strings(pieces@) + chunks(data@.skip(start as int)) == chunks(data@),
        decreases data@.len() - start,
    {
        let ghost rest = data@.skip(start as int);
        let ghost earlier = pieces@;
        let piece: Vec<u8> = copy_bytes(data, start, start + CHUNK_LENGTH);
        pieces.push(piece);
        start += CHUNK_LENGTH;
        proof {
            assert(piece@ =~= rest.take(CHUNK_LENGTH as int));
            assert(rest.skip(CHUNK_LENGTH as int) =~= data@.skip(start as int));
            assert(byte_strings(pieces@) =~= byte_strings(earlier) + seq![piece@]);
            assert(byte_strings(pieces@) + chunks(data@.skip(start as int)) =~= byte_strings(
                earlier,
            ) + chunks(rest));
        }
    }
    let ghost rest = data@.skip(start as int);
    let ghost earlier = pieces@;
    let piece: Vec<u8> = copy_bytes(data, start, data.len());
    pieces.push(piece);
    proof {
        assert(piece@ =~= rest);
        assert(byte_strings(pieces@) =~= byte_strings(earlier) + seq![piece@]);
    }
    pieces
}

/// The command that loads a piece of data.
fn load(kind: DataKind, handle: u8, operation: u8, data: Vec<u8>) -> (command: Command)
    ensures
        loads(command, kind, handle, operation, data@),
{
    match kind {
        DataKind::Advertising => Command::LeSetExtendedAdvertisingData {
            advertising_handle: handle,
            operation,
            fragment_preference: 1,
            advertising_data: data,
        },
        DataKind::ScanResponse => Command::LeSetExtendedScanResponseData {
            advertising_handle: handle,
            operation,
            fragment_preference: 1,
            scan_response_data: data,
        },
        DataKind::Periodic => Command::LeSetPeriodicAdvertisingData {
            advertising_handle: handle,
            operation,
            advertising_data: data,
        },
    }
}

/// The commands that load data.
pub fn load_commands(kind: DataKind, handle: u8, data: &[u8]) -> (list: Vec<Command>)
    ensures
        load_all(list@, kind, handle, data@),
{
    let pieces = split(data);
    let count: usize = pieces.len();
    let mut list: Vec<Command> = Vec::new();
    let mut index: usize = 0;
    while index < count
        invariant
            index <= count == pieces@.len(),
            byte_strings(pieces@) == chunks(data@),
            list@.len() == index,
            forall|earlier: int|
                0 <= earlier < index ==> loads(
                    #[trigger] list@[earlier],
                    kind,
                    handle,
                    spec_operation(earlier, count as int),
                    chunks(data@)[earlier],
                ),
        decreases count - index,
    {
        let piece: Vec<u8> = pieces[index].clone();
        assert(piece@ =~= byte_strings(pieces@)[index as int]);
        list.push(load(kind, handle, operation(index, count), piece));
        index += 1;
    }
    list
}

/// The pieces of the data, put together, are the data.
pub proof fn lemma_joined_chunks(data: Seq<u8>)
    ensures
        joined(chunks(data)) == data,
    decreases data.len(),
{
    if data.len() <= CHUNK_LENGTH {
        assert(chunks(data).skip(1) =~= Seq::<Seq<u8>>::empty());
        assert(joined(Seq::<Seq<u8>>::empty()) =~= Seq::<u8>::empty());
        assert(joined(chunks(data)) =~= data);
    } else {
        let rest = data.skip(CHUNK_LENGTH as int);
        lemma_joined_chunks(rest);
        assert(chunks(data).skip(1) =~= chunks(rest));
        assert(joined(chunks(data)) =~= data);
    }
}

/// Every piece fits a command, and all but the last fill it.
pub proof fn lemma_chunks_fit(data: Seq<u8>)
    ensures
        chunks(data).len() >= 1,
        forall|index: int|
            0 <= index < chunks(data).len() ==> (#[trigger] chunks(data)[index]).len()
                <= CHUNK_LENGTH,
        forall|index: int|
            0 <= index < chunks(data).len() - 1 ==> (#[trigger] chunks(data)[index]).len()
                == CHUNK_LENGTH,
    decreases data.len(),
{
    if data.len() > CHUNK_LENGTH {
        let rest = data.skip(CHUNK_LENGTH as int);
        lemma_chunks_fit(rest);
        assert forall|index: int| 0 <= index < chunks(data).len() implies (
        #[trigger] chunks(data)[index]).len() <= CHUNK_LENGTH by {
            if index > 0 {
                assert(chunks(data)[index] == chunks(rest)[index - 1]);
            }
        }
        assert forall|index: int| 0 <= index < chunks(data).len() - 1 implies (
        #[trigger] chunks(data)[index]).len() == CHUNK_LENGTH by {
            if index > 0 {
                assert(chunks(data)[index] == chunks(rest)[index - 1]);
            }
        }
    }
}

} // verus!
