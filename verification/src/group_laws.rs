//! What isochronous groups, streams and data paths are asked for with.

use crate::device::DeviceView;
use crate::hci::{Command, IsoDataPacket};
use crate::iso::{
    are_fragments, is_fragment, BigParameters, BigSyncParameters, CigParameters, CisParameters,
    CodingFormat, IsoDataPathParametersView,
};
use crate::iso_ops::{
    acceptable_pairs, asks_big_sync, asks_path, asks_streams, big_command, default_group,
};
use crate::state::IsoView;
use crate::transport::HostAction;
use vstd::prelude::*;

verus! {

/// A stream of a group as it is asked for: everything as it was configured, but
/// a direction without data has no retransmissions.
pub open spec fn asked_stream(asked: CisParameters, configured: CisParameters) -> bool {
    &&& asked.cis_id == configured.cis_id
    &&& asked.max_sdu_c_to_p == configured.max_sdu_c_to_p
    &&& asked.max_sdu_p_to_c == configured.max_sdu_p_to_c
    &&& asked.phy_c_to_p == configured.phy_c_to_p
    &&& asked.phy_p_to_c == configured.phy_p_to_c
    &&& configured.max_sdu_c_to_p > 0 ==> asked.rtn_c_to_p == configured.rtn_c_to_p
    &&& configured.max_sdu_c_to_p == 0 ==> asked.rtn_c_to_p == 0
    &&& configured.max_sdu_p_to_c > 0 ==> asked.rtn_p_to_c == configured.rtn_p_to_c
    &&& configured.max_sdu_p_to_c == 0 ==> asked.rtn_p_to_c == 0
}

/// Normalizing a stream leaves it as it was but for directions without data.
pub proof fn lemma_normalized_stream(stream: CisParameters)
    ensures
        asked_stream(stream.spec_normalized(), stream),
{
}

/// A group is asked for as it was configured, stream by stream and in the same
/// order, each direction in its own place.
pub proof fn lemma_group_request(group: CigParameters, command: Command, place: int)
    requires
        group.asked_by(command),
        0 <= place < group.cis_parameters@.len(),
    ensures
        command matches Command::LeSetCigParameters {
            cig_id,
            sdu_interval_c_to_p,
            sdu_interval_p_to_c,
            worst_case_sca,
            packing,
            framing,
            max_transport_latency_c_to_p,
            max_transport_latency_p_to_c,
            cis_id,
            max_sdu_c_to_p,
            max_sdu_p_to_c,
            phy_c_to_p,
            phy_p_to_c,
            rtn_c_to_p,
            rtn_p_to_c,
        } && {
            let count = group.cis_parameters@.len();
            &&& cig_id == group.cig_id
            &&& sdu_interval_c_to_p == group.sdu_interval_c_to_p
            &&& sdu_interval_p_to_c == group.sdu_interval_p_to_c
            &&& worst_case_sca == group.worst_case_sca
            &&& packing == group.packing
            &&& framing == group.framing
            &&& max_transport_latency_c_to_p == group.max_transport_latency_c_to_p
            &&& max_transport_latency_p_to_c == group.max_transport_latency_p_to_c
            &&& cis_id@.len() == count
            &&& max_sdu_c_to_p@.len() == count && max_sdu_p_to_c@.len() == count
            &&& phy_c_to_p@.len() == count && phy_p_to_c@.len() == count
            &&& rtn_c_to_p@.len() == count && rtn_p_to_c@.len() == count
            &&& asked_stream(
                CisParameters {
                    cis_id: cis_id@[place],
                    max_sdu_c_to_p: max_sdu_c_to_p@[place],
                    max_sdu_p_to_c: max_sdu_p_to_c@[place],
                    phy_c_to_p: phy_c_to_p@[place],
                    phy_p_to_c: phy_p_to_c@[place],
                    rtn_c_to_p: rtn_c_to_p@[place],
                    rtn_p_to_c: rtn_p_to_c@[place],
                },
                group.cis_parameters@[place],
            )
        },
{
}

/// A group can be asked for where it has from 1 to 255 streams, and its
/// intervals fit into three bytes.
pub proof fn lemma_acceptable_group(group: CigParameters)
    ensures
        group.acceptable() <==> 1 <= group.cis_parameters@.len() <= 255
            && group.sdu_interval_c_to_p < 0x100_0000 && group.sdu_interval_p_to_c < 0x100_0000,
{
}

/// A stream with default parameters is bidirectional, on the 2M PHY, with SDUs of
/// 251 bytes and ten retransmissions.
pub proof fn lemma_default_stream(cis_id: u8)
    ensures
        ({
            let stream = CisParameters::spec_new(cis_id);
            &&& stream.cis_id == cis_id
            &&& stream.max_sdu_c_to_p == 251 && stream.max_sdu_p_to_c == 251
            &&& stream.phy_c_to_p == 2 && stream.phy_p_to_c == 2
            &&& stream.rtn_c_to_p == 10 && stream.rtn_p_to_c == 10
        }),
{
}

/// A group with default parameters has the given streams in order, SDUs every
/// ten milliseconds both ways, and a transport latency of a hundred milliseconds.
pub proof fn lemma_default_group(group: CigParameters, cig_id: u8, ids: Seq<u8>, place: int)
    requires
        default_group(group, cig_id, ids),
        0 <= place < ids.len(),
    ensures
        group.cig_id == cig_id,
        group.cis_parameters@.len() == ids.len(),
        group.cis_parameters@[place].cis_id == ids[place],
        group.cis_parameters@[place].max_sdu_c_to_p == 251,
        group.cis_parameters@[place].max_sdu_p_to_c == 251,
        group.sdu_interval_c_to_p == 10000 && group.sdu_interval_p_to_c == 10000,
        group.max_transport_latency_c_to_p == 100 && group.max_transport_latency_p_to_c == 100,
        group.worst_case_sca == 0 && group.packing == 0 && group.framing == 0,
{
}

/// Streams are asked for in pairs: each stream's handle in the place of its
/// connection's.
pub proof fn lemma_streams_request(command: Command, pairs: Seq<(u16, u16)>, place: int)
    requires
        asks_streams(command, pairs),
        0 <= place < pairs.len(),
    ensures
        command matches Command::LeCreateCis { cis_connection_handle, acl_connection_handle } && {
            &&& cis_connection_handle@.len() == pairs.len()
            &&& acl_connection_handle@.len() == pairs.len()
            &&& cis_connection_handle@[place] == pairs[place].0
            &&& acl_connection_handle@[place] == pairs[place].1
        },
{
}

/// Streams can be asked for where there are from 1 to 255 of them, and each
/// connection is a live LE one.
pub proof fn lemma_acceptable_streams(device: DeviceView, pairs: Seq<(u16, u16)>, place: int)
    ensures
        acceptable_pairs(device, pairs) ==> 1 <= pairs.len() <= 255,
        acceptable_pairs(device, pairs) && 0 <= place < pairs.len()
            ==> device.le.le_connections.contains_key(pairs[place].1),
        0 <= place < pairs.len() && !device.le.le_connections.contains_key(pairs[place].1)
            ==> !acceptable_pairs(device, pairs),
{
}

/// A BIG is asked for as it was configured, each field in its own place. It is
/// encrypted exactly where there is a broadcast code; else the code is zero.
pub proof fn lemma_big_request(parameters: BigParameters)
    ensures
        big_command(parameters) matches Command::LeCreateBig {
            big_handle,
            advertising_handle,
            num_bis,
            sdu_interval,
            max_sdu,
            max_transport_latency,
            rtn,
            phy,
            packing,
            framing,
            encryption,
            broadcast_code,
        } && {
            &&& big_handle == parameters.big_handle
            &&& advertising_handle == parameters.advertising_handle
            &&& num_bis == parameters.num_bis
            &&& sdu_interval == parameters.sdu_interval
            &&& max_sdu == parameters.max_sdu
            &&& max_transport_latency == parameters.max_transport_latency
            &&& rtn == parameters.rtn
            &&& phy == parameters.phy
            &&& packing == parameters.packing
            &&& framing == parameters.framing
            &&& encryption <= 1
            &&& encryption == 1 <==> parameters.broadcast_code is Some
            &&& parameters.broadcast_code is Some ==> broadcast_code
                == parameters.broadcast_code->0
            &&& parameters.broadcast_code is None ==> broadcast_code@ =~= Seq::new(
                16,
                |index: int| 0u8,
            )
        },
{
}

/// A BIG can be asked for where its handle is below 240 and free, and every
/// parameter is in its range.
pub proof fn lemma_acceptable_big(iso: IsoView, parameters: BigParameters)
    ensures
        iso.accepts_big(parameters) <==> {
            &&& parameters.big_handle < 240
            &&& !iso.bigs.contains_key(parameters.big_handle)
            &&& !iso.pending_bigs.contains(parameters.big_handle)
            &&& !iso.big_syncs.contains_key(parameters.big_handle)
            &&& !iso.pending_big_syncs.contains(parameters.big_handle)
            &&& 1 <= parameters.num_bis <= 31
            &&& 255 <= parameters.sdu_interval < 0x100_0000
            &&& 1 <= parameters.max_sdu <= 4095
            &&& 5 <= parameters.max_transport_latency <= 4000
            &&& parameters.rtn <= 30
            &&& 1 <= parameters.phy <= 7
            &&& parameters.packing <= 1
            &&& parameters.framing <= 1
        },
{
}

/// A BIG that was asked for is pending, last in line, and cannot be asked for
/// again. The same holds of a BIG to synchronize to.
pub proof fn lemma_big_pending(iso: IsoView, parameters: BigParameters)
    ensures
        ({
            let big = parameters.big_handle;
            let asked = iso.big_asked(big);
            let sync_asked = iso.big_sync_asked(big);
            &&& !asked.accepts_big(parameters)
            &&& !sync_asked.accepts_big(parameters)
            &&& asked.pending_bigs.contains(big)
            &&& sync_asked.pending_big_syncs.contains(big)
            &&& asked.pending_big_commands == iso.pending_big_commands.push(big)
            &&& sync_asked.pending_big_sync_commands == iso.pending_big_sync_commands.push(big)
            &&& asked == (IsoView {
                pending_bigs: asked.pending_bigs,
                pending_big_commands: asked.pending_big_commands,
                ..iso
            })
            &&& sync_asked == (IsoView {
                pending_big_syncs: sync_asked.pending_big_syncs,
                pending_big_sync_commands: sync_asked.pending_big_sync_commands,
                ..iso
            })
            &&& forall|other: u8|
                other != big ==> (#[trigger] asked.pending_bigs.contains(other)
                    <==> iso.pending_bigs.contains(other))
        }),
{
}

/// A sync to a BIG is asked for as it was configured. It is encrypted exactly
/// where there is a broadcast code; else the code is zero.
pub proof fn lemma_big_sync_request(command: Command, parameters: BigSyncParameters)
    requires
        asks_big_sync(command, parameters),
    ensures
        command matches Command::LeBigCreateSync {
            big_handle,
            sync_handle,
            encryption,
            broadcast_code,
            mse,
            big_sync_timeout,
            bis,
        } && {
            &&& big_handle == parameters.big_handle
            &&& sync_handle == parameters.sync_handle
            &&& mse == parameters.mse
            &&& big_sync_timeout == parameters.big_sync_timeout
            &&& bis@ == parameters.bis@
            &&& encryption <= 1
            &&& encryption == 1 <==> parameters.broadcast_code is Some
            &&& parameters.broadcast_code is Some ==> broadcast_code
                == parameters.broadcast_code->0
            &&& parameters.broadcast_code is None ==> broadcast_code@ =~= Seq::new(
                16,
                |index: int| 0u8,
            )
        },
{
}

/// A sync to a BIG can be asked for where its handle is below 240 and free, its
/// periodic train is known, and its streams are from 1 to 31 different numbers
/// from 1 to 31.
pub proof fn lemma_acceptable_big_sync(device: DeviceView, parameters: BigSyncParameters)
    ensures
        device.accepts_big_sync(parameters) <==> {
            let bis = parameters.bis@;
            let big = parameters.big_handle;
            &&& big < 240
            &&& !device.iso.bigs.contains_key(big) && !device.iso.pending_bigs.contains(big)
            &&& !device.iso.big_syncs.contains_key(big) && !device.iso.pending_big_syncs.contains(
                big,
            )
            &&& device.gap.periodic_syncs.contains_key(parameters.sync_handle)
            &&& 1 <= bis.len() <= 31
            &&& forall|place: int| 0 <= place < bis.len() ==> 1 <= #[trigger] bis[place] <= 31
            &&& forall|first: int, second: int|
                0 <= first < second < bis.len() ==> bis[first] != bis[second]
            &&& parameters.mse <= 31
            &&& 10 <= parameters.big_sync_timeout <= 16384
        },
{
    let bis = parameters.bis@;
    if forall|first: int, second: int|
        0 <= first < second < bis.len() ==> bis[first] != bis[second] {
        assert forall|first: int, second: int|
            0 <= first < bis.len() && 0 <= second < bis.len() && first != second implies bis[first]
            != bis[second] by {
            if first > second {
                assert(bis[second] != bis[first]);
            }
        }
        assert(bis.no_duplicates());
    }
}

/// The plain data path carries transparent data over the host interface without
/// delay or configuration.
pub proof fn lemma_plain_path(direction: u8)
    ensures
        ({
            let path = IsoDataPathParametersView::spec_hci(direction);
            &&& path.direction == direction
            &&& path.data_path_id == 0
            &&& path.codec_id == (CodingFormat {
                codec_id: 3,
                company_id: 0,
                vendor_specific_codec_id: 0,
            })
            &&& path.controller_delay == 0
            &&& path.codec_configuration.len() == 0
        }),
{
}

/// A data path is asked for as it was given.
pub proof fn lemma_path_request(command: Command, handle: u16, path: IsoDataPathParametersView)
    requires
        asks_path(command, handle, path),
    ensures
        command matches Command::LeSetupIsoDataPath {
            connection_handle,
            data_path_direction,
            data_path_id,
            codec_id,
            controller_delay,
            codec_configuration,
        } && {
            &&& connection_handle == handle
            &&& data_path_direction == path.direction
            &&& data_path_id == path.data_path_id
            &&& codec_id == path.codec_id
            &&& controller_delay == path.controller_delay
            &&& codec_configuration@ == path.codec_configuration
        },
{
}

/// A data path can be asked for on a CIS in both directions, and on a broadcast
/// stream in its own.
pub proof fn lemma_acceptable_path(iso: IsoView, handle: u16, path: IsoDataPathParametersView)
    ensures
        iso.accepts_path(handle, path) <==> {
            &&& iso.cis_links.contains_key(handle) || (iso.bis_directions.contains_key(handle)
                && iso.bis_directions[handle] == path.direction)
            &&& path.direction <= 1
            &&& path.controller_delay < 0x100_0000
            &&& path.codec_configuration.len() <= 255
        },
        iso.has_path(handle, path.direction) <==> {
            ||| iso.iso_data_paths.contains_key(handle) && iso.iso_data_paths[handle].contains_key(
                path.direction,
            )
            ||| exists|index: int|
                {
                    &&& 0 <= index < iso.pending_iso_data_path_setups.len()
                    &&& (#[trigger] iso.pending_iso_data_path_setups[index]).0 == handle
                    &&& iso.pending_iso_data_path_setups[index].1.direction == path.direction
                }
        },
{
}

/// A data path that was asked for is pending, last in line, and is not asked for
/// again.
pub proof fn lemma_path_pending(device: DeviceView, handle: u16, path: IsoDataPathParametersView)
    ensures
        ({
            let after = device.path_asked(handle, path);
            &&& after.iso.has_path(handle, path.direction)
            &&& after.iso.pending_iso_data_path_setups
                == device.iso.pending_iso_data_path_setups.push((handle, path))
            &&& after == (DeviceView {
                iso: IsoView {
                    pending_iso_data_path_setups: after.iso.pending_iso_data_path_setups,
                    ..device.iso
                },
                ..device
            })
        }),
{
    let after = device.path_asked(handle, path);
    let last = device.iso.pending_iso_data_path_setups.len() as int;
    assert(after.iso.pending_iso_data_path_setups[last].0 == handle);
    assert(after.iso.path_pending(handle, path.direction));
}

/// An SDU can be sent on a CIS, and on a broadcast stream that leads away from
/// the host, where it has at most 4095 bytes and a packet has more than four.
pub proof fn lemma_sdu_sendable(device: DeviceView, handle: u16, length: int)
    ensures
        device.sends_sdu(handle, length) <==> {
            &&& device.iso.cis_links.contains_key(handle) || (device.iso.bis_directions.contains_key(
                handle,
            ) && device.iso.bis_directions[handle] == 0)
            &&& length <= 4095
            &&& match device.pools.iso_data_packet_length {
                Some(room) => room > 4,
                None => true,
            }
        },
        device.pools.iso_data_packet_length is None ==> device.iso_packet_length() == 960,
        device.pools.iso_data_packet_length is Some ==> device.iso_packet_length()
            == device.pools.iso_data_packet_length->0,
{
}

/// A stream's SDUs are numbered one after the other from zero, and after the
/// last number the first one follows. Other streams keep their numbers. Without
/// a pool of its own, an SDU that was refused gives its number to the next.
pub proof fn lemma_sdu_numbers(
    device: DeviceView,
    after: DeviceView,
    packets: Seq<IsoDataPacket>,
    handle: u16,
    other: u16,
    success: bool,
    log_before: Seq<HostAction>,
    log_after: Seq<HostAction>,
)
    requires
        device.sdu_sent_as(after, packets, handle, success, log_before, log_after),
        other != handle,
    ensures
        !device.iso.iso_sequence_numbers.contains_key(handle) ==> device.next_sequence(handle)
            == 0,
        device.iso.iso_sequence_numbers.contains_key(handle) ==> device.next_sequence(handle)
            == device.iso.iso_sequence_numbers[handle],
        device.pools.iso is Some || success ==> after.next_sequence(handle) == (
        device.next_sequence(handle) + 1) % 0x1_0000,
        device.pools.iso is None && !success ==> after.next_sequence(handle)
            == device.next_sequence(handle),
        after.next_sequence(other) == device.next_sequence(other),
        after.iso.iso_data_paths == device.iso.iso_data_paths,
        after.iso.cis_links == device.iso.cis_links,
        after.iso.bis_directions == device.iso.bis_directions,
        after.le == device.le,
        after.classic == device.classic,
        after.journal == device.journal,
{
}

/// The first packet of an SDU carries its number, its length and its status, and
/// no other does. Each packet says how much it holds, which is at most what a
/// packet has room for; four bytes of the first go to the description.
pub proof fn lemma_sdu_packets(
    packets: Seq<IsoDataPacket>,
    handle: u16,
    number: u16,
    sdu: Seq<u8>,
    room: int,
    place: int,
)
    requires
        are_fragments(packets, handle, number, sdu, room),
        room > 4,
        sdu.len() <= 4095,
        0 <= place < packets.len(),
    ensures
        packets[place].connection_handle == handle,
        packets[place].ts_flag == 0 && packets[place].time_stamp is None,
        packets[place].data_total_length <= room,
        packets[place].data_total_length == packets[place].iso_sdu_fragment@.len() + if place == 0 {
            4int
        } else {
            0
        },
        place == 0 ==> packets[place].packet_sequence_number == Some(number),
        place == 0 ==> packets[place].packet_status_flag == Some(0u8),
        place == 0 ==> packets[place].iso_sdu_length is Some
            && packets[place].iso_sdu_length->0 == sdu.len(),
        place > 0 ==> packets[place].packet_sequence_number is None,
        place > 0 ==> packets[place].iso_sdu_length is None,
        place > 0 ==> packets[place].packet_status_flag is None,
        packets.len() == 1 ==> packets[place].pb_flag == 2,
        packets.len() > 1 && place == 0 ==> packets[place].pb_flag == 0,
        packets.len() > 1 && place == packets.len() - 1 ==> packets[place].pb_flag == 3,
        0 < place < packets.len() - 1 ==> packets[place].pb_flag == 1,
{
    assert(is_fragment(packets[place], place, handle, number, sdu, room));
    assert((place + 1) * room == place * room + room) by (nonlinear_arith);
    assert(place > 0 ==> place * room >= room) by (nonlinear_arith)
        requires
            room > 4,
            place >= 0,
    ;
    let start = crate::iso::fragment_start(place, room);
    let end = crate::iso::fragment_end(place, room, sdu.len() as int);
    let next = crate::iso::fragment_start(place + 1, room);
    if place > 0 {
        let before = crate::iso::fragment_start(place - 1 + 1, room);
        assert(before < sdu.len());
        assert(start < sdu.len());
    }
    if place < packets.len() - 1 {
        assert(next < sdu.len());
    }
    assert(0 <= start <= end <= sdu.len());
}

} // verus!
