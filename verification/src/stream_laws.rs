//! What isochronous events leave behind.

use crate::device::DeviceView;
use crate::hci::{Event, HciPacket, IsoDataPacket, LeMetaEvent, ReturnParameters};
use crate::iso::{
    BigInfoReport, CisControlEventView, CisLinkInfo, CisRequestInfo, IsoControlEventView,
    IsoDataPathParametersView, IsoSduView, IsoTxSyncInfo,
};
use crate::le_laws::heard_le;
use crate::pairing_laws::heard;
use crate::retain::{first_of, OfConnection};
use crate::state::IsoView;
use crate::transport::{lemma_commands_none, HostAction};
use vstd::prelude::*;

verus! {

/// A device with other isochronous state, and which is else the same.
pub open spec fn with_iso(device: DeviceView, iso: IsoView) -> DeviceView {
    DeviceView { iso, ..device }
}

/// Whether only the isochronous state may have changed, and nothing was handed
/// over.
pub open spec fn only_iso(
    device: DeviceView,
    after: DeviceView,
    log_before: Seq<HostAction>,
    log_after: Seq<HostAction>,
) -> bool {
    &&& after == with_iso(device, after.iso)
    &&& log_after == log_before
}

/// Which streams and numbers there are once broadcast streams are established.
proof fn lemma_established(iso: IsoView, handles: Seq<u16>, direction: u8)
    ensures
        ({
            let after = iso.bis_established(handles, direction);
            &&& forall|handle: u16| #[trigger]
                after.bis_directions.contains_key(handle) <==> handles.contains(handle)
                    || iso.bis_directions.contains_key(handle)
            &&& forall|handle: u16| #[trigger]
                handles.contains(handle) ==> after.bis_directions[handle] == direction
            &&& forall|handle: u16|
                !handles.contains(handle) ==> (#[trigger] after.bis_directions[handle])
                    == iso.bis_directions[handle]
            &&& forall|handle: u16| #[trigger]
                after.iso_sequence_numbers.contains_key(handle) <==> handles.contains(handle)
                    || iso.iso_sequence_numbers.contains_key(handle)
            &&& forall|handle: u16|
                iso.iso_sequence_numbers.contains_key(handle) ==> (
                #[trigger] after.iso_sequence_numbers[handle]) == iso.iso_sequence_numbers[handle]
            &&& forall|handle: u16|
                handles.contains(handle) && !iso.iso_sequence_numbers.contains_key(handle) ==> (
                #[trigger] after.iso_sequence_numbers[handle]) == 0
            &&& after == (IsoView {
                bis_directions: after.bis_directions,
                iso_sequence_numbers: after.iso_sequence_numbers,
                ..iso
            })
        }),
    decreases handles.len(),
{
    if handles.len() > 0 {
        let rest = handles.drop_last();
        lemma_established(iso, rest, direction);
        assert forall|handle: u16| #[trigger] handles.contains(handle) <==> rest.contains(handle)
            || handle == handles.last() by {
            if handles.contains(handle) && handle != handles.last() {
                let place = choose|place: int|
                    0 <= place < handles.len() && handles[place] == handle;
                assert(rest[place] == handle);
            }
            if rest.contains(handle) {
                let place = choose|place: int| 0 <= place < rest.len() && rest[place] == handle;
                assert(handles[place] == handle);
            }
            assert(handles[handles.len() - 1] == handles.last());
        }
    }
}

/// Whether nothing of a stream is kept in the tables.
pub open spec fn stream_gone(iso: IsoView, handle: u16) -> bool {
    &&& !iso.bis_directions.contains_key(handle)
    &&& !iso.iso_data_paths.contains_key(handle)
    &&& !iso.iso_tx_syncs.contains_key(handle)
    &&& !iso.iso_sequence_numbers.contains_key(handle)
    &&& !iso.iso_assemblers.contains_key(handle)
}

/// Whether a stream stands in the tables as it did.
pub open spec fn stream_kept(before: IsoView, after: IsoView, handle: u16) -> bool {
    &&& after.bis_directions.contains_key(handle) == before.bis_directions.contains_key(handle)
    &&& after.bis_directions[handle] == before.bis_directions[handle]
    &&& after.iso_data_paths.contains_key(handle) == before.iso_data_paths.contains_key(handle)
    &&& after.iso_data_paths[handle] == before.iso_data_paths[handle]
    &&& after.iso_tx_syncs.contains_key(handle) == before.iso_tx_syncs.contains_key(handle)
    &&& after.iso_tx_syncs[handle] == before.iso_tx_syncs[handle]
    &&& after.iso_sequence_numbers.contains_key(handle)
        == before.iso_sequence_numbers.contains_key(handle)
    &&& after.iso_sequence_numbers[handle] == before.iso_sequence_numbers[handle]
    &&& after.iso_assemblers.contains_key(handle) == before.iso_assemblers.contains_key(handle)
    &&& after.iso_assemblers[handle] == before.iso_assemblers[handle]
}

/// What is left once broadcast streams are forgotten.
proof fn lemma_cleared(iso: IsoView, handles: Seq<u16>)
    ensures
        ({
            let after = iso.all_bis_cleared(handles);
            &&& forall|handle: u16| #[trigger]
                handles.contains(handle) ==> stream_gone(after, handle)
            &&& forall|handle: u16|
                !handles.contains(handle) ==> #[trigger] stream_kept(iso, after, handle)
            &&& after == (IsoView {
                bis_directions: after.bis_directions,
                iso_data_paths: after.iso_data_paths,
                pending_iso_data_path_setups: after.pending_iso_data_path_setups,
                pending_iso_data_path_removals: after.pending_iso_data_path_removals,
                pending_iso_tx_syncs: after.pending_iso_tx_syncs,
                iso_tx_syncs: after.iso_tx_syncs,
                iso_sequence_numbers: after.iso_sequence_numbers,
                iso_assemblers: after.iso_assemblers,
                iso_inbox: after.iso_inbox,
                ..iso
            })
        }),
    decreases handles.len(),
{
    if handles.len() > 0 {
        let rest = handles.drop_last();
        let middle = iso.all_bis_cleared(rest);
        let after = iso.all_bis_cleared(handles);
        lemma_cleared(iso, rest);
        assert forall|handle: u16| #[trigger] handles.contains(handle) <==> rest.contains(handle)
            || handle == handles.last() by {
            if handles.contains(handle) && handle != handles.last() {
                let place = choose|place: int|
                    0 <= place < handles.len() && handles[place] == handle;
                assert(rest[place] == handle);
            }
            if rest.contains(handle) {
                let place = choose|place: int| 0 <= place < rest.len() && rest[place] == handle;
                assert(handles[place] == handle);
            }
            assert(handles[handles.len() - 1] == handles.last());
        }
        assert forall|handle: u16| !handles.contains(handle) implies #[trigger] stream_kept(
            iso,
            after,
            handle,
        ) by {
            assert(stream_kept(iso, middle, handle));
        }
        assert forall|handle: u16| #[trigger] handles.contains(handle) implies stream_gone(
            after,
            handle,
        ) by {
            if rest.contains(handle) {
                assert(stream_gone(middle, handle));
            }
        }
    }
}

/// Whether a group of broadcast streams has been established in one direction:
/// zero is away from the host, and one is towards it. A stream that had no
/// number begins with zero.
pub open spec fn streams_established(
    before: IsoView,
    after: IsoView,
    handles: Seq<u16>,
    direction: u8,
) -> bool {
    &&& forall|handle: u16| #[trigger]
        after.bis_directions.contains_key(handle) <==> handles.contains(handle)
            || before.bis_directions.contains_key(handle)
    &&& forall|handle: u16| #[trigger]
        handles.contains(handle) ==> after.bis_directions[handle] == direction
    &&& forall|handle: u16|
        !handles.contains(handle) ==> (#[trigger] after.bis_directions[handle])
            == before.bis_directions[handle]
    &&& forall|handle: u16|
        before.iso_sequence_numbers.contains_key(handle) ==> (
        #[trigger] after.iso_sequence_numbers[handle]) == before.iso_sequence_numbers[handle]
    &&& forall|handle: u16|
        handles.contains(handle) && !before.iso_sequence_numbers.contains_key(handle) ==> (
        #[trigger] after.iso_sequence_numbers[handle]) == 0
}

/// A BIG that was created is known with its streams, which all lead away from
/// the host. One that was not is unknown, and the error is kept. Either way the
/// request is settled.
pub proof fn lemma_big_created(
    device: DeviceView,
    after: DeviceView,
    status: u8,
    big: u8,
    handles: Vec<u16>,
    log_before: Seq<HostAction>,
    log_after: Seq<HostAction>,
)
    requires
        heard_le(
            device,
            LeMetaEvent::CreateBigComplete { status, big_handle: big, connection_handle: handles },
            after,
            log_before,
            log_after,
        ),
    ensures
        only_iso(device, after, log_before, log_after),
        after.iso.pending_bigs == device.iso.pending_bigs.remove(big),
        after.iso.pending_big_commands == device.iso.pending_big_commands.remove_value(big),
        after.iso.big_syncs == device.iso.big_syncs,
        after.iso.cis_links == device.iso.cis_links,
        status == 0 ==> {
            &&& after.iso.bigs == device.iso.bigs.insert(big, handles@)
            &&& streams_established(device.iso, after.iso, handles@, 0)
            &&& after.iso.big_errors == device.iso.big_errors
        },
        status != 0 ==> {
            &&& after.iso.bigs == device.iso.bigs.remove(big)
            &&& after.iso.big_errors == device.iso.big_errors.push((big, status))
            &&& after.iso.bis_directions == device.iso.bis_directions
            &&& after.iso.iso_sequence_numbers == device.iso.iso_sequence_numbers
        },
{
    lemma_commands_none(log_before, device.controller_id);
    lemma_established(
        IsoView {
            pending_bigs: device.iso.pending_bigs.remove(big),
            pending_big_commands: device.iso.pending_big_commands.remove_value(big),
            ..device.iso
        },
        handles@,
        0,
    );
}

/// A BIG that the host has synchronized to is known with its streams, which all
/// lead towards the host.
pub proof fn lemma_big_synced(
    device: DeviceView,
    after: DeviceView,
    status: u8,
    big: u8,
    handles: Vec<u16>,
    log_before: Seq<HostAction>,
    log_after: Seq<HostAction>,
)
    requires
        heard_le(
            device,
            LeMetaEvent::BigSyncEstablished {
                status,
                big_handle: big,
                connection_handle: handles,
            },
            after,
            log_before,
            log_after,
        ),
    ensures
        only_iso(device, after, log_before, log_after),
        after.iso.pending_big_syncs == device.iso.pending_big_syncs.remove(big),
        after.iso.pending_big_sync_commands == device.iso.pending_big_sync_commands.remove_value(
            big,
        ),
        after.iso.bigs == device.iso.bigs,
        after.iso.cis_links == device.iso.cis_links,
        status == 0 ==> {
            &&& after.iso.big_syncs == device.iso.big_syncs.insert(big, handles@)
            &&& streams_established(device.iso, after.iso, handles@, 1)
            &&& after.iso.big_errors == device.iso.big_errors
        },
        status != 0 ==> {
            &&& after.iso.big_syncs == device.iso.big_syncs.remove(big)
            &&& after.iso.big_errors == device.iso.big_errors.push((big, status))
            &&& after.iso.bis_directions == device.iso.bis_directions
            &&& after.iso.iso_sequence_numbers == device.iso.iso_sequence_numbers
        },
{
    lemma_commands_none(log_before, device.controller_id);
    lemma_established(
        IsoView {
            pending_big_syncs: device.iso.pending_big_syncs.remove(big),
            pending_big_sync_commands: device.iso.pending_big_sync_commands.remove_value(big),
            ..device.iso
        },
        handles@,
        1,
    );
}

/// A BIG that has ended is noted with the reason, is unknown, and nothing of its
/// streams is kept. Other streams stay as they were.
pub proof fn lemma_big_terminated(
    device: DeviceView,
    after: DeviceView,
    big: u8,
    reason: u8,
    log_before: Seq<HostAction>,
    log_after: Seq<HostAction>,
)
    requires
        heard_le(
            device,
            LeMetaEvent::TerminateBigComplete { big_handle: big, reason },
            after,
            log_before,
            log_after,
        ),
    ensures
        only_iso(device, after, log_before, log_after),
        after.iso.terminated_bigs == device.iso.terminated_bigs.push((big, reason)),
        after.iso.bigs == device.iso.bigs.remove(big),
        after.iso.big_syncs == device.iso.big_syncs,
        after.iso.cis_links == device.iso.cis_links,
        after.iso.cis_requests == device.iso.cis_requests,
        device.iso.bigs.contains_key(big) ==> {
            &&& forall|handle: u16| #[trigger]
                device.iso.bigs[big].contains(handle) ==> stream_gone(after.iso, handle)
            &&& forall|handle: u16|
                !device.iso.bigs[big].contains(handle) ==> #[trigger] stream_kept(
                    device.iso,
                    after.iso,
                    handle,
                )
        },
        !device.iso.bigs.contains_key(big) ==> after.iso.bis_directions
            == device.iso.bis_directions && after.iso.iso_data_paths == device.iso.iso_data_paths,
{
    lemma_commands_none(log_before, device.controller_id);
    if device.iso.bigs.contains_key(big) {
        let started = IsoView { bigs: device.iso.bigs.remove(big), ..device.iso };
        lemma_cleared(started, device.iso.bigs[big]);
        assert forall|handle: u16|
            !device.iso.bigs[big].contains(handle) implies #[trigger] stream_kept(
            device.iso,
            after.iso,
            handle,
        ) by {
            assert(stream_kept(
                started,
                started.all_bis_cleared(device.iso.bigs[big]),
                handle,
            ));
        }
        assert forall|handle: u16| #[trigger]
            device.iso.bigs[big].contains(handle) implies stream_gone(after.iso, handle) by {
            assert(stream_gone(started.all_bis_cleared(device.iso.bigs[big]), handle));
        }
    } else {
        assert(device.iso.bigs.remove(big) =~= device.iso.bigs);
    }
}

/// The loss of a BIG sync does for its streams what the end of a BIG does.
pub proof fn lemma_big_sync_lost(
    device: DeviceView,
    after: DeviceView,
    big: u8,
    reason: u8,
    log_before: Seq<HostAction>,
    log_after: Seq<HostAction>,
)
    requires
        heard_le(
            device,
            LeMetaEvent::BigSyncLost { big_handle: big, reason },
            after,
            log_before,
            log_after,
        ),
    ensures
        only_iso(device, after, log_before, log_after),
        after.iso.terminated_bigs == device.iso.terminated_bigs.push((big, reason)),
        after.iso.big_syncs == device.iso.big_syncs.remove(big),
        after.iso.bigs == device.iso.bigs,
        after.iso.cis_links == device.iso.cis_links,
        device.iso.big_syncs.contains_key(big) ==> {
            &&& forall|handle: u16| #[trigger]
                device.iso.big_syncs[big].contains(handle) ==> stream_gone(after.iso, handle)
            &&& forall|handle: u16|
                !device.iso.big_syncs[big].contains(handle) ==> #[trigger] stream_kept(
                    device.iso,
                    after.iso,
                    handle,
                )
        },
{
    lemma_commands_none(log_before, device.controller_id);
    if device.iso.big_syncs.contains_key(big) {
        let started = IsoView { big_syncs: device.iso.big_syncs.remove(big), ..device.iso };
        lemma_cleared(started, device.iso.big_syncs[big]);
        assert forall|handle: u16|
            !device.iso.big_syncs[big].contains(handle) implies #[trigger] stream_kept(
            device.iso,
            after.iso,
            handle,
        ) by {
            assert(stream_kept(
                started,
                started.all_bis_cleared(device.iso.big_syncs[big]),
                handle,
            ));
        }
        assert forall|handle: u16| #[trigger]
            device.iso.big_syncs[big].contains(handle) implies stream_gone(after.iso, handle) by {
            assert(stream_gone(started.all_bis_cleared(device.iso.big_syncs[big]), handle));
        }
    } else {
        assert(device.iso.big_syncs.remove(big) =~= device.iso.big_syncs);
    }
}

/// The controller's answer to the oldest request for a BIG, or for a sync to
/// one, settles that request. Where it was refused, nothing is pending for the
/// BIG any more, and the error is kept.
pub proof fn lemma_big_request_answered(
    device: DeviceView,
    after: DeviceView,
    packets: u8,
    status: u8,
    sync: bool,
    log_before: Seq<HostAction>,
    log_after: Seq<HostAction>,
)
    requires
        heard(
            device,
            Event::CommandStatus {
                status,
                num_hci_command_packets: packets,
                command_opcode: if sync {
                    0x206B
                } else {
                    0x2068
                },
            },
            after,
            log_before,
            log_after,
        ),
    ensures
        log_after == log_before,
        ({
            let waiting = if sync {
                device.iso.pending_big_sync_commands
            } else {
                device.iso.pending_big_commands
            };
            &&& waiting.len() == 0 ==> after == device
            &&& waiting.len() > 0 && !sync ==> after == with_iso(
                device,
                IsoView {
                    pending_big_commands: waiting.skip(1),
                    pending_bigs: if status == 0 {
                        device.iso.pending_bigs
                    } else {
                        device.iso.pending_bigs.remove(waiting[0])
                    },
                    bigs: if status == 0 {
                        device.iso.bigs
                    } else {
                        device.iso.bigs.remove(waiting[0])
                    },
                    big_errors: if status == 0 {
                        device.iso.big_errors
                    } else {
                        device.iso.big_errors.push((waiting[0], status))
                    },
                    ..device.iso
                },
            )
            &&& waiting.len() > 0 && sync ==> after == with_iso(
                device,
                IsoView {
                    pending_big_sync_commands: waiting.skip(1),
                    pending_big_syncs: if status == 0 {
                        device.iso.pending_big_syncs
                    } else {
                        device.iso.pending_big_syncs.remove(waiting[0])
                    },
                    big_syncs: if status == 0 {
                        device.iso.big_syncs
                    } else {
                        device.iso.big_syncs.remove(waiting[0])
                    },
                    big_errors: if status == 0 {
                        device.iso.big_errors
                    } else {
                        device.iso.big_errors.push((waiting[0], status))
                    },
                    ..device.iso
                },
            )
        }),
{
    lemma_commands_none(log_before, device.controller_id);
}

/// A report on a BIG is kept field by field; it is encrypted where the field is
/// not zero.
pub proof fn lemma_biginfo(
    device: DeviceView,
    after: DeviceView,
    report: BigInfoReport,
    encryption: u8,
    log_before: Seq<HostAction>,
    log_after: Seq<HostAction>,
)
    requires
        report.encrypted == (encryption != 0),
        heard_le(
            device,
            LeMetaEvent::BiginfoAdvertisingReport {
                sync_handle: report.sync_handle,
                num_bis: report.num_bis,
                nse: report.nse,
                iso_interval: report.iso_interval,
                bn: report.bn,
                pto: report.pto,
                irc: report.irc,
                max_pdu: report.max_pdu,
                sdu_interval: report.sdu_interval,
                max_sdu: report.max_sdu,
                phy: report.phy,
                framing: report.framing,
                encryption,
            },
            after,
            log_before,
            log_after,
        ),
    ensures
        log_after == log_before,
        after == with_iso(
            device,
            IsoView {
                biginfo_reports: device.iso.biginfo_reports.push(report),
                ..device.iso
            },
        ),
{
    lemma_commands_none(log_before, device.controller_id);
}

/// A central's request for a CIS is kept field by field.
pub proof fn lemma_cis_requested(
    device: DeviceView,
    after: DeviceView,
    request: CisRequestInfo,
    log_before: Seq<HostAction>,
    log_after: Seq<HostAction>,
)
    requires
        heard_le(
            device,
            LeMetaEvent::CisRequest {
                acl_connection_handle: request.acl_connection_handle,
                cis_connection_handle: request.cis_connection_handle,
                cig_id: request.cig_id,
                cis_id: request.cis_id,
            },
            after,
            log_before,
            log_after,
        ),
    ensures
        log_after == log_before,
        after == with_iso(
            device,
            IsoView { cis_requests: device.iso.cis_requests.push(request), ..device.iso },
        ),
{
    lemma_commands_none(log_before, device.controller_id);
}

/// The end of a CIS request is told field by field. Where the CIS is
/// established, it is known under its handle, and its SDUs begin with number
/// zero unless the stream had one.
pub proof fn lemma_cis_established(
    device: DeviceView,
    after: DeviceView,
    status: u8,
    link: CisLinkInfo,
    log_before: Seq<HostAction>,
    log_after: Seq<HostAction>,
)
    requires
        heard_le(
            device,
            LeMetaEvent::CisEstablished {
                status,
                connection_handle: link.connection_handle,
                cig_sync_delay: link.cig_sync_delay,
                cis_sync_delay: link.cis_sync_delay,
                transport_latency_c_to_p: link.transport_latency_c_to_p,
                transport_latency_p_to_c: link.transport_latency_p_to_c,
                phy_c_to_p: link.phy_c_to_p,
                phy_p_to_c: link.phy_p_to_c,
                nse: link.nse,
                bn_c_to_p: link.bn_c_to_p,
                bn_p_to_c: link.bn_p_to_c,
                ft_c_to_p: link.ft_c_to_p,
                ft_p_to_c: link.ft_p_to_c,
                max_pdu_c_to_p: link.max_pdu_c_to_p,
                max_pdu_p_to_c: link.max_pdu_p_to_c,
                iso_interval: link.iso_interval,
            },
            after,
            log_before,
            log_after,
        ),
    ensures
        only_iso(device, after, log_before, log_after),
        after.iso.cis_control_events == device.iso.cis_control_events.push(
            CisControlEventView::Established { status, link },
        ),
        status != 0 ==> after.iso.cis_links == device.iso.cis_links
            && after.iso.iso_sequence_numbers == device.iso.iso_sequence_numbers,
        status == 0 ==> {
            let handle = link.connection_handle;
            &&& after.iso.cis_links == device.iso.cis_links.insert(handle, link)
            &&& device.iso.iso_sequence_numbers.contains_key(handle)
                ==> after.iso.iso_sequence_numbers == device.iso.iso_sequence_numbers
            &&& !device.iso.iso_sequence_numbers.contains_key(handle)
                ==> after.iso.iso_sequence_numbers == device.iso.iso_sequence_numbers.insert(
                handle,
                0,
            )
        },
        after.iso.bigs == device.iso.bigs,
        after.iso.bis_directions == device.iso.bis_directions,
        after.iso.configured_cis_handles == device.iso.configured_cis_handles,
{
    lemma_commands_none(log_before, device.controller_id);
}

/// The controller's answer to the commands that create, accept and reject a CIS
/// is told with the command and the status, whatever it is.
pub proof fn lemma_cis_command_answered(
    device: DeviceView,
    after: DeviceView,
    packets: u8,
    status: u8,
    opcode: u16,
    log_before: Seq<HostAction>,
    log_after: Seq<HostAction>,
)
    requires
        opcode == 0x2064 || opcode == 0x2066 || opcode == 0x2067,
        heard(
            device,
            if opcode == 0x2067 {
                Event::CommandComplete {
                    num_hci_command_packets: packets,
                    command_opcode: opcode,
                    return_parameters: ReturnParameters::Status { status },
                }
            } else {
                Event::CommandStatus {
                    status,
                    num_hci_command_packets: packets,
                    command_opcode: opcode,
                }
            },
            after,
            log_before,
            log_after,
        ),
    ensures
        log_after == log_before,
        after == with_iso(
            device,
            IsoView {
                cis_control_events: device.iso.cis_control_events.push(
                    CisControlEventView::CommandStatus { command_opcode: opcode, status },
                ),
                ..device.iso
            },
        ),
{
    lemma_commands_none(log_before, device.controller_id);
}

/// The answer to the configuration of a CIG carries the status, the group, and
/// the streams' handles, low byte first. Where it succeeded, these are the
/// streams that are configured. An answer of another length is ignored.
pub proof fn lemma_cig_configured(
    device: DeviceView,
    after: DeviceView,
    packets: u8,
    data: Vec<u8>,
    handles: Seq<u16>,
    log_before: Seq<HostAction>,
    log_after: Seq<HostAction>,
)
    requires
        heard(
            device,
            Event::CommandComplete {
                num_hci_command_packets: packets,
                command_opcode: 0x2062,
                return_parameters: ReturnParameters::Raw { data },
            },
            after,
            log_before,
            log_after,
        ),
        data@.len() >= 3,
        data@.len() == 3 + 2 * handles.len(),
        data@[2] == handles.len(),
        forall|index: int|
            0 <= index < handles.len() ==> {
                &&& data@[3 + 2 * index] == (#[trigger] handles[index]) % 256
                &&& data@[4 + 2 * index] == handles[index] / 256
            },
    ensures
        log_after == log_before,
        after == with_iso(
            device,
            IsoView {
                configured_cis_handles: if data@[0] == 0 {
                    handles
                } else {
                    device.iso.configured_cis_handles
                },
                cis_control_events: device.iso.cis_control_events.push(
                    CisControlEventView::CigConfigured {
                        status: data@[0],
                        cig_id: data@[1],
                        connection_handles: handles,
                    },
                ),
                ..device.iso
            },
        ),
{
    lemma_commands_none(log_before, device.controller_id);
    let read = crate::iso_link::cig_handles(data@);
    assert(read.len() == handles.len());
    assert forall|index: int| 0 <= index < handles.len() implies (#[trigger] read[index])
        == handles[index] by {
        assert(data@[3 + 2 * index] + 256 * data@[4 + 2 * index] == handles[index]);
    }
    assert(read =~= handles);
}

/// The first entry of a stream.
proof fn lemma_first_of<T: OfConnection>(entries: Seq<T>, handle: u16, index: int)
    requires
        0 <= index < entries.len(),
        entries[index].connection() == handle,
        forall|earlier: int|
            0 <= earlier < index ==> (#[trigger] entries[earlier]).connection() != handle,
    ensures
        first_of(entries, handle) == Some(index),
    decreases entries.len(),
{
    if index > 0 {
        assert(entries[0].connection() != handle);
        let rest = entries.skip(1);
        assert forall|earlier: int| 0 <= earlier < index - 1 implies (
        #[trigger] rest[earlier]).connection() != handle by {
            assert(rest[earlier] == entries[earlier + 1]);
        }
        assert(rest[index - 1] == entries[index]);
        lemma_first_of(rest, handle, index - 1);
    }
}

/// The answer to a data path setup settles the oldest one of its stream. Where
/// it succeeded, the path that was asked for stands in its direction; the other
/// direction and other streams keep theirs.
pub proof fn lemma_data_path_set_up(
    device: DeviceView,
    after: DeviceView,
    packets: u8,
    status: u8,
    handle: u16,
    index: int,
    path: IsoDataPathParametersView,
    log_before: Seq<HostAction>,
    log_after: Seq<HostAction>,
)
    requires
        heard(
            device,
            Event::CommandComplete {
                num_hci_command_packets: packets,
                command_opcode: 0x206E,
                return_parameters: ReturnParameters::StatusAndConnectionHandle {
                    status,
                    connection_handle: handle,
                },
            },
            after,
            log_before,
            log_after,
        ),
        0 <= index < device.iso.pending_iso_data_path_setups.len(),
        device.iso.pending_iso_data_path_setups[index] == (handle, path),
        forall|earlier: int|
            0 <= earlier < index ==> (
            #[trigger] device.iso.pending_iso_data_path_setups[earlier]).0 != handle,
    ensures
        only_iso(device, after, log_before, log_after),
        after.iso.pending_iso_data_path_setups == device.iso.pending_iso_data_path_setups.remove(
            index,
        ),
        after.iso.iso_control_events == device.iso.iso_control_events.push(
            IsoControlEventView::DataPathSetup {
                status,
                connection_handle: handle,
                parameters: path,
            },
        ),
        status != 0 ==> after.iso.iso_data_paths == device.iso.iso_data_paths,
        status == 0 ==> {
            let paths = after.iso.iso_data_paths;
            &&& paths.contains_key(handle)
            &&& paths[handle].contains_key(path.direction)
            &&& paths[handle][path.direction] == path
            &&& forall|other: u8|
                other != path.direction && device.iso.iso_data_paths.contains_key(handle) ==> {
                    &&& #[trigger] paths[handle].contains_key(other)
                        == device.iso.iso_data_paths[handle].contains_key(other)
                    &&& paths[handle][other] == device.iso.iso_data_paths[handle][other]
                }
            &&& forall|other: u8|
                other != path.direction && !device.iso.iso_data_paths.contains_key(handle)
                    ==> !(#[trigger] paths[handle].contains_key(other))
            &&& forall|other: u16|
                other != handle ==> {
                    &&& #[trigger] paths.contains_key(other)
                        == device.iso.iso_data_paths.contains_key(other)
                    &&& paths[other] == device.iso.iso_data_paths[other]
                }
        },
{
    lemma_commands_none(log_before, device.controller_id);
    assert forall|earlier: int| 0 <= earlier < index implies (
    #[trigger] device.iso.pending_iso_data_path_setups[earlier]).connection() != handle by {
        assert(device.iso.pending_iso_data_path_setups[earlier].0 != handle);
    }
    lemma_first_of(device.iso.pending_iso_data_path_setups, handle, index);
}

/// The answer to a data path removal settles the oldest one of its stream. Where
/// it succeeded, bit zero of the directions removes the path away from the host,
/// and bit one the path towards it.
pub proof fn lemma_data_path_removed(
    device: DeviceView,
    after: DeviceView,
    packets: u8,
    status: u8,
    handle: u16,
    index: int,
    directions: u8,
    log_before: Seq<HostAction>,
    log_after: Seq<HostAction>,
)
    requires
        heard(
            device,
            Event::CommandComplete {
                num_hci_command_packets: packets,
                command_opcode: 0x206F,
                return_parameters: ReturnParameters::StatusAndConnectionHandle {
                    status,
                    connection_handle: handle,
                },
            },
            after,
            log_before,
            log_after,
        ),
        0 <= index < device.iso.pending_iso_data_path_removals.len(),
        device.iso.pending_iso_data_path_removals[index] == (handle, directions),
        forall|earlier: int|
            0 <= earlier < index ==> (
            #[trigger] device.iso.pending_iso_data_path_removals[earlier]).0 != handle,
    ensures
        only_iso(device, after, log_before, log_after),
        after.iso.pending_iso_data_path_removals
            == device.iso.pending_iso_data_path_removals.remove(index),
        after.iso.iso_control_events == device.iso.iso_control_events.push(
            IsoControlEventView::DataPathRemoved {
                status,
                connection_handle: handle,
                directions,
            },
        ),
        status != 0 ==> after.iso.iso_data_paths == device.iso.iso_data_paths,
        status == 0 && device.iso.iso_data_paths.contains_key(handle) ==> {
            let paths = after.iso.iso_data_paths;
            let former = device.iso.iso_data_paths[handle];
            &&& paths.contains_key(handle)
            &&& paths[handle].contains_key(0) <==> former.contains_key(0) && directions % 2 == 0
            &&& paths[handle].contains_key(1) <==> former.contains_key(1) && (directions / 2) % 2
                == 0
            &&& forall|direction: u8|
                direction > 1 ==> (#[trigger] paths[handle].contains_key(direction)
                    <==> former.contains_key(direction))
            &&& forall|direction: u8| #[trigger]
                paths[handle].contains_key(direction) ==> paths[handle][direction]
                    == former[direction]
        },
        forall|other: u16|
            other != handle ==> {
                &&& #[trigger] after.iso.iso_data_paths.contains_key(other)
                    == device.iso.iso_data_paths.contains_key(other)
                &&& after.iso.iso_data_paths[other] == device.iso.iso_data_paths[other]
            },
{
    lemma_commands_none(log_before, device.controller_id);
    assert forall|earlier: int| 0 <= earlier < index implies (
    #[trigger] device.iso.pending_iso_data_path_removals[earlier]).connection() != handle by {
        assert(device.iso.pending_iso_data_path_removals[earlier].0 != handle);
    }
    lemma_first_of(device.iso.pending_iso_data_path_removals, handle, index);
    assert((directions & 0x01 != 0) == (directions % 2 == 1) && (directions & 0x02 != 0) == ((
    directions / 2) % 2 == 1)) by (bit_vector);
}

/// Transmit synchronization that was asked for is kept under its stream where it
/// was read, told either way, and no longer waited for. What was not asked for
/// is ignored.
pub proof fn lemma_tx_sync_read(
    device: DeviceView,
    after: DeviceView,
    packets: u8,
    status: u8,
    sync: IsoTxSyncInfo,
    log_before: Seq<HostAction>,
    log_after: Seq<HostAction>,
)
    requires
        heard(
            device,
            Event::CommandComplete {
                num_hci_command_packets: packets,
                command_opcode: 0x2061,
                return_parameters: ReturnParameters::LeReadIsoTxSync {
                    status,
                    connection_handle: sync.connection_handle,
                    packet_sequence_number: sync.packet_sequence_number,
                    tx_time_stamp: sync.tx_time_stamp,
                    time_offset: sync.time_offset,
                },
            },
            after,
            log_before,
            log_after,
        ),
    ensures
        log_after == log_before,
        ({
            let handle = sync.connection_handle;
            let asked = device.iso.pending_iso_tx_syncs.contains(handle);
            &&& !asked ==> after == device
            &&& asked ==> after == with_iso(
                device,
                IsoView {
                    pending_iso_tx_syncs: device.iso.pending_iso_tx_syncs.remove_value(handle),
                    iso_tx_syncs: if status == 0 {
                        device.iso.iso_tx_syncs.insert(handle, sync)
                    } else {
                        device.iso.iso_tx_syncs
                    },
                    iso_control_events: device.iso.iso_control_events.push(
                        IsoControlEventView::TxSync {
                            status,
                            connection_handle: handle,
                            sync: if status == 0 {
                                Some(sync)
                            } else {
                                None
                            },
                        },
                    ),
                    ..device.iso
                },
            )
        }),
{
    lemma_commands_none(log_before, device.controller_id);
}

/// A data path command or a synchronization reading that the controller refuses
/// outright is the one that has waited longest; its refusal is told, and no path
/// changes.
pub proof fn lemma_iso_command_refused(
    device: DeviceView,
    after: DeviceView,
    packets: u8,
    status: u8,
    opcode: u16,
    log_before: Seq<HostAction>,
    log_after: Seq<HostAction>,
)
    requires
        status != 0,
        opcode == 0x206E || opcode == 0x206F || opcode == 0x2061,
        heard(
            device,
            Event::CommandComplete {
                num_hci_command_packets: packets,
                command_opcode: opcode,
                return_parameters: ReturnParameters::Status { status },
            },
            after,
            log_before,
            log_after,
        ),
    ensures
        only_iso(device, after, log_before, log_after),
        after.iso.iso_data_paths == device.iso.iso_data_paths,
        after.iso.iso_tx_syncs == device.iso.iso_tx_syncs,
        ({
            let setups = device.iso.pending_iso_data_path_setups;
            let removals = device.iso.pending_iso_data_path_removals;
            let readings = device.iso.pending_iso_tx_syncs;
            let told = after.iso.iso_control_events;
            let before = device.iso.iso_control_events;
            &&& opcode == 0x206E && setups.len() > 0 ==> {
                &&& told == before.push(
                    IsoControlEventView::DataPathSetup {
                        status,
                        connection_handle: setups[0].0,
                        parameters: setups[0].1,
                    },
                )
                &&& after.iso.pending_iso_data_path_setups == setups.skip(1)
                &&& after.iso.pending_iso_data_path_removals == removals
                &&& after.iso.pending_iso_tx_syncs == readings
            }
            &&& opcode == 0x206F && removals.len() > 0 ==> {
                &&& told == before.push(
                    IsoControlEventView::DataPathRemoved {
                        status,
                        connection_handle: removals[0].0,
                        directions: removals[0].1,
                    },
                )
                &&& after.iso.pending_iso_data_path_setups == setups
                &&& after.iso.pending_iso_data_path_removals == removals.skip(1)
                &&& after.iso.pending_iso_tx_syncs == readings
            }
            &&& opcode == 0x2061 && readings.len() > 0 ==> {
                &&& told == before.push(
                    IsoControlEventView::TxSync {
                        status,
                        connection_handle: readings[0],
                        sync: None,
                    },
                )
                &&& after.iso.pending_iso_data_path_setups == setups
                &&& after.iso.pending_iso_data_path_removals == removals
                &&& after.iso.pending_iso_tx_syncs == readings.skip(1)
            }
        }),
{
    lemma_commands_none(log_before, device.controller_id);
}

/// A packet that carries a whole SDU puts that SDU, with its stream, number and
/// status, behind those that wait to be taken.
pub proof fn lemma_whole_sdu_received(
    device: DeviceView,
    after: DeviceView,
    packet: IsoDataPacket,
    log_before: Seq<HostAction>,
    log_after: Seq<HostAction>,
)
    requires
        device.setup.status.controller_ready,
        device.packet_handled(after, HciPacket::IsoData(packet), log_before, log_after),
        packet.pb_flag == 2,
        packet.packet_sequence_number is Some,
        packet.packet_status_flag is Some,
        packet.iso_sdu_length == Some(packet.iso_sdu_fragment@.len() as u16),
        packet.iso_sdu_fragment@.len() <= 0xFFFF,
    ensures
        only_iso(device, after, log_before, log_after),
        after.iso.iso_inbox == device.iso.iso_inbox.push(
            IsoSduView {
                connection_handle: packet.connection_handle,
                packet_sequence_number: packet.packet_sequence_number->0,
                packet_status_flag: packet.packet_status_flag->0,
                data: packet.iso_sdu_fragment@,
            },
        ),
        after.iso.iso_data_paths == device.iso.iso_data_paths,
        after.iso.iso_sequence_numbers == device.iso.iso_sequence_numbers,
{
}

/// Two packets that carry the halves of an SDU put it, joined in this order,
/// behind those that wait to be taken, whatever the stream's assembler held.
pub proof fn lemma_split_sdu_received(
    device: DeviceView,
    between: DeviceView,
    after: DeviceView,
    first: IsoDataPacket,
    second: IsoDataPacket,
    log_before: Seq<HostAction>,
    middle: Seq<HostAction>,
    log_after: Seq<HostAction>,
)
    requires
        device.setup.status.controller_ready,
        device.packet_handled(between, HciPacket::IsoData(first), log_before, middle),
        between.packet_handled(after, HciPacket::IsoData(second), middle, log_after),
        first.pb_flag == 0,
        second.pb_flag == 3,
        second.connection_handle == first.connection_handle,
        first.packet_sequence_number is Some,
        first.packet_status_flag is Some,
        first.iso_sdu_length is Some,
        first.iso_sdu_length->0 == first.iso_sdu_fragment@.len() + second.iso_sdu_fragment@.len(),
    ensures
        between.iso.iso_inbox == device.iso.iso_inbox,
        after.iso.iso_inbox == device.iso.iso_inbox.push(
            IsoSduView {
                connection_handle: first.connection_handle,
                packet_sequence_number: first.packet_sequence_number->0,
                packet_status_flag: first.packet_status_flag->0,
                data: first.iso_sdu_fragment@ + second.iso_sdu_fragment@,
            },
        ),
        log_after == log_before,
{
}

} // verus!
