//! What finding a peer, discovery and requests for names do.

use crate::address::Address;
use crate::advertise_laws::lemma_scan_started;
use crate::classic_link::discovery_commands;
use crate::classic_ops::name_command;
use crate::device::DeviceView;
use crate::events::DeviceEventView;
use crate::hci::Command;
use crate::ids::first_free;
use crate::lookup::{PeerLookupRequestView, PeerLookupTransport};
use crate::ordered::{lemma_sorted_lists_u64, sorted_u64};
use crate::retain::lemma_filter_members;
use crate::search::{answered, Sighting};
use crate::setup::le_feature_bit;
use crate::state::{ClassicView, GapView, JournalView, LookupView};
use crate::transport::HostAction;
use vstd::prelude::*;

verus! {

/// A lookup by name ends with a device of exactly that name, on the radio that it
/// listens on. A lookup by identity ends with an LE device that has the address,
/// or that the address stands behind.
pub proof fn lemma_what_ends_a_lookup(
    request: PeerLookupRequestView,
    heard: Sighting,
    name: Seq<u8>,
    transport: PeerLookupTransport,
    identity: Address,
)
    ensures
        request == (PeerLookupRequestView::Name { name, transport }) ==> {
            &&& request.answered_by(heard) <==> heard.transport == transport
                && heard.local_name is Some && heard.local_name->0 == name
            &&& request.transport() == transport
        },
        request == (PeerLookupRequestView::Identity { identity_address: identity }) ==> {
            &&& request.answered_by(heard) <==> heard.transport is Le && (heard.peer_address
                == identity || (heard.identity_address is Some && heard.identity_address->0
                == identity))
            &&& request.transport() is Le
        },
{
}

/// A sighting ends the lookups that wait for it, and no others. Each leaves one
/// result, with its own number and the address that was heard, and one
/// announcement of it.
pub proof fn lemma_sighting_ends_lookups(device: DeviceView, heard: Sighting, lookup_id: u64)
    requires
        device.lookups.pending_peer_lookups.dom().finite(),
    ensures
        ({
            let after = device.sighted(heard);
            let pending = device.lookups.pending_peer_lookups;
            let ended = pending.contains_key(lookup_id) && pending[lookup_id].answered_by(heard);
            let old_results = device.lookups.peer_lookup_results.len();
            let results = after.lookups.peer_lookup_results;
            let old_events = device.journal.device_events.len();
            let events = after.journal.device_events;
            &&& after.lookups.pending_peer_lookups.contains_key(lookup_id)
                <==> pending.contains_key(lookup_id) && !ended
            &&& after.lookups.pending_peer_lookups.contains_key(lookup_id)
                ==> after.lookups.pending_peer_lookups[lookup_id] == pending[lookup_id]
            &&& results.len() - old_results == events.len() - old_events
            &&& results.len() >= old_results
            &&& results.take(old_results as int) == device.lookups.peer_lookup_results
            &&& events.take(old_events as int) == device.journal.device_events
            &&& forall|place: int|
                old_results <= place < results.len() ==> {
                    let result = #[trigger] results[place];
                    &&& result.peer_address == heard.peer_address
                    &&& pending.contains_key(result.lookup_id)
                    &&& pending[result.lookup_id].answered_by(heard)
                    &&& result.transport == heard.transport
                    &&& events[old_events + place - old_results] == DeviceEventView::PeerFound(
                        result,
                    )
                }
            &&& ended ==> exists|place: int|
                old_results <= place < results.len() && (#[trigger] results[place]).lookup_id
                    == lookup_id
            &&& after == (DeviceView {
                lookups: LookupView {
                    pending_peer_lookups: after.lookups.pending_peer_lookups,
                    peer_lookup_results: after.lookups.peer_lookup_results,
                    ..device.lookups
                },
                journal: JournalView {
                    device_events: after.journal.device_events,
                    ..device.journal
                },
                ..device
            })
        }),
{
    let pending = device.lookups.pending_peer_lookups;
    let all = sorted_u64(pending.dom());
    let test = answered(pending, heard);
    let ids = device.lookups.answered_ids(heard);
    let after = device.sighted(heard);
    lemma_sorted_lists_u64(pending.dom());
    lemma_filter_members(all, test, lookup_id);
    assert(ids.to_set().contains(lookup_id) <==> ids.contains(lookup_id));
    let old_results = device.lookups.peer_lookup_results.len();
    let results = after.lookups.peer_lookup_results;
    assert forall|place: int| old_results <= place < results.len() implies {
        let result = #[trigger] results[place];
        &&& pending.contains_key(result.lookup_id)
        &&& pending[result.lookup_id].answered_by(heard)
    } by {
        let id = ids[place - old_results];
        assert(ids.contains(id));
        lemma_filter_members(all, test, id);
    }
    if ids.contains(lookup_id) {
        let place = choose|place: int| 0 <= place < ids.len() && ids[place] == lookup_id;
        assert(results[old_results + place].lookup_id == lookup_id);
    }
}

/// Results come in the order of the lookups' numbers.
pub proof fn lemma_results_in_order(
    device: DeviceView,
    heard: Sighting,
    first: int,
    second: int,
)
    requires
        device.lookups.pending_peer_lookups.dom().finite(),
        device.lookups.peer_lookup_results.len() <= first < second,
        second < device.sighted(heard).lookups.peer_lookup_results.len(),
    ensures
        device.sighted(heard).lookups.peer_lookup_results[first].lookup_id < device.sighted(
            heard,
        ).lookups.peer_lookup_results[second].lookup_id,
{
    let pending = device.lookups.pending_peer_lookups;
    let all = sorted_u64(pending.dom());
    let test = answered(pending, heard);
    let old_results = device.lookups.peer_lookup_results.len();
    lemma_sorted_lists_u64(pending.dom());
    lemma_filter_increases(all, test, first - old_results, second - old_results);
}

/// A filter keeps numbers that increase in their order.
proof fn lemma_filter_increases(
    keys: Seq<u64>,
    test: spec_fn(u64) -> bool,
    first: int,
    second: int,
)
    requires
        forall|left: int, right: int| 0 <= left < right < keys.len() ==> keys[left] < keys[right],
        0 <= first < second < keys.filter(test).len(),
    ensures
        keys.filter(test)[first] < keys.filter(test)[second],
    decreases keys.len(),
{
    reveal(Seq::filter);
    if keys.len() > 0 {
        let rest = keys.drop_last();
        let kept = rest.filter(test);
        if second < kept.len() {
            lemma_filter_increases(rest, test, first, second);
        } else {
            assert(kept.contains(kept[first]));
            lemma_filter_members(rest, test, kept[first]);
            let place = choose|place: int| 0 <= place < rest.len() && rest[place] == kept[first];
            assert(keys[place] < keys[keys.len() - 1]);
        }
    }
}

/// A new lookup gets a number that none of the pending ones has. It is pending,
/// beside all the others, and the next one is counted from it.
pub proof fn lemma_lookup_begins(
    device: DeviceView,
    lookup_id: u64,
    request: PeerLookupRequestView,
    other: u64,
)
    requires
        first_free(
            device.lookups.pending_peer_lookups.dom(),
            device.lookups.next_peer_lookup_id,
            lookup_id,
        ),
    ensures
        ({
            let after = device.with_lookup(lookup_id, request);
            &&& !device.lookups.pending_peer_lookups.contains_key(lookup_id)
            &&& after.lookups.pending_peer_lookups.contains_key(lookup_id)
            &&& after.lookups.pending_peer_lookups[lookup_id] == request
            &&& other != lookup_id ==> {
                &&& after.lookups.pending_peer_lookups.contains_key(other)
                    <==> device.lookups.pending_peer_lookups.contains_key(other)
                &&& after.lookups.pending_peer_lookups[other]
                    == device.lookups.pending_peer_lookups[other]
            }
            &&& lookup_id < u64::MAX ==> after.lookups.next_peer_lookup_id == lookup_id + 1
            &&& lookup_id == u64::MAX ==> after.lookups.next_peer_lookup_id == 1
            &&& after.lookups.waits_on(request.transport())
            &&& after == (DeviceView { lookups: after.lookups, ..device })
            &&& after.lookups == (LookupView {
                pending_peer_lookups: after.lookups.pending_peer_lookups,
                next_peer_lookup_id: after.lookups.next_peer_lookup_id,
                ..device.lookups
            })
        }),
{
    let after = device.with_lookup(lookup_id, request);
    assert(after.lookups.pending_peer_lookups.contains_key(lookup_id));
}

/// A lookup starts to listen where the application does not. On LE it scans
/// actively, in the extended way where the controller can, and remembers that way.
/// On BR/EDR it begins an inquiry that is begun again whenever it ends.
pub proof fn lemma_search_begins(device: DeviceView, list: Seq<Command>)
    ensures
        ({
            let le = device.searching(PeerLookupTransport::Le);
            let classic = device.searching(PeerLookupTransport::Classic);
            let extended = le_feature_bit(device.setup.le_features, 12);
            &&& device.gap.scanning ==> le == device && (device.search_sends(
                PeerLookupTransport::Le,
                list,
            ) <==> list.len() == 0)
            &&& !device.gap.scanning ==> {
                &&& le.gap.scanning && !le.gap.scanning_is_passive
                &&& le.gap.advertisement_accumulators.len() == 0
                &&& le.lookups.peer_lookup_started_scanning == Some(extended)
                &&& le == (DeviceView {
                    lookups: LookupView {
                        peer_lookup_started_scanning: le.lookups.peer_lookup_started_scanning,
                        ..device.lookups
                    },
                    gap: GapView {
                        advertisement_accumulators: le.gap.advertisement_accumulators,
                        scanning: le.gap.scanning,
                        scanning_is_passive: le.gap.scanning_is_passive,
                        ..device.gap
                    },
                    ..device
                })
                &&& device.search_sends(PeerLookupTransport::Le, list) ==> list.len() == 2 && (
                extended ==> list[0] is LeSetExtendedScanParameters
                    && list[1] is LeSetExtendedScanEnable) && (!extended
                    ==> list[0] is LeSetScanParameters && list[1] is LeSetScanEnable)
            }
            &&& device.classic.classic_discovering ==> classic == device && (device.search_sends(
                PeerLookupTransport::Classic,
                list,
            ) <==> list.len() == 0)
            &&& !device.classic.classic_discovering ==> {
                &&& classic == (DeviceView {
                    lookups: LookupView { peer_lookup_started_discovery: true, ..device.lookups },
                    classic: ClassicView {
                        classic_auto_restart_inquiry: true,
                        classic_discovering: true,
                        ..device.classic
                    },
                    ..device
                })
                &&& device.search_sends(PeerLookupTransport::Classic, list) <==> list
                    =~= discovery_commands()
            }
        }),
{
    let starts_le = device.search_sends(PeerLookupTransport::Le, list);
    if list.len() == 0 {
        assert(list =~= Seq::<Command>::empty());
    }
    if starts_le && !device.gap.scanning {
        lemma_scan_started(list, device.scans_extended(), true, true);
    }
    assert(device.searching(PeerLookupTransport::Le).gap.advertisement_accumulators.len() == 0
        || device.gap.scanning);
}

/// Discovery asks for extended results, then begins a general inquiry of ten
/// seconds without a limit on its responses.
pub proof fn lemma_discovery_commands()
    ensures
        discovery_commands().len() == 2,
        discovery_commands()[0] == (Command::WriteInquiryMode { inquiry_mode: 2 }),
        discovery_commands()[1] == (Command::Inquiry {
            lap: 0x9E8B33,
            inquiry_length: 8,
            num_responses: 0,
        }),
{
}

/// Discovery by the application is its own, whatever lookups began.
pub proof fn lemma_discovery_state(device: DeviceView, auto_restart: bool)
    ensures
        device.discovery_started(auto_restart) == (DeviceView {
            lookups: LookupView { peer_lookup_started_discovery: false, ..device.lookups },
            classic: ClassicView {
                classic_discovering: true,
                classic_auto_restart_inquiry: auto_restart,
                ..device.classic
            },
            ..device
        }),
        device.discovery_stopped() == (DeviceView {
            lookups: LookupView { peer_lookup_started_discovery: false, ..device.lookups },
            classic: ClassicView {
                classic_discovering: false,
                classic_auto_restart_inquiry: true,
                ..device.classic
            },
            ..device
        }),
{
}

/// Discovery that is stopped is cancelled exactly where it was going on.
pub proof fn lemma_discovery_stopped(
    device: DeviceView,
    after: DeviceView,
    log_before: Seq<HostAction>,
    log_after: Seq<HostAction>,
)
    requires
        device.stop_discovery_shows(after, log_before, log_after),
    ensures
        !after.classic.classic_discovering,
        after.classic.classic_auto_restart_inquiry,
        device.classic.classic_discovering ==> log_after =~= log_before.push(
            HostAction::Command {
                controller_id: device.controller_id,
                command: Command::InquiryCancel,
            },
        ),
        !device.classic.classic_discovering ==> log_after =~= log_before,
{
}

/// What lookups began ends when no lookup listens on that radio any more, and
/// what the application began goes on.
pub proof fn lemma_search_ends(device: DeviceView)
    ensures
        ({
            let le = device.lookups.waits_on(PeerLookupTransport::Le);
            let classic = device.lookups.waits_on(PeerLookupTransport::Classic);
            let scanned = device.lookups.peer_lookup_started_scanning is Some;
            let discovered = device.lookups.peer_lookup_started_discovery;
            let extended = device.lookups.peer_lookup_started_scanning->0;
            let after = device.search_finished();
            let list = device.search_finish_sends();
            &&& le || !scanned ==> {
                &&& after.gap == device.gap
                &&& after.lookups.peer_lookup_started_scanning
                    == device.lookups.peer_lookup_started_scanning
            }
            &&& !le && scanned ==> {
                &&& after.gap == (GapView { scanning: false, ..device.gap })
                &&& after.lookups.peer_lookup_started_scanning is None
                &&& list.len() > 0
                &&& extended ==> list[0] == (Command::LeSetExtendedScanEnable {
                    enable: 0,
                    filter_duplicates: 0,
                    duration: 0,
                    period: 0,
                })
                &&& !extended ==> list[0] == (Command::LeSetScanEnable {
                    le_scan_enable: 0,
                    filter_duplicates: 0,
                })
            }
            &&& classic || !discovered ==> {
                &&& after.classic == device.classic
                &&& after.lookups.peer_lookup_started_discovery
                    == device.lookups.peer_lookup_started_discovery
            }
            &&& !classic && discovered ==> {
                &&& after.classic == (ClassicView {
                    classic_discovering: false,
                    classic_auto_restart_inquiry: true,
                    ..device.classic
                })
                &&& !after.lookups.peer_lookup_started_discovery
                &&& device.classic.classic_discovering ==> list.len() > 0 && list.last()
                    == Command::InquiryCancel
            }
            &&& list.len() == (if !le && scanned {
                1int
            } else {
                0
            }) + (if !classic && discovered && device.classic.classic_discovering {
                1int
            } else {
                0
            })
            &&& after.lookups.pending_peer_lookups == device.lookups.pending_peer_lookups
            &&& after.lookups.peer_lookup_results == device.lookups.peer_lookup_results
            &&& after.journal == device.journal
            &&& after == (DeviceView {
                lookups: after.lookups,
                gap: after.gap,
                classic: after.classic,
                ..device
            })
        }),
{
}

/// A radio is listened on by a lookup that is pending and named for that radio.
pub proof fn lemma_listens(device: DeviceView, transport: PeerLookupTransport, lookup_id: u64)
    ensures
        device.lookups.pending_peer_lookups.contains_key(lookup_id)
            && device.lookups.pending_peer_lookups[lookup_id].transport() == transport
            ==> device.lookups.waits_on(transport),
        device.lookups.pending_peer_lookups.dom() =~= Set::empty() ==> !device.lookups.waits_on(
            transport,
        ),
{
}

/// A lookup that is cancelled is no longer pending; the others are.
pub proof fn lemma_lookup_cancelled(device: DeviceView, lookup_id: u64, other: u64)
    ensures
        !device.without_lookup(lookup_id).lookups.pending_peer_lookups.contains_key(lookup_id),
        other != lookup_id && device.lookups.pending_peer_lookups.contains_key(other) ==> {
            &&& device.without_lookup(lookup_id).lookups.pending_peer_lookups.contains_key(other)
            &&& device.without_lookup(lookup_id).lookups.pending_peer_lookups[other]
                == device.lookups.pending_peer_lookups[other]
        },
        device.without_lookup(lookup_id) == (DeviceView {
            lookups: LookupView {
                pending_peer_lookups: device.without_lookup(
                    lookup_id,
                ).lookups.pending_peer_lookups,
                ..device.lookups
            },
            ..device
        }),
{
}

/// A peer is asked for its name at its own address.
pub proof fn lemma_name_command(peer: Address)
    ensures
        name_command(peer) == (Command::RemoteNameRequest {
            bd_addr: peer,
            page_scan_repetition_mode: 2,
            reserved: 0,
            clock_offset: 0,
        }),
{
}

/// A device is made discoverable by its response to inquiries, and by scanning
/// for inquiries and pages as it is configured.
pub proof fn lemma_discoverable_commands(device: DeviceView, response: [u8; 240])
    ensures
        ({
            let list = device.discoverable_commands(response);
            &&& list.len() == 2
            &&& list[0] == (Command::WriteExtendedInquiryResponse {
                fec_required: 0,
                extended_inquiry_response: response,
            })
            &&& list[1] is WriteScanEnable
            &&& list[1]->WriteScanEnable_scan_enable == (if device.config.discoverable {
                1int
            } else {
                0
            }) + (if device.config.connectable {
                2int
            } else {
                0
            })
        }),
{
}

/// Discoverability, connectability and the response to inquiries are set one by
/// one.
pub proof fn lemma_discoverable_state(
    device: DeviceView,
    discoverable: bool,
    connectable: bool,
    response: Option<[u8; 240]>,
)
    ensures
        device.with_discoverable(discoverable).config.discoverable == discoverable,
        device.with_discoverable(discoverable).config.connectable == device.config.connectable,
        device.with_connectable(connectable).config.connectable == connectable,
        device.with_connectable(connectable).config.discoverable == device.config.discoverable,
        device.with_inquiry_response(response).classic.classic_inquiry_response == response,
        device.with_inquiry_response(response) == (DeviceView {
            classic: ClassicView { classic_inquiry_response: response, ..device.classic },
            ..device
        }),
        device.response_too_long() <==> device.config.classic_enabled
            && device.classic.classic_inquiry_response is None
            && device.config.name_bytes().len() > 238,
{
}

} // verus!
