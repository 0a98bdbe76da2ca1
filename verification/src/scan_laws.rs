//! What advertising and synchronization events leave behind.

use crate::advertising::{
    AdvertisementView, PeriodicAdvertisementView, PeriodicAdvertisingSyncInfo,
    PeriodicAdvertisingSyncTransferInfo,
};
use crate::commands::addresses;
use crate::device::{DeviceView, FollowUp};
use crate::events::DeviceEventView;
use crate::hci::{AdvertisingReport, Event, ExtendedAdvertisingReport, LeMetaEvent};
use crate::le_laws::heard_le;
use crate::lookup::PeerLookupTransport;
use crate::pairing_laws::{heard, journaled};
use crate::state::GapView;
use crate::transport::{lemma_commands_none, HostAction};
use vstd::prelude::*;

verus! {

/// A device with other advertising and scanning state, and which is else the
/// same.
pub open spec fn with_gap(device: DeviceView, gap: GapView) -> DeviceView {
    DeviceView { gap, ..device }
}

/// Whether a device has reported an advertisement: to the application, in the
/// journal, and to the lookups of LE peers.
pub open spec fn reported(
    device: DeviceView,
    after: DeviceView,
    advertisement: AdvertisementView,
) -> bool {
    &&& after.gap.advertisements == device.gap.advertisements.push(advertisement)
    &&& after.journal.device_events.len() == device.journal.device_events.len() + 2
    &&& after.journal.device_events.last() == DeviceEventView::Advertisement(advertisement)
    &&& after.follow_up == Some(
        FollowUp::CompletePeerLookups {
            transport: PeerLookupTransport::Le,
            peer_address: advertisement.address,
        },
    )
}

/// A legacy report from an advertiser that was not seen before is kept and
/// announced as it is. What it says is reported at once by a passive scan, and
/// by an active one where no scan response can follow.
pub proof fn lemma_first_legacy_report(
    device: DeviceView,
    after: DeviceView,
    report: AdvertisingReport,
    log_before: Seq<HostAction>,
    log_after: Seq<HostAction>,
)
    requires
        heard_le(
            device,
            LeMetaEvent::AdvertisingReport { report },
            after,
            log_before,
            log_after,
        ),
        !addresses(device.gap.advertisement_accumulators).contains(report.address),
    ensures
        log_after == log_before,
        after.gap.advertising_reports == device.gap.advertising_reports.push(report@),
        after.journal.device_events.len() > device.journal.device_events.len(),
        after.journal.device_events[device.journal.device_events.len() as int]
            == DeviceEventView::AdvertisingReport(report@),
        ({
            let seen = after.gap.advertisements.last();
            let shown = report.event_type != 4 && (device.gap.scanning_is_passive
                || !(report.event_type == 0 || report.event_type == 2));
            &&& shown ==> {
                &&& reported(device, after, seen)
                &&& seen.address == report.address
                &&& seen.rssi == report.rssi
                &&& seen.data_bytes == report.data@
                &&& seen.data == report.data@
                &&& seen.is_connectable <==> report.event_type == 0 || report.event_type == 1
                &&& seen.is_directed <==> report.event_type == 1
                &&& seen.is_scannable <==> report.event_type == 0 || report.event_type == 2
                &&& !seen.is_scan_response
                &&& seen.is_legacy && seen.is_complete && !seen.is_truncated
            }
            &&& !shown ==> {
                &&& after.gap.advertisements == device.gap.advertisements
                &&& after.journal.device_events.len() == device.journal.device_events.len() + 1
                &&& after.follow_up == device.follow_up
            }
        }),
        after.gap.extended_advertising_reports == device.gap.extended_advertising_reports,
        after.gap.advertisement_accumulators.len() == device.gap.advertisement_accumulators.len()
            + 1,
        after.le == device.le,
        after.classic == device.classic,
{
    lemma_commands_none(log_before, device.controller_id);
    addresses(device.gap.advertisement_accumulators).index_of_first_ensures(report.address);
}

/// A scannable legacy advertisement and the scan response that follows it are
/// reported as one by an active scan: with the response's address and signal,
/// the advertisement's connectability, and both their data in this order.
pub proof fn lemma_legacy_response_joins(
    device: DeviceView,
    between: DeviceView,
    after: DeviceView,
    report: AdvertisingReport,
    response: AdvertisingReport,
    log_before: Seq<HostAction>,
    middle: Seq<HostAction>,
    log_after: Seq<HostAction>,
)
    requires
        heard_le(
            device,
            LeMetaEvent::AdvertisingReport { report },
            between,
            log_before,
            middle,
        ),
        heard_le(
            between,
            LeMetaEvent::AdvertisingReport { report: response },
            after,
            middle,
            log_after,
        ),
        !addresses(device.gap.advertisement_accumulators).contains(report.address),
        !device.gap.scanning_is_passive,
        report.event_type == 0 || report.event_type == 2,
        response.event_type == 4,
        response.address == report.address,
    ensures
        between.gap.advertisements == device.gap.advertisements,
        ({
            let seen = after.gap.advertisements.last();
            &&& reported(between, after, seen)
            &&& seen.address == report.address
            &&& seen.rssi == response.rssi
            &&& seen.data == report.data@ + response.data@
            &&& seen.data_bytes == response.data@
            &&& seen.is_scannable
            &&& seen.is_scan_response
            &&& seen.is_connectable <==> report.event_type == 0
        }),
{
    let first = device.gap.advertisement_accumulators;
    let filed = addresses(first);
    filed.index_of_first_ensures(report.address);
    let second = between.gap.advertisement_accumulators;
    let refiled = addresses(second);
    refiled.index_of_first_ensures(report.address);
    assert(second.len() == first.len() + 1);
    assert(refiled[first.len() as int] == report.address);
    assert(refiled.contains(report.address));
    let place = refiled.index_of_first(report.address)->0;
    if place < first.len() {
        assert(filed[place] == refiled[place]);
        assert(filed.contains(report.address));
    }
    assert(place == first.len());
}

/// An extended report from an advertiser that was not seen before is kept and
/// announced as it is, and reported by a passive scan.
pub proof fn lemma_first_extended_report(
    device: DeviceView,
    after: DeviceView,
    report: ExtendedAdvertisingReport,
    log_before: Seq<HostAction>,
    log_after: Seq<HostAction>,
)
    requires
        heard_le(
            device,
            LeMetaEvent::ExtendedAdvertisingReport { report },
            after,
            log_before,
            log_after,
        ),
        !addresses(device.gap.advertisement_accumulators).contains(report.address),
        device.gap.scanning_is_passive,
    ensures
        log_after == log_before,
        after.gap.extended_advertising_reports == device.gap.extended_advertising_reports.push(
            report@,
        ),
        after.journal.device_events.len() > device.journal.device_events.len(),
        after.journal.device_events[device.journal.device_events.len() as int]
            == DeviceEventView::ExtendedAdvertisingReport(report@),
        ({
            let seen = after.gap.advertisements.last();
            let response = (report.event_type / 8) % 2 == 1;
            &&& !response ==> {
                &&& reported(device, after, seen)
                &&& seen.address == report.address
                &&& seen.rssi == report.rssi
                &&& seen.tx_power == report.tx_power
                &&& seen.sid == report.advertising_sid
                &&& seen.primary_phy == report.primary_phy
                &&& seen.secondary_phy == report.secondary_phy
                &&& seen.data_bytes == report.data@
                &&& seen.data == report.data@
                &&& seen.is_connectable <==> report.event_type % 2 == 1
                &&& seen.is_scannable <==> (report.event_type / 2) % 2 == 1
                &&& seen.is_directed <==> (report.event_type / 4) % 2 == 1
            }
            &&& response ==> after.gap.advertisements == device.gap.advertisements
        }),
        after.gap.advertising_reports == device.gap.advertising_reports,
{
    lemma_commands_none(log_before, device.controller_id);
    addresses(device.gap.advertisement_accumulators).index_of_first_ensures(report.address);
    crate::advertising_laws::lemma_extended_event_bits(report);
}

/// A periodic advertising train that was found is kept under its handle; where
/// it was not, the error is.
pub proof fn lemma_periodic_sync_established(
    device: DeviceView,
    after: DeviceView,
    status: u8,
    sync: PeriodicAdvertisingSyncInfo,
    log_before: Seq<HostAction>,
    log_after: Seq<HostAction>,
)
    requires
        heard_le(
            device,
            LeMetaEvent::PeriodicAdvertisingSyncEstablished { status, sync },
            after,
            log_before,
            log_after,
        ),
    ensures
        log_after == log_before,
        status == 0 ==> after == with_gap(
            device,
            GapView {
                periodic_syncs: device.gap.periodic_syncs.insert(sync.sync_handle, sync),
                ..device.gap
            },
        ),
        status != 0 ==> after == with_gap(
            device,
            GapView {
                periodic_sync_errors: device.gap.periodic_sync_errors.push(status),
                ..device.gap
            },
        ),
{
    lemma_commands_none(log_before, device.controller_id);
}

/// A train that a peer handed over is kept under its handle too, with the
/// connection that it came over and the service data that came with it.
pub proof fn lemma_periodic_sync_received(
    device: DeviceView,
    after: DeviceView,
    status: u8,
    handle: u16,
    service_data: u16,
    sync: PeriodicAdvertisingSyncInfo,
    log_before: Seq<HostAction>,
    log_after: Seq<HostAction>,
)
    requires
        heard_le(
            device,
            LeMetaEvent::PeriodicAdvertisingSyncTransferReceived {
                status,
                connection_handle: handle,
                service_data,
                sync,
            },
            after,
            log_before,
            log_after,
        ),
    ensures
        log_after == log_before,
        status == 0 ==> after == with_gap(
            device,
            GapView {
                periodic_syncs: device.gap.periodic_syncs.insert(sync.sync_handle, sync),
                periodic_sync_transfers: device.gap.periodic_sync_transfers.push(
                    PeriodicAdvertisingSyncTransferInfo {
                        connection_handle: handle,
                        service_data,
                        sync,
                    },
                ),
                ..device.gap
            },
        ),
        status != 0 ==> after == with_gap(
            device,
            GapView {
                periodic_sync_errors: device.gap.periodic_sync_errors.push(status),
                ..device.gap
            },
        ),
{
    lemma_commands_none(log_before, device.controller_id);
}

/// The data of a train that was collected before a report.
pub open spec fn collected(device: DeviceView, sync_handle: u16) -> Seq<u8> {
    if device.gap.periodic_report_accumulators.contains_key(sync_handle) {
        device.gap.periodic_report_accumulators[sync_handle]
    } else {
        Seq::empty()
    }
}

/// A report of a train adds its data behind what has come so far. Where more is
/// to come it is only collected; else the advertisement is whole, or truncated,
/// and the collection starts anew. Reports of unknown trains are ignored.
pub proof fn lemma_periodic_report(
    device: DeviceView,
    after: DeviceView,
    sync_handle: u16,
    tx_power: i8,
    rssi: i8,
    data_status: u8,
    data: Vec<u8>,
    log_before: Seq<HostAction>,
    log_after: Seq<HostAction>,
)
    requires
        heard_le(
            device,
            LeMetaEvent::PeriodicAdvertisingReport {
                sync_handle,
                tx_power,
                rssi,
                data_status,
                data,
            },
            after,
            log_before,
            log_after,
        ),
    ensures
        log_after == log_before,
        ({
            let known = device.gap.periodic_syncs.contains_key(sync_handle);
            let sync = device.gap.periodic_syncs[sync_handle];
            let whole = collected(device, sync_handle) + data@;
            &&& !known ==> after == device
            &&& known && data_status == 1 ==> {
                &&& collected(after, sync_handle) == whole
                &&& after == with_gap(
                    device,
                    GapView {
                        periodic_report_accumulators:
                            device.gap.periodic_report_accumulators.insert(sync_handle, whole),
                        ..device.gap
                    },
                )
            }
            &&& known && data_status != 1 ==> {
                &&& collected(after, sync_handle) == Seq::<u8>::empty()
                &&& after == with_gap(
                    device,
                    GapView {
                        periodic_report_accumulators:
                            device.gap.periodic_report_accumulators.remove(sync_handle),
                        periodic_advertisements: device.gap.periodic_advertisements.push(
                            PeriodicAdvertisementView {
                                sync_handle,
                                advertiser_address: sync.advertiser_address,
                                advertising_sid: sync.advertising_sid,
                                tx_power,
                                rssi,
                                truncated: data_status == 2,
                                data: whole,
                            },
                        ),
                        ..device.gap
                    },
                )
            }
        }),
{
    lemma_commands_none(log_before, device.controller_id);
}

/// A train that was lost is noted, and nothing of it is kept. Other trains stay.
pub proof fn lemma_periodic_sync_lost(
    device: DeviceView,
    after: DeviceView,
    sync_handle: u16,
    log_before: Seq<HostAction>,
    log_after: Seq<HostAction>,
)
    requires
        heard_le(
            device,
            LeMetaEvent::PeriodicAdvertisingSyncLost { sync_handle },
            after,
            log_before,
            log_after,
        ),
    ensures
        log_after == log_before,
        after == with_gap(
            device,
            GapView {
                periodic_syncs: device.gap.periodic_syncs.remove(sync_handle),
                periodic_report_accumulators: device.gap.periodic_report_accumulators.remove(
                    sync_handle,
                ),
                lost_periodic_syncs: device.gap.lost_periodic_syncs.push(sync_handle),
                ..device.gap
            },
        ),
{
    lemma_commands_none(log_before, device.controller_id);
}

/// An advertising set that ended by itself is no longer among those that
/// advertise. The others are.
pub proof fn lemma_advertising_set_terminated(
    device: DeviceView,
    after: DeviceView,
    handle: u8,
    log_before: Seq<HostAction>,
    log_after: Seq<HostAction>,
)
    requires
        heard_le(
            device,
            LeMetaEvent::AdvertisingSetTerminated { advertising_handle: handle },
            after,
            log_before,
            log_after,
        ),
    ensures
        log_after == log_before,
        forall|other: u8| #[trigger]
            after.gap.extended_advertising_handles.contains(other) <==> (other != handle
                && device.gap.extended_advertising_handles.contains(other)),
        after == with_gap(
            device,
            GapView {
                extended_advertising_handles: after.gap.extended_advertising_handles,
                ..device.gap
            },
        ),
{
    lemma_commands_none(log_before, device.controller_id);
}

/// A vendor event is kept and announced byte for byte.
pub proof fn lemma_vendor_event(
    device: DeviceView,
    after: DeviceView,
    data: Vec<u8>,
    log_before: Seq<HostAction>,
    log_after: Seq<HostAction>,
)
    requires
        heard(device, Event::Vendor { data }, after, log_before, log_after),
    ensures
        log_after == log_before,
        after == journaled(
            with_gap(
                device,
                GapView { vendor_events: device.gap.vendor_events.push(data@), ..device.gap },
            ),
            DeviceEventView::VendorEvent(data@),
        ),
{
    lemma_commands_none(log_before, device.controller_id);
}

} // verus!
