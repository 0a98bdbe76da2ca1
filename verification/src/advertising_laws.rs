//! What advertising reports say.

use crate::advertising::{AccumulatorView, AdvertisementView};
use crate::hci::{AdvertisingReport, ExtendedAdvertisingReport};
use vstd::prelude::*;

verus! {

/// Whether a bit of a number is set.
pub open spec fn has_bit(number: u16, weight: u16) -> bool {
    (number / weight) % 2 == 1
}

/// A legacy report is connectable if and only if it is ADV_IND or
/// ADV_DIRECT_IND, directed if and only if it is ADV_DIRECT_IND, scannable if
/// and only if it is ADV_IND or ADV_SCAN_IND, and a scan response if and only if
/// it is SCAN_RSP. So ADV_SCAN_IND and ADV_NONCONN_IND are never connectable.
pub proof fn lemma_legacy_event_types(report: AdvertisingReport)
    ensures
        ({
            let seen = AdvertisementView::of_legacy(report);
            let flags = (
                seen.is_connectable,
                seen.is_directed,
                seen.is_scannable,
                seen.is_scan_response,
            );
            &&& report.event_type == 0 ==> flags == (true, false, true, false)
            &&& report.event_type == 1 ==> flags == (true, true, false, false)
            &&& report.event_type == 2 ==> flags == (false, false, true, false)
            &&& report.event_type == 3 ==> flags == (false, false, false, false)
            &&& report.event_type == 4 ==> flags == (false, false, false, true)
            &&& report.event_type > 4 ==> flags == (false, false, false, false)
        }),
{
}

/// A legacy report says who advertises, how strongly and what. It is complete
/// and neither anonymous nor truncated, and knows nothing of PHYs, sets or
/// transmit power.
pub proof fn lemma_legacy_report_content(report: AdvertisingReport)
    ensures
        ({
            let seen = AdvertisementView::of_legacy(report);
            &&& seen.address == report.address
            &&& seen.rssi == report.rssi
            &&& seen.data_bytes == report.data@
            &&& seen.data == report.data@
            &&& seen.is_legacy && seen.is_complete
            &&& !seen.is_anonymous && !seen.is_truncated
            &&& seen.primary_phy == 0 && seen.secondary_phy == 0 && seen.sid == 0
            &&& seen.tx_power == 127
        }),
{
}

/// The lowest five bits of an extended report's type say, in this order, whether
/// it is connectable, scannable, directed, a scan response and legacy. The next
/// two say whether its data is complete or truncated.
pub proof fn lemma_extended_event_bits(report: ExtendedAdvertisingReport)
    ensures
        ({
            let seen = AdvertisementView::of_extended(report);
            let bits = report.event_type;
            &&& seen.is_connectable <==> has_bit(bits, 1)
            &&& seen.is_scannable <==> has_bit(bits, 2)
            &&& seen.is_directed <==> has_bit(bits, 4)
            &&& seen.is_scan_response <==> has_bit(bits, 8)
            &&& seen.is_legacy <==> has_bit(bits, 16)
            &&& seen.is_complete <==> !has_bit(bits, 32) && !has_bit(bits, 64)
            &&& seen.is_truncated <==> !has_bit(bits, 32) && has_bit(bits, 64)
        }),
{
    let bits = report.event_type;
    assert((bits & 0x01 != 0) == ((bits / 1) % 2 == 1) && (bits & 0x02 != 0) == ((bits / 2) % 2
        == 1) && (bits & 0x04 != 0) == ((bits / 4) % 2 == 1) && (bits & 0x08 != 0) == ((bits / 8)
        % 2 == 1) && (bits & 0x10 != 0) == ((bits / 16) % 2 == 1) && (((bits >> 5) & 0x03) == 0)
        == ((bits / 32) % 2 != 1 && (bits / 64) % 2 != 1) && (((bits >> 5) & 0x03) == 2) == ((bits
        / 32) % 2 != 1 && (bits / 64) % 2 == 1)) by (bit_vector);
}

/// An extended report says who advertises, on which PHYs and in which set, how
/// strongly and what. It is anonymous if and only if its address is of no type.
pub proof fn lemma_extended_report_content(report: ExtendedAdvertisingReport)
    ensures
        ({
            let seen = AdvertisementView::of_extended(report);
            &&& seen.address == report.address
            &&& seen.rssi == report.rssi
            &&& seen.tx_power == report.tx_power
            &&& seen.primary_phy == report.primary_phy
            &&& seen.secondary_phy == report.secondary_phy
            &&& seen.sid == report.advertising_sid
            &&& seen.data_bytes == report.data@
            &&& seen.data == report.data@
            &&& seen.is_anonymous <==> report.address_type == 255
        }),
{
}

/// The type of the extended report that stands for a legacy advertisement.
pub open spec fn extended_type(event_type: u8) -> u16 {
    if event_type == 0 {
        0x13
    } else if event_type == 1 {
        0x15
    } else if event_type == 2 {
        0x12
    } else {
        0x10
    }
}

/// A legacy advertisement says the same in a legacy report as in the extended
/// report that stands for it.
pub proof fn lemma_legacy_and_extended_agree(
    report: AdvertisingReport,
    extended: ExtendedAdvertisingReport,
)
    requires
        report.event_type <= 3,
        extended.event_type == extended_type(report.event_type),
        extended.address == report.address,
        extended.address_type != 255,
        extended.rssi == report.rssi,
        extended.data@ == report.data@,
    ensures
        ({
            let seen = AdvertisementView::of_legacy(report);
            let twin = AdvertisementView::of_extended(extended);
            &&& seen.is_connectable == twin.is_connectable
            &&& seen.is_scannable == twin.is_scannable
            &&& seen.is_directed == twin.is_directed
            &&& seen.is_scan_response == twin.is_scan_response
            &&& seen.is_legacy == twin.is_legacy
            &&& seen.is_complete == twin.is_complete
            &&& seen.is_truncated == twin.is_truncated
            &&& seen.is_anonymous == twin.is_anonymous
            &&& seen.address == twin.address
            &&& seen.rssi == twin.rssi
            &&& seen.data == twin.data
            &&& seen.data_bytes == twin.data_bytes
        }),
{
    lemma_extended_event_bits(extended);
}

/// A scan response without an advertisement before it is not reported, and two
/// scan responses in a row are not joined to the same advertisement.
pub proof fn lemma_lone_scan_response(
    accumulator: AccumulatorView,
    response: AdvertisementView,
    again: AdvertisementView,
)
    requires
        response.is_scan_response,
        again.is_scan_response,
    ensures
        AccumulatorView::fresh(accumulator.passive).reported(response) is None,
        accumulator.after(response).reported(again) is None,
{
}

/// An advertisement that no scan response can follow is reported at once, and
/// one that went unanswered gives way to the next.
pub proof fn lemma_unanswered_advertisement(
    accumulator: AccumulatorView,
    advertisement: AdvertisementView,
    next: AdvertisementView,
)
    requires
        !advertisement.is_scan_response,
        !next.is_scan_response,
    ensures
        !advertisement.is_scannable ==> accumulator.reported(advertisement) == Some(
            advertisement,
        ),
        accumulator.after(advertisement).reported(next) == Some(next),
        accumulator.after(advertisement).passive == accumulator.passive,
{
}

} // verus!
