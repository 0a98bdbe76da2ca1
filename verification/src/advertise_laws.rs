//! What advertising and scanning are started and stopped with.

use crate::advertise::{
    enables_set, is_advertising_interval, legacy_parameters, scan_commands, starts_advertising,
    starts_configured_advertising, starts_extended_scanning, starts_scanning, stop_scan_command,
};
use crate::advertising::{ExtendedAdvertisingConfig, PeriodicAdvertisingConfig};
use crate::chunks::{chunks, joined, load_all, loads, DataKind};
use crate::device::DeviceView;
use crate::hci::Command;
use crate::state::{GapView, LookupView};
use vstd::prelude::*;

verus! {

/// Whether a command sets the parameters of an undirected, connectable and
/// scannable legacy advertisement on all three channels, from the random
/// address.
pub open spec fn sets_legacy(command: Command, shortest: int, longest: int) -> bool {
    command matches Command::LeSetAdvertisingParameters {
        advertising_interval_min,
        advertising_interval_max,
        advertising_type,
        own_address_type,
        peer_address_type,
        peer_address,
        advertising_channel_map,
        advertising_filter_policy,
    } && {
        &&& advertising_interval_min == shortest
        &&& advertising_interval_max == longest
        &&& advertising_type == 0
        &&& own_address_type == 1
        &&& peer_address_type == 0
        &&& peer_address.address_type == 0
        &&& peer_address.address_bytes@ =~= Seq::new(6, |index: int| 0u8)
        &&& advertising_channel_map == 7
        &&& advertising_filter_policy == 0
    }
}

/// Legacy advertising is set up, given its data and enabled, in this order.
pub proof fn lemma_legacy_advertising_started(list: Seq<Command>, data: Seq<u8>)
    requires
        starts_advertising(list, data),
    ensures
        list.len() == 3,
        sets_legacy(list[0], 0x800, 0x800),
        list[1] is LeSetAdvertisingData,
        list[1]->LeSetAdvertisingData_advertising_data@ == data,
        list[2] == (Command::LeSetAdvertisingEnable { advertising_enable: 1 }),
{
}

/// Configured advertising is given its data and its scan response, set up with
/// its intervals, and enabled last.
pub proof fn lemma_configured_advertising_started(
    list: Seq<Command>,
    shortest: u16,
    longest: u16,
    data: Seq<u8>,
    response: Seq<u8>,
)
    requires
        starts_configured_advertising(list, shortest, longest, data, response),
    ensures
        list.len() == 4,
        list[0] is LeSetAdvertisingData,
        list[0]->LeSetAdvertisingData_advertising_data@ == data,
        list[1] is LeSetScanResponseData,
        list[1]->LeSetScanResponseData_scan_response_data@ == response,
        sets_legacy(list[2], shortest as int, longest as int),
        list[3] == (Command::LeSetAdvertisingEnable { advertising_enable: 1 }),
{
}

/// An advertising interval is from 20 milliseconds to 10.24 seconds.
pub proof fn lemma_advertising_interval(units: i64)
    ensures
        is_advertising_interval(units) <==> 32 <= units <= 16384,
{
}

/// One set is enabled or disabled by a command that names it, with how long and
/// how often it may advertise.
pub proof fn lemma_set_enabled(
    command: Command,
    enabled: u8,
    handle: u8,
    duration: u16,
    max_events: u8,
)
    requires
        enables_set(command, enabled, handle, duration, max_events),
    ensures
        command matches Command::LeSetExtendedAdvertisingEnable {
            enable,
            advertising_handles,
            durations,
            max_extended_advertising_events,
        } && {
            &&& enable == enabled
            &&& advertising_handles@.len() == 1 && advertising_handles@[0] == handle
            &&& durations@.len() == 1 && durations@[0] == duration
            &&& max_extended_advertising_events@.len() == 1
            &&& max_extended_advertising_events@[0] == max_events
        },
{
}

/// The parameters of a set are handed over as configured, each in its own place.
/// A negative transmit power stands as its two's complement.
pub proof fn lemma_set_parameters(config: ExtendedAdvertisingConfig)
    ensures
        config.parameters() matches Command::LeSetExtendedAdvertisingParameters {
            advertising_handle,
            advertising_event_properties,
            primary_advertising_interval_min,
            primary_advertising_interval_max,
            primary_advertising_channel_map,
            own_address_type,
            peer_address_type,
            peer_address,
            advertising_filter_policy,
            advertising_tx_power,
            primary_advertising_phy,
            secondary_advertising_max_skip,
            secondary_advertising_phy,
            advertising_sid,
            scan_request_notification_enable,
        } && {
            &&& advertising_handle == config.handle
            &&& advertising_event_properties == config.event_properties
            &&& primary_advertising_interval_min == config.interval_min
            &&& primary_advertising_interval_max == config.interval_max
            &&& primary_advertising_channel_map == config.channel_map
            &&& own_address_type == config.own_address_type
            &&& peer_address_type == config.peer_address_type
            &&& peer_address == config.peer_address
            &&& advertising_filter_policy == config.filter_policy
            &&& config.tx_power >= 0 ==> advertising_tx_power == config.tx_power
            &&& config.tx_power < 0 ==> advertising_tx_power == 256 + config.tx_power
            &&& primary_advertising_phy == config.primary_phy
            &&& secondary_advertising_max_skip == config.secondary_max_skip
            &&& secondary_advertising_phy == config.secondary_phy
            &&& advertising_sid == config.sid
            &&& scan_request_notification_enable <= 1
            &&& scan_request_notification_enable == 1 <==> config.scan_request_notification
        },
{
    let power = config.tx_power;
    assert((power >= 0 ==> power as u8 == power) && (power < 0 ==> power as u8 == 256 + power))
        by (bit_vector);
}

/// What a set is started with: its random address first, where it has one, its
/// parameters, its data and its scan response, and the enabling last. It names
/// the set throughout.
pub proof fn lemma_set_started(
    config: ExtendedAdvertisingConfig,
    list: Seq<Command>,
    first: Seq<Command>,
    second: Seq<Command>,
    data: Seq<u8>,
    response: Seq<u8>,
)
    requires
        config.started_by(list, first, second, data, response),
    ensures
        ({
            let start: int = if config.random_address is Some {
                2
            } else {
                1
            };
            &&& list.len() == start + first.len() + second.len() + 1
            &&& config.random_address is Some ==> list[0]
                == (Command::LeSetAdvertisingSetRandomAddress {
                advertising_handle: config.handle,
                random_address: config.random_address->0,
            })
            &&& list[start - 1] is LeSetExtendedAdvertisingParameters
            &&& list[start - 1]->LeSetExtendedAdvertisingParameters_advertising_handle
                == config.handle
            &&& list.subrange(start, start + first.len()) == first
            &&& list.subrange(start + first.len(), list.len() - 1) == second
            &&& load_all(first, DataKind::Advertising, config.handle, data)
            &&& load_all(second, DataKind::ScanResponse, config.handle, response)
            &&& list.last() is LeSetExtendedAdvertisingEnable
            &&& list.last()->LeSetExtendedAdvertisingEnable_enable == 1
            &&& list.last()->LeSetExtendedAdvertisingEnable_advertising_handles@ == seq![
                config.handle,
            ]
        }),
{
    let start: int = if config.random_address is Some {
        2
    } else {
        1
    };
    let body = config.preamble() + first + second;
    assert(list.drop_last() == body);
    assert forall|index: int| 0 <= index < body.len() implies (#[trigger] list[index])
        == body[index] by {
        assert(list.drop_last()[index] == list[index]);
    }
    assert(config.preamble().len() == start);
    assert(list.subrange(start, start + first.len()) =~= first);
    assert(list.subrange(start + first.len(), list.len() - 1) =~= second);
}

/// A set can be started with at most 1650 bytes of data and as many of scan
/// response, and as one of sixteen sets. A train can be with at most 1650 bytes,
/// and an interval of at least 7.5 milliseconds that does not end before it
/// begins.
pub proof fn lemma_startable(
    config: ExtendedAdvertisingConfig,
    train: PeriodicAdvertisingConfig,
    data: Seq<u8>,
    response: Seq<u8>,
)
    ensures
        config.accepts(data, response) <==> data.len() <= 1650 && response.len() <= 1650
            && config.sid <= 15,
        train.accepts(data) <==> data.len() <= 1650 && 6 <= train.interval_min
            <= train.interval_max,
{
}

/// What a periodic train is started with: its parameters, its data, and the
/// enabling last, which says by bit one whether advertising data information is
/// told.
pub proof fn lemma_train_started(
    config: PeriodicAdvertisingConfig,
    list: Seq<Command>,
    data: Seq<u8>,
)
    requires
        config.started_by(list, data),
    ensures
        list.len() >= 2,
        list[0] is LeSetPeriodicAdvertisingParameters,
        list[0]->LeSetPeriodicAdvertisingParameters_advertising_handle == config.handle,
        list[0]->LeSetPeriodicAdvertisingParameters_periodic_advertising_interval_min
            == config.interval_min,
        list[0]->LeSetPeriodicAdvertisingParameters_periodic_advertising_interval_max
            == config.interval_max,
        list[0]->LeSetPeriodicAdvertisingParameters_periodic_advertising_properties
            == config.properties,
        load_all(list.subrange(1, list.len() - 1), DataKind::Periodic, config.handle, data),
        list.last() == (Command::LeSetPeriodicAdvertisingEnable {
            enable: if config.include_adi {
                3
            } else {
                1
            },
            advertising_handle: config.handle,
        }),
{
}

/// What one command loads: a piece, for a set, and where in the data the piece
/// stands. One is the first, two is the last, zero is in between, and three is
/// all.
pub proof fn lemma_piece_loaded(
    list: Seq<Command>,
    kind: DataKind,
    handle: u8,
    data: Seq<u8>,
    place: int,
)
    requires
        load_all(list, kind, handle, data),
        0 <= place < list.len(),
    ensures
        list.len() == chunks(data).len(),
        ({
            let piece = chunks(data)[place];
            let part: u8 = if list.len() == 1 {
                3
            } else if place == 0 {
                1
            } else if place == list.len() - 1 {
                2
            } else {
                0
            };
            match kind {
                DataKind::Advertising => list[place] matches Command::LeSetExtendedAdvertisingData {
                    advertising_handle,
                    operation,
                    fragment_preference,
                    advertising_data,
                } && advertising_handle == handle && operation == part && fragment_preference == 1
                    && advertising_data@ == piece,
                DataKind::ScanResponse => list[place] matches Command::LeSetExtendedScanResponseData {
                    advertising_handle,
                    operation,
                    fragment_preference,
                    scan_response_data,
                } && advertising_handle == handle && operation == part && fragment_preference == 1
                    && scan_response_data@ == piece,
                DataKind::Periodic => list[place] matches Command::LeSetPeriodicAdvertisingData {
                    advertising_handle,
                    operation,
                    advertising_data,
                } && advertising_handle == handle && operation == part && advertising_data@
                    == piece,
            }
        }),
{
    assert(loads(
        list[place],
        kind,
        handle,
        crate::chunks::spec_operation(place, chunks(data).len() as int),
        chunks(data)[place],
    ));
}

/// The pieces of data make up the data, and none is longer than 251 bytes.
pub proof fn lemma_pieces(data: Seq<u8>, place: int)
    ensures
        chunks(data).len() > 0,
        joined(chunks(data)) == data,
        0 <= place < chunks(data).len() ==> chunks(data)[place].len() <= 251,
        0 <= place < chunks(data).len() - 1 ==> chunks(data)[place].len() == 251,
    decreases data.len(),
{
    let pieces = chunks(data);
    if data.len() <= 251 {
        assert(pieces.skip(1) =~= Seq::<Seq<u8>>::empty());
        assert(joined(pieces.skip(1)) == Seq::<u8>::empty());
        assert(joined(pieces) =~= data);
    } else {
        let rest = data.skip(251);
        lemma_pieces(rest, place - 1);
        assert(pieces.skip(1) =~= chunks(rest));
        assert(joined(pieces) =~= data);
    }
}

/// Scanning is started, actively or not, with the filter or not, from the random
/// address, on the 1M PHY and all the time. Both kinds of scan ask for the same.
pub proof fn lemma_scan_started(
    list: Seq<Command>,
    extended: bool,
    active: bool,
    filter: bool,
)
    requires
        starts_scanning(list, extended, active, filter),
    ensures
        list.len() == 2,
        ({
            let activity: u8 = if active {
                1
            } else {
                0
            };
            let filtering: u8 = if filter {
                1
            } else {
                0
            };
            &&& !extended ==> {
                &&& list[0] == (Command::LeSetScanParameters {
                    le_scan_type: activity,
                    le_scan_interval: 16,
                    le_scan_window: 16,
                    own_address_type: 1,
                    scanning_filter_policy: 0,
                })
                &&& list[1] == (Command::LeSetScanEnable {
                    le_scan_enable: 1,
                    filter_duplicates: filtering,
                })
            }
            &&& extended ==> {
                &&& list[0] matches Command::LeSetExtendedScanParameters {
                    own_address_type,
                    scanning_filter_policy,
                    scanning_phys,
                    scan_types,
                    scan_intervals,
                    scan_windows,
                } && {
                    &&& own_address_type == 1
                    &&& scanning_filter_policy == 0
                    &&& scanning_phys == 1
                    &&& scan_types@.len() == 1 && scan_types@[0] == activity
                    &&& scan_intervals@.len() == 1 && scan_intervals@[0] == 16
                    &&& scan_windows@.len() == 1 && scan_windows@[0] == 16
                }
                &&& list[1] == (Command::LeSetExtendedScanEnable {
                    enable: 1,
                    filter_duplicates: filtering,
                    duration: 0,
                    period: 0,
                })
            }
        }),
{
}

/// The legacy scan's commands are those that start it, and the extended one's
/// start that.
pub proof fn lemma_scan_kinds(list: Seq<Command>, active: bool, filter: bool)
    ensures
        starts_scanning(scan_commands(active, filter), false, active, filter),
        starts_extended_scanning(list, active, filter) ==> starts_scanning(
            list,
            true,
            active,
            filter,
        ),
{
}

/// Scanning of either kind is stopped by its own command.
pub proof fn lemma_scan_stopped()
    ensures
        stop_scan_command(false) == (Command::LeSetScanEnable {
            le_scan_enable: 0,
            filter_duplicates: 0,
        }),
        stop_scan_command(true) == (Command::LeSetExtendedScanEnable {
            enable: 0,
            filter_duplicates: 0,
            duration: 0,
            period: 0,
        }),
{
}

/// A device that starts scanning has seen nobody yet, and scans passively
/// exactly where it does not scan actively. One that stops has only stopped.
/// Either way the scan is the application's own.
pub proof fn lemma_scanning_state(device: DeviceView, active: bool)
    ensures
        device.scanning_started(active) == (DeviceView {
            gap: GapView {
                scanning: true,
                scanning_is_passive: !active,
                advertisement_accumulators: Seq::empty(),
                ..device.gap
            },
            lookups: LookupView { peer_lookup_started_scanning: None, ..device.lookups },
            ..device
        }),
        device.scanning_stopped() == (DeviceView {
            gap: GapView { scanning: false, ..device.gap },
            lookups: LookupView { peer_lookup_started_scanning: None, ..device.lookups },
            ..device
        }),
        device.legacy_advertising_set(active) == (DeviceView {
            gap: GapView { legacy_advertising: active, ..device.gap },
            ..device
        }),
{
}

/// The parameters of every legacy advertisement are those of a connectable one.
pub proof fn lemma_legacy_parameters(shortest: u16, longest: u16)
    ensures
        sets_legacy(legacy_parameters(shortest, longest), shortest as int, longest as int),
{
}

} // verus!
