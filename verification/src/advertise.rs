//! Advertising and scanning.

use crate::address::Address;
use crate::advertising::{ExtendedAdvertisingConfig, PeriodicAdvertisingConfig};
use crate::chunks::{load_all, load_commands, DataKind, MAX_ADVERTISING_DATA};
use crate::commands::with_command;
use crate::content::copy_bytes;
use crate::device::{Device, DeviceView};
use crate::hci::Command;
use crate::power::{bit, spec_bit};
use crate::state::{GapView, LookupView};
use crate::transport::{
    commands, lemma_sent_between, only_commands, send_all, sent_between, HostAction, HostTransport,
};
use vstd::prelude::*;

verus! {

/// The shortest advertising interval, in units of 0.625 milliseconds.
pub const MIN_ADVERTISING_INTERVAL: i64 = 0x0020;

/// The longest advertising interval.
pub const MAX_ADVERTISING_INTERVAL: i64 = 0x4000;

/// Whether a controller can keep an advertising interval.
pub open spec fn is_advertising_interval(units: i64) -> bool {
    MIN_ADVERTISING_INTERVAL <= units <= MAX_ADVERTISING_INTERVAL
}

fn in_advertising_range(units: i64) -> (in_range: bool)
    ensures
        in_range == is_advertising_interval(units),
{
    MIN_ADVERTISING_INTERVAL <= units && units <= MAX_ADVERTISING_INTERVAL
}

broadcast use vstd::laws_cmp::group_laws_cmp;

/// How many bytes of data a legacy advertisement takes.
pub const MAX_LEGACY_DATA: usize = 31;

/// The parameters of a connectable legacy advertisement.
pub open spec fn legacy_parameters(interval_min: u16, interval_max: u16) -> Command {
    Command::LeSetAdvertisingParameters {
        advertising_interval_min: interval_min,
        advertising_interval_max: interval_max,
        advertising_type: 0,
        own_address_type: 1,
        peer_address_type: 0,
        peer_address: Address::spec_any_public(),
        advertising_channel_map: 7,
        advertising_filter_policy: 0,
    }
}

/// Whether a command loads the data of a legacy advertisement.
pub open spec fn sets_advertising_data(command: Command, data: Seq<u8>) -> bool {
    command matches Command::LeSetAdvertisingData { advertising_data } && advertising_data@ == data
}

/// Whether a command loads the data of a legacy scan response.
pub open spec fn sets_scan_response_data(command: Command, data: Seq<u8>) -> bool {
    command matches Command::LeSetScanResponseData { scan_response_data } && scan_response_data@
        == data
}

/// The commands that start legacy advertising.
pub open spec fn starts_advertising(list: Seq<Command>, data: Seq<u8>) -> bool {
    &&& list.len() == 3
    &&& list[0] == legacy_parameters(0x0800, 0x0800)
    &&& sets_advertising_data(list[1], data)
    &&& list[2] == (Command::LeSetAdvertisingEnable { advertising_enable: 1 })
}

/// The commands that start legacy advertising as configured.
pub open spec fn starts_configured_advertising(
    list: Seq<Command>,
    interval_min: u16,
    interval_max: u16,
    data: Seq<u8>,
    scan_response_data: Seq<u8>,
) -> bool {
    &&& list.len() == 4
    &&& sets_advertising_data(list[0], data)
    &&& sets_scan_response_data(list[1], scan_response_data)
    &&& list[2] == legacy_parameters(interval_min, interval_max)
    &&& list[3] == (Command::LeSetAdvertisingEnable { advertising_enable: 1 })
}

/// Whether a command enables or disables one extended-advertising set.
pub open spec fn enables_set(
    command: Command,
    enabled: u8,
    handle: u8,
    duration: u16,
    max_events: u8,
) -> bool {
    command matches Command::LeSetExtendedAdvertisingEnable {
        enable,
        advertising_handles,
        durations,
        max_extended_advertising_events,
    } && enable == enabled && advertising_handles@ == seq![handle] && durations@ == seq![duration]
        && max_extended_advertising_events@ == seq![max_events]
}

impl ExtendedAdvertisingConfig {
    /// The command that sets the parameters of the set.
    pub open spec fn parameters(self) -> Command {
        Command::LeSetExtendedAdvertisingParameters {
            advertising_handle: self.handle,
            advertising_event_properties: self.event_properties,
            primary_advertising_interval_min: self.interval_min,
            primary_advertising_interval_max: self.interval_max,
            primary_advertising_channel_map: self.channel_map,
            own_address_type: self.own_address_type,
            peer_address_type: self.peer_address_type,
            peer_address: self.peer_address,
            advertising_filter_policy: self.filter_policy,
            advertising_tx_power: self.tx_power as u8,
            primary_advertising_phy: self.primary_phy,
            secondary_advertising_max_skip: self.secondary_max_skip,
            secondary_advertising_phy: self.secondary_phy,
            advertising_sid: self.sid,
            scan_request_notification_enable: spec_bit(self.scan_request_notification),
        }
    }

    /// The commands ahead of the set's data.
    pub open spec fn preamble(self) -> Seq<Command> {
        match self.random_address {
            Some(random_address) => seq![
                Command::LeSetAdvertisingSetRandomAddress {
                    advertising_handle: self.handle,
                    random_address,
                },
                self.parameters(),
            ],
            None => seq![self.parameters()],
        }
    }

    /// Whether commands set up and enable the set: the preamble, the data, the
    /// scan response data, and the enabling.
    pub open spec fn started_by(
        self,
        list: Seq<Command>,
        first: Seq<Command>,
        second: Seq<Command>,
        data: Seq<u8>,
        scan_response_data: Seq<u8>,
    ) -> bool {
        &&& list.len() == self.preamble().len() + first.len() + second.len() + 1
        &&& list.drop_last() == self.preamble() + first + second
        &&& load_all(first, DataKind::Advertising, self.handle, data)
        &&& load_all(second, DataKind::ScanResponse, self.handle, scan_response_data)
        &&& enables_set(list.last(), 1, self.handle, self.duration, self.max_events)
    }

    /// Whether the set can be set up with such data.
    pub open spec fn accepts(self, data: Seq<u8>, scan_response_data: Seq<u8>) -> bool {
        &&& data.len() <= MAX_ADVERTISING_DATA
        &&& scan_response_data.len() <= MAX_ADVERTISING_DATA
        &&& self.sid <= 0x0F
    }
}

impl PeriodicAdvertisingConfig {
    /// Whether the train can be set up with such data.
    pub open spec fn accepts(self, data: Seq<u8>) -> bool {
        &&& data.len() <= MAX_ADVERTISING_DATA
        &&& 0x0006 <= self.interval_min <= self.interval_max
    }

    /// Whether commands set up and enable the train.
    pub open spec fn started_by(self, list: Seq<Command>, data: Seq<u8>) -> bool {
        &&& list.len() >= 2
        &&& list[0] == (Command::LeSetPeriodicAdvertisingParameters {
            advertising_handle: self.handle,
            periodic_advertising_interval_min: self.interval_min,
            periodic_advertising_interval_max: self.interval_max,
            periodic_advertising_properties: self.properties,
        })
        &&& load_all(
            list.subrange(1, list.len() - 1),
            DataKind::Periodic,
            self.handle,
            data,
        )
        &&& list.last() == (Command::LeSetPeriodicAdvertisingEnable {
            enable: (1 + 2 * spec_bit(self.include_adi)) as u8,
            advertising_handle: self.handle,
        })
    }
}

/// The commands that start legacy scanning.
pub open spec fn scan_commands(active: bool, filter_duplicates: bool) -> Seq<Command> {
    seq![
        Command::LeSetScanParameters {
            le_scan_type: spec_bit(active),
            le_scan_interval: 0x0010,
            le_scan_window: 0x0010,
            own_address_type: 1,
            scanning_filter_policy: 0,
        },
        Command::LeSetScanEnable {
            le_scan_enable: 1,
            filter_duplicates: spec_bit(filter_duplicates),
        },
    ]
}

/// Whether commands start extended scanning.
pub open spec fn starts_extended_scanning(
    list: Seq<Command>,
    active: bool,
    filter: bool,
) -> bool {
    &&& list.len() == 2
    &&& list[0] matches Command::LeSetExtendedScanParameters {
        own_address_type,
        scanning_filter_policy,
        scanning_phys,
        scan_types,
        scan_intervals,
        scan_windows,
    } && own_address_type == 1 && scanning_filter_policy == 0 && scanning_phys == 1 && scan_types@
        == seq![spec_bit(active)] && scan_intervals@ == seq![0x0010u16] && scan_windows@
        == seq![0x0010u16]
    &&& list[1] == (Command::LeSetExtendedScanEnable {
        enable: 1,
        filter_duplicates: spec_bit(filter),
        duration: 0,
        period: 0,
    })
}

/// Whether commands start scanning of one kind or the other.
pub open spec fn starts_scanning(
    list: Seq<Command>,
    extended: bool,
    active: bool,
    filter_duplicates: bool,
) -> bool {
    if extended {
        starts_extended_scanning(list, active, filter_duplicates)
    } else {
        list == scan_commands(active, filter_duplicates)
    }
}

/// The command that stops scanning of one kind or the other.
pub open spec fn stop_scan_command(extended: bool) -> Command {
    if extended {
        Command::LeSetExtendedScanEnable { enable: 0, filter_duplicates: 0, duration: 0, period: 0 }
    } else {
        Command::LeSetScanEnable { le_scan_enable: 0, filter_duplicates: 0 }
    }
}

impl DeviceView {
    /// A device whose application has started scanning afresh.
    pub open spec fn scanning_started(self, active: bool) -> DeviceView {
        DeviceView {
            lookups: LookupView { peer_lookup_started_scanning: None, ..self.lookups },
            gap: GapView {
                advertisement_accumulators: Seq::empty(),
                scanning_is_passive: !active,
                scanning: true,
                ..self.gap
            },
            ..self
        }
    }

    /// A device whose application has stopped scanning.
    pub open spec fn scanning_stopped(self) -> DeviceView {
        DeviceView {
            lookups: LookupView { peer_lookup_started_scanning: None, ..self.lookups },
            gap: GapView { scanning: false, ..self.gap },
            ..self
        }
    }

    /// A device that advertises, or not, in the legacy way.
    pub open spec fn legacy_advertising_set(self, advertising: bool) -> DeviceView {
        DeviceView { gap: GapView { legacy_advertising: advertising, ..self.gap }, ..self }
    }
}

impl DeviceView {
    /// How a call of [`Device::stop_advertising`] shows.
    pub open spec fn stop_advertising_shows(
        self,
        after: DeviceView,
        log_before: Seq<HostAction>,
        log_after: Seq<HostAction>,
    ) -> bool {
        &&& after == self.legacy_advertising_set(false)
        &&& log_after == with_command(
            log_before,
            self.controller_id,
            Command::LeSetAdvertisingEnable { advertising_enable: 0 },
        )
    }

    /// How a call of [`Device::stop_periodic_advertising`] shows.
    pub open spec fn stop_periodic_advertising_shows(
        self,
        after: DeviceView,
        handle: u8,
        log_before: Seq<HostAction>,
        log_after: Seq<HostAction>,
    ) -> bool {
        &&& after == self
        &&& log_after == with_command(
            log_before,
            self.controller_id,
            Command::LeSetPeriodicAdvertisingEnable { enable: 0, advertising_handle: handle },
        )
    }
}

impl Device {
    /// The command for the parameters of a connectable legacy advertisement.
    fn legacy_parameters_command(interval_min: u16, interval_max: u16) -> (command: Command)
        ensures
            command == legacy_parameters(interval_min, interval_max),
    {
        Command::LeSetAdvertisingParameters {
            advertising_interval_min: interval_min,
            advertising_interval_max: interval_max,
            advertising_type: 0,
            own_address_type: 1,
            peer_address_type: 0,
            peer_address: Address::any_public(),
            advertising_channel_map: 7,
            advertising_filter_policy: 0,
        }
    }

    /// Hand over a list of commands that the device does not remember.
    pub(crate) fn hand_over<L: HostTransport + ?Sized>(&self, link: &mut L, list: Vec<Command>)
        ensures
            final(link).log() == old(link).log() + commands(self.controller_id, list@),
            sent_between(old(link).log(), final(link).log()) == list@,
            only_commands(old(link).log(), final(link).log(), self.controller_id),
    {
        let ghost log = link.log();
        send_all(link, self.controller_id, list);
        proof {
            lemma_sent_between(log, link.log(), self.controller_id, list@);
        }
    }

    /// Start legacy advertising with some data. Returns `false`, with nothing
    /// done, where the data is too long.
    pub fn start_advertising<L: HostTransport + ?Sized>(&mut self, link: &mut L, data: &[u8]) -> (
    started: bool)
        requires
            old(self).wf(),
        ensures
            final(self).wf(),
            started == (data@.len() <= MAX_LEGACY_DATA),
            final(self)@ == if started {
                old(self)@.legacy_advertising_set(true)
            } else {
                old(self)@
            },
            only_commands(old(link).log(), final(link).log(), old(self).controller_id),
            if started {
                starts_advertising(sent_between(old(link).log(), final(link).log()), data@)
            } else {
                final(link).log() == old(link).log()
            },
    {
        let mut list: Vec<Command> = Vec::new();
        if data.len() > MAX_LEGACY_DATA {
            self.hand_over(link, list);
            assert(link.log() =~= old(link).log());
            return false;
        }
        list.push(Device::legacy_parameters_command(0x0800, 0x0800));
        let advertising_data = copy_bytes(data, 0, data.len());
        assert(advertising_data@ =~= data@);
        list.push(Command::LeSetAdvertisingData { advertising_data });
        list.push(Command::LeSetAdvertisingEnable { advertising_enable: 1 });
        assert(starts_advertising(list@, data@));
        self.hand_over(link, list);
        self.gap.legacy_advertising = true;
        assert(self@ =~= old(self)@.legacy_advertising_set(true));
        true
    }

    /// Start legacy advertising with this device's loaded configuration.
    ///
    /// The caller gives the configured intervals in controller units, without
    /// fractions. Returns `false`, with nothing done, where a controller cannot
    /// keep an interval, they are in the wrong order, or the data is too long.
    pub fn start_configured_advertising<L: HostTransport + ?Sized>(
        &mut self,
        link: &mut L,
        interval_min: i64,
        interval_max: i64,
    ) -> (started: bool)
        requires
            old(self).wf(),
        ensures
            final(self).wf(),
            started == (is_advertising_interval(interval_min) && is_advertising_interval(
                interval_max,
            ) && interval_min <= interval_max && old(self).config.advertising_data@.len()
                <= MAX_LEGACY_DATA && old(self).config.scan_response_data@.len()
                <= MAX_LEGACY_DATA),
            final(self)@ == if started {
                old(self)@.legacy_advertising_set(true)
            } else {
                old(self)@
            },
            only_commands(old(link).log(), final(link).log(), old(self).controller_id),
            if started {
                starts_configured_advertising(
                    sent_between(old(link).log(), final(link).log()),
                    interval_min as u16,
                    interval_max as u16,
                    old(self).config.advertising_data@,
                    old(self).config.scan_response_data@,
                )
            } else {
                final(link).log() == old(link).log()
            },
    {
        let mut list: Vec<Command> = Vec::new();
        if in_advertising_range(interval_min) && in_advertising_range(interval_max) {
            let shortest: u16 = interval_min as u16;
            let longest: u16 = interval_max as u16;
            if shortest <= longest && self.config.advertising_data.len() <= MAX_LEGACY_DATA
                && self.config.scan_response_data.len() <= MAX_LEGACY_DATA {
                list.push(
                    Command::LeSetAdvertisingData {
                        advertising_data: self.config.advertising_data.clone(),
                    },
                );
                list.push(
                    Command::LeSetScanResponseData {
                        scan_response_data: self.config.scan_response_data.clone(),
                    },
                );
                list.push(Device::legacy_parameters_command(shortest, longest));
                list.push(Command::LeSetAdvertisingEnable { advertising_enable: 1 });
                assert(starts_configured_advertising(
                    list@,
                    shortest,
                    longest,
                    self.config.advertising_data@,
                    self.config.scan_response_data@,
                ));
                self.hand_over(link, list);
                self.gap.legacy_advertising = true;
                assert(self@ =~= old(self)@.legacy_advertising_set(true));
                return true;
            }
        }
        self.hand_over(link, list);
        assert(link.log() =~= old(link).log());
        false
    }

    /// Stop legacy advertising.
    pub fn stop_advertising<L: HostTransport + ?Sized>(&mut self, link: &mut L)
        requires
            old(self).wf(),
        ensures
            final(self).wf(),
            old(self)@.stop_advertising_shows(
                final(self)@,
                old(link).log(),
                final(link).log(),
            ),
    {
        self.gap.legacy_advertising = false;
        assert(self@ =~= old(self)@.legacy_advertising_set(false));
        self.send_hci_command(link, Command::LeSetAdvertisingEnable { advertising_enable: 0 });
    }
}

/// Append commands to a list.
pub fn append_commands(list: &mut Vec<Command>, more: Vec<Command>)
    ensures
        final(list)@ == old(list)@ + more@,
{
    let mut more: Vec<Command> = more;
    list.append(&mut more);
}

impl Device {
    /// The commands that set up and enable an extended-advertising set.
    fn extended_advertising_commands(
        config: &ExtendedAdvertisingConfig,
        data: &[u8],
        scan_response_data: &[u8],
    ) -> (list: Vec<Command>)
        ensures
            exists|first: Seq<Command>, second: Seq<Command>| #[trigger]
                config.started_by(list@, first, second, data@, scan_response_data@),
    {
        let mut list: Vec<Command> = Vec::new();
        if let Some(random_address) = config.random_address {
            list.push(
                Command::LeSetAdvertisingSetRandomAddress {
                    advertising_handle: config.handle,
                    random_address,
                },
            );
        }
        let tx_power: u8 = config.tx_power as u8;
        list.push(
            Command::LeSetExtendedAdvertisingParameters {
                advertising_handle: config.handle,
                advertising_event_properties: config.event_properties,
                primary_advertising_interval_min: config.interval_min,
                primary_advertising_interval_max: config.interval_max,
                primary_advertising_channel_map: config.channel_map,
                own_address_type: config.own_address_type,
                peer_address_type: config.peer_address_type,
                peer_address: config.peer_address,
                advertising_filter_policy: config.filter_policy,
                advertising_tx_power: tx_power,
                primary_advertising_phy: config.primary_phy,
                secondary_advertising_max_skip: config.secondary_max_skip,
                secondary_advertising_phy: config.secondary_phy,
                advertising_sid: config.sid,
                scan_request_notification_enable: bit(config.scan_request_notification),
            },
        );
        assert(list@ =~= config.preamble());
        let first = load_commands(DataKind::Advertising, config.handle, data);
        let second = load_commands(DataKind::ScanResponse, config.handle, scan_response_data);
        let ghost (loaded, answered) = (first@, second@);
        append_commands(&mut list, first);
        append_commands(&mut list, second);
        let ghost before = list@;
        let handles: Vec<u8> = vec![config.handle];
        let durations: Vec<u16> = vec![config.duration];
        let events: Vec<u8> = vec![config.max_events];
        assert(handles@ =~= seq![config.handle]);
        assert(durations@ =~= seq![config.duration]);
        assert(events@ =~= seq![config.max_events]);
        list.push(
            Command::LeSetExtendedAdvertisingEnable {
                enable: 1,
                advertising_handles: handles,
                durations,
                max_extended_advertising_events: events,
            },
        );
        proof {
            assert(list@.drop_last() =~= before);
            assert(config.started_by(list@, loaded, answered, data@, scan_response_data@));
        }
        list
    }

    /// Configure and enable one extended-advertising set. Data larger than a
    /// single HCI command is fragmented with the standard first/intermediate/
    /// last operations. Returns `false`, with nothing done, where the data is
    /// too long or the set identifier is out of range.
    pub fn start_extended_advertising<L: HostTransport + ?Sized>(
        &mut self,
        link: &mut L,
        config: &ExtendedAdvertisingConfig,
        data: &[u8],
        scan_response_data: &[u8],
    ) -> (started: bool)
        requires
            old(self).wf(),
        ensures
            final(self).wf(),
            started == config.accepts(data@, scan_response_data@),
            final(self)@ == if started {
                DeviceView {
                    gap: GapView {
                        extended_advertising_handles: old(
                            self,
                        )@.gap.extended_advertising_handles.insert(config.handle),
                        ..old(self)@.gap
                    },
                    ..old(self)@
                }
            } else {
                old(self)@
            },
            only_commands(old(link).log(), final(link).log(), old(self).controller_id),
            if started {
                exists|first: Seq<Command>, second: Seq<Command>| #[trigger]
                    config.started_by(
                        sent_between(old(link).log(), final(link).log()),
                        first,
                        second,
                        data@,
                        scan_response_data@,
                    )
            } else {
                final(link).log() == old(link).log()
            },
    {
        if data.len() > MAX_ADVERTISING_DATA || scan_response_data.len() > MAX_ADVERTISING_DATA
            || config.sid > 0x0F {
            self.hand_over(link, Vec::new());
            assert(link.log() =~= old(link).log());
            return false;
        }
        let list = Device::extended_advertising_commands(config, data, scan_response_data);
        self.hand_over(link, list);
        self.gap.extended_advertising_handles.insert(config.handle);
        assert(self@ =~= (DeviceView {
            gap: GapView {
                extended_advertising_handles: old(self)@.gap.extended_advertising_handles.insert(
                    config.handle,
                ),
                ..old(self)@.gap
            },
            ..old(self)@
        }));
        true
    }

    /// Disable an extended-advertising set.
    pub fn stop_extended_advertising<L: HostTransport + ?Sized>(&mut self, link: &mut L, handle: u8)
        requires
            old(self).wf(),
        ensures
            final(self).wf(),
            final(self)@ == (DeviceView {
                gap: GapView {
                    extended_advertising_handles: old(
                        self,
                    )@.gap.extended_advertising_handles.remove(handle),
                    ..old(self)@.gap
                },
                ..old(self)@
            }),
            only_commands(old(link).log(), final(link).log(), old(self).controller_id),
            sent_between(old(link).log(), final(link).log()).len() == 1,
            enables_set(sent_between(old(link).log(), final(link).log())[0], 0, handle, 0, 0),
    {
        self.gap.extended_advertising_handles.remove(&handle);
        let handles: Vec<u8> = vec![handle];
        let durations: Vec<u16> = vec![0];
        let events: Vec<u8> = vec![0];
        assert(handles@ =~= seq![handle]);
        assert(durations@ =~= seq![0u16]);
        assert(events@ =~= seq![0u8]);
        let mut list: Vec<Command> = Vec::new();
        list.push(
            Command::LeSetExtendedAdvertisingEnable {
                enable: 0,
                advertising_handles: handles,
                durations,
                max_extended_advertising_events: events,
            },
        );
        self.hand_over(link, list);
        assert(self@ =~= (DeviceView {
            gap: GapView {
                extended_advertising_handles: old(self)@.gap.extended_advertising_handles.remove(
                    handle,
                ),
                ..old(self)@.gap
            },
            ..old(self)@
        }));
    }

    /// Configure, load, and enable a periodic advertising train. Returns
    /// `false`, with nothing done, where the data is too long or the intervals
    /// are out of range.
    pub fn start_periodic_advertising<L: HostTransport + ?Sized>(
        &mut self,
        link: &mut L,
        config: PeriodicAdvertisingConfig,
        data: &[u8],
    ) -> (started: bool)
        requires
            old(self).wf(),
        ensures
            final(self).wf(),
            started == config.accepts(data@),
            final(self)@ == old(self)@,
            only_commands(old(link).log(), final(link).log(), old(self).controller_id),
            if started {
                config.started_by(sent_between(old(link).log(), final(link).log()), data@)
            } else {
                final(link).log() == old(link).log()
            },
    {
        if data.len() > MAX_ADVERTISING_DATA || config.interval_min < 0x0006 || config.interval_min
            > config.interval_max {
            self.hand_over(link, Vec::new());
            assert(link.log() =~= old(link).log());
            return false;
        }
        let mut list: Vec<Command> = Vec::new();
        list.push(
            Command::LeSetPeriodicAdvertisingParameters {
                advertising_handle: config.handle,
                periodic_advertising_interval_min: config.interval_min,
                periodic_advertising_interval_max: config.interval_max,
                periodic_advertising_properties: config.properties,
            },
        );
        let loaded = load_commands(DataKind::Periodic, config.handle, data);
        let ghost pieces = loaded@;
        append_commands(&mut list, loaded);
        list.push(
            Command::LeSetPeriodicAdvertisingEnable {
                enable: 1 + 2 * bit(config.include_adi),
                advertising_handle: config.handle,
            },
        );
        assert(list@.subrange(1, list@.len() - 1) =~= pieces);
        assert(config.started_by(list@, data@));
        self.hand_over(link, list);
        true
    }

    /// Disable a periodic advertising train.
    pub fn stop_periodic_advertising<L: HostTransport + ?Sized>(&mut self, link: &mut L, handle: u8)
        requires
            old(self).wf(),
        ensures
            final(self).wf(),
            old(self)@.stop_periodic_advertising_shows(
                final(self)@,
                handle,
                old(link).log(),
                final(link).log(),
            ),
    {
        self.send_hci_command(
            link,
            Command::LeSetPeriodicAdvertisingEnable { enable: 0, advertising_handle: handle },
        );
    }

    /// Start legacy scanning afresh.
    pub fn start_scanning<L: HostTransport + ?Sized>(
        &mut self,
        link: &mut L,
        active: bool,
        filter_duplicates: bool,
    )
        requires
            old(self).wf(),
        ensures
            final(self).wf(),
            final(self)@ == old(self)@.scanning_started(active),
            final(link).log() == old(link).log() + commands(
                old(self).controller_id,
                scan_commands(active, filter_duplicates),
            ),
    {
        self.begin_scanning(active);
        let mut list: Vec<Command> = Vec::new();
        list.push(
            Command::LeSetScanParameters {
                le_scan_type: bit(active),
                le_scan_interval: 0x0010,
                le_scan_window: 0x0010,
                own_address_type: 1,
                scanning_filter_policy: 0,
            },
        );
        list.push(
            Command::LeSetScanEnable {
                le_scan_enable: 1,
                filter_duplicates: bit(filter_duplicates),
            },
        );
        assert(list@ =~= scan_commands(active, filter_duplicates));
        self.hand_over(link, list);
    }

    /// Note that scanning starts afresh.
    fn begin_scanning(&mut self, active: bool)
        requires
            old(self).wf(),
        ensures
            final(self).wf(),
            final(self)@ == old(self)@.scanning_started(active),
    {
        self.lookups.peer_lookup_started_scanning = None;
        self.gap.advertisement_accumulators.clear();
        self.gap.scanning_is_passive = !active;
        self.gap.scanning = true;
        assert(self@.gap.advertisement_accumulators =~= Seq::empty());
        assert(self@ =~= old(self)@.scanning_started(active));
    }

    /// Note that scanning stops.
    fn end_scanning(&mut self)
        requires
            old(self).wf(),
        ensures
            final(self).wf(),
            final(self)@ == old(self)@.scanning_stopped(),
    {
        self.lookups.peer_lookup_started_scanning = None;
        self.gap.scanning = false;
        assert(self@ =~= old(self)@.scanning_stopped());
    }

    /// Stop legacy scanning.
    pub fn stop_scanning<L: HostTransport + ?Sized>(&mut self, link: &mut L)
        requires
            old(self).wf(),
        ensures
            final(self).wf(),
            final(self)@ == old(self)@.scanning_stopped(),
            final(link).log() == with_command(
                old(link).log(),
                old(self).controller_id,
                stop_scan_command(false),
            ),
    {
        self.end_scanning();
        self.send_hci_command(
            link,
            Command::LeSetScanEnable { le_scan_enable: 0, filter_duplicates: 0 },
        );
    }

    /// Start extended scanning afresh.
    pub fn start_extended_scanning<L: HostTransport + ?Sized>(
        &mut self,
        link: &mut L,
        active: bool,
        filter_duplicates: bool,
    )
        requires
            old(self).wf(),
        ensures
            final(self).wf(),
            final(self)@ == old(self)@.scanning_started(active),
            only_commands(old(link).log(), final(link).log(), old(self).controller_id),
            starts_extended_scanning(
                sent_between(old(link).log(), final(link).log()),
                active,
                filter_duplicates,
            ),
    {
        self.begin_scanning(active);
        let scan_type: u8 = bit(active);
        let scan_types: Vec<u8> = vec![scan_type];
        let scan_intervals: Vec<u16> = vec![0x0010];
        let scan_windows: Vec<u16> = vec![0x0010];
        assert(scan_types@ =~= seq![scan_type]);
        assert(scan_intervals@ =~= seq![0x0010u16]);
        assert(scan_windows@ =~= seq![0x0010u16]);
        let mut list: Vec<Command> = Vec::new();
        list.push(
            Command::LeSetExtendedScanParameters {
                own_address_type: 1,
                scanning_filter_policy: 0,
                scanning_phys: 1,
                scan_types,
                scan_intervals,
                scan_windows,
            },
        );
        list.push(
            Command::LeSetExtendedScanEnable {
                enable: 1,
                filter_duplicates: bit(filter_duplicates),
                duration: 0,
                period: 0,
            },
        );
        assert(starts_extended_scanning(list@, active, filter_duplicates));
        self.hand_over(link, list);
    }

    /// Stop extended scanning.
    pub fn stop_extended_scanning<L: HostTransport + ?Sized>(&mut self, link: &mut L)
        requires
            old(self).wf(),
        ensures
            final(self).wf(),
            final(self)@ == old(self)@.scanning_stopped(),
            final(link).log() == with_command(
                old(link).log(),
                old(self).controller_id,
                stop_scan_command(true),
            ),
    {
        self.end_scanning();
        self.send_hci_command(
            link,
            Command::LeSetExtendedScanEnable {
                enable: 0,
                filter_duplicates: 0,
                duration: 0,
                period: 0,
            },
        );
    }
}

} // verus!
