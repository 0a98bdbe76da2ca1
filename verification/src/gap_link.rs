//! What advertising, scanning and periodic-synchronization events do.

use crate::address::Address;
use crate::advertising::{
    AccumulatorView, Advertisement, AdvertisementDataAccumulator, AdvertisementView,
    PeriodicAdvertisement, PeriodicAdvertisementView, PeriodicAdvertisingSyncInfo,
    PeriodicAdvertisingSyncTransferInfo,
};
use crate::commands::{addresses, find_address, first_at, lemma_filed_once};
use crate::device::{Device, DeviceView, FollowUp};
use crate::events::{DeviceEvent, DeviceEventView};
use crate::hci::{AdvertisingReport, ExtendedAdvertisingReport};
use crate::lookup::PeerLookupTransport;
use crate::state::{GapState, GapView};
use vstd::prelude::*;

verus! {

broadcast use vstd::laws_cmp::group_laws_cmp;

impl GapView {
    /// The accumulator of an advertiser.
    pub open spec fn accumulator(self, address: Address) -> AccumulatorView {
        match first_at(self.advertisement_accumulators, address) {
            Some(index) => self.advertisement_accumulators[index].1,
            None => AccumulatorView::fresh(self.scanning_is_passive),
        }
    }

    /// The state with an advertiser's accumulator replaced.
    pub open spec fn with_accumulator(
        self,
        address: Address,
        accumulator: AccumulatorView,
    ) -> GapView {
        GapView {
            advertisement_accumulators: match first_at(self.advertisement_accumulators, address) {
                Some(index) => self.advertisement_accumulators.update(
                    index,
                    (address, accumulator),
                ),
                None => self.advertisement_accumulators.push((address, accumulator)),
            },
            ..self
        }
    }

    /// A periodic advertising synchronization was established, or not.
    pub open spec fn periodic_synced(
        self,
        status: u8,
        sync: PeriodicAdvertisingSyncInfo,
    ) -> GapView {
        if status == 0 {
            GapView { periodic_syncs: self.periodic_syncs.insert(sync.sync_handle, sync), ..self }
        } else {
            GapView { periodic_sync_errors: self.periodic_sync_errors.push(status), ..self }
        }
    }

    /// A periodic advertising synchronization was received from a peer, or not.
    pub open spec fn periodic_sync_transferred(
        self,
        status: u8,
        connection_handle: u16,
        service_data: u16,
        sync: PeriodicAdvertisingSyncInfo,
    ) -> GapView {
        let synced = self.periodic_synced(status, sync);
        if status == 0 {
            GapView {
                periodic_sync_transfers: self.periodic_sync_transfers.push(
                    PeriodicAdvertisingSyncTransferInfo { connection_handle, service_data, sync },
                ),
                ..synced
            }
        } else {
            synced
        }
    }

    /// The data of a periodic advertisement that has arrived so far.
    pub open spec fn periodic_data(self, sync_handle: u16) -> Seq<u8> {
        if self.periodic_report_accumulators.contains_key(sync_handle) {
            self.periodic_report_accumulators[sync_handle]
        } else {
            Seq::empty()
        }
    }

    /// A fragment of a periodic advertisement arrived. With the last one the
    /// advertisement is complete; those of unknown trains are ignored.
    pub open spec fn periodic_reported(
        self,
        sync_handle: u16,
        tx_power: i8,
        rssi: i8,
        data_status: u8,
        data: Seq<u8>,
    ) -> GapView {
        if !self.periodic_syncs.contains_key(sync_handle) {
            self
        } else {
            let sync = self.periodic_syncs[sync_handle];
            let collected = self.periodic_data(sync_handle) + data;
            if data_status == 1 {
                GapView {
                    periodic_report_accumulators: self.periodic_report_accumulators.insert(
                        sync_handle,
                        collected,
                    ),
                    ..self
                }
            } else {
                GapView {
                    periodic_report_accumulators: self.periodic_report_accumulators.remove(
                        sync_handle,
                    ),
                    periodic_advertisements: self.periodic_advertisements.push(
                        PeriodicAdvertisementView {
                            sync_handle,
                            advertiser_address: sync.advertiser_address,
                            advertising_sid: sync.advertising_sid,
                            tx_power,
                            rssi,
                            truncated: data_status == 2,
                            data: collected,
                        },
                    ),
                    ..self
                }
            }
        }
    }

    /// A periodic advertising synchronization was lost.
    pub open spec fn periodic_sync_lost(self, sync_handle: u16) -> GapView {
        GapView {
            periodic_syncs: self.periodic_syncs.remove(sync_handle),
            periodic_report_accumulators: self.periodic_report_accumulators.remove(sync_handle),
            lost_periodic_syncs: self.lost_periodic_syncs.push(sync_handle),
            ..self
        }
    }
}

impl GapState {
    /// Take an advertiser's accumulator, hand it an advertisement, and put it
    /// back.
    fn accumulate(&mut self, advertisement: Advertisement) -> (reported: Option<Advertisement>)
        ensures
            crate::advertising::advertisement_view(reported) == old(self)@.accumulator(
                advertisement.address,
            ).reported(advertisement@),
            final(self)@ == old(self)@.with_accumulator(
                advertisement.address,
                old(self)@.accumulator(advertisement.address).after(advertisement@),
            ),
            old(self)@.valid() ==> final(self)@.valid(),
    {
        let address: Address = advertisement.address;
        let ghost content = advertisement@;
        assert(addresses(self@.advertisement_accumulators) =~= addresses(
            self.advertisement_accumulators@,
        ));
        let (index, mut accumulator): (usize, AdvertisementDataAccumulator) = match find_address(
            &self.advertisement_accumulators,
            address,
        ) {
            Some(index) => (index, self.advertisement_accumulators.remove(index).1),
            None => (
                self.advertisement_accumulators.len(),
                AdvertisementDataAccumulator::new(self.scanning_is_passive),
            ),
        };
        let reported = accumulator.update(advertisement);
        self.advertisement_accumulators.insert(index, (address, accumulator));
        proof {
            let ghost expected = old(self)@.with_accumulator(
                address,
                old(self)@.accumulator(address).after(content),
            );
            assert(self@.advertisement_accumulators =~= expected.advertisement_accumulators);
            assert(self@ =~= expected);
            if old(self)@.valid() {
                lemma_filed_once(
                    old(self)@.advertisement_accumulators,
                    address,
                    accumulator@,
                );
            }
        }
        reported
    }

    /// A periodic advertising synchronization has been established, or not.
    pub fn on_periodic_synced(&mut self, status: u8, sync: PeriodicAdvertisingSyncInfo)
        ensures
            final(self)@ == old(self)@.periodic_synced(status, sync),
    {
        if status == 0 {
            self.periodic_syncs.insert(sync.sync_handle, sync);
        } else {
            self.periodic_sync_errors.push(status);
        }
        assert(self@ =~= old(self)@.periodic_synced(status, sync));
    }

    /// A peer has handed over a periodic advertising synchronization, or not.
    pub fn on_periodic_sync_transferred(
        &mut self,
        status: u8,
        connection_handle: u16,
        service_data: u16,
        sync: PeriodicAdvertisingSyncInfo,
    )
        ensures
            final(self)@ == old(self)@.periodic_sync_transferred(
                status,
                connection_handle,
                service_data,
                sync,
            ),
    {
        self.on_periodic_synced(status, sync);
        if status == 0 {
            self.periodic_sync_transfers.push(
                PeriodicAdvertisingSyncTransferInfo { connection_handle, service_data, sync },
            );
        }
        assert(self@ =~= old(self)@.periodic_sync_transferred(
            status,
            connection_handle,
            service_data,
            sync,
        ));
    }

    /// A fragment of a periodic advertisement has arrived.
    pub fn on_periodic_report(
        &mut self,
        sync_handle: u16,
        tx_power: i8,
        rssi: i8,
        data_status: u8,
        data: &Vec<u8>,
    )
        ensures
            final(self)@ == old(self)@.periodic_reported(
                sync_handle,
                tx_power,
                rssi,
                data_status,
                data@,
            ),
    {
        let sync: PeriodicAdvertisingSyncInfo = match self.periodic_syncs.get(&sync_handle) {
            Some(sync) => *sync,
            None => {
                return ;
            },
        };
        let mut collected: Vec<u8> = match self.periodic_report_accumulators.remove(&sync_handle) {
            Some(collected) => collected,
            None => Vec::new(),
        };
        let ghost earlier = collected@;
        assert(earlier =~= old(self)@.periodic_data(sync_handle));
        collected.extend_from_slice(data.as_slice());
        assert(collected@ =~= earlier + data@);
        if data_status == 1 {
            self.periodic_report_accumulators.insert(sync_handle, collected);
        } else {
            self.periodic_advertisements.push(
                PeriodicAdvertisement {
                    sync_handle,
                    advertiser_address: sync.advertiser_address,
                    advertising_sid: sync.advertising_sid,
                    tx_power,
                    rssi,
                    truncated: data_status == 2,
                    data: collected,
                },
            );
        }
        proof {
            let ghost expected = old(self)@.periodic_reported(
                sync_handle,
                tx_power,
                rssi,
                data_status,
                data@,
            );
            assert(self@.periodic_report_accumulators =~= expected.periodic_report_accumulators);
            assert(self@ =~= expected);
        }
    }

    /// A periodic advertising synchronization has been lost.
    pub fn on_periodic_sync_lost(&mut self, sync_handle: u16)
        ensures
            final(self)@ == old(self)@.periodic_sync_lost(sync_handle),
    {
        self.periodic_syncs.remove(&sync_handle);
        self.periodic_report_accumulators.remove(&sync_handle);
        self.lost_periodic_syncs.push(sync_handle);
        assert(self@.periodic_report_accumulators =~= old(self)@.periodic_sync_lost(
            sync_handle,
        ).periodic_report_accumulators);
        assert(self@ =~= old(self)@.periodic_sync_lost(sync_handle));
    }
}

impl DeviceView {
    /// An advertisement is reported, where there is one, and may answer peer
    /// lookups.
    pub open spec fn advertised(self, advertisement: Option<AdvertisementView>) -> DeviceView {
        match advertisement {
            Some(advertisement) => DeviceView {
                gap: GapView {
                    advertisements: self.gap.advertisements.push(advertisement),
                    ..self.gap
                },
                journal: self.journal.emitted(DeviceEventView::Advertisement(advertisement)),
                follow_up: Some(
                    FollowUp::CompletePeerLookups {
                        transport: PeerLookupTransport::Le,
                        peer_address: advertisement.address,
                    },
                ),
                ..self
            },
            None => self,
        }
    }

    /// A legacy advertising report arrived.
    pub open spec fn legacy_reported(self, report: AdvertisingReport) -> DeviceView {
        let content = AdvertisementView::of_legacy(report);
        let accumulator = self.gap.accumulator(report.address);
        let gap = self.gap.with_accumulator(report.address, accumulator.after(content));
        DeviceView {
            gap: GapView {
                advertising_reports: self.gap.advertising_reports.push(report@),
                ..gap
            },
            journal: self.journal.emitted(DeviceEventView::AdvertisingReport(report@)),
            ..self
        }.advertised(accumulator.reported(content))
    }

    /// An extended advertising report arrived.
    pub open spec fn extended_reported(self, report: ExtendedAdvertisingReport) -> DeviceView {
        let content = AdvertisementView::of_extended(report);
        let accumulator = self.gap.accumulator(report.address);
        let gap = self.gap.with_accumulator(report.address, accumulator.after(content));
        DeviceView {
            gap: GapView {
                extended_advertising_reports: self.gap.extended_advertising_reports.push(report@),
                ..gap
            },
            journal: self.journal.emitted(DeviceEventView::ExtendedAdvertisingReport(report@)),
            ..self
        }.advertised(accumulator.reported(content))
    }

    /// A vendor event arrived.
    pub open spec fn vendor_reported(self, data: Seq<u8>) -> DeviceView {
        DeviceView {
            gap: GapView { vendor_events: self.gap.vendor_events.push(data), ..self.gap },
            journal: self.journal.emitted(DeviceEventView::VendorEvent(data)),
            ..self
        }
    }
}

impl Device {
    /// Report an advertisement, where there is one.
    fn report_advertisement(&mut self, advertisement: Option<Advertisement>)
        requires
            old(self).wf(),
        ensures
            final(self).wf(),
            final(self)@ == old(self)@.advertised(
                crate::advertising::advertisement_view(advertisement),
            ),
    {
        match advertisement {
            Some(advertisement) => {
                let address: Address = advertisement.address;
                let ghost content = advertisement@;
                self.gap.advertisements.push(advertisement.clone());
                assert(self.gap@.advertisements =~= old(self).gap@.advertisements.push(content));
                self.journal.emit(DeviceEvent::Advertisement(advertisement));
                self.follow_up =
                Some(
                    FollowUp::CompletePeerLookups {
                        transport: PeerLookupTransport::Le,
                        peer_address: address,
                    },
                );
                assert(self@ =~= old(self)@.advertised(Some(content)));
            },
            None => {},
        }
    }

    /// A legacy advertising report has arrived.
    pub fn on_advertising_report(&mut self, report: AdvertisingReport)
        requires
            old(self).wf(),
        ensures
            final(self).wf(),
            final(self)@ == old(self)@.legacy_reported(report),
    {
        let advertisement = self.gap.accumulate(Advertisement::from_legacy_report(&report));
        let ghost gap = self.gap@;
        let ghost content = crate::advertising::advertisement_view(advertisement);
        self.gap.advertising_reports.push(report.clone());
        assert(self.gap@.advertising_reports =~= gap.advertising_reports.push(report@));
        self.journal.emit(DeviceEvent::AdvertisingReport(report));
        let ghost between = self@;
        self.report_advertisement(advertisement);
        assert(self@ =~= between.advertised(content));
        assert(between =~= (DeviceView {
            gap: GapView {
                advertising_reports: old(self)@.gap.advertising_reports.push(report@),
                ..gap
            },
            journal: old(self)@.journal.emitted(DeviceEventView::AdvertisingReport(report@)),
            ..old(self)@
        }));
    }

    /// An extended advertising report has arrived.
    pub fn on_extended_advertising_report(&mut self, report: ExtendedAdvertisingReport)
        requires
            old(self).wf(),
        ensures
            final(self).wf(),
            final(self)@ == old(self)@.extended_reported(report),
    {
        let advertisement = self.gap.accumulate(Advertisement::from_extended_report(&report));
        let ghost gap = self.gap@;
        let ghost content = crate::advertising::advertisement_view(advertisement);
        self.gap.extended_advertising_reports.push(report.clone());
        assert(self.gap@.extended_advertising_reports =~= gap.extended_advertising_reports.push(
            report@,
        ));
        self.journal.emit(DeviceEvent::ExtendedAdvertisingReport(report));
        let ghost between = self@;
        self.report_advertisement(advertisement);
        assert(self@ =~= between.advertised(content));
        assert(between =~= (DeviceView {
            gap: GapView {
                extended_advertising_reports: old(self)@.gap.extended_advertising_reports.push(
                    report@,
                ),
                ..gap
            },
            journal: old(self)@.journal.emitted(
                DeviceEventView::ExtendedAdvertisingReport(report@),
            ),
            ..old(self)@
        }));
    }

    /// A vendor event has arrived.
    pub fn on_vendor_event(&mut self, data: Vec<u8>)
        requires
            old(self).wf(),
        ensures
            final(self).wf(),
            final(self)@ == old(self)@.vendor_reported(data@),
    {
        self.gap.vendor_events.push(data.clone());
        assert(self.gap@.vendor_events =~= old(self).gap@.vendor_events.push(data@));
        self.journal.emit(DeviceEvent::VendorEvent(data));
        assert(self@ =~= old(self)@.vendor_reported(data@));
    }
}

} // verus!
