//! Advertisements, scan accumulation, and advertising configuration.

use crate::address::{Address, AddressType};
use crate::hci::{AdvertisingReport, ExtendedAdvertisingReport};
use vstd::prelude::*;

verus! {

/// Advertising or inquiry-response data, as the AD structures' bytes.
#[derive(Debug, PartialEq, Eq)]
pub struct AdvertisingData {
    pub bytes: Vec<u8>,
}

impl View for AdvertisingData {
    type V = Seq<u8>;

    open spec fn view(&self) -> Seq<u8> {
        self.bytes@
    }
}

impl Clone for AdvertisingData {
    fn clone(&self) -> (copy: Self)
        ensures
            copy@ == self@,
    {
        AdvertisingData { bytes: self.bytes.clone() }
    }
}

/// High-level legacy or extended advertising result.
#[derive(Debug, PartialEq, Eq)]
pub struct Advertisement {
    pub address: Address,
    pub rssi: i8,
    pub is_legacy: bool,
    pub is_anonymous: bool,
    pub is_connectable: bool,
    pub is_directed: bool,
    pub is_scannable: bool,
    pub is_scan_response: bool,
    pub is_complete: bool,
    pub is_truncated: bool,
    pub primary_phy: u8,
    pub secondary_phy: u8,
    pub tx_power: i8,
    pub sid: u8,
    pub data_bytes: Vec<u8>,
    pub data: AdvertisingData,
}

/// The content of an [`Advertisement`].
#[verifier::ext_equal]
pub struct AdvertisementView {
    pub address: Address,
    pub rssi: i8,
    pub is_legacy: bool,
    pub is_anonymous: bool,
    pub is_connectable: bool,
    pub is_directed: bool,
    pub is_scannable: bool,
    pub is_scan_response: bool,
    pub is_complete: bool,
    pub is_truncated: bool,
    pub primary_phy: u8,
    pub secondary_phy: u8,
    pub tx_power: i8,
    pub sid: u8,
    pub data_bytes: Seq<u8>,
    pub data: Seq<u8>,
}

impl View for Advertisement {
    type V = AdvertisementView;

    open spec fn view(&self) -> AdvertisementView {
        AdvertisementView {
            address: self.address,
            rssi: self.rssi,
            is_legacy: self.is_legacy,
            is_anonymous: self.is_anonymous,
            is_connectable: self.is_connectable,
            is_directed: self.is_directed,
            is_scannable: self.is_scannable,
            is_scan_response: self.is_scan_response,
            is_complete: self.is_complete,
            is_truncated: self.is_truncated,
            primary_phy: self.primary_phy,
            secondary_phy: self.secondary_phy,
            tx_power: self.tx_power,
            sid: self.sid,
            data_bytes: self.data_bytes@,
            data: self.data@,
        }
    }
}

impl Clone for Advertisement {
    fn clone(&self) -> (copy: Self)
        ensures
            copy@ == self@,
    {
        Advertisement {
            address: self.address,
            rssi: self.rssi,
            is_legacy: self.is_legacy,
            is_anonymous: self.is_anonymous,
            is_connectable: self.is_connectable,
            is_directed: self.is_directed,
            is_scannable: self.is_scannable,
            is_scan_response: self.is_scan_response,
            is_complete: self.is_complete,
            is_truncated: self.is_truncated,
            primary_phy: self.primary_phy,
            secondary_phy: self.secondary_phy,
            tx_power: self.tx_power,
            sid: self.sid,
            data_bytes: self.data_bytes.clone(),
            data: self.data.clone(),
        }
    }
}

const ADV_IND: u8 = 0x00;

const ADV_DIRECT_IND: u8 = 0x01;

const ADV_SCAN_IND: u8 = 0x02;

const SCAN_RSP: u8 = 0x04;

impl AdvertisementView {
    /// What a legacy report says.
    pub open spec fn of_legacy(report: AdvertisingReport) -> AdvertisementView {
        AdvertisementView {
            address: report.address,
            rssi: report.rssi,
            is_legacy: true,
            is_anonymous: false,
            is_connectable: report.event_type == 0x00 || report.event_type == 0x01,
            is_directed: report.event_type == 0x01,
            is_scannable: report.event_type == 0x00 || report.event_type == 0x02,
            is_scan_response: report.event_type == 0x04,
            is_complete: true,
            is_truncated: false,
            primary_phy: 0,
            secondary_phy: 0,
            tx_power: Advertisement::TX_POWER_NOT_AVAILABLE,
            sid: 0,
            data_bytes: report.data@,
            data: report.data@,
        }
    }

    /// What an extended report says.
    pub open spec fn of_extended(report: ExtendedAdvertisingReport) -> AdvertisementView {
        let data_status = (report.event_type >> 5) & 0x03;
        AdvertisementView {
            address: report.address,
            rssi: report.rssi,
            is_legacy: report.event_type & 0x10 != 0,
            is_anonymous: report.address_type == 0xFF,
            is_connectable: report.event_type & 0x01 != 0,
            is_directed: report.event_type & 0x04 != 0,
            is_scannable: report.event_type & 0x02 != 0,
            is_scan_response: report.event_type & 0x08 != 0,
            is_complete: data_status == 0,
            is_truncated: data_status == 2,
            primary_phy: report.primary_phy,
            secondary_phy: report.secondary_phy,
            tx_power: report.tx_power,
            sid: report.advertising_sid,
            data_bytes: report.data@,
            data: report.data@,
        }
    }
}

impl Advertisement {
    pub const TX_POWER_NOT_AVAILABLE: i8 = 0x7F;

    pub const RSSI_NOT_AVAILABLE: i8 = 0x7F;

    pub fn from_legacy_report(report: &AdvertisingReport) -> (advertisement: Self)
        ensures
            advertisement@ == AdvertisementView::of_legacy(*report),
            advertisement.is_connectable <==> report.event_type <= 1,
            advertisement.is_directed <==> report.event_type == 1,
            advertisement.is_scannable <==> report.event_type == 0 || report.event_type == 2,
            advertisement.is_scan_response <==> report.event_type == 4,
    {
        Advertisement {
            address: report.address,
            rssi: report.rssi,
            is_legacy: true,
            is_anonymous: false,
            is_connectable: report.event_type == ADV_IND || report.event_type == ADV_DIRECT_IND,
            is_directed: report.event_type == ADV_DIRECT_IND,
            is_scannable: report.event_type == ADV_IND || report.event_type == ADV_SCAN_IND,
            is_scan_response: report.event_type == SCAN_RSP,
            is_complete: true,
            is_truncated: false,
            primary_phy: 0,
            secondary_phy: 0,
            tx_power: Advertisement::TX_POWER_NOT_AVAILABLE,
            sid: 0,
            data: AdvertisingData { bytes: report.data.clone() },
            data_bytes: report.data.clone(),
        }
    }

    pub fn from_extended_report(report: &ExtendedAdvertisingReport) -> (advertisement: Self)
        ensures
            advertisement@ == AdvertisementView::of_extended(*report),
    {
        let data_status: u16 = (report.event_type >> 5) & 0x03;
        Advertisement {
            address: report.address,
            rssi: report.rssi,
            is_legacy: report.event_type & 0x10 != 0,
            is_anonymous: report.address_type == 0xFF,
            is_connectable: report.event_type & 0x01 != 0,
            is_directed: report.event_type & 0x04 != 0,
            is_scannable: report.event_type & 0x02 != 0,
            is_scan_response: report.event_type & 0x08 != 0,
            is_complete: data_status == 0,
            is_truncated: data_status == 2,
            primary_phy: report.primary_phy,
            secondary_phy: report.secondary_phy,
            tx_power: report.tx_power,
            sid: report.advertising_sid,
            data: AdvertisingData { bytes: report.data.clone() },
            data_bytes: report.data.clone(),
        }
    }
}

/// Per-advertiser active/passive scan accumulator.
#[derive(Clone, Debug)]
pub struct AdvertisementDataAccumulator {
    pub last_advertisement: Option<Advertisement>,
    pub last_data: Vec<u8>,
    pub passive: bool,
}

/// The content of an [`AdvertisementDataAccumulator`].
#[verifier::ext_equal]
pub struct AccumulatorView {
    pub last_advertisement: Option<AdvertisementView>,
    pub last_data: Seq<u8>,
    pub passive: bool,
}

impl View for AdvertisementDataAccumulator {
    type V = AccumulatorView;

    open spec fn view(&self) -> AccumulatorView {
        AccumulatorView {
            last_advertisement: match self.last_advertisement {
                Some(advertisement) => Some(advertisement@),
                None => None,
            },
            last_data: self.last_data@,
            passive: self.passive,
        }
    }
}

impl AccumulatorView {
    /// An accumulator that has seen nothing.
    pub open spec fn fresh(passive: bool) -> AccumulatorView {
        AccumulatorView { last_advertisement: None, last_data: Seq::empty(), passive }
    }

    /// Whether the last thing seen was an advertisement, not a scan response.
    pub open spec fn awaits_scan_response(self) -> bool {
        self.last_advertisement is Some && !self.last_advertisement->0.is_scan_response
    }

    /// The state after one advertisement or scan response.
    pub open spec fn after(self, advertisement: AdvertisementView) -> AccumulatorView {
        AccumulatorView {
            last_advertisement: Some(advertisement),
            last_data: if advertisement.is_scan_response {
                Seq::empty()
            } else {
                advertisement.data_bytes
            },
            passive: self.passive,
        }
    }

    /// What is reported on one advertisement or scan response.
    ///
    /// A scan response is reported together with the advertisement that it
    /// answers. An advertisement is reported at once where no scan response is
    /// due, and otherwise once the previous one has gone unanswered.
    pub open spec fn reported(self, advertisement: AdvertisementView) -> Option<
        AdvertisementView,
    > {
        if advertisement.is_scan_response {
            if self.awaits_scan_response() {
                Some(
                    AdvertisementView {
                        is_connectable: self.last_advertisement->0.is_connectable,
                        is_scannable: true,
                        data: self.last_data + advertisement.data_bytes,
                        ..advertisement
                    },
                )
            } else {
                None
            }
        } else if self.passive || !advertisement.is_scannable || self.awaits_scan_response() {
            Some(advertisement)
        } else {
            None
        }
    }
}

/// The content of an optional advertisement.
pub open spec fn advertisement_view(advertisement: Option<Advertisement>) -> Option<
    AdvertisementView,
> {
    match advertisement {
        Some(advertisement) => Some(advertisement@),
        None => None,
    }
}

impl AdvertisementDataAccumulator {
    pub fn new(passive: bool) -> (accumulator: Self)
        ensures
            accumulator@ == AccumulatorView::fresh(passive),
    {
        AdvertisementDataAccumulator { last_advertisement: None, last_data: Vec::new(), passive }
    }

    pub fn update_legacy(&mut self, report: &AdvertisingReport) -> (result: Option<Advertisement>)
        ensures
            final(self)@ == old(self)@.after(AdvertisementView::of_legacy(*report)),
            advertisement_view(result) == old(self)@.reported(
                AdvertisementView::of_legacy(*report),
            ),
    {
        self.update(Advertisement::from_legacy_report(report))
    }

    pub fn update_extended(&mut self, report: &ExtendedAdvertisingReport) -> (result: Option<
        Advertisement,
    >)
        ensures
            final(self)@ == old(self)@.after(AdvertisementView::of_extended(*report)),
            advertisement_view(result) == old(self)@.reported(
                AdvertisementView::of_extended(*report),
            ),
    {
        self.update(Advertisement::from_extended_report(report))
    }

    pub(crate) fn update(&mut self, advertisement: Advertisement) -> (result: Option<Advertisement>)
        ensures
            final(self)@ == old(self)@.after(advertisement@),
            advertisement_view(result) == old(self)@.reported(advertisement@),
    {
        let mut result: Option<Advertisement> = None;
        let (awaits, previous_connectable) = match &self.last_advertisement {
            Some(previous) => (!previous.is_scan_response, previous.is_connectable),
            None => (false, false),
        };
        if advertisement.is_scan_response {
            if awaits {
                let mut combined = advertisement.clone();
                combined.is_connectable = previous_connectable;
                combined.is_scannable = true;
                let mut data: Vec<u8> = self.last_data.clone();
                data.extend_from_slice(advertisement.data_bytes.as_slice());
                assert(data@ =~= self.last_data@ + advertisement.data_bytes@);
                combined.data = AdvertisingData { bytes: data };
                result = Some(combined);
            }
            self.last_data.clear();
        } else {
            if self.passive || !advertisement.is_scannable || awaits {
                result = Some(advertisement.clone());
            }
            self.last_data = advertisement.data_bytes.clone();
        }
        self.last_advertisement = Some(advertisement);
        result
    }
}

/// Parameters for one high-level extended-advertising set. Values map directly
/// to `LE Set Extended Advertising Parameters`; data is supplied separately so
/// the host can fragment it to HCI-sized commands.
#[derive(Clone, Copy, Debug, PartialEq, Eq)]
pub struct ExtendedAdvertisingConfig {
    pub handle: u8,
    pub event_properties: u16,
    pub interval_min: u32,
    pub interval_max: u32,
    pub channel_map: u8,
    pub own_address_type: u8,
    pub peer_address_type: u8,
    pub peer_address: Address,
    pub filter_policy: u8,
    pub tx_power: i8,
    pub primary_phy: u8,
    pub secondary_max_skip: u8,
    pub secondary_phy: u8,
    pub sid: u8,
    pub scan_request_notification: bool,
    pub duration: u16,
    pub max_events: u8,
    pub random_address: Option<Address>,
}

impl ExtendedAdvertisingConfig {
    pub fn connectable_scannable(handle: u8, random_address: Address) -> (config: Self)
        ensures
            config.handle == handle,
            config.event_properties == 0x0003,
            config.interval_min == 0x20,
            config.interval_max == 0x40,
            config.channel_map == 7,
            config.own_address_type == 1,
            config.peer_address_type == 0,
            config.peer_address.address_bytes@ == Seq::new(6, |index: int| 0u8),
            config.peer_address.address_type == AddressType::PUBLIC_DEVICE,
            config.filter_policy == 0,
            config.tx_power == 0,
            config.primary_phy == 1,
            config.secondary_max_skip == 0,
            config.secondary_phy == 1,
            config.sid == handle & 0x0F,
            config.scan_request_notification == false,
            config.duration == 0,
            config.max_events == 0,
            config.random_address == Some(random_address),
    {
        ExtendedAdvertisingConfig {
            handle,
            event_properties: 0x0003,
            interval_min: 0x20,
            interval_max: 0x40,
            channel_map: 7,
            own_address_type: 1,
            peer_address_type: 0,
            peer_address: Address::from_bytes([0; 6], AddressType::PUBLIC_DEVICE),
            filter_policy: 0,
            tx_power: 0,
            primary_phy: 1,
            secondary_max_skip: 0,
            secondary_phy: 1,
            sid: handle & 0x0F,
            scan_request_notification: false,
            duration: 0,
            max_events: 0,
            random_address: Some(random_address),
        }
    }
}

/// Parameters for a periodic advertising train attached to an extended set.
#[derive(Clone, Copy, Debug, PartialEq, Eq, Structural)]
pub struct PeriodicAdvertisingConfig {
    pub handle: u8,
    pub interval_min: u16,
    pub interval_max: u16,
    pub properties: u16,
    pub include_adi: bool,
}

impl PeriodicAdvertisingConfig {
    pub fn new(handle: u8) -> (config: Self)
        ensures
            config == (PeriodicAdvertisingConfig {
                handle,
                interval_min: 0x00A0,
                interval_max: 0x00A0,
                properties: 0,
                include_adi: false,
            }),
    {
        PeriodicAdvertisingConfig {
            handle,
            interval_min: 0x00A0,
            interval_max: 0x00A0,
            properties: 0,
            include_adi: false,
        }
    }
}

/// An established periodic advertising synchronization.
#[derive(Clone, Copy, Debug, PartialEq, Eq)]
pub struct PeriodicAdvertisingSyncInfo {
    pub sync_handle: u16,
    pub advertising_sid: u8,
    pub advertiser_address_type: u8,
    pub advertiser_address: Address,
    pub advertiser_phy: u8,
    pub interval: u16,
    pub advertiser_clock_accuracy: u8,
}

/// Metadata accompanying a sync received through PAST over an LE connection.
#[derive(Clone, Copy, Debug, PartialEq, Eq)]
pub struct PeriodicAdvertisingSyncTransferInfo {
    pub connection_handle: u16,
    pub service_data: u16,
    pub sync: PeriodicAdvertisingSyncInfo,
}

/// One complete periodic advertisement after HCI report-fragment assembly.
#[derive(Debug, PartialEq, Eq)]
pub struct PeriodicAdvertisement {
    pub sync_handle: u16,
    pub advertiser_address: Address,
    pub advertising_sid: u8,
    pub tx_power: i8,
    pub rssi: i8,
    pub truncated: bool,
    pub data: Vec<u8>,
}

/// The content of a [`PeriodicAdvertisement`].
#[verifier::ext_equal]
pub struct PeriodicAdvertisementView {
    pub sync_handle: u16,
    pub advertiser_address: Address,
    pub advertising_sid: u8,
    pub tx_power: i8,
    pub rssi: i8,
    pub truncated: bool,
    pub data: Seq<u8>,
}

impl View for PeriodicAdvertisement {
    type V = PeriodicAdvertisementView;

    open spec fn view(&self) -> PeriodicAdvertisementView {
        PeriodicAdvertisementView {
            sync_handle: self.sync_handle,
            advertiser_address: self.advertiser_address,
            advertising_sid: self.advertising_sid,
            tx_power: self.tx_power,
            rssi: self.rssi,
            truncated: self.truncated,
            data: self.data@,
        }
    }
}

impl Clone for PeriodicAdvertisement {
    fn clone(&self) -> (copy: Self)
        ensures
            copy@ == self@,
    {
        PeriodicAdvertisement {
            sync_handle: self.sync_handle,
            advertiser_address: self.advertiser_address,
            advertising_sid: self.advertising_sid,
            tx_power: self.tx_power,
            rssi: self.rssi,
            truncated: self.truncated,
            data: self.data.clone(),
        }
    }
}

} // verus!
