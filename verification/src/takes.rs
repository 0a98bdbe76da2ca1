//! Draining the lists that a device keeps for its application.

use crate::address::Address;
use crate::advertising::{
    Advertisement, PeriodicAdvertisement, PeriodicAdvertisingSyncTransferInfo,
};
use crate::channel_sounding::{
    ChannelSoundingError, ChannelSoundingSubeventResult, ChannelSoundingSubeventResultContinue,
};
use crate::classic::{ClassicInquiryResultInfo, ClassicPairingEvent, RemoteNameResult};
use crate::connection::{ConnectionFeatureError, LeConnectionControlEvent};
use crate::content::byte_strings;
use crate::device::{Device, DeviceView};
use crate::events::{event_views, DeviceEvent};
use crate::hci::{AdvertisingReport, ExtendedAdvertisingReport, SynchronousDataPacket};
use crate::iso::{BigInfoReport, CisControlEvent, CisRequestInfo, IsoControlEvent};
use crate::lookup::PeerLookupResult;
use crate::retain::take_all;
use crate::state::{ClassicView, GapView, IsoView, JournalView, LeView, LookupView};
use vstd::prelude::*;

verus! {

impl Device {
    /// Take the high-level event journal in emission order.
    pub fn take_device_events(&mut self) -> (events: Vec<DeviceEvent>)
        requires
            old(self).wf(),
        ensures
            final(self).wf(),
            event_views(events@) == old(self)@.journal.device_events,
            final(self)@ == (DeviceView {
                journal: JournalView { device_events: Seq::empty(), ..old(self)@.journal },
                ..old(self)@
            }),
    {
        let events = self.journal.take();
        assert(self@ =~= (DeviceView {
            journal: JournalView { device_events: Seq::empty(), ..old(self)@.journal },
            ..old(self)@
        }));
        events
    }

    /// Take the failures to read features, oldest first.
    pub fn take_connection_feature_errors(&mut self) -> (taken: Vec<ConnectionFeatureError>)
        requires
            old(self).wf(),
        ensures
            final(self).wf(),
            taken@ == old(self)@.le.connection_feature_errors,
            final(self)@ == (DeviceView {
                le: LeView { connection_feature_errors: Seq::empty(), ..old(self)@.le },
                ..old(self)@
            }),
    {
        let taken = take_all(&mut self.le.connection_feature_errors);
        assert(self@ =~= (DeviceView {
            le: LeView { connection_feature_errors: Seq::empty(), ..old(self)@.le },
            ..old(self)@
        }));
        taken
    }

    /// Take completed LE connection-control requests and asynchronous changes.
    pub fn take_connection_control_events(&mut self) -> (taken: Vec<LeConnectionControlEvent>)
        requires
            old(self).wf(),
        ensures
            final(self).wf(),
            taken@ == old(self)@.le.connection_control_events,
            final(self)@ == (DeviceView {
                le: LeView { connection_control_events: Seq::empty(), ..old(self)@.le },
                ..old(self)@
            }),
    {
        let taken = take_all(&mut self.le.connection_control_events);
        assert(self@ =~= (DeviceView {
            le: LeView { connection_control_events: Seq::empty(), ..old(self)@.le },
            ..old(self)@
        }));
        taken
    }

    /// Take the errors of Channel Sounding, oldest first.
    pub fn take_channel_sounding_errors(&mut self) -> (taken: Vec<ChannelSoundingError>)
        requires
            old(self).wf(),
        ensures
            final(self).wf(),
            taken@ == old(self)@.le.channel_sounding_errors,
            final(self)@ == (DeviceView {
                le: LeView { channel_sounding_errors: Seq::empty(), ..old(self)@.le },
                ..old(self)@
            }),
    {
        let taken = take_all(&mut self.le.channel_sounding_errors);
        assert(self@ =~= (DeviceView {
            le: LeView { channel_sounding_errors: Seq::empty(), ..old(self)@.le },
            ..old(self)@
        }));
        taken
    }

    /// Take the outcomes of Channel Sounding security, oldest first.
    pub fn take_channel_sounding_security_results(&mut self) -> (taken: Vec<(u16, u8)>)
        requires
            old(self).wf(),
        ensures
            final(self).wf(),
            taken@ == old(self)@.le.channel_sounding_security_results,
            final(self)@ == (DeviceView {
                le: LeView { channel_sounding_security_results: Seq::empty(), ..old(self)@.le },
                ..old(self)@
            }),
    {
        let taken = take_all(&mut self.le.channel_sounding_security_results);
        assert(self@ =~= (DeviceView {
            le: LeView { channel_sounding_security_results: Seq::empty(), ..old(self)@.le },
            ..old(self)@
        }));
        taken
    }

    /// Take the results of Channel Sounding subevents, oldest first.
    pub fn take_channel_sounding_subevent_results(&mut self) -> (taken: Vec<ChannelSoundingSubeventResult>)
        requires
            old(self).wf(),
        ensures
            final(self).wf(),
            taken@.map_values(|entry: ChannelSoundingSubeventResult| entry@) == old(self)@.le.channel_sounding_subevent_results,
            final(self)@ == (DeviceView {
                le: LeView { channel_sounding_subevent_results: Seq::empty(), ..old(self)@.le },
                ..old(self)@
            }),
    {
        let taken = take_all(&mut self.le.channel_sounding_subevent_results);
        assert(self@.le.channel_sounding_subevent_results =~= Seq::empty());
        assert(self@ =~= (DeviceView {
            le: LeView { channel_sounding_subevent_results: Seq::empty(), ..old(self)@.le },
            ..old(self)@
        }));
        taken
    }

    /// Take the continued results of Channel Sounding subevents, oldest first.
    pub fn take_channel_sounding_subevent_result_continuations(&mut self) -> (taken: Vec<ChannelSoundingSubeventResultContinue>)
        requires
            old(self).wf(),
        ensures
            final(self).wf(),
            taken@.map_values(|entry: ChannelSoundingSubeventResultContinue| entry@) == old(self)@.le.channel_sounding_subevent_result_continuations,
            final(self)@ == (DeviceView {
                le: LeView { channel_sounding_subevent_result_continuations: Seq::empty(), ..old(self)@.le },
                ..old(self)@
            }),
    {
        let taken = take_all(&mut self.le.channel_sounding_subevent_result_continuations);
        assert(self@.le.channel_sounding_subevent_result_continuations =~= Seq::empty());
        assert(self@ =~= (DeviceView {
            le: LeView { channel_sounding_subevent_result_continuations: Seq::empty(), ..old(self)@.le },
            ..old(self)@
        }));
        taken
    }

    /// Take the vendor events, oldest first.
    pub fn take_vendor_events(&mut self) -> (taken: Vec<Vec<u8>>)
        requires
            old(self).wf(),
        ensures
            final(self).wf(),
            byte_strings(taken@) == old(self)@.gap.vendor_events,
            final(self)@ == (DeviceView {
                gap: GapView { vendor_events: Seq::empty(), ..old(self)@.gap },
                ..old(self)@
            }),
    {
        let taken = take_all(&mut self.gap.vendor_events);
        assert(self@.gap.vendor_events =~= Seq::empty());
        assert(self@ =~= (DeviceView {
            gap: GapView { vendor_events: Seq::empty(), ..old(self)@.gap },
            ..old(self)@
        }));
        taken
    }

    /// Take the legacy advertising reports, oldest first.
    pub fn take_advertising_reports(&mut self) -> (taken: Vec<AdvertisingReport>)
        requires
            old(self).wf(),
        ensures
            final(self).wf(),
            taken@.map_values(|entry: AdvertisingReport| entry@) == old(self)@.gap.advertising_reports,
            final(self)@ == (DeviceView {
                gap: GapView { advertising_reports: Seq::empty(), ..old(self)@.gap },
                ..old(self)@
            }),
    {
        let taken = take_all(&mut self.gap.advertising_reports);
        assert(self@.gap.advertising_reports =~= Seq::empty());
        assert(self@ =~= (DeviceView {
            gap: GapView { advertising_reports: Seq::empty(), ..old(self)@.gap },
            ..old(self)@
        }));
        taken
    }

    /// Take the extended advertising reports, oldest first.
    pub fn take_extended_advertising_reports(&mut self) -> (taken: Vec<ExtendedAdvertisingReport>)
        requires
            old(self).wf(),
        ensures
            final(self).wf(),
            taken@.map_values(|entry: ExtendedAdvertisingReport| entry@) == old(self)@.gap.extended_advertising_reports,
            final(self)@ == (DeviceView {
                gap: GapView { extended_advertising_reports: Seq::empty(), ..old(self)@.gap },
                ..old(self)@
            }),
    {
        let taken = take_all(&mut self.gap.extended_advertising_reports);
        assert(self@.gap.extended_advertising_reports =~= Seq::empty());
        assert(self@ =~= (DeviceView {
            gap: GapView { extended_advertising_reports: Seq::empty(), ..old(self)@.gap },
            ..old(self)@
        }));
        taken
    }

    /// Take the advertisements put together from reports, oldest first.
    pub fn take_advertisements(&mut self) -> (taken: Vec<Advertisement>)
        requires
            old(self).wf(),
        ensures
            final(self).wf(),
            taken@.map_values(|entry: Advertisement| entry@) == old(self)@.gap.advertisements,
            final(self)@ == (DeviceView {
                gap: GapView { advertisements: Seq::empty(), ..old(self)@.gap },
                ..old(self)@
            }),
    {
        let taken = take_all(&mut self.gap.advertisements);
        assert(self@.gap.advertisements =~= Seq::empty());
        assert(self@ =~= (DeviceView {
            gap: GapView { advertisements: Seq::empty(), ..old(self)@.gap },
            ..old(self)@
        }));
        taken
    }

    /// Take the periodic advertisements put together from reports.
    pub fn take_periodic_advertisements(&mut self) -> (taken: Vec<PeriodicAdvertisement>)
        requires
            old(self).wf(),
        ensures
            final(self).wf(),
            taken@.map_values(|entry: PeriodicAdvertisement| entry@) == old(self)@.gap.periodic_advertisements,
            final(self)@ == (DeviceView {
                gap: GapView { periodic_advertisements: Seq::empty(), ..old(self)@.gap },
                ..old(self)@
            }),
    {
        let taken = take_all(&mut self.gap.periodic_advertisements);
        assert(self@.gap.periodic_advertisements =~= Seq::empty());
        assert(self@ =~= (DeviceView {
            gap: GapView { periodic_advertisements: Seq::empty(), ..old(self)@.gap },
            ..old(self)@
        }));
        taken
    }

    /// Take the errors of periodic synchronization, oldest first.
    pub fn take_periodic_sync_errors(&mut self) -> (taken: Vec<u8>)
        requires
            old(self).wf(),
        ensures
            final(self).wf(),
            taken@ == old(self)@.gap.periodic_sync_errors,
            final(self)@ == (DeviceView {
                gap: GapView { periodic_sync_errors: Seq::empty(), ..old(self)@.gap },
                ..old(self)@
            }),
    {
        let taken = take_all(&mut self.gap.periodic_sync_errors);
        assert(self@ =~= (DeviceView {
            gap: GapView { periodic_sync_errors: Seq::empty(), ..old(self)@.gap },
            ..old(self)@
        }));
        taken
    }

    /// Take the handles of lost periodic syncs, oldest first.
    pub fn take_lost_periodic_syncs(&mut self) -> (taken: Vec<u16>)
        requires
            old(self).wf(),
        ensures
            final(self).wf(),
            taken@ == old(self)@.gap.lost_periodic_syncs,
            final(self)@ == (DeviceView {
                gap: GapView { lost_periodic_syncs: Seq::empty(), ..old(self)@.gap },
                ..old(self)@
            }),
    {
        let taken = take_all(&mut self.gap.lost_periodic_syncs);
        assert(self@ =~= (DeviceView {
            gap: GapView { lost_periodic_syncs: Seq::empty(), ..old(self)@.gap },
            ..old(self)@
        }));
        taken
    }

    /// Take the transfers of periodic syncs, oldest first.
    pub fn take_periodic_sync_transfers(&mut self) -> (taken: Vec<PeriodicAdvertisingSyncTransferInfo>)
        requires
            old(self).wf(),
        ensures
            final(self).wf(),
            taken@ == old(self)@.gap.periodic_sync_transfers,
            final(self)@ == (DeviceView {
                gap: GapView { periodic_sync_transfers: Seq::empty(), ..old(self)@.gap },
                ..old(self)@
            }),
    {
        let taken = take_all(&mut self.gap.periodic_sync_transfers);
        assert(self@ =~= (DeviceView {
            gap: GapView { periodic_sync_transfers: Seq::empty(), ..old(self)@.gap },
            ..old(self)@
        }));
        taken
    }

    /// Take completed peer lookups in discovery order.
    pub fn take_peer_lookup_results(&mut self) -> (taken: Vec<PeerLookupResult>)
        requires
            old(self).wf(),
        ensures
            final(self).wf(),
            taken@ == old(self)@.lookups.peer_lookup_results,
            final(self)@ == (DeviceView {
                lookups: LookupView { peer_lookup_results: Seq::empty(), ..old(self)@.lookups },
                ..old(self)@
            }),
    {
        let taken = take_all(&mut self.lookups.peer_lookup_results);
        assert(self@ =~= (DeviceView {
            lookups: LookupView { peer_lookup_results: Seq::empty(), ..old(self)@.lookups },
            ..old(self)@
        }));
        taken
    }

    /// Take the Classic connection requests, oldest first.
    pub fn take_classic_connection_requests(&mut self) -> (taken: Vec<Address>)
        requires
            old(self).wf(),
        ensures
            final(self).wf(),
            taken@ == old(self)@.classic.classic_connection_requests,
            final(self)@ == (DeviceView {
                classic: ClassicView { classic_connection_requests: Seq::empty(), ..old(self)@.classic },
                ..old(self)@
            }),
    {
        let taken = take_all(&mut self.classic.classic_connection_requests);
        assert(self@ =~= (DeviceView {
            classic: ClassicView { classic_connection_requests: Seq::empty(), ..old(self)@.classic },
            ..old(self)@
        }));
        taken
    }

    /// Take the addresses that inquiries found, oldest first.
    pub fn take_classic_inquiry_results(&mut self) -> (taken: Vec<Address>)
        requires
            old(self).wf(),
        ensures
            final(self).wf(),
            taken@ == old(self)@.classic.classic_inquiry_results,
            final(self)@ == (DeviceView {
                classic: ClassicView { classic_inquiry_results: Seq::empty(), ..old(self)@.classic },
                ..old(self)@
            }),
    {
        let taken = take_all(&mut self.classic.classic_inquiry_results);
        assert(self@ =~= (DeviceView {
            classic: ClassicView { classic_inquiry_results: Seq::empty(), ..old(self)@.classic },
            ..old(self)@
        }));
        taken
    }

    /// Take the details of inquiry results, oldest first.
    pub fn take_classic_inquiry_result_details(&mut self) -> (taken: Vec<ClassicInquiryResultInfo>)
        requires
            old(self).wf(),
        ensures
            final(self).wf(),
            taken@.map_values(|entry: ClassicInquiryResultInfo| entry@) == old(self)@.classic.classic_inquiry_result_details,
            final(self)@ == (DeviceView {
                classic: ClassicView { classic_inquiry_result_details: Seq::empty(), ..old(self)@.classic },
                ..old(self)@
            }),
    {
        let taken = take_all(&mut self.classic.classic_inquiry_result_details);
        assert(self@.classic.classic_inquiry_result_details =~= Seq::empty());
        assert(self@ =~= (DeviceView {
            classic: ClassicView { classic_inquiry_result_details: Seq::empty(), ..old(self)@.classic },
            ..old(self)@
        }));
        taken
    }

    /// Take the outcomes of inquiries, oldest first.
    pub fn take_classic_inquiry_complete(&mut self) -> (taken: Vec<u8>)
        requires
            old(self).wf(),
        ensures
            final(self).wf(),
            taken@ == old(self)@.classic.classic_inquiry_complete,
            final(self)@ == (DeviceView {
                classic: ClassicView { classic_inquiry_complete: Seq::empty(), ..old(self)@.classic },
                ..old(self)@
            }),
    {
        let taken = take_all(&mut self.classic.classic_inquiry_complete);
        assert(self@ =~= (DeviceView {
            classic: ClassicView { classic_inquiry_complete: Seq::empty(), ..old(self)@.classic },
            ..old(self)@
        }));
        taken
    }

    /// Take the names of Classic peers, oldest first.
    pub fn take_classic_remote_names(&mut self) -> (taken: Vec<(u8, Address, String)>)
        requires
            old(self).wf(),
        ensures
            final(self).wf(),
            taken@.map_values(|entry: (u8, Address, String)| (entry.0, entry.1, entry.2@)) == old(
                self,
            )@.classic.classic_remote_names,
            final(self)@ == (DeviceView {
                classic: ClassicView { classic_remote_names: Seq::empty(), ..old(self)@.classic },
                ..old(self)@
            }),
    {
        let taken = take_all(&mut self.classic.classic_remote_names);
        assert(self@.classic.classic_remote_names =~= Seq::empty());
        assert(self@ =~= (DeviceView {
            classic: ClassicView { classic_remote_names: Seq::empty(), ..old(self)@.classic },
            ..old(self)@
        }));
        taken
    }

    /// Take successful and failed Classic remote-name completions in order.
    pub fn take_classic_remote_name_results(&mut self) -> (taken: Vec<RemoteNameResult>)
        requires
            old(self).wf(),
        ensures
            final(self).wf(),
            taken@.map_values(|entry: RemoteNameResult| entry@) == old(self)@.classic.classic_remote_name_results,
            final(self)@ == (DeviceView {
                classic: ClassicView { classic_remote_name_results: Seq::empty(), ..old(self)@.classic },
                ..old(self)@
            }),
    {
        let taken = take_all(&mut self.classic.classic_remote_name_results);
        assert(self@.classic.classic_remote_name_results =~= Seq::empty());
        assert(self@ =~= (DeviceView {
            classic: ClassicView { classic_remote_name_results: Seq::empty(), ..old(self)@.classic },
            ..old(self)@
        }));
        taken
    }

    /// Take all pending Classic PIN/SSP authentication events.
    pub fn take_classic_pairing_events(&mut self) -> (taken: Vec<ClassicPairingEvent>)
        requires
            old(self).wf(),
        ensures
            final(self).wf(),
            taken@ == old(self)@.classic.classic_pairing_events,
            final(self)@ == (DeviceView {
                classic: ClassicView { classic_pairing_events: Seq::empty(), ..old(self)@.classic },
                ..old(self)@
            }),
    {
        let taken = take_all(&mut self.classic.classic_pairing_events);
        assert(self@ =~= (DeviceView {
            classic: ClassicView { classic_pairing_events: Seq::empty(), ..old(self)@.classic },
            ..old(self)@
        }));
        taken
    }

    /// Take the requests for synchronous connections, oldest first.
    pub fn take_synchronous_requests(&mut self) -> (taken: Vec<(Address, u8)>)
        requires
            old(self).wf(),
        ensures
            final(self).wf(),
            taken@ == old(self)@.classic.synchronous_requests,
            final(self)@ == (DeviceView {
                classic: ClassicView { synchronous_requests: Seq::empty(), ..old(self)@.classic },
                ..old(self)@
            }),
    {
        let taken = take_all(&mut self.classic.synchronous_requests);
        assert(self@ =~= (DeviceView {
            classic: ClassicView { synchronous_requests: Seq::empty(), ..old(self)@.classic },
            ..old(self)@
        }));
        taken
    }

    /// Take the synchronous data received so far, oldest first.
    pub fn take_synchronous_inbox(&mut self) -> (taken: Vec<SynchronousDataPacket>)
        requires
            old(self).wf(),
        ensures
            final(self).wf(),
            taken@ == old(self)@.classic.synchronous_inbox,
            final(self)@ == (DeviceView {
                classic: ClassicView { synchronous_inbox: Seq::empty(), ..old(self)@.classic },
                ..old(self)@
            }),
    {
        let taken = take_all(&mut self.classic.synchronous_inbox);
        assert(self@ =~= (DeviceView {
            classic: ClassicView { synchronous_inbox: Seq::empty(), ..old(self)@.classic },
            ..old(self)@
        }));
        taken
    }

    /// Take the handles of configured CIS, oldest first.
    pub fn take_configured_cis_handles(&mut self) -> (taken: Vec<u16>)
        requires
            old(self).wf(),
        ensures
            final(self).wf(),
            taken@ == old(self)@.iso.configured_cis_handles,
            final(self)@ == (DeviceView {
                iso: IsoView { configured_cis_handles: Seq::empty(), ..old(self)@.iso },
                ..old(self)@
            }),
    {
        let taken = take_all(&mut self.iso.configured_cis_handles);
        assert(self@ =~= (DeviceView {
            iso: IsoView { configured_cis_handles: Seq::empty(), ..old(self)@.iso },
            ..old(self)@
        }));
        taken
    }

    /// Take the requests for CIS, oldest first.
    pub fn take_cis_requests(&mut self) -> (taken: Vec<CisRequestInfo>)
        requires
            old(self).wf(),
        ensures
            final(self).wf(),
            taken@ == old(self)@.iso.cis_requests,
            final(self)@ == (DeviceView {
                iso: IsoView { cis_requests: Seq::empty(), ..old(self)@.iso },
                ..old(self)@
            }),
    {
        let taken = take_all(&mut self.iso.cis_requests);
        assert(self@ =~= (DeviceView {
            iso: IsoView { cis_requests: Seq::empty(), ..old(self)@.iso },
            ..old(self)@
        }));
        taken
    }

    /// Take the outcomes of CIS procedures, oldest first.
    pub fn take_cis_control_events(&mut self) -> (taken: Vec<CisControlEvent>)
        requires
            old(self).wf(),
        ensures
            final(self).wf(),
            taken@.map_values(|entry: CisControlEvent| entry@) == old(self)@.iso.cis_control_events,
            final(self)@ == (DeviceView {
                iso: IsoView { cis_control_events: Seq::empty(), ..old(self)@.iso },
                ..old(self)@
            }),
    {
        let taken = take_all(&mut self.iso.cis_control_events);
        assert(self@.iso.cis_control_events =~= Seq::empty());
        assert(self@ =~= (DeviceView {
            iso: IsoView { cis_control_events: Seq::empty(), ..old(self)@.iso },
            ..old(self)@
        }));
        taken
    }

    /// Take the reports of broadcast groups, oldest first.
    pub fn take_biginfo_reports(&mut self) -> (taken: Vec<BigInfoReport>)
        requires
            old(self).wf(),
        ensures
            final(self).wf(),
            taken@ == old(self)@.iso.biginfo_reports,
            final(self)@ == (DeviceView {
                iso: IsoView { biginfo_reports: Seq::empty(), ..old(self)@.iso },
                ..old(self)@
            }),
    {
        let taken = take_all(&mut self.iso.biginfo_reports);
        assert(self@ =~= (DeviceView {
            iso: IsoView { biginfo_reports: Seq::empty(), ..old(self)@.iso },
            ..old(self)@
        }));
        taken
    }

    /// Take the errors of broadcast groups, oldest first.
    pub fn take_big_errors(&mut self) -> (taken: Vec<(u8, u8)>)
        requires
            old(self).wf(),
        ensures
            final(self).wf(),
            taken@ == old(self)@.iso.big_errors,
            final(self)@ == (DeviceView {
                iso: IsoView { big_errors: Seq::empty(), ..old(self)@.iso },
                ..old(self)@
            }),
    {
        let taken = take_all(&mut self.iso.big_errors);
        assert(self@ =~= (DeviceView {
            iso: IsoView { big_errors: Seq::empty(), ..old(self)@.iso },
            ..old(self)@
        }));
        taken
    }

    /// Take the terminated broadcast groups, oldest first.
    pub fn take_terminated_bigs(&mut self) -> (taken: Vec<(u8, u8)>)
        requires
            old(self).wf(),
        ensures
            final(self).wf(),
            taken@ == old(self)@.iso.terminated_bigs,
            final(self)@ == (DeviceView {
                iso: IsoView { terminated_bigs: Seq::empty(), ..old(self)@.iso },
                ..old(self)@
            }),
    {
        let taken = take_all(&mut self.iso.terminated_bigs);
        assert(self@ =~= (DeviceView {
            iso: IsoView { terminated_bigs: Seq::empty(), ..old(self)@.iso },
            ..old(self)@
        }));
        taken
    }

    /// Take the outcomes of ISO data path procedures, oldest first.
    pub fn take_iso_control_events(&mut self) -> (taken: Vec<IsoControlEvent>)
        requires
            old(self).wf(),
        ensures
            final(self).wf(),
            taken@.map_values(|entry: IsoControlEvent| entry@) == old(self)@.iso.iso_control_events,
            final(self)@ == (DeviceView {
                iso: IsoView { iso_control_events: Seq::empty(), ..old(self)@.iso },
                ..old(self)@
            }),
    {
        let taken = take_all(&mut self.iso.iso_control_events);
        assert(self@.iso.iso_control_events =~= Seq::empty());
        assert(self@ =~= (DeviceView {
            iso: IsoView { iso_control_events: Seq::empty(), ..old(self)@.iso },
            ..old(self)@
        }));
        taken
    }
}

} // verus!
