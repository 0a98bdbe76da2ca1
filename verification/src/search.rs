//! Searching for a peer by name or identity.

use crate::address::Address;
use crate::advertise::{starts_scanning, stop_scan_command};
use crate::classic_link::discovery_commands;
use crate::content::copy_bytes;
use crate::device::{Device, DeviceView};
use crate::events::{DeviceEvent, DeviceEventView};
use crate::hci::Command;
use crate::ids::{first_free, free_id, next_id, spec_next_id};
use crate::lookup::{
    PeerLookupError, PeerLookupId, PeerLookupRequest, PeerLookupRequestView, PeerLookupResult,
    PeerLookupTransport,
};
use crate::ordered::{lemma_one_listing_u64, lists_u64, sorted_ids, sorted_u64};
use crate::retain::{lemma_filter_empty, lemma_filter_step};
use crate::setup::{le_feature_bit, LE_FEATURE_EXTENDED_ADVERTISING};
use crate::state::{ClassicView, LookupState, LookupView};
use crate::transport::{
    command_if, commands, lemma_commands_none, lemma_sent_between, only_commands, push_when,
    send_all, sent_between, HostAction, HostTransport,
};
use vstd::prelude::*;
use vstd::utf8::encode_utf8;

verus! {

broadcast use vstd::laws_cmp::group_laws_cmp;

/// What is known of a device that was heard.
#[verifier::ext_equal]
pub struct Sighting {
    pub transport: PeerLookupTransport,
    pub peer_address: Address,
    pub local_name: Option<Seq<u8>>,
    pub identity_address: Option<Address>,
}

impl PeerLookupRequestView {
    /// Whether a sighting is what a lookup waits for: the name on the right
    /// radio, or the identity behind the address.
    pub open spec fn answered_by(self, sighting: Sighting) -> bool {
        match self {
            PeerLookupRequestView::Name { name, transport } => {
                &&& transport == sighting.transport
                &&& sighting.local_name == Some(name)
            },
            PeerLookupRequestView::Identity { identity_address } => {
                &&& sighting.transport == PeerLookupTransport::Le
                &&& (sighting.peer_address == identity_address || sighting.identity_address
                    == Some(identity_address))
            },
        }
    }
}

/// Selects the lookups that a sighting answers.
pub open spec fn answered(
    pending: Map<u64, PeerLookupRequestView>,
    sighting: Sighting,
) -> spec_fn(u64) -> bool {
    |lookup_id: u64| pending[lookup_id].answered_by(sighting)
}

impl LookupView {
    /// Whether a lookup listens on a radio.
    pub open spec fn waits_on(self, transport: PeerLookupTransport) -> bool {
        exists|lookup_id: u64| #[trigger]
            self.pending_peer_lookups.contains_key(lookup_id)
                && self.pending_peer_lookups[lookup_id].transport() == transport
    }

    /// Whether everything that lookups have started is needed by one that is
    /// pending.
    pub open spec fn searches_are_needed(self) -> bool {
        &&& self.peer_lookup_started_scanning is Some ==> self.waits_on(PeerLookupTransport::Le)
        &&& self.peer_lookup_started_discovery ==> self.waits_on(PeerLookupTransport::Classic)
    }

    /// The lookups that a sighting answers, in the order of their numbers.
    pub open spec fn answered_ids(self, sighting: Sighting) -> Seq<u64> {
        sorted_u64(self.pending_peer_lookups.dom()).filter(
            answered(self.pending_peer_lookups, sighting),
        )
    }

    /// The result of a lookup that a sighting answers.
    pub open spec fn result_of(self, lookup_id: u64, peer_address: Address) -> PeerLookupResult {
        PeerLookupResult {
            lookup_id,
            transport: self.pending_peer_lookups[lookup_id].transport(),
            peer_address,
        }
    }

    /// The results of some lookups.
    pub open spec fn results_of(self, lookup_ids: Seq<u64>, peer_address: Address) -> Seq<
        PeerLookupResult,
    > {
        lookup_ids.map_values(|lookup_id: u64| self.result_of(lookup_id, peer_address))
    }
}

/// The announcements of results.
pub open spec fn found_events(results: Seq<PeerLookupResult>) -> Seq<DeviceEventView> {
    results.map_values(|result: PeerLookupResult| DeviceEventView::PeerFound(result))
}

impl DeviceView {
    /// Whether the controller can scan for extended advertisements.
    pub open spec fn scans_extended(self) -> bool {
        le_feature_bit(self.setup.le_features, LE_FEATURE_EXTENDED_ADVERTISING)
    }

    /// A device whose application has started discovery.
    pub open spec fn discovery_started(self, auto_restart: bool) -> DeviceView {
        DeviceView {
            lookups: LookupView { peer_lookup_started_discovery: false, ..self.lookups },
            classic: ClassicView {
                classic_auto_restart_inquiry: auto_restart,
                classic_discovering: true,
                ..self.classic
            },
            ..self
        }
    }

    /// A device whose application has stopped discovery.
    pub open spec fn discovery_stopped(self) -> DeviceView {
        DeviceView {
            lookups: LookupView { peer_lookup_started_discovery: false, ..self.lookups },
            classic: ClassicView {
                classic_auto_restart_inquiry: true,
                classic_discovering: false,
                ..self.classic
            },
            ..self
        }
    }

    /// The scanning that lookups started, ended where none needs it.
    pub open spec fn scanning_finished(self) -> DeviceView {
        if self.ends_scanning() {
            self.scanning_stopped()
        } else {
            self
        }
    }

    /// Whether scanning that lookups started is no longer needed.
    pub open spec fn ends_scanning(self) -> bool {
        !self.lookups.waits_on(PeerLookupTransport::Le)
            && self.lookups.peer_lookup_started_scanning is Some
    }

    /// Whether discovery that lookups started is no longer needed.
    pub open spec fn ends_discovery(self) -> bool {
        !self.lookups.waits_on(PeerLookupTransport::Classic)
            && self.lookups.peer_lookup_started_discovery
    }

    /// A device that has ended what lookups started and none needs.
    pub open spec fn search_finished(self) -> DeviceView {
        let scanned = self.scanning_finished();
        if self.ends_discovery() {
            scanned.discovery_stopped()
        } else {
            scanned
        }
    }

    /// The commands that end what lookups started and none needs.
    pub open spec fn search_finish_sends(self) -> Seq<Command> {
        command_if(
            self.ends_scanning(),
            stop_scan_command(self.lookups.peer_lookup_started_scanning->0),
        ) + command_if(
            self.ends_discovery() && self.classic.classic_discovering,
            Command::InquiryCancel,
        )
    }

    /// A device that was heard answers some lookups.
    pub open spec fn sighted(self, sighting: Sighting) -> DeviceView {
        self.with_found(self.lookups.answered_ids(sighting), sighting.peer_address)
    }

    /// A device with one more lookup.
    pub open spec fn with_lookup(
        self,
        lookup_id: u64,
        request: PeerLookupRequestView,
    ) -> DeviceView {
        DeviceView {
            lookups: LookupView {
                pending_peer_lookups: self.lookups.pending_peer_lookups.insert(lookup_id, request),
                next_peer_lookup_id: spec_next_id(lookup_id),
                ..self.lookups
            },
            ..self
        }
    }

    /// Whether a new lookup on a radio starts to listen.
    pub open spec fn search_starts(self, transport: PeerLookupTransport) -> bool {
        match transport {
            PeerLookupTransport::Le => !self.gap.scanning,
            PeerLookupTransport::Classic => !self.classic.classic_discovering,
        }
    }

    /// A device that listens on a radio.
    pub open spec fn searching(self, transport: PeerLookupTransport) -> DeviceView {
        if !self.search_starts(transport) {
            self
        } else {
            match transport {
                PeerLookupTransport::Le => {
                    let scanning = self.scanning_started(true);
                    DeviceView {
                        lookups: LookupView {
                            peer_lookup_started_scanning: Some(self.scans_extended()),
                            ..scanning.lookups
                        },
                        ..scanning
                    }
                },
                PeerLookupTransport::Classic => {
                    let discovering = self.discovery_started(true);
                    DeviceView {
                        lookups: LookupView {
                            peer_lookup_started_discovery: true,
                            ..discovering.lookups
                        },
                        ..discovering
                    }
                },
            }
        }
    }

    /// Whether commands begin to listen on a radio where that is needed.
    pub open spec fn search_sends(
        self,
        transport: PeerLookupTransport,
        list: Seq<Command>,
    ) -> bool {
        if !self.search_starts(transport) {
            list == Seq::<Command>::empty()
        } else {
            match transport {
                PeerLookupTransport::Le => starts_scanning(
                    list,
                    self.scans_extended(),
                    true,
                    true,
                ),
                PeerLookupTransport::Classic => list == discovery_commands(),
            }
        }
    }
}

impl LookupState {
    /// Whether a lookup listens on a radio.
    pub fn is_waiting_on(&self, transport: PeerLookupTransport) -> (waiting: bool)
        ensures
            waiting == self@.waits_on(transport),
    {
        let keys = sorted_ids(&self.pending_peer_lookups);
        let mut index: usize = 0;
        while index < keys.len()
            invariant
                index <= keys@.len(),
                lists_u64(keys@, self.pending_peer_lookups@.dom()),
                forall|earlier: int|
                    0 <= earlier < index ==> self@.pending_peer_lookups[
                    #[trigger] keys@[earlier]].transport() != transport,
            decreases keys@.len() - index,
        {
            let lookup_id: u64 = keys[index];
            assert(keys@.contains(lookup_id));
            if let Some(request) = self.pending_peer_lookups.get(&lookup_id) {
                if request.transport() == transport {
                    assert(self@.pending_peer_lookups.contains_key(lookup_id));
                    return true;
                }
            }
            index += 1;
        }
        proof {
            assert forall|lookup_id: u64| #[trigger]
                self@.pending_peer_lookups.contains_key(
                    lookup_id,
                ) implies self@.pending_peer_lookups[lookup_id].transport() != transport by {
                assert(keys@.contains(lookup_id));
                let place = choose|place: int|
                    0 <= place < keys@.len() && keys@[place] == lookup_id;
                assert(self@.pending_peer_lookups[keys@[place]].transport() != transport);
            }
        }
        false
    }

    /// Give a lookup its number.
    fn allocate(&mut self, request: PeerLookupRequest) -> (lookup_id: PeerLookupId)
        requires
            old(self)@.next_peer_lookup_id > 0,
            old(self)@.pending_peer_lookups.dom().len() < u64::MAX,
        ensures
            first_free(
                old(self)@.pending_peer_lookups.dom(),
                old(self)@.next_peer_lookup_id,
                lookup_id,
            ),
            final(self)@ == (LookupView {
                pending_peer_lookups: old(self)@.pending_peer_lookups.insert(lookup_id, request@),
                next_peer_lookup_id: spec_next_id(lookup_id),
                ..old(self)@
            }),
            final(self)@.next_peer_lookup_id > 0,
    {
        assert(self@.pending_peer_lookups.dom() =~= self.pending_peer_lookups@.dom());
        let lookup_id: u64 = free_id(&self.pending_peer_lookups, self.next_peer_lookup_id);
        self.next_peer_lookup_id = next_id(lookup_id);
        self.pending_peer_lookups.insert(lookup_id, request);
        assert(self@.pending_peer_lookups =~= old(self)@.pending_peer_lookups.insert(
            lookup_id,
            request@,
        ));
        lookup_id
    }
}

/// The name that a report carries: the complete one, or else the shortened one.
pub fn carried_name(complete: Option<Vec<u8>>, shortened: Option<Vec<u8>>) -> (name: Option<
    Vec<u8>,
>)
    ensures
        name == if complete is Some {
            complete
        } else {
            shortened
        },
{
    match complete {
        Some(name) => Some(name),
        None => shortened,
    }
}

/// A new lookup listens on its radio, and leaves the others as they were.
proof fn lemma_lookup_listens(device: DeviceView, lookup_id: u64, request: PeerLookupRequestView)
    requires
        device.lookups.searches_are_needed(),
        !device.lookups.pending_peer_lookups.contains_key(lookup_id),
    ensures
        device.with_lookup(lookup_id, request).lookups.searches_are_needed(),
        device.with_lookup(lookup_id, request).lookups.waits_on(request.transport()),
{
    let before = device.lookups.pending_peer_lookups;
    let after = before.insert(lookup_id, request);
    assert(after.contains_key(lookup_id));
    assert forall|transport: PeerLookupTransport|
        device.lookups.waits_on(transport) implies #[trigger] device.with_lookup(
        lookup_id,
        request,
    ).lookups.waits_on(transport) by {
        let other = choose|other: u64| #[trigger]
            before.contains_key(other) && before[other].transport() == transport;
        assert(after.contains_key(other));
    }
}

impl DeviceView {
    /// How a call of [`Device::stop_discovery`] shows.
    pub open spec fn stop_discovery_shows(
        self,
        after: DeviceView,
        log_before: Seq<HostAction>,
        log_after: Seq<HostAction>,
    ) -> bool {
        &&& after == self.discovery_stopped()
        &&& log_after == log_before + commands(
            self.controller_id,
            command_if(self.classic.classic_discovering, Command::InquiryCancel),
        )
    }
}

impl Device {
    /// Start BR/EDR inquiry with extended results, the General Inquiry LAP, a
    /// 10.24-second inquiry length, and unlimited results.
    ///
    /// When `auto_restart` is true, each Inquiry Complete event submits the
    /// same two-command sequence again.
    pub fn start_discovery<L: HostTransport + ?Sized>(&mut self, link: &mut L, auto_restart: bool)
        requires
            old(self).wf(),
        ensures
            final(self).wf(),
            final(self)@ == old(self)@.discovery_started(auto_restart),
            final(link).log() == old(link).log() + commands(
                old(self).controller_id,
                discovery_commands(),
            ),
    {
        self.lookups.peer_lookup_started_discovery = false;
        self.send_discovery_commands(link);
        self.classic.classic_auto_restart_inquiry = auto_restart;
        self.classic.classic_discovering = true;
        assert(self@ =~= old(self)@.discovery_started(auto_restart));
    }

    /// Stop BR/EDR inquiry if one is active and restore the default automatic
    /// restart policy for the next discovery run.
    pub fn stop_discovery<L: HostTransport + ?Sized>(&mut self, link: &mut L)
        requires
            old(self).wf(),
        ensures
            final(self).wf(),
            old(self)@.stop_discovery_shows(
                final(self)@,
                old(link).log(),
                final(link).log(),
            ),
    {
        let mut list: Vec<Command> = Vec::new();
        push_when(&mut list, self.classic.classic_discovering, Command::InquiryCancel);
        assert(list@ =~= command_if(self.classic.classic_discovering, Command::InquiryCancel));
        send_all(link, self.controller_id, list);
        self.lookups.peer_lookup_started_discovery = false;
        self.classic.classic_auto_restart_inquiry = true;
        self.classic.classic_discovering = false;
        assert(self@ =~= old(self)@.discovery_stopped());
    }

    /// Whether the controller supports LE Extended Advertising.
    pub fn supports_le_extended_advertising(&self) -> (supported: bool)
        ensures
            supported == self@.scans_extended(),
    {
        self.setup.supports_le_feature(LE_FEATURE_EXTENDED_ADVERTISING)
    }

    /// Listen on a radio for a new lookup, where the application does not.
    fn start_search<L: HostTransport + ?Sized>(
        &mut self,
        link: &mut L,
        transport: PeerLookupTransport,
    )
        requires
            old(self).wf(),
            old(self)@.lookups.waits_on(transport),
        ensures
            final(self).wf(),
            final(self)@ == old(self)@.searching(transport),
            only_commands(old(link).log(), final(link).log(), old(self).controller_id),
            old(self)@.search_sends(transport, sent_between(old(link).log(), final(link).log())),
    {
        let ghost log = link.log();
        let ghost id = self.controller_id;
        proof {
            lemma_commands_none(log, id);
            lemma_sent_between(log, log, id, Seq::empty());
        }
        match transport {
            PeerLookupTransport::Le => {
                if !self.gap.scanning {
                    let extended: bool = self.supports_le_extended_advertising();
                    if extended {
                        self.start_extended_scanning(link, true, true);
                    } else {
                        self.start_scanning(link, true, true);
                        proof {
                            lemma_sent_between(
                                log,
                                link.log(),
                                id,
                                crate::advertise::scan_commands(true, true),
                            );
                        }
                    }
                    self.lookups.peer_lookup_started_scanning = Some(extended);
                }
            },
            PeerLookupTransport::Classic => {
                if !self.classic.classic_discovering {
                    self.start_discovery(link, true);
                    self.lookups.peer_lookup_started_discovery = true;
                    proof {
                        lemma_sent_between(log, link.log(), id, discovery_commands());
                    }
                }
            },
        }
        assert(self@ =~= old(self)@.searching(transport));
    }

    /// Start finding a peer by Complete or Shortened Local Name.
    ///
    /// The method returns a stable lookup identifier, starts scanning or
    /// inquiry only when the application was not already doing so, and
    /// publishes completion through [`Self::take_peer_lookup_results`] and
    /// [`DeviceEvent::PeerFound`].
    pub fn find_peer_by_name<L: HostTransport + ?Sized>(
        &mut self,
        link: &mut L,
        name: &str,
        transport: PeerLookupTransport,
    ) -> (lookup_id: PeerLookupId)
        requires
            old(self).wf(),
            old(self)@.lookups.pending_peer_lookups.dom().len() < u64::MAX,
        ensures
            final(self).wf(),
            first_free(
                old(self)@.lookups.pending_peer_lookups.dom(),
                old(self)@.lookups.next_peer_lookup_id,
                lookup_id,
            ),
            final(self)@ == old(self)@.with_lookup(
                lookup_id,
                PeerLookupRequestView::Name { name: encode_utf8(name@), transport },
            ).searching(transport),
            only_commands(old(link).log(), final(link).log(), old(self).controller_id),
            old(self)@.search_sends(transport, sent_between(old(link).log(), final(link).log())),
    {
        let bytes: &[u8] = name.as_bytes();
        let copy = copy_bytes(bytes, 0, bytes.len());
        assert(copy@ =~= encode_utf8(name@));
        let request = PeerLookupRequest::Name { name: copy, transport };
        let ghost content = request@;
        let lookup_id: u64 = self.lookups.allocate(request);
        proof {
            assert(self@ =~= old(self)@.with_lookup(lookup_id, content));
            lemma_lookup_listens(old(self)@, lookup_id, content);
        }
        self.start_search(link, transport);
        lookup_id
    }

    /// Start finding the current RPA for a bonded identity address.
    pub fn find_peer_by_identity_address<L: HostTransport + ?Sized>(
        &mut self,
        link: &mut L,
        identity_address: Address,
    ) -> (result: Result<PeerLookupId, PeerLookupError>)
        requires
            old(self).wf(),
            old(self)@.lookups.pending_peer_lookups.dom().len() < u64::MAX,
        ensures
            final(self).wf(),
            only_commands(old(link).log(), final(link).log(), old(self).controller_id),
            match result {
                Ok(lookup_id) => {
                    &&& old(self)@.security.address_resolver_ready
                    &&& first_free(
                        old(self)@.lookups.pending_peer_lookups.dom(),
                        old(self)@.lookups.next_peer_lookup_id,
                        lookup_id,
                    )
                    &&& final(self)@ == old(self)@.with_lookup(
                        lookup_id,
                        PeerLookupRequestView::Identity { identity_address },
                    ).searching(PeerLookupTransport::Le)
                    &&& old(self)@.search_sends(
                        PeerLookupTransport::Le,
                        sent_between(old(link).log(), final(link).log()),
                    )
                },
                Err(error) => {
                    &&& !old(self)@.security.address_resolver_ready
                    &&& error == PeerLookupError::NoAddressResolver
                    &&& final(self)@ == old(self)@
                    &&& final(link).log() == old(link).log()
                },
            },
    {
        proof {
            lemma_commands_none(link.log(), self.controller_id);
            lemma_sent_between(link.log(), link.log(), self.controller_id, Seq::empty());
        }
        if !self.security.address_resolver_ready {
            return Err(PeerLookupError::NoAddressResolver);
        }
        let request = PeerLookupRequest::Identity { identity_address };
        let ghost content = request@;
        let lookup_id: u64 = self.lookups.allocate(request);
        proof {
            assert(self@ =~= old(self)@.with_lookup(lookup_id, content));
            lemma_lookup_listens(old(self)@, lookup_id, content);
        }
        self.start_search(link, PeerLookupTransport::Le);
        Ok(lookup_id)
    }

    /// End the scanning and discovery that lookups started and none needs.
    fn finish_peer_lookup_activity<L: HostTransport + ?Sized>(&mut self, link: &mut L)
        requires
            old(self).wf_but_for_searches(),
        ensures
            final(self).wf(),
            final(self)@ == old(self)@.search_finished(),
            final(link).log() == old(link).log() + commands(
                old(self).controller_id,
                old(self)@.search_finish_sends(),
            ),
    {
        let mut list: Vec<Command> = Vec::new();
        if !self.lookups.is_waiting_on(PeerLookupTransport::Le) {
            if let Some(extended) = self.lookups.peer_lookup_started_scanning {
                self.lookups.peer_lookup_started_scanning = None;
                self.gap.scanning = false;
                if extended {
                    list.push(
                        Command::LeSetExtendedScanEnable {
                            enable: 0,
                            filter_duplicates: 0,
                            duration: 0,
                            period: 0,
                        },
                    );
                } else {
                    list.push(Command::LeSetScanEnable { le_scan_enable: 0, filter_duplicates: 0 });
                }
            }
        }
        assert(self@ =~= old(self)@.scanning_finished());
        assert(list@ =~= command_if(
            old(self)@.ends_scanning(),
            stop_scan_command(old(self)@.lookups.peer_lookup_started_scanning->0),
        ));
        let ended: bool = self.lookups.peer_lookup_started_discovery
            && !self.lookups.is_waiting_on(PeerLookupTransport::Classic);
        assert(self@.lookups.waits_on(PeerLookupTransport::Classic) == old(
            self,
        )@.lookups.waits_on(PeerLookupTransport::Classic));
        push_when(
            &mut list,
            ended && self.classic.classic_discovering,
            Command::InquiryCancel,
        );
        if ended {
            self.lookups.peer_lookup_started_discovery = false;
            self.classic.classic_auto_restart_inquiry = true;
            self.classic.classic_discovering = false;
        }
        assert(self@ =~= old(self)@.search_finished());
        assert(list@ =~= old(self)@.search_finish_sends());
        send_all(link, self.controller_id, list);
    }

    /// Cancel one pending lookup and restore lookup-owned discovery activity
    /// when it was the final lookup using that transport.
    pub fn cancel_peer_lookup<L: HostTransport + ?Sized>(
        &mut self,
        link: &mut L,
        lookup_id: PeerLookupId,
    ) -> (cancelled: bool)
        requires
            old(self).wf(),
        ensures
            final(self).wf(),
            cancelled == old(self)@.lookups.pending_peer_lookups.contains_key(lookup_id),
            if cancelled {
                &&& final(self)@ == old(self)@.without_lookup(lookup_id).search_finished()
                &&& final(link).log() == old(link).log() + commands(
                    old(self).controller_id,
                    old(self)@.without_lookup(lookup_id).search_finish_sends(),
                )
            } else {
                final(self)@ == old(self)@ && final(link).log() == old(link).log()
            },
    {
        match self.lookups.pending_peer_lookups.remove(&lookup_id) {
            Some(_) => {
                assert(self@.lookups.pending_peer_lookups =~= old(
                    self,
                )@.lookups.pending_peer_lookups.remove(lookup_id));
                assert(self@ =~= old(self)@.without_lookup(lookup_id));
                self.finish_peer_lookup_activity(link);
                true
            },
            None => {
                assert(self@.lookups.pending_peer_lookups =~= old(
                    self,
                )@.lookups.pending_peer_lookups);
                false
            },
        }
    }
}

impl DeviceView {
    /// A device without a lookup.
    pub open spec fn without_lookup(self, lookup_id: u64) -> DeviceView {
        DeviceView {
            lookups: LookupView {
                pending_peer_lookups: self.lookups.pending_peer_lookups.remove(lookup_id),
                ..self.lookups
            },
            ..self
        }
    }
}

/// Whether two byte strings are the same.
pub fn same_bytes(first: &Vec<u8>, second: &Vec<u8>) -> (same: bool)
    ensures
        same == (first@ == second@),
{
    if first.len() != second.len() {
        return false;
    }
    let mut index: usize = 0;
    while index < first.len()
        invariant
            index <= first@.len() == second@.len(),
            first@.take(index as int) == second@.take(index as int),
        decreases first@.len() - index,
    {
        if first[index] != second[index] {
            assert(first@[index as int] != second@[index as int]);
            return false;
        }
        index += 1;
        assert(first@.take(index as int) =~= first@.take(index - 1).push(first@[index - 1]));
        assert(second@.take(index as int) =~= second@.take(index - 1).push(second@[index - 1]));
    }
    assert(first@.take(index as int) =~= first@);
    assert(second@.take(index as int) =~= second@);
    true
}

/// The sighting that its parts make.
pub open spec fn sighting(
    transport: PeerLookupTransport,
    peer_address: Address,
    local_name: Option<Vec<u8>>,
    identity_address: Option<Address>,
) -> Sighting {
    Sighting {
        transport,
        peer_address,
        local_name: crate::content::optional_bytes(local_name),
        identity_address,
    }
}

impl PeerLookupRequest {
    /// Whether a sighting is what this lookup waits for.
    pub fn is_answered_by(
        &self,
        transport: PeerLookupTransport,
        peer_address: Address,
        local_name: &Option<Vec<u8>>,
        identity_address: Option<Address>,
    ) -> (is_answered: bool)
        ensures
            is_answered == self@.answered_by(
                sighting(transport, peer_address, *local_name, identity_address),
            ),
    {
        match self {
            PeerLookupRequest::Name { name, transport: wanted } => {
                if *wanted != transport {
                    false
                } else {
                    match local_name {
                        Some(heard) => same_bytes(heard, name),
                        None => false,
                    }
                }
            },
            PeerLookupRequest::Identity { identity_address: wanted } => {
                if transport != PeerLookupTransport::Le {
                    false
                } else if peer_address == *wanted {
                    true
                } else {
                    match identity_address {
                        Some(resolved) => resolved == *wanted,
                        None => false,
                    }
                }
            },
        }
    }
}

impl Device {
    /// Complete the lookups that a sighting answers, in the order of their
    /// numbers, and end what lookups started and none needs any more.
    ///
    /// This is the work that [`crate::device::FollowUp::CompletePeerLookups`]
    /// asks for: the caller reads the local name from the advertising data,
    /// the complete one before the shortened one, and resolves the address.
    pub fn complete_peer_lookups<L: HostTransport + ?Sized>(
        &mut self,
        link: &mut L,
        transport: PeerLookupTransport,
        peer_address: Address,
        local_name: &Option<Vec<u8>>,
        identity_address: Option<Address>,
    )
        requires
            old(self).wf(),
        ensures
            final(self).wf(),
            final(self)@ == old(self)@.sighted(
                sighting(transport, peer_address, *local_name, identity_address),
            ).search_finished(),
            final(link).log() == old(link).log() + commands(
                old(self).controller_id,
                old(self)@.sighted(
                    sighting(transport, peer_address, *local_name, identity_address),
                ).search_finish_sends(),
            ),
    {
        let ghost heard = sighting(transport, peer_address, *local_name, identity_address);
        let ghost pending = self@.lookups.pending_peer_lookups;
        let ghost select = answered(pending, heard);
        let keys = sorted_ids(&self.lookups.pending_peer_lookups);
        proof {
            assert(pending.dom() =~= self.lookups.pending_peer_lookups@.dom());
            assert(lists_u64(sorted_u64(pending.dom()), pending.dom()));
            lemma_one_listing_u64(keys@, sorted_u64(pending.dom()), pending.dom());
            lemma_filter_empty(keys@, select);
        }
        let mut index: usize = 0;
        let ghost mut done: Seq<u64> = Seq::empty();
        proof {
            assert(done.to_set() =~= Set::<u64>::empty());
            assert(pending.remove_keys(done.to_set()) =~= pending);
            assert(self@ =~= old(self)@.with_found(done, peer_address));
        }
        while index < keys.len()
            invariant
                index <= keys@.len(),
                self.wf_but_for_searches(),
                lists_u64(keys@, pending.dom()),
                pending == old(self)@.lookups.pending_peer_lookups,
                heard == sighting(transport, peer_address, *local_name, identity_address),
                select == answered(pending, heard),
                done == keys@.take(index as int).filter(select),
                self@ == old(self)@.with_found(done, peer_address),
                forall|place: int| index <= place < keys@.len() ==> !done.contains(keys@[place]),
                link.log() == old(link).log(),
            decreases keys@.len() - index,
        {
            let lookup_id: u64 = keys[index];
            let ghost earlier = done;
            proof {
                assert(keys@.contains(lookup_id));
                lemma_filter_step(keys@, index as int, select);
                assert(!earlier.contains(lookup_id));
                assert(!earlier.to_set().contains(lookup_id));
                assert(self@.lookups.pending_peer_lookups == pending.remove_keys(
                    earlier.to_set(),
                ));
                assert(self@.lookups.pending_peer_lookups.contains_key(lookup_id));
                assert(self@.lookups.pending_peer_lookups[lookup_id] == pending[lookup_id]);
            }
            if let Some(request) = self.lookups.pending_peer_lookups.get(&lookup_id) {
                assert(request@ == pending[lookup_id]);
                if request.is_answered_by(
                    transport,
                    peer_address,
                    local_name,
                    identity_address,
                ) {
                    let result = PeerLookupResult {
                        lookup_id,
                        transport: request.transport(),
                        peer_address,
                    };
                    self.complete_lookup(result);
                    proof {
                        done = done.push(lookup_id);
                        lemma_found_one_more(old(self)@, earlier, lookup_id, peer_address);
                    }
                }
            } else {
                assert(self@.lookups.pending_peer_lookups.contains_key(lookup_id));
            }
            proof {
                assert forall|place: int| index + 1 <= place < keys@.len() implies !done.contains(
                    keys@[place],
                ) by {
                    assert(!earlier.contains(keys@[place]));
                    assert(keys@[place] != lookup_id);
                }
            }
            index += 1;
        }
        proof {
            assert(keys@.take(index as int) =~= keys@);
            assert(done == old(self)@.lookups.answered_ids(heard));
            assert(self@ =~= old(self)@.sighted(heard));
        }
        self.finish_peer_lookup_activity(link);
    }

    /// Complete one lookup.
    fn complete_lookup(&mut self, result: PeerLookupResult)
        requires
            old(self).wf_but_for_searches(),
        ensures
            final(self).wf_but_for_searches(),
            final(self)@ == old(self)@.lookup_completed(result),
    {
        self.lookups.pending_peer_lookups.remove(&result.lookup_id);
        self.lookups.peer_lookup_results.push(result);
        self.journal.emit(DeviceEvent::PeerFound(result));
        assert(self@.lookups.pending_peer_lookups =~= old(
            self,
        )@.lookups.pending_peer_lookups.remove(result.lookup_id));
        assert(self@ =~= old(self)@.lookup_completed(result));
    }
}

impl DeviceView {
    /// One lookup is completed.
    pub open spec fn lookup_completed(self, result: PeerLookupResult) -> DeviceView {
        DeviceView {
            lookups: LookupView {
                pending_peer_lookups: self.lookups.pending_peer_lookups.remove(result.lookup_id),
                peer_lookup_results: self.lookups.peer_lookup_results.push(result),
                ..self.lookups
            },
            journal: self.journal.emitted(DeviceEventView::PeerFound(result)),
            ..self
        }
    }

    /// Some lookups are completed.
    pub open spec fn with_found(self, lookup_ids: Seq<u64>, peer_address: Address) -> DeviceView {
        let results = self.lookups.results_of(lookup_ids, peer_address);
        DeviceView {
            lookups: LookupView {
                pending_peer_lookups: self.lookups.pending_peer_lookups.remove_keys(
                    lookup_ids.to_set(),
                ),
                peer_lookup_results: self.lookups.peer_lookup_results + results,
                ..self.lookups
            },
            journal: self.journal.emitted_all(found_events(results)),
            ..self
        }
    }
}

/// Completing one more lookup.
proof fn lemma_found_one_more(
    device: DeviceView,
    earlier: Seq<u64>,
    lookup_id: u64,
    peer_address: Address,
)
    ensures
        device.with_found(earlier, peer_address).lookup_completed(
            device.lookups.result_of(lookup_id, peer_address),
        ) == device.with_found(earlier.push(lookup_id), peer_address),
{
    let result = device.lookups.result_of(lookup_id, peer_address);
    let later = earlier.push(lookup_id);
    let results = device.lookups.results_of(earlier, peer_address);
    assert(device.lookups.results_of(later, peer_address) =~= results.push(result));
    assert(found_events(results.push(result)) =~= found_events(results).push(
        DeviceEventView::PeerFound(result),
    ));
    assert(later.to_set() =~= earlier.to_set().insert(lookup_id)) by {
        assert forall|member: u64| later.to_set().contains(member) == earlier.to_set().insert(
            lookup_id,
        ).contains(member) by {
            if earlier.contains(member) {
                let place = choose|place: int|
                    0 <= place < earlier.len() && earlier[place] == member;
                assert(later[place] == member);
            }
            if member == lookup_id {
                assert(later[earlier.len() as int] == member);
            }
            if later.contains(member) && member != lookup_id {
                let place = choose|place: int| 0 <= place < later.len() && later[place] == member;
                assert(earlier[place] == member);
            }
        }
    }
    let pending = device.lookups.pending_peer_lookups;
    assert(pending.remove_keys(earlier.to_set()).remove(lookup_id) =~= pending.remove_keys(
        later.to_set(),
    ));
    assert(device.with_found(earlier, peer_address).lookup_completed(result)
        =~= device.with_found(later, peer_address));
}

} // verus!
