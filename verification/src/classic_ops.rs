//! Operations on Classic discovery, names and connections.

use crate::address::Address;
use crate::classic::ClassicPairingEvent;
use crate::commands::{
    find_address, first_at, lemma_filed_once, with_command, with_command_if,
};
use crate::configuration::DeviceConfiguration;
use crate::device::{Device, DeviceView};
use crate::disconnect::PairingOf;
use crate::hci::Command;
use crate::power::{
    bit, default_inquiry_response, is_name_response, scan_bits, spec_bit, spec_scan_bits,
    DevicePowerError, MAX_INQUIRY_NAME,
};
use crate::retain::{not_selected, selected, take_selected};
use crate::state::ClassicView;
use crate::transport::{commands, HostAction, HostTransport};
use vstd::prelude::*;

verus! {

broadcast use vstd::laws_cmp::group_laws_cmp;

impl ClassicView {
    /// The state with one more request for a peer's name.
    pub open spec fn name_requested(self, peer_address: Address) -> ClassicView {
        let requests = self.pending_remote_name_requests;
        ClassicView {
            pending_remote_name_commands: self.pending_remote_name_commands.push(peer_address),
            pending_remote_name_requests: match first_at(requests, peer_address) {
                Some(index) => requests.update(
                    index,
                    (peer_address, (requests[index].1 + 1) as usize),
                ),
                None => requests.push((peer_address, 1)),
            },
            ..self
        }
    }

    /// Whether one more request for a peer's name can be counted.
    pub open spec fn can_request_name(self, peer_address: Address) -> bool {
        first_at(self.pending_remote_name_requests, peer_address) matches Some(index)
            ==> self.pending_remote_name_requests[index].1 < usize::MAX
    }
}

/// How many requests for names are open.
pub open spec fn open_requests(requests: Seq<(Address, usize)>) -> int
    decreases requests.len(),
{
    if requests.len() == 0 {
        0
    } else {
        open_requests(requests.drop_last()) + requests.last().1
    }
}

/// A part of the requests holds no more open ones than all of them.
proof fn lemma_open_requests(requests: Seq<(Address, usize)>, count: int)
    requires
        0 <= count <= requests.len(),
    ensures
        0 <= open_requests(requests.take(count)) <= open_requests(requests),
    decreases requests.len(),
{
    if count == requests.len() {
        assert(requests.take(count) =~= requests);
        if requests.len() > 0 {
            lemma_open_requests(requests.drop_last(), requests.len() - 1);
            assert(requests.drop_last().take(requests.len() - 1) =~= requests.drop_last());
        }
    } else {
        lemma_open_requests(requests.drop_last(), count);
        assert(requests.drop_last().take(count) =~= requests.take(count));
    }
}

/// The command that asks for a peer's name.
pub open spec fn name_command(peer_address: Address) -> Command {
    Command::RemoteNameRequest {
        bd_addr: peer_address,
        page_scan_repetition_mode: 2,
        reserved: 0,
        clock_offset: 0,
    }
}

impl DeviceView {
    /// A device that answers inquiries or not.
    pub open spec fn with_discoverable(self, discoverable: bool) -> DeviceView {
        DeviceView { config: DeviceConfiguration { discoverable, ..self.config }, ..self }
    }

    /// A device that can be connected to or not.
    pub open spec fn with_connectable(self, connectable: bool) -> DeviceView {
        DeviceView { config: DeviceConfiguration { connectable, ..self.config }, ..self }
    }

    /// A device with a kept Extended Inquiry Response.
    pub open spec fn with_inquiry_response(self, response: Option<[u8; 240]>) -> DeviceView {
        DeviceView {
            classic: ClassicView { classic_inquiry_response: response, ..self.classic },
            ..self
        }
    }

    /// Whether a response is the one that a device gives to inquiries.
    pub open spec fn gives_response(self, response: [u8; 240]) -> bool {
        match self.classic.classic_inquiry_response {
            Some(given) => response == given,
            None => is_name_response(response, self.config.name_bytes()),
        }
    }

    /// Whether a device's name is too long for a response that it has to make.
    pub open spec fn response_too_long(self) -> bool {
        &&& self.config.classic_enabled
        &&& self.classic.classic_inquiry_response is None
        &&& self.config.name_bytes().len() > MAX_INQUIRY_NAME
    }

    /// The commands that apply a device's discoverability.
    pub open spec fn discoverable_commands(self, response: [u8; 240]) -> Seq<Command> {
        seq![
            Command::WriteExtendedInquiryResponse {
                fec_required: 0,
                extended_inquiry_response: response,
            },
            Command::WriteScanEnable {
                scan_enable: spec_scan_bits(self.config.discoverable, self.config.connectable),
            },
        ]
    }
}

impl DeviceView {
    /// How a call of [`Device::set_connectable`] shows.
    pub open spec fn set_connectable_shows(
        self,
        after: DeviceView,
        connectable: bool,
        log_before: Seq<HostAction>,
        log_after: Seq<HostAction>,
    ) -> bool {
        &&& after == self.with_connectable(connectable)
        &&& log_after == with_command_if(
            log_before,
            self.controller_id,
            self.config.classic_enabled,
            Command::WriteScanEnable {
                scan_enable: spec_scan_bits(self.config.discoverable, connectable),
            },
        )
    }

    /// How a call of [`Device::set_classic_encryption`] shows.
    pub open spec fn set_classic_encryption_shows(
        self,
        after: DeviceView,
        enabled: bool,
        asked: bool,
        log_before: Seq<HostAction>,
        log_after: Seq<HostAction>,
    ) -> bool {
        &&& after == self
        &&& asked == (self.classic.classic_connection_handle is Some)
        &&& log_after == with_command_if(
            log_before,
            self.controller_id,
            asked,
            Command::SetConnectionEncryption {
                connection_handle: self.classic.classic_connection_handle->0,
                encryption_enable: spec_bit(enabled),
            },
        )
    }

    /// How a call of [`Device::connect_classic`] shows.
    pub open spec fn connect_classic_shows(
        self,
        after: DeviceView,
        peer_address: Address,
        log_before: Seq<HostAction>,
        log_after: Seq<HostAction>,
    ) -> bool {
        &&& after == (DeviceView {
            classic: self.classic.with_pending_role(
                peer_address,
                crate::connection::ROLE_CENTRAL,
            ),
            ..self
        })
        &&& log_after == with_command(
            log_before,
            self.controller_id,
            Command::CreateConnection {
                bd_addr: peer_address,
                packet_type: 0,
                page_scan_repetition_mode: 0,
                reserved: 0,
                clock_offset: 0,
                allow_role_switch: 1,
            },
        )
    }

    /// How a call of [`Device::set_classic_scan_enable`] shows.
    pub open spec fn set_classic_scan_enable_shows(
        self,
        after: DeviceView,
        inquiry_scan_enabled: bool,
        page_scan_enabled: bool,
        log_before: Seq<HostAction>,
        log_after: Seq<HostAction>,
    ) -> bool {
        &&& after == self
        &&& log_after == with_command(
            log_before,
            self.controller_id,
            Command::WriteScanEnable {
                scan_enable: spec_scan_bits(inquiry_scan_enabled, page_scan_enabled),
            },
        )
    }

    /// How a call of [`Device::authenticate_classic_on_handle`] shows.
    pub open spec fn authenticate_classic_on_handle_shows(
        self,
        after: DeviceView,
        connection_handle: u16,
        asked: bool,
        log_before: Seq<HostAction>,
        log_after: Seq<HostAction>,
    ) -> bool {
        &&& asked == self.classic.classic_connections.contains_key(connection_handle)
        &&& after == self
        &&& log_after == with_command_if(
            log_before,
            self.controller_id,
            asked,
            Command::AuthenticationRequested { connection_handle },
        )
    }

    /// How a call of [`Device::set_classic_encryption_on_handle`] shows.
    pub open spec fn set_classic_encryption_on_handle_shows(
        self,
        after: DeviceView,
        connection_handle: u16,
        enabled: bool,
        asked: bool,
        log_before: Seq<HostAction>,
        log_after: Seq<HostAction>,
    ) -> bool {
        &&& asked == self.classic.classic_connections.contains_key(connection_handle)
        &&& after == self
        &&& log_after == with_command_if(
            log_before,
            self.controller_id,
            asked,
            Command::SetConnectionEncryption {
                connection_handle,
                encryption_enable: spec_bit(enabled),
            },
        )
    }

    /// How a call of [`Device::switch_classic_role`] shows.
    pub open spec fn switch_classic_role_shows(
        self,
        after: DeviceView,
        peer_address: Address,
        role: u8,
        log_before: Seq<HostAction>,
        log_after: Seq<HostAction>,
    ) -> bool {
        &&& after == self
        &&& log_after == with_command(
            log_before,
            self.controller_id,
            Command::SwitchRole { bd_addr: peer_address, role },
        )
    }

    /// How a call of [`Device::cancel_classic_connection`] shows.
    pub open spec fn cancel_classic_connection_shows(
        self,
        after: DeviceView,
        peer_address: Address,
        log_before: Seq<HostAction>,
        log_after: Seq<HostAction>,
    ) -> bool {
        &&& after == self
        &&& log_after == with_command(
            log_before,
            self.controller_id,
            Command::CreateConnectionCancel { bd_addr: peer_address },
        )
    }
}

impl Device {
    /// The 240-byte Extended Inquiry Response used for Classic discovery.
    pub fn classic_inquiry_response(&self) -> (response: Option<&[u8; 240]>)
        ensures
            match response {
                Some(response) => self@.classic.classic_inquiry_response == Some(*response),
                None => self@.classic.classic_inquiry_response is None,
            },
    {
        match &self.classic.classic_inquiry_response {
            Some(response) => Some(response),
            None => None,
        }
    }

    /// Override or clear the Extended Inquiry Response kept by this device.
    /// Clearing it makes the next discoverability update synthesize a Complete
    /// Local Name field from the configured device name.
    pub fn set_classic_inquiry_response(&mut self, response: Option<[u8; 240]>)
        requires
            old(self).wf(),
        ensures
            final(self).wf(),
            final(self)@ == old(self)@.with_inquiry_response(response),
    {
        self.classic.classic_inquiry_response = response;
        assert(self@ =~= old(self)@.with_inquiry_response(response));
    }

    /// Keep a new configuration of discoverability.
    fn keep_discoverable(&mut self, discoverable: bool)
        requires
            old(self).wf(),
        ensures
            final(self).wf(),
            final(self)@ == old(self)@.with_discoverable(discoverable),
            final(self).config == (DeviceConfiguration { discoverable, ..old(self).config }),
            final(self).classic == old(self).classic,
    {
        self.config.set_discoverable(discoverable);
    }

    /// Keep a new configuration of connectability.
    fn keep_connectable(&mut self, connectable: bool)
        requires
            old(self).wf(),
        ensures
            final(self).wf(),
            final(self)@ == old(self)@.with_connectable(connectable),
            final(self).config.classic_enabled == old(self).config.classic_enabled,
            final(self).config.discoverable == old(self).config.discoverable,
            final(self).controller_id == old(self).controller_id,
    {
        self.config.set_connectable(connectable);
    }

    /// Update configured Classic discoverability and its Extended Inquiry
    /// Response, then apply the combined inquiry/page scan state. Without
    /// Classic support only the configuration changes; a name that is too long
    /// for the response is an error, and nothing is applied.
    pub fn set_discoverable<L: HostTransport + ?Sized>(
        &mut self,
        link: &mut L,
        discoverable: bool,
    ) -> (result: Result<(), DevicePowerError>)
        requires
            old(self).wf(),
        ensures
            final(self).wf(),
            ({
                let before = old(self)@.with_discoverable(discoverable);
                if !before.config.classic_enabled {
                    &&& result == Ok::<(), DevicePowerError>(())
                    &&& final(self)@ == before
                    &&& final(link).log() == old(link).log()
                } else if before.response_too_long() {
                    &&& result == Err::<(), _>(
                        DevicePowerError::LocalNameTooLong {
                            actual: before.config.name_bytes().len() as usize,
                            maximum: MAX_INQUIRY_NAME,
                        },
                    )
                    &&& final(self)@ == before
                    &&& final(link).log() == old(link).log()
                } else {
                    &&& result == Ok::<(), DevicePowerError>(())
                    &&& exists|response: [u8; 240]|
                        {
                            &&& #[trigger] before.gives_response(response)
                            &&& final(self)@ == before.with_inquiry_response(Some(response))
                            &&& final(link).log() == old(link).log() + commands(
                                old(self).controller_id,
                                before.discoverable_commands(response),
                            )
                        }
                }
            }),
    {
        self.keep_discoverable(discoverable);
        let ghost before = self@;
        if !self.config.classic_enabled {
            return Ok(());
        }
        let response: [u8; 240] = match self.classic.classic_inquiry_response {
            Some(response) => response,
            None => match default_inquiry_response(self.config.name.as_str()) {
                Ok(response) => response,
                Err(error) => {
                    return Err(error);
                },
            },
        };
        self.classic.classic_inquiry_response = Some(response);
        assert(before.gives_response(response));
        assert(self@ =~= before.with_inquiry_response(Some(response)));
        let mut list: Vec<Command> = Vec::new();
        list.push(
            Command::WriteExtendedInquiryResponse {
                fec_required: 0,
                extended_inquiry_response: response,
            },
        );
        list.push(
            Command::WriteScanEnable {
                scan_enable: scan_bits(self.config.discoverable, self.config.connectable),
            },
        );
        assert(list@ =~= before.discoverable_commands(response));
        self.hand_over(link, list);
        Ok(())
    }

    /// Update configured Classic page-scan connectability and apply the
    /// combined inquiry/page scan state.
    pub fn set_connectable<L: HostTransport + ?Sized>(&mut self, link: &mut L, connectable: bool)
        requires
            old(self).wf(),
        ensures
            final(self).wf(),
            old(self)@.set_connectable_shows(
                final(self)@,
                connectable,
                old(link).log(),
                final(link).log(),
            ),
    {
        self.keep_connectable(connectable);
        if self.config.classic_enabled {
            self.hand_over_one(
                link,
                Command::WriteScanEnable {
                    scan_enable: scan_bits(self.config.discoverable, connectable),
                },
            );
        }
    }

    /// Request a Classic peer's user-friendly name by address. Completion is
    /// reported through the event journal and
    /// [`Device::take_classic_remote_name_results`].
    pub fn request_remote_name<L: HostTransport + ?Sized>(
        &mut self,
        link: &mut L,
        peer_address: Address,
    )
        requires
            old(self).wf(),
            old(self)@.classic.can_request_name(peer_address),
        ensures
            final(self).wf(),
            final(self)@ == (DeviceView {
                classic: old(self)@.classic.name_requested(peer_address),
                ..old(self)@
            }),
            final(link).log() == with_command(
                old(link).log(),
                old(self).controller_id,
                name_command(peer_address),
            ),
    {
        self.classic.pending_remote_name_commands.push(peer_address);
        match find_address(&self.classic.pending_remote_name_requests, peer_address) {
            Some(index) => {
                let count: usize = self.classic.pending_remote_name_requests[index].1;
                proof {
                    lemma_filed_once(
                        self@.classic.pending_remote_name_requests,
                        peer_address,
                        (count + 1) as usize,
                    );
                }
                self.classic.pending_remote_name_requests[index] = (peer_address, count + 1);
            },
            None => {
                proof {
                    lemma_filed_once(
                        self@.classic.pending_remote_name_requests,
                        peer_address,
                        1usize,
                    );
                }
                self.classic.pending_remote_name_requests.push((peer_address, 1));
            },
        }
        assert(self@ =~= (DeviceView {
            classic: old(self)@.classic.name_requested(peer_address),
            ..old(self)@
        }));
        self.send_hci_command(
            link,
            Command::RemoteNameRequest {
                bd_addr: peer_address,
                page_scan_repetition_mode: 2,
                reserved: 0,
                clock_offset: 0,
            },
        );
    }

    /// Request the name of one established Classic ACL peer. Returns `false`,
    /// with nothing done, where there is no such connection.
    pub fn request_remote_name_on_handle<L: HostTransport + ?Sized>(
        &mut self,
        link: &mut L,
        connection_handle: u16,
    ) -> (asked: bool)
        requires
            old(self).wf(),
            old(self)@.classic.classic_connections.contains_key(connection_handle) ==> old(
                self,
            )@.classic.can_request_name(
                old(self)@.classic.classic_connections[connection_handle].peer_address,
            ),
        ensures
            final(self).wf(),
            asked == old(self)@.classic.classic_connections.contains_key(connection_handle),
            if asked {
                let peer_address =
                    old(self)@.classic.classic_connections[connection_handle].peer_address;
                &&& final(self)@ == (DeviceView {
                    classic: old(self)@.classic.name_requested(peer_address),
                    ..old(self)@
                })
                &&& final(link).log() == with_command(
                    old(link).log(),
                    old(self).controller_id,
                    name_command(peer_address),
                )
            } else {
                final(self)@ == old(self)@ && final(link).log() == old(link).log()
            },
    {
        let peer_address: Address = match self.classic.classic_connections.get(
            &connection_handle,
        ) {
            Some(connection) => connection.peer_address,
            None => {
                return false;
            },
        };
        self.request_remote_name(link, peer_address);
        true
    }

    /// Whether a peer's name was asked for and has not been answered.
    pub fn is_remote_name_pending(&self, peer_address: &Address) -> (pending: bool)
        ensures
            pending == (first_at(self@.classic.pending_remote_name_requests, *peer_address)
                is Some),
    {
        find_address(&self.classic.pending_remote_name_requests, *peer_address).is_some()
    }

    /// How many requests for names are open.
    pub fn pending_remote_name_count(&self) -> (count: usize)
        requires
            open_requests(self@.classic.pending_remote_name_requests) <= usize::MAX,
        ensures
            count == open_requests(self@.classic.pending_remote_name_requests),
    {
        let ghost requests = self.classic.pending_remote_name_requests@;
        let mut count: usize = 0;
        let mut index: usize = 0;
        while index < self.classic.pending_remote_name_requests.len()
            invariant
                index <= requests.len(),
                requests == self.classic.pending_remote_name_requests@,
                open_requests(requests) <= usize::MAX,
                count == open_requests(requests.take(index as int)),
            decreases requests.len() - index,
        {
            proof {
                lemma_open_requests(requests, index + 1);
                assert(requests.take(index + 1).drop_last() =~= requests.take(index as int));
            }
            count = count + self.classic.pending_remote_name_requests[index].1;
            index += 1;
        }
        assert(requests.take(index as int) =~= requests);
        count
    }

    /// Take the Classic pairing events belonging to one ACL, oldest first;
    /// those of concurrent sessions stay.
    pub fn take_classic_pairing_events_for(
        &mut self,
        connection_handle: u16,
        peer_address: &Address,
    ) -> (events: Vec<ClassicPairingEvent>)
        requires
            old(self).wf(),
        ensures
            final(self).wf(),
            events@ == old(self)@.classic.classic_pairing_events.filter(
                selected(PairingOf { connection_handle, peer_address: *peer_address }),
            ),
            final(self)@ == (DeviceView {
                classic: ClassicView {
                    classic_pairing_events: old(self)@.classic.classic_pairing_events.filter(
                        not_selected(
                            PairingOf { connection_handle, peer_address: *peer_address },
                        ),
                    ),
                    ..old(self)@.classic
                },
                ..old(self)@
            }),
    {
        let events = take_selected(
            &mut self.classic.classic_pairing_events,
            &PairingOf { connection_handle, peer_address: *peer_address },
        );
        assert(self@ =~= (DeviceView {
            classic: ClassicView {
                classic_pairing_events: old(self)@.classic.classic_pairing_events.filter(
                    not_selected(PairingOf { connection_handle, peer_address: *peer_address }),
                ),
                ..old(self)@.classic
            },
            ..old(self)@
        }));
        events
    }

    /// Ask for encryption of the selected Classic connection, or for its end.
    pub fn set_classic_encryption<L: HostTransport + ?Sized>(
        &mut self,
        link: &mut L,
        enabled: bool,
    ) -> (asked: bool)
        requires
            old(self).wf(),
        ensures
            final(self).wf(),
            old(self)@.set_classic_encryption_shows(
                final(self)@,
                enabled,
                asked,
                old(link).log(),
                final(link).log(),
            ),
    {
        match self.classic.classic_connection_handle {
            Some(handle) => self.set_classic_encryption_on_handle(link, handle, enabled),
            None => false,
        }
    }

    /// Connect to a Classic peer, as the central.
    pub fn connect_classic<L: HostTransport + ?Sized>(&mut self, link: &mut L, peer_address: Address)
        requires
            old(self).wf(),
        ensures
            final(self).wf(),
            old(self)@.connect_classic_shows(
                final(self)@,
                peer_address,
                old(link).log(),
                final(link).log(),
            ),
    {
        self.send_hci_command(
            link,
            Command::CreateConnection {
                bd_addr: peer_address,
                packet_type: 0,
                page_scan_repetition_mode: 0,
                reserved: 0,
                clock_offset: 0,
                allow_role_switch: 1,
            },
        );
    }

    /// Update the controller's Classic inquiry/page scan bits directly.
    pub fn set_classic_scan_enable<L: HostTransport + ?Sized>(
        &mut self,
        link: &mut L,
        inquiry_scan_enabled: bool,
        page_scan_enabled: bool,
    )
        requires
            old(self).wf(),
        ensures
            final(self).wf(),
            old(self)@.set_classic_scan_enable_shows(
                final(self)@,
                inquiry_scan_enabled,
                page_scan_enabled,
                old(link).log(),
                final(link).log(),
            ),
    {
        self.send_hci_command(
            link,
            Command::WriteScanEnable {
                scan_enable: scan_bits(inquiry_scan_enabled, page_scan_enabled),
            },
        );
    }

    /// Ask for authentication on a Classic connection.
    pub fn authenticate_classic_on_handle<L: HostTransport + ?Sized>(
        &mut self,
        link: &mut L,
        connection_handle: u16,
    ) -> (asked: bool)
        requires
            old(self).wf(),
        ensures
            final(self).wf(),
            old(self)@.authenticate_classic_on_handle_shows(
                final(self)@,
                connection_handle,
                asked,
                old(link).log(),
                final(link).log(),
            ),
    {
        if !self.classic.classic_connections.contains_key(&connection_handle) {
            return false;
        }
        self.send_hci_command(
            link,
            Command::AuthenticationRequested { connection_handle },
        );
        true
    }

    /// Ask for encryption of one Classic connection, or for its end.
    pub fn set_classic_encryption_on_handle<L: HostTransport + ?Sized>(
        &mut self,
        link: &mut L,
        connection_handle: u16,
        enabled: bool,
    ) -> (asked: bool)
        requires
            old(self).wf(),
        ensures
            final(self).wf(),
            old(self)@.set_classic_encryption_on_handle_shows(
                final(self)@,
                connection_handle,
                enabled,
                asked,
                old(link).log(),
                final(link).log(),
            ),
    {
        if !self.classic.classic_connections.contains_key(&connection_handle) {
            return false;
        }
        self.send_hci_command(
            link,
            Command::SetConnectionEncryption {
                connection_handle,
                encryption_enable: bit(enabled),
            },
        );
        true
    }

    /// Request a role change on an established Classic connection.
    pub fn switch_classic_role<L: HostTransport + ?Sized>(
        &mut self,
        link: &mut L,
        peer_address: Address,
        role: u8,
    )
        requires
            old(self).wf(),
        ensures
            final(self).wf(),
            old(self)@.switch_classic_role_shows(
                final(self)@,
                peer_address,
                role,
                old(link).log(),
                final(link).log(),
            ),
    {
        self.send_hci_command(
            link,
            Command::SwitchRole { bd_addr: peer_address, role },
        );
    }

    /// Cancel a BR/EDR connection attempt. The controller decides whether that
    /// peer is pending.
    pub fn cancel_classic_connection<L: HostTransport + ?Sized>(
        &mut self,
        link: &mut L,
        peer_address: Address,
    )
        requires
            old(self).wf(),
        ensures
            final(self).wf(),
            old(self)@.cancel_classic_connection_shows(
                final(self)@,
                peer_address,
                old(link).log(),
                final(link).log(),
            ),
    {
        self.send_hci_command(
            link,
            Command::CreateConnectionCancel { bd_addr: peer_address },
        );
    }
}

} // verus!
