//! Classic connections: establishment, discovery, remote names and features.

use crate::address::Address;
use crate::classic::{
    name_result, ClassicConnectionInfo, ClassicConnectionInfoView, ClassicInquiryResultInfo,
    ClassicInquiryResultInfoView, ClassicPairingEvent, RemoteNameError, RemoteNameResult,
    RemoteNameResultView, SynchronousConnectionInfo,
};
use crate::commands::{
    find_address, first_at, lemma_filed_once, lemma_filed_once_filtered, with_command,
};
use crate::connection::{
    ConnectionFeatureError, ConnectionFeatureTransport, ROLE_CENTRAL, ROLE_PERIPHERAL,
};
use crate::device::{Device, DeviceView, FollowUp};
use crate::events::{DeviceConnectionTransport, DeviceEvent, DeviceEventView};
use crate::hci::Command;
use crate::lookup::PeerLookupTransport;
use crate::ordered::{least, lists_u16, sorted_handles};
use crate::retain::{drop_selected, not_selected, remove_value, Selector};
use crate::state::{ClassicState, ClassicView, LeView};
use crate::text::{name_in, read_name};
use crate::transport::{command_if, commands, push_when, send_all, HostTransport};
use std::collections::BTreeMap;
use vstd::prelude::*;

verus! {

broadcast use vstd::laws_cmp::group_laws_cmp;

impl ClassicConnectionInfoView {
    /// A connection that has just been established.
    pub open spec fn established(
        connection_handle: u16,
        role: u8,
        peer_address: Address,
        encryption_enabled: u8,
    ) -> ClassicConnectionInfoView {
        ClassicConnectionInfoView {
            connection_handle,
            role,
            peer_address,
            peer_name: None,
            encryption_enabled,
            encryption_key_size: 0,
            qos_service_type: None,
            classic_mode: 0,
            classic_interval: 0,
            peer_lmp_features: Map::empty(),
            peer_lmp_max_page_number: None,
            peer_host_supported_features: None,
        }
    }
}

/// The commands that begin an inquiry.
pub open spec fn discovery_commands() -> Seq<Command> {
    seq![
        Command::WriteInquiryMode { inquiry_mode: 2 },
        Command::Inquiry { lap: 0x009E_8B33, inquiry_length: 8, num_responses: 0 },
    ]
}

impl ClassicView {
    /// The state with a connection's record replaced.
    pub open spec fn with_connection(
        self,
        connection_handle: u16,
        connection: ClassicConnectionInfoView,
    ) -> ClassicView {
        ClassicView {
            classic_connections: self.classic_connections.insert(connection_handle, connection),
            ..self
        }
    }

    /// The state with a live connection selected.
    pub open spec fn selected(self, connection_handle: u16) -> ClassicView {
        let connection = self.classic_connections[connection_handle];
        ClassicView {
            classic_connection_handle: Some(connection.connection_handle),
            classic_connection_role: Some(connection.role),
            ..self
        }
    }

    /// The connections to a peer.
    pub open spec fn handles_of(self, peer_address: Address) -> Set<u16> {
        self.classic_connections.dom().filter(
            |handle: u16| self.classic_connections[handle].peer_address == peer_address,
        )
    }

    /// The connection to a peer: the one with the least handle.
    pub open spec fn handle_for(self, peer_address: Address) -> Option<u16> {
        if self.handles_of(peer_address) == Set::<u16>::empty() {
            None
        } else {
            Some(least(self.handles_of(peer_address)))
        }
    }

    /// The role noted for a peer, and central where none is.
    pub open spec fn pending_role(self, peer_address: Address) -> u8 {
        match first_at(self.pending_classic_roles, peer_address) {
            Some(index) => self.pending_classic_roles[index].1,
            None => ROLE_CENTRAL,
        }
    }

    /// The state without the first role noted for a peer.
    pub open spec fn without_pending_role(self, peer_address: Address) -> ClassicView {
        match first_at(self.pending_classic_roles, peer_address) {
            Some(index) => ClassicView {
                pending_classic_roles: self.pending_classic_roles.remove(index),
                ..self
            },
            None => self,
        }
    }

    /// The state with one request for a peer's name answered.
    pub open spec fn name_answered(self, peer_address: Address) -> ClassicView {
        match first_at(self.pending_remote_name_requests, peer_address) {
            Some(index) => {
                let count = self.pending_remote_name_requests[index].1;
                ClassicView {
                    pending_remote_name_requests: if count == 1 {
                        self.pending_remote_name_requests.remove(index)
                    } else {
                        self.pending_remote_name_requests.update(
                            index,
                            (peer_address, (count - 1) as usize),
                        )
                    },
                    ..self
                }
            },
            None => self,
        }
    }

    /// The records with a peer's name filled in.
    pub open spec fn named(self, peer_address: Address, name: Seq<char>) -> Map<
        u16,
        ClassicConnectionInfoView,
    > {
        self.classic_connections.map_values(
            |connection: ClassicConnectionInfoView|
                if connection.peer_address == peer_address {
                    ClassicConnectionInfoView { peer_name: Some(name), ..connection }
                } else {
                    connection
                },
        )
    }
}

impl ClassicState {
    /// Take a connection's record out.
    pub fn take_connection(&mut self, connection_handle: u16) -> (connection: Option<
        ClassicConnectionInfo,
    >)
        ensures
            match connection {
                Some(connection) => {
                    &&& old(self)@.classic_connections.contains_key(connection_handle)
                    &&& connection@ == old(self)@.classic_connections[connection_handle]
                    &&& final(self)@ == (ClassicView {
                        classic_connections: old(self)@.classic_connections.remove(
                            connection_handle,
                        ),
                        ..old(self)@
                    })
                },
                None => {
                    &&& !old(self)@.classic_connections.contains_key(connection_handle)
                    &&& final(self)@ == old(self)@
                },
            },
    {
        let connection = self.classic_connections.remove(&connection_handle);
        assert(self@.classic_connections =~= old(self)@.classic_connections.remove(
            connection_handle,
        ));
        if connection.is_none() {
            assert(self@.classic_connections =~= old(self)@.classic_connections);
        }
        connection
    }

    /// Put a connection's record in.
    pub fn put_connection(&mut self, connection_handle: u16, connection: ClassicConnectionInfo)
        ensures
            final(self)@ == old(self)@.with_connection(connection_handle, connection@),
    {
        self.classic_connections.insert(connection_handle, connection);
        assert(self@.classic_connections =~= old(self)@.classic_connections.insert(
            connection_handle,
            connection@,
        ));
    }

    /// Select which Classic connection the operations without a handle use.
    pub fn select(&mut self, connection_handle: u16) -> (found: bool)
        ensures
            found == old(self)@.classic_connections.contains_key(connection_handle),
            final(self)@ == if found {
                old(self)@.selected(connection_handle)
            } else {
                old(self)@
            },
    {
        match self.classic_connections.get(&connection_handle) {
            Some(connection) => {
                let (handle, role): (u16, u8) = (connection.connection_handle, connection.role);
                self.classic_connection_handle = Some(handle);
                self.classic_connection_role = Some(role);
                true
            },
            None => false,
        }
    }

    /// Find the connection to a peer.
    pub fn find_handle(&self, peer_address: Address) -> (found: Option<u16>)
        requires
            self@.valid(),
        ensures
            found == self@.handle_for(peer_address),
            found matches Some(handle) ==> self@.classic_connections.contains_key(handle)
                && self@.classic_connections[handle].peer_address == peer_address,
    {
        let keys = sorted_handles(&self.classic_connections);
        let ghost members = self@.handles_of(peer_address);
        let ghost records = self.classic_connections@;
        assert(self@.classic_connections.dom() =~= records.dom());
        let mut index: usize = 0;
        while index < keys.len()
            invariant
                index <= keys@.len(),
                members == self@.handles_of(peer_address),
                records == self.classic_connections@,
                self@.valid(),
                self@.classic_connections.dom() == records.dom(),
                lists_u16(keys@, records.dom()),
                forall|earlier: int| 0 <= earlier < index ==> !members.contains(keys@[earlier]),
            decreases keys@.len() - index,
        {
            let handle: u16 = keys[index];
            assert(keys@.contains(handle));
            if let Some(connection) = self.classic_connections.get(&handle) {
                assert(self@.classic_connections[handle] == connection@);
                if connection.peer_address == peer_address {
                    proof {
                        assert(members.contains(handle));
                        assert forall|other: u16| members.contains(other) implies handle
                            <= other by {
                            assert(keys@.contains(other));
                            let place = choose|place: int|
                                0 <= place < keys@.len() && keys@[place] == other;
                            assert(place >= index);
                        }
                        let ghost chosen = least(members);
                        assert(members.contains(chosen));
                        assert(members != Set::<u16>::empty());
                    }
                    return Some(connection.connection_handle);
                }
            }
            index += 1;
        }
        proof {
            assert forall|other: u16| !members.contains(other) by {
                if members.contains(other) {
                    assert(keys@.contains(other));
                    let place = choose|place: int|
                        0 <= place < keys@.len() && keys@[place] == other;
                    assert(!members.contains(keys@[place]));
                }
            }
            assert(members =~= Set::<u16>::empty());
        }
        None
    }

    /// Take the role noted for a peer.
    pub fn take_pending_role(&mut self, peer_address: Address) -> (role: u8)
        ensures
            role == old(self)@.pending_role(peer_address),
            final(self)@ == old(self)@.without_pending_role(peer_address),
            old(self)@.valid() ==> final(self)@.valid(),
    {
        proof {
            if self@.valid() {
                lemma_filed_once(self@.pending_classic_roles, peer_address, ROLE_CENTRAL);
            }
        }
        match find_address(&self.pending_classic_roles, peer_address) {
            Some(index) => {
                let (_, role): (Address, u8) = self.pending_classic_roles.remove(index);
                role
            },
            None => ROLE_CENTRAL,
        }
    }

    /// Note that one request for a peer's name has been answered.
    pub fn answer_name_request(&mut self, peer_address: Address)
        requires
            old(self)@.valid(),
        ensures
            final(self)@ == old(self)@.name_answered(peer_address),
            final(self)@.valid(),
    {
        match find_address(&self.pending_remote_name_requests, peer_address) {
            Some(index) => {
                let count: usize = self.pending_remote_name_requests[index].1;
                assert(self@.pending_remote_name_requests[index as int].1 > 0);
                proof {
                    lemma_filed_once(
                        self@.pending_remote_name_requests,
                        peer_address,
                        (count - 1) as usize,
                    );
                }
                if count == 1 {
                    let _ = self.pending_remote_name_requests.remove(index);
                } else {
                    self.pending_remote_name_requests[index] = (peer_address, count - 1);
                }
            },
            None => {},
        }
        assert(self@ =~= old(self)@.name_answered(peer_address));
    }

    /// Fill in a peer's name in the records of its connections.
    pub fn name_connections(&mut self, peer_address: Address, name: &String)
        requires
            old(self)@.valid(),
        ensures
            final(self)@ == (ClassicView {
                classic_connections: old(self)@.named(peer_address, name@),
                ..old(self)@
            }),
            final(self)@.valid(),
    {
        let keys = sorted_handles(&self.classic_connections);
        let ghost before = self@.classic_connections;
        let ghost named = self@.named(peer_address, name@);
        assert(before.dom() =~= self.classic_connections@.dom());
        let mut index: usize = 0;
        while index < keys.len()
            invariant
                index <= keys@.len(),
                lists_u16(keys@, before.dom()),
                named == old(self)@.named(peer_address, name@),
                before == old(self)@.classic_connections,
                self@.classic_connections.dom() == before.dom(),
                forall|place: int|
                    0 <= place < index ==> self@.classic_connections[#[trigger] keys@[place]]
                        == named[keys@[place]],
                forall|place: int|
                    index <= place < keys@.len()
                        ==> self@.classic_connections[#[trigger] keys@[place]]
                        == before[keys@[place]],
                self@ == (ClassicView {
                    classic_connections: self@.classic_connections,
                    ..old(self)@
                }),
            decreases keys@.len() - index,
        {
            let handle: u16 = keys[index];
            assert(keys@.contains(handle));
            assert(self@.classic_connections.contains_key(handle));
            if let Some(mut connection) = self.take_connection(handle) {
                if connection.peer_address == peer_address {
                    connection.peer_name = Some(name.clone());
                }
                assert(connection@ =~= named[handle]);
                self.put_connection(handle, connection);
            }
            assert(self@.classic_connections.dom() =~= before.dom());
            index += 1;
        }
        proof {
            assert(self@.classic_connections =~= named) by {
                assert forall|handle: u16| #[trigger]
                    self@.classic_connections.contains_key(
                        handle,
                    ) implies self@.classic_connections[handle] == named[handle] by {
                    assert(keys@.contains(handle));
                    let place = choose|place: int|
                        0 <= place < keys@.len() && keys@[place] == handle;
                    assert(self@.classic_connections[keys@[place]] == named[keys@[place]]);
                }
            }
            assert(self@ =~= (ClassicView { classic_connections: named, ..old(self)@ }));
        }
    }
}

impl DeviceView {
    /// An inquiry ended. A discovery that restarts goes on, another is over.
    pub open spec fn inquiry_completed(self, status: u8) -> DeviceView {
        DeviceView {
            classic: ClassicView {
                classic_inquiry_complete: self.classic.classic_inquiry_complete.push(status),
                classic_discovering: self.restarts_inquiry(),
                classic_auto_restart_inquiry: true,
                ..self.classic
            },
            journal: self.journal.emitted(DeviceEventView::InquiryComplete { status }),
            ..self
        }
    }

    /// Whether a discovery begins again when an inquiry ends.
    pub open spec fn restarts_inquiry(self) -> bool {
        self.classic.classic_discovering && self.classic.classic_auto_restart_inquiry
    }

    /// A device answered an inquiry, and may answer peer lookups.
    pub open spec fn inquiry_answered(self, result: ClassicInquiryResultInfoView) -> DeviceView {
        DeviceView {
            classic: ClassicView {
                classic_inquiry_results: self.classic.classic_inquiry_results.push(
                    result.peer_address,
                ),
                classic_inquiry_result_details: self.classic.classic_inquiry_result_details.push(
                    result,
                ),
                ..self.classic
            },
            journal: self.journal.emitted(DeviceEventView::InquiryResult(result)),
            follow_up: Some(
                FollowUp::CompletePeerLookups {
                    transport: PeerLookupTransport::Classic,
                    peer_address: result.peer_address,
                },
            ),
            ..self
        }
    }

    /// A request for a peer's name ended.
    pub open spec fn name_recorded(
        self,
        peer_address: Address,
        result: Result<Seq<char>, RemoteNameError>,
    ) -> DeviceView {
        let classic = ClassicView {
            classic_remote_name_results: self.classic.classic_remote_name_results.push(
                RemoteNameResultView { peer_address, result },
            ),
            ..self.classic
        };
        match result {
            Ok(name) => DeviceView {
                classic: ClassicView {
                    classic_connections: self.classic.named(peer_address, name),
                    classic_remote_names: self.classic.classic_remote_names.push(
                        (0, peer_address, name),
                    ),
                    ..classic
                },
                journal: self.journal.emitted(
                    DeviceEventView::RemoteName { status: 0, peer_address, name },
                ),
                ..self
            },
            Err(error) => DeviceView {
                classic,
                journal: self.journal.emitted(
                    DeviceEventView::RemoteNameFailure { peer_address, error },
                ),
                ..self
            },
        }
    }

    /// The answer to a request for a peer's name.
    pub open spec fn name_completed(
        self,
        status: u8,
        peer_address: Address,
        remote_name: Seq<u8>,
    ) -> DeviceView {
        DeviceView {
            classic: ClassicView {
                pending_remote_name_commands:
                    self.classic.pending_remote_name_commands.remove_value(peer_address),
                ..self.classic
            }.name_answered(peer_address),
            ..self
        }.name_recorded(
            peer_address,
            if status != 0 {
                Err(RemoteNameError::HciStatus(status))
            } else {
                name_in(remote_name)
            },
        )
    }

    /// The controller took up, or refused, the oldest request for a name.
    pub open spec fn name_command_answered(self, status: u8) -> DeviceView {
        if self.classic.pending_remote_name_commands.len() == 0 {
            self
        } else {
            let peer_address = self.classic.pending_remote_name_commands[0];
            let classic = ClassicView {
                pending_remote_name_commands: self.classic.pending_remote_name_commands.skip(1),
                ..self.classic
            };
            if status == 0 {
                DeviceView { classic, ..self }
            } else {
                DeviceView {
                    classic: classic.name_answered(peer_address),
                    ..self
                }.name_recorded(peer_address, Err(RemoteNameError::HciStatus(status)))
            }
        }
    }

    /// An LMP feature page of a peer could not be read.
    pub open spec fn features_failed(
        self,
        connection_handle: u16,
        page_number: Option<u8>,
        status: u8,
    ) -> DeviceView {
        DeviceView {
            le: LeView {
                connection_feature_errors: self.le.connection_feature_errors.push(
                    ConnectionFeatureError {
                        transport: ConnectionFeatureTransport::Classic,
                        connection_handle,
                        page_number,
                        status,
                    },
                ),
                ..self.le
            },
            ..self
        }
    }

    /// Whether a page of LMP features announces more pages.
    pub open spec fn announces_extended(features: [u8; 8]) -> bool {
        features[7] & 0x80 != 0
    }

    /// The basic LMP features of a peer were read, or not.
    pub open spec fn features_read(
        self,
        status: u8,
        connection_handle: u16,
        features: [u8; 8],
    ) -> DeviceView {
        if !self.classic.classic_connections.contains_key(connection_handle) {
            self
        } else if status == 0 {
            let connection = self.classic.classic_connections[connection_handle];
            DeviceView {
                classic: self.classic.with_connection(
                    connection_handle,
                    ClassicConnectionInfoView {
                        peer_lmp_features: connection.peer_lmp_features.insert(0, features),
                        peer_lmp_max_page_number: if DeviceView::announces_extended(features) {
                            None
                        } else {
                            Some(0)
                        },
                        ..connection
                    },
                ),
                ..self
            }
        } else {
            self.features_failed(connection_handle, None, status)
        }
    }

    /// The command that follows the basic LMP features of a peer.
    pub open spec fn features_read_sends(
        self,
        status: u8,
        connection_handle: u16,
        features: [u8; 8],
    ) -> Seq<Command> {
        command_if(
            self.classic.classic_connections.contains_key(connection_handle) && status == 0
                && DeviceView::announces_extended(features),
            Command::ReadRemoteExtendedFeatures { connection_handle, page_number: 0 },
        )
    }

    /// A page of extended LMP features of a peer was read, or not.
    pub open spec fn feature_page_read(
        self,
        status: u8,
        connection_handle: u16,
        page_number: u8,
        maximum_page_number: u8,
        features: [u8; 8],
    ) -> DeviceView {
        if !self.classic.classic_connections.contains_key(connection_handle) {
            self
        } else if status == 0 {
            let connection = self.classic.classic_connections[connection_handle];
            DeviceView {
                classic: self.classic.with_connection(
                    connection_handle,
                    ClassicConnectionInfoView {
                        peer_lmp_features: connection.peer_lmp_features.insert(
                            page_number,
                            features,
                        ),
                        peer_lmp_max_page_number: Some(maximum_page_number),
                        ..connection
                    },
                ),
                ..self
            }
        } else {
            self.features_failed(connection_handle, Some(page_number), status)
        }
    }

    /// The command that follows a page of extended LMP features of a peer.
    pub open spec fn feature_page_sends(
        self,
        status: u8,
        connection_handle: u16,
        page_number: u8,
        maximum_page_number: u8,
    ) -> Seq<Command> {
        command_if(
            self.classic.classic_connections.contains_key(connection_handle) && status == 0
                && page_number < maximum_page_number,
            Command::ReadRemoteExtendedFeatures {
                connection_handle,
                page_number: (page_number + 1) as u8,
            },
        )
    }

    /// A Classic connection was established.
    pub open spec fn classic_connected(
        self,
        connection_handle: u16,
        peer_address: Address,
        encryption_enabled: u8,
    ) -> DeviceView {
        let connection = ClassicConnectionInfoView::established(
            connection_handle,
            self.classic.pending_role(peer_address),
            peer_address,
            encryption_enabled,
        );
        DeviceView {
            classic: self.classic.without_pending_role(peer_address).with_connection(
                connection_handle,
                connection,
            ).selected(connection_handle),
            le: LeView {
                encrypted_handles: if encryption_enabled != 0 {
                    self.le.encrypted_handles.insert(connection_handle)
                } else {
                    self.le.encrypted_handles.remove(connection_handle)
                },
                ..self.le
            },
            journal: self.journal.emitted(
                DeviceEventView::ClassicConnectionEstablished(connection),
            ),
            follow_up: Some(FollowUp::RegisterClassicConnection { connection_handle }),
            ..self
        }
    }

    /// A Classic connection could not be established.
    pub open spec fn classic_connection_failed(
        self,
        status: u8,
        peer_address: Address,
    ) -> DeviceView {
        DeviceView {
            classic: ClassicView {
                pending_classic_roles: self.classic.pending_classic_roles.filter(
                    not_selected(FiledUnder { address: peer_address }),
                ),
                ..self.classic
            },
            journal: self.journal.emitted(
                DeviceEventView::ConnectionFailed {
                    transport: DeviceConnectionTransport::Classic,
                    peer_address,
                    status,
                },
            ),
            ..self
        }
    }

    /// The role towards a peer changed.
    pub open spec fn role_changed(self, peer_address: Address, new_role: u8) -> DeviceView {
        match self.classic.handle_for(peer_address) {
            Some(handle) => DeviceView {
                classic: ClassicView {
                    classic_connection_role: if self.classic.classic_connection_handle == Some(
                        handle,
                    ) {
                        Some(new_role)
                    } else {
                        self.classic.classic_connection_role
                    },
                    ..self.classic
                }.with_connection(
                    handle,
                    ClassicConnectionInfoView {
                        role: new_role,
                        ..self.classic.classic_connections[handle]
                    },
                ),
                ..self
            },
            None => DeviceView {
                classic: self.classic.with_pending_role(peer_address, new_role),
                ..self
            },
        }
    }

    /// Whether a request for a connection is accepted at once.
    pub open spec fn accepts_at_once(self, link_type: u8) -> bool {
        link_type == 1 && self.config.classic_enabled && self.config.classic_accept_any
    }

    /// A peer asked for a connection.
    pub open spec fn connection_requested(
        self,
        peer_address: Address,
        class_of_device: u32,
        link_type: u8,
    ) -> DeviceView {
        DeviceView {
            classic: if self.accepts_at_once(link_type) {
                self.classic.with_pending_role(peer_address, ROLE_PERIPHERAL)
            } else if link_type == 1 {
                ClassicView {
                    classic_connection_requests: self.classic.classic_connection_requests.push(
                        peer_address,
                    ),
                    ..self.classic
                }
            } else {
                ClassicView {
                    synchronous_requests: self.classic.synchronous_requests.push(
                        (peer_address, link_type),
                    ),
                    ..self.classic
                }
            },
            journal: self.journal.emitted(
                DeviceEventView::ConnectionRequest { peer_address, class_of_device, link_type },
            ),
            ..self
        }
    }

    /// A synchronous connection was established.
    pub open spec fn synchronous_connected(
        self,
        connection: SynchronousConnectionInfo,
    ) -> DeviceView {
        DeviceView {
            classic: ClassicView {
                synchronous_connections: self.classic.synchronous_connections.push(connection),
                ..self.classic
            },
            journal: self.journal.emitted(
                DeviceEventView::SynchronousConnectionEstablished(connection),
            ),
            ..self
        }
    }

    /// One more event, with no other effect.
    pub open spec fn emitted(self, event: DeviceEventView) -> DeviceView {
        DeviceView { journal: self.journal.emitted(event), ..self }
    }

    /// A Classic pairing event in its own journal and in the device's.
    pub open spec fn pairing_recorded(self, event: ClassicPairingEvent) -> DeviceView {
        DeviceView {
            classic: ClassicView {
                classic_pairing_events: self.classic.classic_pairing_events.push(event),
                ..self.classic
            },
            journal: self.journal.emitted(DeviceEventView::ClassicPairing(event)),
            ..self
        }
    }

    /// A peer told what its host supports.
    pub open spec fn host_features_told(
        self,
        peer_address: Address,
        host_supported_features: [u8; 8],
    ) -> DeviceView {
        DeviceView {
            classic: match self.classic.handle_for(peer_address) {
                Some(handle) => self.classic.with_connection(
                    handle,
                    ClassicConnectionInfoView {
                        peer_host_supported_features: Some(host_supported_features),
                        ..self.classic.classic_connections[handle]
                    },
                ),
                None => self.classic,
            },
            ..self
        }.emitted(
            DeviceEventView::RemoteHostSupportedFeatures { peer_address, host_supported_features },
        )
    }
}

/// Selects the entries that a peer's address files.
pub struct FiledUnder {
    pub address: Address,
}

impl<A> Selector<(Address, A)> for FiledUnder {
    open spec fn selects(&self, entry: (Address, A)) -> bool {
        entry.0 == self.address
    }

    fn test(&self, entry: &(Address, A)) -> (selected: bool) {
        entry.0 == self.address
    }
}

impl Device {
    /// Hand over the commands that begin an inquiry.
    pub(crate) fn send_discovery_commands<L: HostTransport + ?Sized>(&self, link: &mut L)
        ensures
            final(link).log() == old(link).log() + commands(
                self.controller_id,
                discovery_commands(),
            ),
    {
        let mut list: Vec<Command> = Vec::new();
        list.push(Command::WriteInquiryMode { inquiry_mode: 2 });
        list.push(Command::Inquiry { lap: 0x009E_8B33, inquiry_length: 8, num_responses: 0 });
        assert(list@ =~= discovery_commands());
        send_all(link, self.controller_id, list);
    }

    /// An inquiry has ended.
    pub fn on_inquiry_complete<L: HostTransport + ?Sized>(&mut self, link: &mut L, status: u8)
        requires
            old(self).wf(),
        ensures
            final(self).wf(),
            final(self)@ == old(self)@.inquiry_completed(status),
            final(link).log() == if old(self)@.restarts_inquiry() {
                old(link).log() + commands(old(self).controller_id, discovery_commands())
            } else {
                old(link).log()
            },
    {
        let restart = self.classic.classic_discovering && self.classic.classic_auto_restart_inquiry;
        self.classic.classic_inquiry_complete.push(status);
        self.journal.emit(DeviceEvent::InquiryComplete { status });
        if restart {
            self.send_discovery_commands(link);
        }
        self.classic.classic_discovering = restart;
        self.classic.classic_auto_restart_inquiry = true;
        assert(self@ =~= old(self)@.inquiry_completed(status));
    }

    /// A device has answered an inquiry.
    pub fn on_inquiry_response(&mut self, result: ClassicInquiryResultInfo)
        requires
            old(self).wf(),
        ensures
            final(self).wf(),
            final(self)@ == old(self)@.inquiry_answered(result@),
    {
        let peer_address: Address = result.peer_address;
        self.classic.classic_inquiry_results.push(peer_address);
        self.classic.classic_inquiry_result_details.push(result.clone());
        assert(self.classic@.classic_inquiry_result_details
            =~= old(self).classic@.classic_inquiry_result_details.push(result@));
        self.journal.emit(DeviceEvent::InquiryResult(result));
        self.follow_up =
        Some(
            FollowUp::CompletePeerLookups {
                transport: PeerLookupTransport::Classic,
                peer_address,
            },
        );
        assert(self@ =~= old(self)@.inquiry_answered(result@));
    }

    /// Record how a request for a peer's name ended.
    pub fn record_remote_name_result(
        &mut self,
        peer_address: Address,
        result: Result<String, RemoteNameError>,
    )
        requires
            old(self).wf(),
        ensures
            final(self).wf(),
            final(self)@ == old(self)@.name_recorded(peer_address, name_result(result)),
    {
        let ghost content = name_result(result);
        match result {
            Ok(name) => {
                let completion = RemoteNameResult { peer_address, result: Ok(name.clone()) };
                self.classic.classic_remote_name_results.push(completion);
                assert(self.classic@.classic_remote_name_results
                    =~= old(self).classic@.classic_remote_name_results.push(
                    RemoteNameResultView { peer_address, result: content },
                ));
                self.classic.name_connections(peer_address, &name);
                let ghost between = self.classic@;
                self.classic.classic_remote_names.push((0, peer_address, name.clone()));
                assert(self.classic@.classic_remote_names =~= between.classic_remote_names.push(
                    (0, peer_address, name@),
                ));
                self.journal.emit(DeviceEvent::RemoteName { status: 0, peer_address, name });
            },
            Err(error) => {
                let completion = RemoteNameResult { peer_address, result: Err(error) };
                self.classic.classic_remote_name_results.push(completion);
                assert(self.classic@.classic_remote_name_results
                    =~= old(self).classic@.classic_remote_name_results.push(
                    RemoteNameResultView { peer_address, result: content },
                ));
                self.journal.emit(DeviceEvent::RemoteNameFailure { peer_address, error });
            },
        }
        assert(self@ =~= old(self)@.name_recorded(peer_address, content));
    }

    /// A request for a peer's name has been answered.
    pub fn on_remote_name_complete(
        &mut self,
        status: u8,
        peer_address: Address,
        remote_name: &[u8],
    )
        requires
            old(self).wf(),
        ensures
            final(self).wf(),
            final(self)@ == old(self)@.name_completed(status, peer_address, remote_name@),
    {
        let _ = remove_value(&mut self.classic.pending_remote_name_commands, peer_address);
        self.classic.answer_name_request(peer_address);
        let result = if status != 0 {
            Err(RemoteNameError::HciStatus(status))
        } else {
            read_name(remote_name)
        };
        self.record_remote_name_result(peer_address, result);
    }

    /// The controller has taken up, or refused, a request for a peer's name.
    pub fn on_remote_name_status(&mut self, status: u8)
        requires
            old(self).wf(),
        ensures
            final(self).wf(),
            final(self)@ == old(self)@.name_command_answered(status),
    {
        match crate::retain::take_first(&mut self.classic.pending_remote_name_commands) {
            Some(peer_address) => {
                if status != 0 {
                    self.classic.answer_name_request(peer_address);
                    self.record_remote_name_result(
                        peer_address,
                        Err(RemoteNameError::HciStatus(status)),
                    );
                }
            },
            None => {},
        }
        assert(self@ =~= old(self)@.name_command_answered(status));
    }

    /// Record that an LMP feature page could not be read.
    fn fail_features(&mut self, connection_handle: u16, page_number: Option<u8>, status: u8)
        requires
            old(self).wf(),
        ensures
            final(self).wf(),
            final(self)@ == old(self)@.features_failed(connection_handle, page_number, status),
    {
        self.le.connection_feature_errors.push(
            ConnectionFeatureError {
                transport: ConnectionFeatureTransport::Classic,
                connection_handle,
                page_number,
                status,
            },
        );
        assert(self@ =~= old(self)@.features_failed(connection_handle, page_number, status));
    }

    /// The basic LMP features of a peer have been read, or not.
    pub fn on_remote_features<L: HostTransport + ?Sized>(
        &mut self,
        link: &mut L,
        status: u8,
        connection_handle: u16,
        features: [u8; 8],
    )
        requires
            old(self).wf(),
        ensures
            final(self).wf(),
            final(self)@ == old(self)@.features_read(status, connection_handle, features),
            final(link).log() == old(link).log() + commands(
                old(self).controller_id,
                old(self)@.features_read_sends(status, connection_handle, features),
            ),
    {
        let known = self.classic.classic_connections.contains_key(&connection_handle);
        let extended = features[7] & 0x80 != 0;
        assert(known == self@.classic.classic_connections.contains_key(connection_handle));
        if status == 0 {
            if let Some(mut connection) = self.classic.take_connection(connection_handle) {
                connection.peer_lmp_features.insert(0, features);
                connection.peer_lmp_max_page_number = if extended {
                    None
                } else {
                    Some(0)
                };
                self.classic.put_connection(connection_handle, connection);
            }
        } else if known {
            self.fail_features(connection_handle, None, status);
        }
        assert(self@ =~= old(self)@.features_read(status, connection_handle, features));
        let mut list: Vec<Command> = Vec::new();
        push_when(
            &mut list,
            known && status == 0 && extended,
            Command::ReadRemoteExtendedFeatures { connection_handle, page_number: 0 },
        );
        assert(list@ =~= old(self)@.features_read_sends(status, connection_handle, features));
        send_all(link, self.controller_id, list);
    }

    /// A page of extended LMP features of a peer has been read, or not.
    pub fn on_remote_feature_page<L: HostTransport + ?Sized>(
        &mut self,
        link: &mut L,
        status: u8,
        connection_handle: u16,
        page_number: u8,
        maximum_page_number: u8,
        features: [u8; 8],
    )
        requires
            old(self).wf(),
        ensures
            final(self).wf(),
            final(self)@ == old(self)@.feature_page_read(
                status,
                connection_handle,
                page_number,
                maximum_page_number,
                features,
            ),
            final(link).log() == old(link).log() + commands(
                old(self).controller_id,
                old(self)@.feature_page_sends(
                    status,
                    connection_handle,
                    page_number,
                    maximum_page_number,
                ),
            ),
    {
        let known = self.classic.classic_connections.contains_key(&connection_handle);
        assert(known == self@.classic.classic_connections.contains_key(connection_handle));
        if status == 0 {
            if let Some(mut connection) = self.classic.take_connection(connection_handle) {
                connection.peer_lmp_features.insert(page_number, features);
                connection.peer_lmp_max_page_number = Some(maximum_page_number);
                self.classic.put_connection(connection_handle, connection);
            }
        } else if known {
            self.fail_features(connection_handle, Some(page_number), status);
        }
        assert(self@ =~= old(self)@.feature_page_read(
            status,
            connection_handle,
            page_number,
            maximum_page_number,
            features,
        ));
        let mut list: Vec<Command> = Vec::new();
        if known && status == 0 && page_number < maximum_page_number {
            list.push(
                Command::ReadRemoteExtendedFeatures {
                    connection_handle,
                    page_number: page_number + 1,
                },
            );
        }
        assert(list@ =~= old(self)@.feature_page_sends(
            status,
            connection_handle,
            page_number,
            maximum_page_number,
        ));
        send_all(link, self.controller_id, list);
    }

    /// A Classic connection has been established.
    pub fn on_classic_connected(
        &mut self,
        connection_handle: u16,
        peer_address: Address,
        encryption_enabled: u8,
    )
        requires
            old(self).wf(),
        ensures
            final(self).wf(),
            final(self)@ == old(self)@.classic_connected(
                connection_handle,
                peer_address,
                encryption_enabled,
            ),
    {
        let role: u8 = self.classic.take_pending_role(peer_address);
        let connection = ClassicConnectionInfo {
            connection_handle,
            role,
            peer_address,
            peer_name: None,
            encryption_enabled,
            encryption_key_size: 0,
            qos_service_type: None,
            classic_mode: 0,
            classic_interval: 0,
            peer_lmp_features: BTreeMap::new(),
            peer_lmp_max_page_number: None,
            peer_host_supported_features: None,
        };
        assert(connection@ =~= ClassicConnectionInfoView::established(
            connection_handle,
            role,
            peer_address,
            encryption_enabled,
        ));
        let copy = connection.clone();
        self.classic.put_connection(connection_handle, connection);
        if encryption_enabled != 0 {
            self.le.encrypted_handles.insert(connection_handle);
        } else {
            self.le.encrypted_handles.remove(&connection_handle);
        }
        let _ = self.classic.select(connection_handle);
        self.journal.emit(DeviceEvent::ClassicConnectionEstablished(copy));
        self.follow_up = Some(FollowUp::RegisterClassicConnection { connection_handle });
        assert(self@ =~= old(self)@.classic_connected(
            connection_handle,
            peer_address,
            encryption_enabled,
        ));
    }

    /// A Classic connection could not be established.
    pub fn on_classic_connection_failed(&mut self, status: u8, peer_address: Address)
        requires
            old(self).wf(),
        ensures
            final(self).wf(),
            final(self)@ == old(self)@.classic_connection_failed(status, peer_address),
    {
        let filed = FiledUnder { address: peer_address };
        proof {
            lemma_filed_once_filtered(
                self@.classic.pending_classic_roles,
                not_selected::<(Address, u8), FiledUnder>(filed),
            );
        }
        drop_selected(&mut self.classic.pending_classic_roles, &filed);
        self.journal.emit(
            DeviceEvent::ConnectionFailed {
                transport: DeviceConnectionTransport::Classic,
                peer_address,
                status,
            },
        );
        assert(self@ =~= old(self)@.classic_connection_failed(status, peer_address));
    }

    /// The role towards a peer has changed.
    pub fn on_role_change(&mut self, peer_address: Address, new_role: u8)
        requires
            old(self).wf(),
        ensures
            final(self).wf(),
            final(self)@ == old(self)@.role_changed(peer_address, new_role),
    {
        match self.classic.find_handle(peer_address) {
            Some(handle) => {
                if let Some(mut connection) = self.classic.take_connection(handle) {
                    connection.role = new_role;
                    self.classic.put_connection(handle, connection);
                }
                if let Some(selected) = self.classic.classic_connection_handle {
                    if selected == handle {
                        self.classic.classic_connection_role = Some(new_role);
                    }
                }
            },
            None => {
                self.classic.set_pending_role(peer_address, new_role);
            },
        }
        assert(self@ =~= old(self)@.role_changed(peer_address, new_role));
        assert(self@.classic.classic_connections.dom()
            =~= old(self)@.classic.classic_connections.dom());
    }

    /// A peer has asked for a connection.
    pub fn on_connection_request<L: HostTransport + ?Sized>(
        &mut self,
        link: &mut L,
        peer_address: Address,
        class_of_device: u32,
        link_type: u8,
    )
        requires
            old(self).wf(),
        ensures
            final(self).wf(),
            final(self)@ == old(self)@.connection_requested(
                peer_address,
                class_of_device,
                link_type,
            ),
            final(link).log() == if old(self)@.accepts_at_once(link_type) {
                with_command(
                    old(link).log(),
                    old(self).controller_id,
                    Command::AcceptConnectionRequest {
                        bd_addr: peer_address,
                        role: ROLE_PERIPHERAL,
                    },
                )
            } else {
                old(link).log()
            },
    {
        if link_type == 1 {
            if self.config.classic_enabled && self.config.classic_accept_any {
                self.accept_classic(link, peer_address);
            } else {
                self.classic.classic_connection_requests.push(peer_address);
            }
        } else {
            self.classic.synchronous_requests.push((peer_address, link_type));
        }
        self.journal.emit(
            DeviceEvent::ConnectionRequest { peer_address, class_of_device, link_type },
        );
        assert(self@ =~= old(self)@.connection_requested(
            peer_address,
            class_of_device,
            link_type,
        ));
    }

    /// Accept a pending Classic connection as a peripheral.
    pub fn accept_classic<L: HostTransport + ?Sized>(
        &mut self,
        link: &mut L,
        peer_address: Address,
    )
        requires
            old(self).wf(),
        ensures
            final(self).wf(),
            final(self)@ == (DeviceView {
                classic: old(self)@.classic.with_pending_role(peer_address, ROLE_PERIPHERAL),
                ..old(self)@
            }),
            final(link).log() == with_command(
                old(link).log(),
                old(self).controller_id,
                Command::AcceptConnectionRequest { bd_addr: peer_address, role: ROLE_PERIPHERAL },
            ),
    {
        self.accept_classic_with_role(link, peer_address, ROLE_PERIPHERAL);
    }

    /// Accept a pending Classic connection using the requested local role.
    pub fn accept_classic_with_role<L: HostTransport + ?Sized>(
        &mut self,
        link: &mut L,
        peer_address: Address,
        role: u8,
    )
        requires
            old(self).wf(),
        ensures
            final(self).wf(),
            final(self)@ == (DeviceView {
                classic: old(self)@.classic.with_pending_role(peer_address, role),
                ..old(self)@
            }),
            final(link).log() == with_command(
                old(link).log(),
                old(self).controller_id,
                Command::AcceptConnectionRequest { bd_addr: peer_address, role },
            ),
    {
        self.send_hci_command(
            link,
            Command::AcceptConnectionRequest { bd_addr: peer_address, role },
        );
    }

    /// A synchronous connection has been established.
    pub fn on_synchronous_connected(&mut self, connection: SynchronousConnectionInfo)
        requires
            old(self).wf(),
        ensures
            final(self).wf(),
            final(self)@ == old(self)@.synchronous_connected(connection),
    {
        self.classic.synchronous_connections.push(connection);
        self.journal.emit(DeviceEvent::SynchronousConnectionEstablished(connection));
        assert(self@ =~= old(self)@.synchronous_connected(connection));
    }

    /// Write an event to the journal.
    pub fn emit_device_event(&mut self, event: DeviceEvent)
        requires
            old(self).wf(),
        ensures
            final(self).wf(),
            final(self)@ == old(self)@.emitted(event@),
    {
        self.journal.emit(event);
        assert(self@ =~= old(self)@.emitted(event@));
    }

    /// Record a Classic pairing event.
    pub fn record_classic_pairing_event(&mut self, event: ClassicPairingEvent)
        requires
            old(self).wf(),
        ensures
            final(self).wf(),
            final(self)@ == old(self)@.pairing_recorded(event),
    {
        self.classic.classic_pairing_events.push(event);
        self.journal.emit(DeviceEvent::ClassicPairing(event));
        assert(self@ =~= old(self)@.pairing_recorded(event));
    }

    /// A peer has told what its host supports.
    pub fn on_remote_host_features(
        &mut self,
        peer_address: Address,
        host_supported_features: [u8; 8],
    )
        requires
            old(self).wf(),
        ensures
            final(self).wf(),
            final(self)@ == old(self)@.host_features_told(peer_address, host_supported_features),
    {
        match self.classic.find_handle(peer_address) {
            Some(handle) => {
                if let Some(mut connection) = self.classic.take_connection(handle) {
                    connection.peer_host_supported_features = Some(host_supported_features);
                    self.classic.put_connection(handle, connection);
                }
            },
            None => {},
        }
        self.emit_device_event(
            DeviceEvent::RemoteHostSupportedFeatures { peer_address, host_supported_features },
        );
        assert(self@ =~= old(self)@.host_features_told(peer_address, host_supported_features));
    }
}

} // verus!
