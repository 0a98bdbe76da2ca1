//! Isochronous groups and streams: what their events do.

use crate::hci::{
    IsoDataPacket, HCI_LE_CREATE_BIG_COMMAND, HCI_LE_REMOVE_ISO_DATA_PATH_COMMAND,
    HCI_LE_SETUP_ISO_DATA_PATH_COMMAND,
};
use crate::iso::{
    AssemblyView, CisControlEvent, CisControlEventView, CisLinkInfo, IsoControlEvent,
    IsoControlEventView, IsoDataPathParameters, IsoDataPathParametersView, IsoSdu, IsoSduAssembler,
    IsoSduView, IsoTxSyncInfo,
};
use crate::retain::{
    drop_connection, first_of, lemma_filter_map, lemma_first_of_map, not_of_connection,
    remove_first_of, remove_value, take_first,
};
use crate::state::{IsoState, IsoView};
use std::collections::BTreeMap;
use vstd::prelude::*;

verus! {

broadcast use vstd::laws_cmp::group_laws_cmp;

/// Selects the SDUs of every other stream.
pub open spec fn sdu_of_other(handle: u16) -> spec_fn(IsoSduView) -> bool {
    |sdu: IsoSduView| sdu.connection_handle != handle
}

/// The content of a pending data-path setup.
pub open spec fn setup_view() -> spec_fn((u16, IsoDataPathParameters)) -> (
    u16,
    IsoDataPathParametersView,
) {
    |entry: (u16, IsoDataPathParameters)| (entry.0, entry.1@)
}

/// The content of an SDU.
pub open spec fn sdu_view() -> spec_fn(IsoSdu) -> IsoSduView {
    |entry: IsoSdu| entry@
}

/// The connection handles in a CIG's return parameters, least significant byte
/// first.
pub open spec fn cig_handles(data: Seq<u8>) -> Seq<u16> {
    Seq::new(
        data[2] as nat,
        |index: int| (data[3 + 2 * index] + 256 * data[4 + 2 * index]) as u16,
    )
}

/// Whether the return parameters of a CIG have the length that they announce.
pub open spec fn cig_data_valid(data: Seq<u8>) -> bool {
    data.len() >= 3 && data.len() == 3 + data[2] * 2
}

impl IsoView {
    /// The data path of a stream in one direction.
    pub open spec fn path(self, handle: u16, direction: u8) -> Option<IsoDataPathParametersView> {
        if self.iso_data_paths.contains_key(handle) && self.iso_data_paths[handle].contains_key(
            direction,
        ) {
            Some(self.iso_data_paths[handle][direction])
        } else {
            None
        }
    }

    /// The state with a data path installed.
    pub open spec fn with_path(
        self,
        handle: u16,
        direction: u8,
        path: IsoDataPathParametersView,
    ) -> IsoView {
        let paths = if self.iso_data_paths.contains_key(handle) {
            self.iso_data_paths[handle]
        } else {
            Map::empty()
        };
        IsoView {
            iso_data_paths: self.iso_data_paths.insert(handle, paths.insert(direction, path)),
            ..self
        }
    }

    /// The state with a data path removed.
    pub open spec fn without_path(self, handle: u16, direction: u8) -> IsoView {
        if self.iso_data_paths.contains_key(handle) {
            IsoView {
                iso_data_paths: self.iso_data_paths.insert(
                    handle,
                    self.iso_data_paths[handle].remove(direction),
                ),
                ..self
            }
        } else {
            self
        }
    }

    /// The state with a stream's data paths and requests forgotten.
    pub open spec fn control_cleared(self, handle: u16) -> IsoView {
        IsoView {
            iso_data_paths: self.iso_data_paths.remove(handle),
            pending_iso_data_path_setups: self.pending_iso_data_path_setups.filter(
                not_of_connection(handle),
            ),
            pending_iso_data_path_removals: self.pending_iso_data_path_removals.filter(
                not_of_connection(handle),
            ),
            pending_iso_tx_syncs: self.pending_iso_tx_syncs.filter(not_of_connection(handle)),
            iso_tx_syncs: self.iso_tx_syncs.remove(handle),
            ..self
        }
    }

    /// The state with everything of a stream forgotten but its link.
    pub open spec fn stream_cleared(self, handle: u16) -> IsoView {
        let cleared = self.control_cleared(handle);
        IsoView {
            iso_sequence_numbers: self.iso_sequence_numbers.remove(handle),
            iso_assemblers: self.iso_assemblers.remove(handle),
            iso_inbox: self.iso_inbox.filter(sdu_of_other(handle)),
            ..cleared
        }
    }

    /// The state with a broadcast stream forgotten.
    pub open spec fn bis_cleared(self, handle: u16) -> IsoView {
        let cleared = self.stream_cleared(handle);
        IsoView { bis_directions: self.bis_directions.remove(handle), ..cleared }
    }

    /// The state with several broadcast streams forgotten.
    pub open spec fn all_bis_cleared(self, handles: Seq<u16>) -> IsoView
        decreases handles.len(),
    {
        if handles.len() == 0 {
            self
        } else {
            self.all_bis_cleared(handles.drop_last()).bis_cleared(handles.last())
        }
    }

    /// The state with a stream's sequence numbering begun where it was not.
    pub open spec fn numbered(self, handle: u16) -> IsoView {
        if self.iso_sequence_numbers.contains_key(handle) {
            self
        } else {
            IsoView { iso_sequence_numbers: self.iso_sequence_numbers.insert(handle, 0), ..self }
        }
    }

    /// The state with broadcast streams established in one direction.
    pub open spec fn bis_established(self, handles: Seq<u16>, direction: u8) -> IsoView
        decreases handles.len(),
    {
        if handles.len() == 0 {
            self
        } else {
            let before = self.bis_established(handles.drop_last(), direction);
            IsoView {
                bis_directions: before.bis_directions.insert(handles.last(), direction),
                ..before
            }.numbered(handles.last())
        }
    }

    /// A BIG was created, or not.
    pub open spec fn big_created(self, status: u8, big_handle: u8, handles: Seq<u16>) -> IsoView {
        let settled = IsoView {
            pending_bigs: self.pending_bigs.remove(big_handle),
            pending_big_commands: self.pending_big_commands.remove_value(big_handle),
            ..self
        };
        if status == 0 {
            let established = settled.bis_established(handles, 0);
            IsoView { bigs: established.bigs.insert(big_handle, handles), ..established }
        } else {
            IsoView {
                bigs: settled.bigs.remove(big_handle),
                big_errors: settled.big_errors.push((big_handle, status)),
                ..settled
            }
        }
    }

    /// A BIG was terminated.
    pub open spec fn big_terminated(self, big_handle: u8, reason: u8) -> IsoView {
        let cleared = if self.bigs.contains_key(big_handle) {
            IsoView { bigs: self.bigs.remove(big_handle), ..self }.all_bis_cleared(
                self.bigs[big_handle],
            )
        } else {
            self
        };
        IsoView { terminated_bigs: cleared.terminated_bigs.push((big_handle, reason)), ..cleared }
    }

    /// A BIG sync was established, or not.
    pub open spec fn big_synced(self, status: u8, big_handle: u8, handles: Seq<u16>) -> IsoView {
        let settled = IsoView {
            pending_big_syncs: self.pending_big_syncs.remove(big_handle),
            pending_big_sync_commands: self.pending_big_sync_commands.remove_value(big_handle),
            ..self
        };
        if status == 0 {
            let established = settled.bis_established(handles, 1);
            IsoView { big_syncs: established.big_syncs.insert(big_handle, handles), ..established }
        } else {
            IsoView {
                big_syncs: settled.big_syncs.remove(big_handle),
                big_errors: settled.big_errors.push((big_handle, status)),
                ..settled
            }
        }
    }

    /// A BIG sync was lost.
    pub open spec fn big_sync_lost(self, big_handle: u8, reason: u8) -> IsoView {
        let cleared = if self.big_syncs.contains_key(big_handle) {
            IsoView { big_syncs: self.big_syncs.remove(big_handle), ..self }.all_bis_cleared(
                self.big_syncs[big_handle],
            )
        } else {
            self
        };
        IsoView { terminated_bigs: cleared.terminated_bigs.push((big_handle, reason)), ..cleared }
    }

    /// A command to create a BIG, or to synchronize to one, was answered.
    pub open spec fn big_command_answered(self, command_opcode: u16, status: u8) -> IsoView {
        if command_opcode == HCI_LE_CREATE_BIG_COMMAND {
            if self.pending_big_commands.len() == 0 {
                self
            } else {
                let big_handle = self.pending_big_commands[0];
                let settled = IsoView {
                    pending_big_commands: self.pending_big_commands.skip(1),
                    ..self
                };
                if status == 0 {
                    settled
                } else {
                    IsoView {
                        pending_bigs: settled.pending_bigs.remove(big_handle),
                        bigs: settled.bigs.remove(big_handle),
                        big_errors: settled.big_errors.push((big_handle, status)),
                        ..settled
                    }
                }
            }
        } else {
            if self.pending_big_sync_commands.len() == 0 {
                self
            } else {
                let big_handle = self.pending_big_sync_commands[0];
                let settled = IsoView {
                    pending_big_sync_commands: self.pending_big_sync_commands.skip(1),
                    ..self
                };
                if status == 0 {
                    settled
                } else {
                    IsoView {
                        pending_big_syncs: settled.pending_big_syncs.remove(big_handle),
                        big_syncs: settled.big_syncs.remove(big_handle),
                        big_errors: settled.big_errors.push((big_handle, status)),
                        ..settled
                    }
                }
            }
        }
    }

    /// A CIS was established, or not.
    pub open spec fn cis_established(self, status: u8, link: CisLinkInfo) -> IsoView {
        let linked = if status == 0 {
            IsoView {
                cis_links: self.cis_links.insert(link.connection_handle, link),
                ..self
            }.numbered(link.connection_handle)
        } else {
            self
        };
        IsoView {
            cis_control_events: linked.cis_control_events.push(
                CisControlEventView::Established { status, link },
            ),
            ..linked
        }
    }

    /// One more event of CIG and CIS control.
    pub open spec fn cis_event(self, event: CisControlEventView) -> IsoView {
        IsoView { cis_control_events: self.cis_control_events.push(event), ..self }
    }

    /// A CIG was configured, or not. Malformed parameters are ignored.
    pub open spec fn cig_configured(self, data: Seq<u8>) -> IsoView {
        if !cig_data_valid(data) {
            self
        } else {
            let status = data[0];
            let handles = cig_handles(data);
            IsoView {
                configured_cis_handles: if status == 0 {
                    handles
                } else {
                    self.configured_cis_handles
                },
                ..self
            }.cis_event(
                CisControlEventView::CigConfigured {
                    status,
                    cig_id: data[1],
                    connection_handles: handles,
                },
            )
        }
    }

    /// One more event of ISO control.
    pub open spec fn iso_event(self, event: IsoControlEventView) -> IsoView {
        IsoView { iso_control_events: self.iso_control_events.push(event), ..self }
    }

    /// A data path was set up, or not.
    pub open spec fn path_set_up(self, status: u8, handle: u16) -> IsoView {
        match first_of(self.pending_iso_data_path_setups, handle) {
            None => self,
            Some(index) => {
                let path = self.pending_iso_data_path_setups[index].1;
                let settled = IsoView {
                    pending_iso_data_path_setups: self.pending_iso_data_path_setups.remove(index),
                    ..self
                };
                let installed = if status == 0 {
                    settled.with_path(handle, path.direction, path)
                } else {
                    settled
                };
                installed.iso_event(
                    IsoControlEventView::DataPathSetup {
                        status,
                        connection_handle: handle,
                        parameters: path,
                    },
                )
            },
        }
    }

    /// Data paths were removed, or not.
    pub open spec fn path_removed(self, status: u8, handle: u16) -> IsoView {
        match first_of(self.pending_iso_data_path_removals, handle) {
            None => self,
            Some(index) => {
                let directions = self.pending_iso_data_path_removals[index].1;
                let settled = IsoView {
                    pending_iso_data_path_removals: self.pending_iso_data_path_removals.remove(
                        index,
                    ),
                    ..self
                };
                let input_removed = if status == 0 && directions & 0x01 != 0 {
                    settled.without_path(handle, 0)
                } else {
                    settled
                };
                let removed = if status == 0 && directions & 0x02 != 0 {
                    input_removed.without_path(handle, 1)
                } else {
                    input_removed
                };
                removed.iso_event(
                    IsoControlEventView::DataPathRemoved {
                        status,
                        connection_handle: handle,
                        directions,
                    },
                )
            },
        }
    }

    /// Transmit synchronization was read, or not.
    pub open spec fn tx_sync_read(self, status: u8, sync: IsoTxSyncInfo) -> IsoView {
        let handle = sync.connection_handle;
        if !self.pending_iso_tx_syncs.contains(handle) {
            self
        } else {
            IsoView {
                pending_iso_tx_syncs: self.pending_iso_tx_syncs.remove_value(handle),
                iso_tx_syncs: if status == 0 {
                    self.iso_tx_syncs.insert(handle, sync)
                } else {
                    self.iso_tx_syncs
                },
                ..self
            }.iso_event(
                IsoControlEventView::TxSync {
                    status,
                    connection_handle: handle,
                    sync: if status == 0 {
                        Some(sync)
                    } else {
                        None
                    },
                },
            )
        }
    }

    /// A data-path or synchronization command was refused: the first one asked.
    pub open spec fn iso_command_refused(self, command_opcode: u16, status: u8) -> IsoView {
        if command_opcode == HCI_LE_SETUP_ISO_DATA_PATH_COMMAND {
            if self.pending_iso_data_path_setups.len() == 0 {
                self
            } else {
                let (handle, parameters) = self.pending_iso_data_path_setups[0];
                IsoView {
                    pending_iso_data_path_setups: self.pending_iso_data_path_setups.skip(1),
                    ..self
                }.iso_event(
                    IsoControlEventView::DataPathSetup {
                        status,
                        connection_handle: handle,
                        parameters,
                    },
                )
            }
        } else if command_opcode == HCI_LE_REMOVE_ISO_DATA_PATH_COMMAND {
            if self.pending_iso_data_path_removals.len() == 0 {
                self
            } else {
                let (handle, directions) = self.pending_iso_data_path_removals[0];
                IsoView {
                    pending_iso_data_path_removals: self.pending_iso_data_path_removals.skip(1),
                    ..self
                }.iso_event(
                    IsoControlEventView::DataPathRemoved {
                        status,
                        connection_handle: handle,
                        directions,
                    },
                )
            }
        } else {
            if self.pending_iso_tx_syncs.len() == 0 {
                self
            } else {
                let handle = self.pending_iso_tx_syncs[0];
                IsoView {
                    pending_iso_tx_syncs: self.pending_iso_tx_syncs.skip(1),
                    ..self
                }.iso_event(
                    IsoControlEventView::TxSync { status, connection_handle: handle, sync: None },
                )
            }
        }
    }

    /// The assembler of a stream.
    pub open spec fn assembler(self, handle: u16) -> AssemblyView {
        if self.iso_assemblers.contains_key(handle) {
            self.iso_assemblers[handle]
        } else {
            AssemblyView { pending: None, expected_length: 0 }
        }
    }

    /// A packet of a stream arrived.
    pub open spec fn packet_received(self, packet: IsoDataPacket) -> IsoView {
        let handle = packet.connection_handle;
        IsoView {
            iso_assemblers: self.iso_assemblers.insert(
                handle,
                self.assembler(handle).after(packet),
            ),
            iso_inbox: match self.assembler(handle).completed(packet) {
                Some(sdu) => self.iso_inbox.push(sdu),
                None => self.iso_inbox,
            },
            ..self
        }
    }
}

impl IsoState {
    /// Forget a stream's data paths and requests.
    pub fn clear_control(&mut self, handle: u16)
        ensures
            final(self)@ == old(self)@.control_cleared(handle),
    {
        proof {
            lemma_filter_map(
                self.pending_iso_data_path_setups@,
                setup_view(),
                not_of_connection(handle),
                not_of_connection(handle),
            );
        }
        self.iso_data_paths.remove(&handle);
        drop_connection(&mut self.pending_iso_data_path_setups, handle);
        drop_connection(&mut self.pending_iso_data_path_removals, handle);
        drop_connection(&mut self.pending_iso_tx_syncs, handle);
        self.iso_tx_syncs.remove(&handle);
        proof {
            let ghost expected = old(self)@.control_cleared(handle);
            assert(self@.iso_data_paths =~= expected.iso_data_paths);
            assert(old(self)@.pending_iso_data_path_setups =~= old(
                self,
            ).pending_iso_data_path_setups@.map_values(setup_view()));
            assert(self@.pending_iso_data_path_setups
                =~= self.pending_iso_data_path_setups@.map_values(setup_view()));
            assert(self@ =~= expected);
        }
    }

    /// Forget everything of a stream but its link.
    pub fn clear_stream(&mut self, handle: u16)
        ensures
            final(self)@ == old(self)@.stream_cleared(handle),
    {
        self.clear_control(handle);
        self.iso_sequence_numbers.remove(&handle);
        self.iso_assemblers.remove(&handle);
        let ghost inbox = self.iso_inbox@;
        proof {
            lemma_filter_map(inbox, sdu_view(), not_of_connection(handle), sdu_of_other(handle));
        }
        drop_connection(&mut self.iso_inbox, handle);
        proof {
            let ghost expected = old(self)@.stream_cleared(handle);
            assert(old(self)@.iso_inbox =~= inbox.map_values(sdu_view()));
            assert(self@.iso_inbox =~= self.iso_inbox@.map_values(sdu_view()));
            assert(self@.iso_assemblers =~= expected.iso_assemblers);
            assert(self@ =~= expected);
        }
    }

    /// Forget a broadcast stream.
    pub fn clear_bis_handle(&mut self, handle: u16)
        ensures
            final(self)@ == old(self)@.bis_cleared(handle),
    {
        self.bis_directions.remove(&handle);
        self.clear_stream(handle);
        assert(self@ =~= old(self)@.bis_cleared(handle));
    }
}

/// The connection handles of a configured group.
pub fn read_cig_handles(data: &Vec<u8>) -> (handles: Vec<u16>)
    requires
        cig_data_valid(data@),
    ensures
        handles@ == cig_handles(data@),
{
    let count: usize = data[2] as usize;
    let mut handles: Vec<u16> = Vec::new();
    let mut index: usize = 0;
    while index < count
        invariant
            cig_data_valid(data@),
            count == data@[2],
            index <= count,
            handles@ == cig_handles(data@).take(index as int),
        decreases count - index,
    {
        let low: u16 = data[3 + 2 * index] as u16;
        let high: u16 = data[4 + 2 * index] as u16;
        handles.push(low + 256 * high);
        index += 1;
        assert(handles@ =~= cig_handles(data@).take(index as int));
    }
    assert(cig_handles(data@).take(count as int) =~= cig_handles(data@));
    handles
}

impl IsoState {
    /// Forget several broadcast streams.
    pub fn clear_bis_handles(&mut self, handles: &Vec<u16>)
        ensures
            final(self)@ == old(self)@.all_bis_cleared(handles@),
    {
        let mut index: usize = 0;
        assert(handles@.take(0) =~= Seq::<u16>::empty());
        while index < handles.len()
            invariant
                index <= handles@.len(),
                self@ == old(self)@.all_bis_cleared(handles@.take(index as int)),
            decreases handles@.len() - index,
        {
            self.clear_bis_handle(handles[index]);
            proof {
                let ghost next = handles@.take(index + 1);
                assert(next.drop_last() =~= handles@.take(index as int));
            }
            index += 1;
        }
        assert(handles@.take(index as int) =~= handles@);
    }

    /// Begin a stream's sequence numbering where it has not begun.
    pub fn number(&mut self, handle: u16)
        ensures
            final(self)@ == old(self)@.numbered(handle),
    {
        if !self.iso_sequence_numbers.contains_key(&handle) {
            self.iso_sequence_numbers.insert(handle, 0);
        }
    }

    /// Note broadcast streams as established in one direction.
    pub fn establish_bis(&mut self, handles: &Vec<u16>, direction: u8)
        ensures
            final(self)@ == old(self)@.bis_established(handles@, direction),
    {
        let mut index: usize = 0;
        assert(handles@.take(0) =~= Seq::<u16>::empty());
        while index < handles.len()
            invariant
                index <= handles@.len(),
                self@ == old(self)@.bis_established(handles@.take(index as int), direction),
            decreases handles@.len() - index,
        {
            self.bis_directions.insert(handles[index], direction);
            self.number(handles[index]);
            proof {
                let ghost next = handles@.take(index + 1);
                assert(next.drop_last() =~= handles@.take(index as int));
            }
            index += 1;
        }
        assert(handles@.take(index as int) =~= handles@);
    }

    /// The answer to a request to create a BIG.
    pub fn on_big_created(&mut self, status: u8, big_handle: u8, handles: Vec<u16>)
        ensures
            final(self)@ == old(self)@.big_created(status, big_handle, handles@),
    {
        self.pending_bigs.remove(&big_handle);
        let _ = remove_value(&mut self.pending_big_commands, big_handle);
        if status == 0 {
            self.establish_bis(&handles, 0);
            let ghost before = self@;
            self.bigs.insert(big_handle, handles);
            assert(self@.bigs =~= before.bigs.insert(big_handle, handles@));
        } else {
            self.bigs.remove(&big_handle);
            self.big_errors.push((big_handle, status));
            assert(self@.bigs =~= old(self)@.bigs.remove(big_handle));
        }
        assert(self@ =~= old(self)@.big_created(status, big_handle, handles@));
    }

    /// A BIG has ended.
    pub fn on_big_terminated(&mut self, big_handle: u8, reason: u8)
        ensures
            final(self)@ == old(self)@.big_terminated(big_handle, reason),
    {
        match self.bigs.remove(&big_handle) {
            Some(handles) => {
                assert(self@ =~= (IsoView {
                    bigs: old(self)@.bigs.remove(big_handle),
                    ..old(self)@
                }));
                self.clear_bis_handles(&handles);
            },
            None => {
                assert(self@.bigs =~= old(self)@.bigs);
            },
        }
        self.terminated_bigs.push((big_handle, reason));
        assert(self@ =~= old(self)@.big_terminated(big_handle, reason));
    }

    /// The answer to a request to synchronize to a BIG.
    pub fn on_big_synced(&mut self, status: u8, big_handle: u8, handles: Vec<u16>)
        ensures
            final(self)@ == old(self)@.big_synced(status, big_handle, handles@),
    {
        self.pending_big_syncs.remove(&big_handle);
        let _ = remove_value(&mut self.pending_big_sync_commands, big_handle);
        if status == 0 {
            self.establish_bis(&handles, 1);
            let ghost before = self@;
            self.big_syncs.insert(big_handle, handles);
            assert(self@.big_syncs =~= before.big_syncs.insert(big_handle, handles@));
        } else {
            self.big_syncs.remove(&big_handle);
            self.big_errors.push((big_handle, status));
            assert(self@.big_syncs =~= old(self)@.big_syncs.remove(big_handle));
        }
        assert(self@ =~= old(self)@.big_synced(status, big_handle, handles@));
    }

    /// Synchronization to a BIG has ended.
    pub fn on_big_sync_lost(&mut self, big_handle: u8, reason: u8)
        ensures
            final(self)@ == old(self)@.big_sync_lost(big_handle, reason),
    {
        match self.big_syncs.remove(&big_handle) {
            Some(handles) => {
                assert(self@ =~= (IsoView {
                    big_syncs: old(self)@.big_syncs.remove(big_handle),
                    ..old(self)@
                }));
                self.clear_bis_handles(&handles);
            },
            None => {
                assert(self@.big_syncs =~= old(self)@.big_syncs);
            },
        }
        self.terminated_bigs.push((big_handle, reason));
        assert(self@ =~= old(self)@.big_sync_lost(big_handle, reason));
    }

    /// The controller has taken up, or refused, the oldest BIG command of a
    /// kind.
    pub fn on_big_command_status(&mut self, command_opcode: u16, status: u8)
        ensures
            final(self)@ == old(self)@.big_command_answered(command_opcode, status),
    {
        if command_opcode == HCI_LE_CREATE_BIG_COMMAND {
            match take_first(&mut self.pending_big_commands) {
                Some(big_handle) => {
                    if status != 0 {
                        self.pending_bigs.remove(&big_handle);
                        self.bigs.remove(&big_handle);
                        self.big_errors.push((big_handle, status));
                        assert(self@.bigs =~= old(self)@.bigs.remove(big_handle));
                    }
                },
                None => {},
            }
        } else {
            match take_first(&mut self.pending_big_sync_commands) {
                Some(big_handle) => {
                    if status != 0 {
                        self.pending_big_syncs.remove(&big_handle);
                        self.big_syncs.remove(&big_handle);
                        self.big_errors.push((big_handle, status));
                        assert(self@.big_syncs =~= old(self)@.big_syncs.remove(big_handle));
                    }
                },
                None => {},
            }
        }
        assert(self@ =~= old(self)@.big_command_answered(command_opcode, status));
    }

    /// A CIS has been established, or not.
    pub fn on_cis_established(&mut self, status: u8, link: CisLinkInfo)
        ensures
            final(self)@ == old(self)@.cis_established(status, link),
    {
        if status == 0 {
            self.cis_links.insert(link.connection_handle, link);
            self.number(link.connection_handle);
        }
        self.cis_control_events.push(CisControlEvent::Established { status, link });
        assert(self@ =~= old(self)@.cis_established(status, link));
    }

    /// The controller has answered a command of CIS control.
    pub fn on_cis_command_status(&mut self, command_opcode: u16, status: u8)
        ensures
            final(self)@ == old(self)@.cis_event(
                CisControlEventView::CommandStatus { command_opcode, status },
            ),
    {
        self.cis_control_events.push(CisControlEvent::CommandStatus { command_opcode, status });
        assert(self@ =~= old(self)@.cis_event(
            CisControlEventView::CommandStatus { command_opcode, status },
        ));
    }

    /// A CIG has been configured, or not.
    pub fn on_cig_configured(&mut self, data: &Vec<u8>)
        ensures
            final(self)@ == old(self)@.cig_configured(data@),
    {
        if data.len() >= 3 && data.len() == 3 + (data[2] as usize) * 2 {
            let connection_handles = read_cig_handles(data);
            if data[0] == 0 {
                self.configured_cis_handles = read_cig_handles(data);
            }
            self.cis_control_events.push(
                CisControlEvent::CigConfigured {
                    status: data[0],
                    cig_id: data[1],
                    connection_handles,
                },
            );
        }
        assert(self@ =~= old(self)@.cig_configured(data@));
    }

    /// Put a data path in.
    fn put_path(&mut self, handle: u16, direction: u8, path: IsoDataPathParameters)
        ensures
            final(self)@ == old(self)@.with_path(handle, direction, path@),
    {
        let mut paths = match self.iso_data_paths.remove(&handle) {
            Some(paths) => paths,
            None => BTreeMap::new(),
        };
        let ghost contents = paths@.map_values(|path: IsoDataPathParameters| path@);
        paths.insert(direction, path);
        assert(paths@.map_values(|path: IsoDataPathParameters| path@) =~= contents.insert(
            direction,
            path@,
        ));
        assert(contents =~= if old(self)@.iso_data_paths.contains_key(handle) {
            old(self)@.iso_data_paths[handle]
        } else {
            Map::empty()
        });
        self.iso_data_paths.insert(handle, paths);
        assert(self@.iso_data_paths =~= old(self)@.with_path(
            handle,
            direction,
            path@,
        ).iso_data_paths);
        assert(self@ =~= old(self)@.with_path(handle, direction, path@));
    }

    /// Take a data path out.
    fn drop_path(&mut self, handle: u16, direction: u8)
        ensures
            final(self)@ == old(self)@.without_path(handle, direction),
    {
        match self.iso_data_paths.remove(&handle) {
            Some(mut paths) => {
                let ghost contents = paths@.map_values(|path: IsoDataPathParameters| path@);
                paths.remove(&direction);
                assert(paths@.map_values(|path: IsoDataPathParameters| path@) =~= contents.remove(
                    direction,
                ));
                self.iso_data_paths.insert(handle, paths);
            },
            None => {},
        }
        assert(self@.iso_data_paths =~= old(self)@.without_path(handle, direction).iso_data_paths);
        assert(self@ =~= old(self)@.without_path(handle, direction));
    }

    /// Record an event of ISO control.
    fn record(&mut self, event: IsoControlEvent)
        ensures
            final(self)@ == old(self)@.iso_event(event@),
    {
        self.iso_control_events.push(event);
        assert(self@ =~= old(self)@.iso_event(event@));
    }

    /// A data path has been set up, or not.
    pub fn on_path_set_up(&mut self, status: u8, handle: u16)
        ensures
            final(self)@ == old(self)@.path_set_up(status, handle),
    {
        let ghost before = self.pending_iso_data_path_setups@;
        proof {
            lemma_first_of_map(before, setup_view(), handle);
            assert(self@.pending_iso_data_path_setups =~= before.map_values(setup_view()));
        }
        match remove_first_of(&mut self.pending_iso_data_path_setups, handle) {
            Some((_, parameters)) => {
                proof {
                    let ghost index = first_of(before, handle)->Some_0;
                    assert(self@.pending_iso_data_path_setups =~= old(
                        self,
                    )@.pending_iso_data_path_setups.remove(index));
                    assert(self@ =~= (IsoView {
                        pending_iso_data_path_setups: old(
                            self,
                        )@.pending_iso_data_path_setups.remove(index),
                        ..old(self)@
                    }));
                }
                if status == 0 {
                    let path = parameters.clone();
                    self.put_path(handle, parameters.direction, path);
                }
                self.record(
                    IsoControlEvent::DataPathSetup {
                        status,
                        connection_handle: handle,
                        parameters,
                    },
                );
            },
            None => {},
        }
        assert(self@ =~= old(self)@.path_set_up(status, handle));
    }

    /// Data paths have been removed, or not.
    pub fn on_path_removed(&mut self, status: u8, handle: u16)
        ensures
            final(self)@ == old(self)@.path_removed(status, handle),
    {
        match remove_first_of(&mut self.pending_iso_data_path_removals, handle) {
            Some((_, directions)) => {
                if status == 0 && directions & 0x01 != 0 {
                    self.drop_path(handle, 0);
                }
                if status == 0 && directions & 0x02 != 0 {
                    self.drop_path(handle, 1);
                }
                self.record(
                    IsoControlEvent::DataPathRemoved {
                        status,
                        connection_handle: handle,
                        directions,
                    },
                );
            },
            None => {},
        }
        assert(self@ =~= old(self)@.path_removed(status, handle));
    }

    /// Transmit synchronization has been read, or not.
    pub fn on_tx_sync_read(&mut self, status: u8, sync: IsoTxSyncInfo)
        ensures
            final(self)@ == old(self)@.tx_sync_read(status, sync),
    {
        let handle: u16 = sync.connection_handle;
        if remove_value(&mut self.pending_iso_tx_syncs, handle) {
            if status == 0 {
                self.iso_tx_syncs.insert(handle, sync);
            }
            self.record(
                IsoControlEvent::TxSync {
                    status,
                    connection_handle: handle,
                    sync: if status == 0 {
                        Some(sync)
                    } else {
                        None
                    },
                },
            );
        } else {
            proof {
                old(self).pending_iso_tx_syncs@.index_of_first_ensures(handle);
            }
        }
        assert(self@ =~= old(self)@.tx_sync_read(status, sync));
    }

    /// The controller has refused the oldest data-path or synchronization
    /// command of a kind.
    pub fn on_iso_command_refused(&mut self, command_opcode: u16, status: u8)
        ensures
            final(self)@ == old(self)@.iso_command_refused(command_opcode, status),
    {
        if command_opcode == HCI_LE_SETUP_ISO_DATA_PATH_COMMAND {
            match take_first(&mut self.pending_iso_data_path_setups) {
                Some((handle, parameters)) => {
                    assert(self@.pending_iso_data_path_setups =~= old(
                        self,
                    )@.pending_iso_data_path_setups.skip(1));
                    self.record(
                        IsoControlEvent::DataPathSetup {
                            status,
                            connection_handle: handle,
                            parameters,
                        },
                    );
                },
                None => {},
            }
        } else if command_opcode == HCI_LE_REMOVE_ISO_DATA_PATH_COMMAND {
            match take_first(&mut self.pending_iso_data_path_removals) {
                Some((handle, directions)) => {
                    self.record(
                        IsoControlEvent::DataPathRemoved {
                            status,
                            connection_handle: handle,
                            directions,
                        },
                    );
                },
                None => {},
            }
        } else {
            match take_first(&mut self.pending_iso_tx_syncs) {
                Some(handle) => {
                    self.record(
                        IsoControlEvent::TxSync { status, connection_handle: handle, sync: None },
                    );
                },
                None => {},
            }
        }
        assert(self@ =~= old(self)@.iso_command_refused(command_opcode, status));
    }

    /// A packet of a stream has arrived.
    pub fn on_iso_packet(&mut self, packet: IsoDataPacket)
        ensures
            final(self)@ == old(self)@.packet_received(packet),
    {
        let handle: u16 = packet.connection_handle;
        let mut assembler = match self.iso_assemblers.remove(&handle) {
            Some(assembler) => assembler,
            None => IsoSduAssembler::default(),
        };
        assert(assembler@ =~= old(self)@.assembler(handle));
        let sdu = assembler.push(packet);
        self.iso_assemblers.insert(handle, assembler);
        match sdu {
            Some(sdu) => {
                self.iso_inbox.push(sdu);
            },
            None => {},
        }
        proof {
            let ghost expected = old(self)@.packet_received(packet);
            assert(self@.iso_assemblers =~= expected.iso_assemblers);
            assert(self@.iso_inbox =~= expected.iso_inbox);
            assert(self@ =~= expected);
        }
    }
}

} // verus!
