//! Operations on isochronous groups, streams and data paths.

use crate::commands::with_command;
use crate::device::{Device, DeviceView};
use crate::hci::{Command, IsoDataPacket};
use crate::iso::{
    are_fragments, fragment_start, iso_fragments, BigParameters, BigSyncParameters, CigParameters, CisParameters,
    IsoDataPathParameters, IsoDataPathParametersView, IsoSdu, IsoSduView, SDU_INFO_LENGTH,
};
use crate::power::spec_bit;
use crate::iso_link::{sdu_of_other, sdu_view};
use crate::pools::{
    all_accepted, answers, enqueue_all, hand_over_packets, handed_over, PoolsView,
};
use crate::retain::{
    lemma_filter_map, not_of_connection, of_connection, take_of_connection,
};
use crate::state::IsoView;
use crate::transport::{
    commands, lemma_sent_between, only_commands, sent_between, HostAction, HostTransport,
};
use vstd::prelude::*;

verus! {

broadcast use vstd::laws_cmp::group_laws_cmp;

/// The largest value of a three-byte field.
pub const MAX_THREE_BYTES: u32 = 0x00FF_FFFF;

/// The broadcast code of an unencrypted group.
pub const NO_BROADCAST_CODE: [u8; 16] = [0, 0, 0, 0, 0, 0, 0, 0, 0, 0, 0, 0, 0, 0, 0, 0];

impl CigParameters {
    /// Whether the controller can be asked for such a group.
    pub open spec fn acceptable(self) -> bool {
        &&& 1 <= self.cis_parameters@.len() <= 255
        &&& self.sdu_interval_c_to_p <= MAX_THREE_BYTES
        &&& self.sdu_interval_p_to_c <= MAX_THREE_BYTES
    }

    /// The normalized parameters of the group's streams.
    pub open spec fn streams(self) -> Seq<CisParameters> {
        self.cis_parameters@.map_values(|cis: CisParameters| cis.spec_normalized())
    }

    /// Whether a command asks for this group.
    pub open spec fn asked_by(self, command: Command) -> bool {
        let streams = self.streams();
        command matches Command::LeSetCigParameters {
            cig_id,
            sdu_interval_c_to_p,
            sdu_interval_p_to_c,
            worst_case_sca,
            packing,
            framing,
            max_transport_latency_c_to_p,
            max_transport_latency_p_to_c,
            cis_id,
            max_sdu_c_to_p,
            max_sdu_p_to_c,
            phy_c_to_p,
            phy_p_to_c,
            rtn_c_to_p,
            rtn_p_to_c,
        } && {
            &&& cig_id == self.cig_id
            &&& sdu_interval_c_to_p == self.sdu_interval_c_to_p
            &&& sdu_interval_p_to_c == self.sdu_interval_p_to_c
            &&& worst_case_sca == self.worst_case_sca
            &&& packing == self.packing
            &&& framing == self.framing
            &&& max_transport_latency_c_to_p == self.max_transport_latency_c_to_p
            &&& max_transport_latency_p_to_c == self.max_transport_latency_p_to_c
            &&& cis_id@ == streams.map_values(|cis: CisParameters| cis.cis_id)
            &&& max_sdu_c_to_p@ == streams.map_values(|cis: CisParameters| cis.max_sdu_c_to_p)
            &&& max_sdu_p_to_c@ == streams.map_values(|cis: CisParameters| cis.max_sdu_p_to_c)
            &&& phy_c_to_p@ == streams.map_values(|cis: CisParameters| cis.phy_c_to_p)
            &&& phy_p_to_c@ == streams.map_values(|cis: CisParameters| cis.phy_p_to_c)
            &&& rtn_c_to_p@ == streams.map_values(|cis: CisParameters| cis.rtn_c_to_p)
            &&& rtn_p_to_c@ == streams.map_values(|cis: CisParameters| cis.rtn_p_to_c)
        }
    }

    /// The command that asks for this group.
    fn command(&self) -> (command: Command)
        ensures
            self.asked_by(command),
    {
        let mut cis_id: Vec<u8> = Vec::new();
        let mut max_sdu_c_to_p: Vec<u16> = Vec::new();
        let mut max_sdu_p_to_c: Vec<u16> = Vec::new();
        let mut phy_c_to_p: Vec<u8> = Vec::new();
        let mut phy_p_to_c: Vec<u8> = Vec::new();
        let mut rtn_c_to_p: Vec<u8> = Vec::new();
        let mut rtn_p_to_c: Vec<u8> = Vec::new();
        let ghost streams = self.streams();
        let mut index: usize = 0;
        while index < self.cis_parameters.len()
            invariant
                index <= self.cis_parameters@.len(),
                streams == self.streams(),
                cis_id@ == streams.take(index as int).map_values(|cis: CisParameters| cis.cis_id),
                max_sdu_c_to_p@ == streams.take(index as int).map_values(
                    |cis: CisParameters| cis.max_sdu_c_to_p,
                ),
                max_sdu_p_to_c@ == streams.take(index as int).map_values(
                    |cis: CisParameters| cis.max_sdu_p_to_c,
                ),
                phy_c_to_p@ == streams.take(index as int).map_values(
                    |cis: CisParameters| cis.phy_c_to_p,
                ),
                phy_p_to_c@ == streams.take(index as int).map_values(
                    |cis: CisParameters| cis.phy_p_to_c,
                ),
                rtn_c_to_p@ == streams.take(index as int).map_values(
                    |cis: CisParameters| cis.rtn_c_to_p,
                ),
                rtn_p_to_c@ == streams.take(index as int).map_values(
                    |cis: CisParameters| cis.rtn_p_to_c,
                ),
            decreases self.cis_parameters@.len() - index,
        {
            let cis: CisParameters = self.cis_parameters[index].normalized();
            assert(cis == streams[index as int]);
            assert(streams.take(index + 1) =~= streams.take(index as int).push(cis));
            cis_id.push(cis.cis_id);
            max_sdu_c_to_p.push(cis.max_sdu_c_to_p);
            max_sdu_p_to_c.push(cis.max_sdu_p_to_c);
            phy_c_to_p.push(cis.phy_c_to_p);
            phy_p_to_c.push(cis.phy_p_to_c);
            rtn_c_to_p.push(cis.rtn_c_to_p);
            rtn_p_to_c.push(cis.rtn_p_to_c);
            index += 1;
        }
        assert(streams.take(index as int) =~= streams);
        Command::LeSetCigParameters {
            cig_id: self.cig_id,
            sdu_interval_c_to_p: self.sdu_interval_c_to_p,
            sdu_interval_p_to_c: self.sdu_interval_p_to_c,
            worst_case_sca: self.worst_case_sca,
            packing: self.packing,
            framing: self.framing,
            max_transport_latency_c_to_p: self.max_transport_latency_c_to_p,
            max_transport_latency_p_to_c: self.max_transport_latency_p_to_c,
            cis_id,
            max_sdu_c_to_p,
            max_sdu_p_to_c,
            phy_c_to_p,
            phy_p_to_c,
            rtn_c_to_p,
            rtn_p_to_c,
        }
    }
}

/// Whether one command of a kind, and nothing else, was handed over, or
/// nothing where there was no reason to.
pub open spec fn sent_one(
    before: Seq<HostAction>,
    after: Seq<HostAction>,
    controller_id: usize,
) -> bool {
    &&& only_commands(before, after, controller_id)
    &&& sent_between(before, after).len() == 1
}

impl DeviceView {
    /// How a call of [`Device::accept_cis`] shows.
    pub open spec fn accept_cis_shows(
        self,
        after: DeviceView,
        cis_handle: u16,
        log_before: Seq<HostAction>,
        log_after: Seq<HostAction>,
    ) -> bool {
        &&& after == self
        &&& log_after == with_command(
            log_before,
            self.controller_id,
            Command::LeAcceptCisRequest { connection_handle: cis_handle },
        )
    }

    /// How a call of [`Device::reject_cis`] shows.
    pub open spec fn reject_cis_shows(
        self,
        after: DeviceView,
        cis_handle: u16,
        reason: u8,
        log_before: Seq<HostAction>,
        log_after: Seq<HostAction>,
    ) -> bool {
        &&& after == self
        &&& log_after == with_command(
            log_before,
            self.controller_id,
            Command::LeRejectCisRequest { connection_handle: cis_handle, reason },
        )
    }

    /// How a call of [`Device::terminate_big`] shows.
    pub open spec fn terminate_big_shows(
        self,
        after: DeviceView,
        big_handle: u8,
        reason: u8,
        asked: bool,
        log_before: Seq<HostAction>,
        log_after: Seq<HostAction>,
    ) -> bool {
        &&& after == self
        &&& asked == self.iso.bigs.contains_key(big_handle)
        &&& log_after == if asked {
            with_command(
                log_before,
                self.controller_id,
                Command::LeTerminateBig { big_handle, reason },
            )
        } else {
            log_before
        }
    }

    /// How a call of [`Device::terminate_big_sync`] shows.
    pub open spec fn terminate_big_sync_shows(
        self,
        after: DeviceView,
        big_handle: u8,
        asked: bool,
        log_before: Seq<HostAction>,
        log_after: Seq<HostAction>,
    ) -> bool {
        &&& after == self
        &&& asked == self.iso.big_syncs.contains_key(big_handle)
        &&& log_after == if asked {
            with_command(
                log_before,
                self.controller_id,
                Command::LeBigTerminateSync { big_handle },
            )
        } else {
            log_before
        }
    }

    /// How a call of [`Device::remove_iso_data_path`] shows.
    pub open spec fn remove_iso_data_path_shows(
        self,
        after: DeviceView,
        iso_handle: u16,
        directions: u8,
        accepted: bool,
        log_before: Seq<HostAction>,
        log_after: Seq<HostAction>,
    ) -> bool {
        &&& accepted == (self.iso.established(iso_handle) && 1 <= directions <= 3)
        &&& if !accepted || !self.removes_path(iso_handle, directions) {
            after == self && log_after == log_before
        } else {
            &&& after == self.removal_asked(
                iso_handle,
                self.iso.installed(iso_handle, directions),
            )
            &&& log_after == with_command(
                log_before,
                self.controller_id,
                Command::LeRemoveIsoDataPath {
                    connection_handle: iso_handle,
                    data_path_direction: self.iso.installed(iso_handle, directions),
                },
            )
        }
    }

    /// How a call of [`Device::read_iso_tx_sync`] shows.
    pub open spec fn read_iso_tx_sync_shows(
        self,
        after: DeviceView,
        iso_handle: u16,
        asked: bool,
        log_before: Seq<HostAction>,
        log_after: Seq<HostAction>,
    ) -> bool {
        &&& asked == self.iso.established(iso_handle)
        &&& if asked {
            &&& after == (DeviceView {
                iso: IsoView {
                    pending_iso_tx_syncs: self.iso.pending_iso_tx_syncs.push(iso_handle),
                    ..self.iso
                },
                ..self
            })
            &&& log_after == with_command(
                log_before,
                self.controller_id,
                Command::LeReadIsoTxSync { connection_handle: iso_handle },
            )
        } else {
            after == self && log_after == log_before
        }
    }
}

impl Device {
    /// Hand over one command that the device does not remember.
    pub(crate) fn hand_over_one<L: HostTransport + ?Sized>(&self, link: &mut L, command: Command)
        ensures
            final(link).log() == with_command(old(link).log(), self.controller_id, command),
            sent_one(old(link).log(), final(link).log(), self.controller_id),
            sent_between(old(link).log(), final(link).log())[0] == command,
    {
        let ghost log = link.log();
        link.handle_command(self.controller_id, command);
        proof {
            assert(link.log() =~= log + commands(self.controller_id, seq![command]));
            lemma_sent_between(log, link.log(), self.controller_id, seq![command]);
        }
    }

    /// Configure a CIG using the default per-CIS QoS values. The allocated CIS
    /// handles become available through
    /// [`Device::take_configured_cis_handles`] once the answer has been polled.
    pub fn configure_cig<L: HostTransport + ?Sized>(
        &mut self,
        link: &mut L,
        cig_id: u8,
        cis_ids: &[u8],
    ) -> (asked: bool)
        requires
            old(self).wf(),
        ensures
            final(self).wf(),
            final(self)@ == old(self)@,
            asked == (1 <= cis_ids@.len() <= 255),
            if asked {
                &&& sent_one(old(link).log(), final(link).log(), old(self).controller_id)
                &&& exists|parameters: CigParameters|
                    {
                        &&& default_group(parameters, cig_id, cis_ids@)
                        &&& #[trigger] parameters.asked_by(
                            sent_between(old(link).log(), final(link).log())[0],
                        )
                    }
            } else {
                final(link).log() == old(link).log()
            },
    {
        let mut cis_parameters: Vec<CisParameters> = Vec::new();
        let mut index: usize = 0;
        while index < cis_ids.len()
            invariant
                index <= cis_ids@.len(),
                cis_parameters@.len() == index,
                forall|place: int|
                    0 <= place < index ==> is_default_stream(
                        #[trigger] cis_parameters@[place],
                        cis_ids@[place],
                    ),
            decreases cis_ids@.len() - index,
        {
            cis_parameters.push(CisParameters::new(cis_ids[index]));
            index += 1;
        }
        let parameters = CigParameters::new(cig_id, cis_parameters, 10_000, 10_000);
        assert(default_group(parameters, cig_id, cis_ids@));
        self.configure_cig_with_parameters(link, &parameters)
    }

    /// Configure a CIG with the complete set of parameters. Returns `false`,
    /// with nothing done, where the controller could not be asked for it.
    pub fn configure_cig_with_parameters<L: HostTransport + ?Sized>(
        &mut self,
        link: &mut L,
        parameters: &CigParameters,
    ) -> (asked: bool)
        requires
            old(self).wf(),
        ensures
            final(self).wf(),
            final(self)@ == old(self)@,
            asked == parameters.acceptable(),
            if asked {
                &&& sent_one(old(link).log(), final(link).log(), old(self).controller_id)
                &&& parameters.asked_by(sent_between(old(link).log(), final(link).log())[0])
            } else {
                final(link).log() == old(link).log()
            },
    {
        if parameters.cis_parameters.len() == 0 || parameters.cis_parameters.len() > 255
            || parameters.sdu_interval_c_to_p > MAX_THREE_BYTES || parameters.sdu_interval_p_to_c
            > MAX_THREE_BYTES {
            return false;
        }
        self.hand_over_one(link, parameters.command());
        true
    }
}

/// Whether a stream has the default parameters.
pub open spec fn is_default_stream(stream: CisParameters, cis_id: u8) -> bool {
    stream == CisParameters::spec_new(cis_id)
}

/// Whether a group has the default parameters.
pub open spec fn default_group(parameters: CigParameters, cig_id: u8, cis_ids: Seq<u8>) -> bool {
    &&& parameters.is_new(cig_id, 10_000, 10_000)
    &&& parameters.cis_parameters@.len() == cis_ids.len()
    &&& forall|place: int|
        0 <= place < cis_ids.len() ==> is_default_stream(
            #[trigger] parameters.cis_parameters@[place],
            cis_ids[place],
        )
}

impl IsoView {
    /// Whether a stream is established.
    pub open spec fn established(self, iso_handle: u16) -> bool {
        self.cis_links.contains_key(iso_handle) || self.bis_directions.contains_key(iso_handle)
    }

    /// Whether a stream is established for a direction.
    pub open spec fn established_for(self, iso_handle: u16, direction: u8) -> bool {
        ||| self.cis_links.contains_key(iso_handle)
        ||| self.bis_directions.contains_key(iso_handle) && self.bis_directions[iso_handle]
            == direction
    }

    /// Whether a BIG handle is in use.
    pub open spec fn big_in_use(self, big_handle: u8) -> bool {
        ||| self.bigs.contains_key(big_handle)
        ||| self.pending_bigs.contains(big_handle)
        ||| self.big_syncs.contains_key(big_handle)
        ||| self.pending_big_syncs.contains(big_handle)
    }

    /// Whether a BIG with such parameters can be asked for.
    pub open spec fn accepts_big(self, parameters: BigParameters) -> bool {
        &&& parameters.big_handle <= 0xEF
        &&& !self.big_in_use(parameters.big_handle)
        &&& 1 <= parameters.num_bis <= 31
        &&& 0xFF <= parameters.sdu_interval <= MAX_THREE_BYTES
        &&& 1 <= parameters.max_sdu <= 0x0FFF
        &&& 5 <= parameters.max_transport_latency <= 4_000
        &&& parameters.rtn <= 0x1E
        &&& 1 <= parameters.phy <= 7
        &&& parameters.packing <= 1
        &&& parameters.framing <= 1
    }

    /// The state with a BIG asked for.
    pub open spec fn big_asked(self, big_handle: u8) -> IsoView {
        IsoView {
            pending_bigs: self.pending_bigs.insert(big_handle),
            pending_big_commands: self.pending_big_commands.push(big_handle),
            ..self
        }
    }

    /// The state with a BIG sync asked for.
    pub open spec fn big_sync_asked(self, big_handle: u8) -> IsoView {
        IsoView {
            pending_big_syncs: self.pending_big_syncs.insert(big_handle),
            pending_big_sync_commands: self.pending_big_sync_commands.push(big_handle),
            ..self
        }
    }
}

/// Whether BIS indices can be synchronized to: at least one, none twice, and
/// each in range.
pub open spec fn acceptable_bis(bis: Seq<u8>) -> bool {
    &&& 1 <= bis.len() <= 31
    &&& bis.no_duplicates()
    &&& forall|index: int| 0 <= index < bis.len() ==> 1 <= #[trigger] bis[index] <= 31
}

/// The broadcast code that is sent.
pub open spec fn sent_code(broadcast_code: Option<[u8; 16]>) -> [u8; 16] {
    match broadcast_code {
        Some(code) => code,
        None => NO_BROADCAST_CODE,
    }
}

/// The command that asks for a BIG.
pub open spec fn big_command(parameters: BigParameters) -> Command {
    Command::LeCreateBig {
        big_handle: parameters.big_handle,
        advertising_handle: parameters.advertising_handle,
        num_bis: parameters.num_bis,
        sdu_interval: parameters.sdu_interval,
        max_sdu: parameters.max_sdu,
        max_transport_latency: parameters.max_transport_latency,
        rtn: parameters.rtn,
        phy: parameters.phy,
        packing: parameters.packing,
        framing: parameters.framing,
        encryption: spec_bit(parameters.broadcast_code is Some),
        broadcast_code: sent_code(parameters.broadcast_code),
    }
}

/// Whether a command asks for synchronization to a BIG.
pub open spec fn asks_big_sync(command: Command, parameters: BigSyncParameters) -> bool {
    command matches Command::LeBigCreateSync {
        big_handle,
        sync_handle,
        encryption,
        broadcast_code,
        mse,
        big_sync_timeout,
        bis,
    } && {
        &&& big_handle == parameters.big_handle
        &&& sync_handle == parameters.sync_handle
        &&& encryption == spec_bit(parameters.broadcast_code is Some)
        &&& broadcast_code == sent_code(parameters.broadcast_code)
        &&& mse == parameters.mse
        &&& big_sync_timeout == parameters.big_sync_timeout
        &&& bis@ == parameters.bis@
    }
}

impl DeviceView {
    /// Whether synchronization to a BIG with such parameters can be asked for.
    pub open spec fn accepts_big_sync(self, parameters: BigSyncParameters) -> bool {
        &&& parameters.big_handle <= 0xEF
        &&& !self.iso.big_in_use(parameters.big_handle)
        &&& self.gap.periodic_syncs.contains_key(parameters.sync_handle)
        &&& acceptable_bis(parameters.bis@)
        &&& parameters.mse <= 0x1F
        &&& 0x000A <= parameters.big_sync_timeout <= 0x4000
    }
}

/// Whether every handle of a list of pairs names a live LE connection.
pub open spec fn acceptable_pairs(device: DeviceView, pairs: Seq<(u16, u16)>) -> bool {
    &&& 1 <= pairs.len() <= 255
    &&& forall|index: int|
        0 <= index < pairs.len() ==> device.le.le_connections.contains_key(
            (#[trigger] pairs[index]).1,
        )
}

/// Whether a command asks for streams, each on its connection.
pub open spec fn asks_streams(command: Command, pairs: Seq<(u16, u16)>) -> bool {
    command matches Command::LeCreateCis { cis_connection_handle, acl_connection_handle }
        && cis_connection_handle@ == pairs.map_values(|pair: (u16, u16)| pair.0)
        && acl_connection_handle@ == pairs.map_values(|pair: (u16, u16)| pair.1)
}

impl Device {
    /// Establish one or more configured CIS handles in a single HCI command.
    /// Each tuple is `(cis_connection_handle, acl_connection_handle)`.
    pub fn create_cis_pairs<L: HostTransport + ?Sized>(
        &mut self,
        link: &mut L,
        cis_acl_pairs: &[(u16, u16)],
    ) -> (asked: bool)
        requires
            old(self).wf(),
        ensures
            final(self).wf(),
            final(self)@ == old(self)@,
            asked == acceptable_pairs(old(self)@, cis_acl_pairs@),
            if asked {
                &&& sent_one(old(link).log(), final(link).log(), old(self).controller_id)
                &&& asks_streams(
                    sent_between(old(link).log(), final(link).log())[0],
                    cis_acl_pairs@,
                )
            } else {
                final(link).log() == old(link).log()
            },
    {
        if cis_acl_pairs.len() == 0 || cis_acl_pairs.len() > 255 {
            return false;
        }
        let ghost pairs = cis_acl_pairs@;
        let mut streams: Vec<u16> = Vec::new();
        let mut connections: Vec<u16> = Vec::new();
        let mut index: usize = 0;
        while index < cis_acl_pairs.len()
            invariant
                index <= cis_acl_pairs@.len(),
                pairs == cis_acl_pairs@,
                *self == *old(self),
                self.wf(),
                streams@ == pairs.take(index as int).map_values(|pair: (u16, u16)| pair.0),
                connections@ == pairs.take(index as int).map_values(|pair: (u16, u16)| pair.1),
                forall|place: int|
                    0 <= place < index ==> self@.le.le_connections.contains_key(
                        (#[trigger] pairs[place]).1,
                    ),
                link.log() == old(link).log(),
            decreases cis_acl_pairs@.len() - index,
        {
            let pair: (u16, u16) = cis_acl_pairs[index];
            let live: bool = self.le.le_connections.contains_key(&pair.1);
            assert(live == self@.le.le_connections.contains_key(pairs[index as int].1));
            if !live {
                return false;
            }
            assert(pairs.take(index + 1) =~= pairs.take(index as int).push(pair));
            streams.push(pair.0);
            connections.push(pair.1);
            index += 1;
        }
        assert(pairs.take(index as int) =~= pairs);
        self.hand_over_one(
            link,
            Command::LeCreateCis {
                cis_connection_handle: streams,
                acl_connection_handle: connections,
            },
        );
        true
    }

    /// Establish a configured CIS on one LE connection.
    pub fn create_cis_on_handle<L: HostTransport + ?Sized>(
        &mut self,
        link: &mut L,
        acl_handle: u16,
        cis_handle: u16,
    ) -> (asked: bool)
        requires
            old(self).wf(),
        ensures
            final(self).wf(),
            final(self)@ == old(self)@,
            asked == old(self)@.le.le_connections.contains_key(acl_handle),
            if asked {
                &&& sent_one(old(link).log(), final(link).log(), old(self).controller_id)
                &&& asks_streams(
                    sent_between(old(link).log(), final(link).log())[0],
                    seq![(cis_handle, acl_handle)],
                )
            } else {
                final(link).log() == old(link).log()
            },
    {
        let mut pairs: Vec<(u16, u16)> = Vec::new();
        pairs.push((cis_handle, acl_handle));
        assert(pairs@ =~= seq![(cis_handle, acl_handle)]);
        assert(pairs@[0].1 == acl_handle);
        self.create_cis_pairs(link, pairs.as_slice())
    }

    /// Establish a configured CIS on the selected LE connection.
    pub fn create_cis<L: HostTransport + ?Sized>(&mut self, link: &mut L, cis_handle: u16) -> (
    asked: bool)
        requires
            old(self).wf(),
        ensures
            final(self).wf(),
            final(self)@ == old(self)@,
            asked == (old(self)@.le.connection_handle is Some),
            if asked {
                &&& sent_one(old(link).log(), final(link).log(), old(self).controller_id)
                &&& asks_streams(
                    sent_between(old(link).log(), final(link).log())[0],
                    seq![(cis_handle, old(self)@.le.connection_handle->0)],
                )
            } else {
                final(link).log() == old(link).log()
            },
    {
        match self.le.connection_handle {
            Some(acl_handle) => self.create_cis_on_handle(link, acl_handle, cis_handle),
            None => false,
        }
    }

    /// Accept an incoming CIS request.
    pub fn accept_cis<L: HostTransport + ?Sized>(&mut self, link: &mut L, cis_handle: u16)
        requires
            old(self).wf(),
        ensures
            final(self).wf(),
            old(self)@.accept_cis_shows(
                final(self)@,
                cis_handle,
                old(link).log(),
                final(link).log(),
            ),
    {
        self.send_hci_command(link, Command::LeAcceptCisRequest { connection_handle: cis_handle });
    }

    /// Reject an incoming CIS request with the supplied HCI reason code.
    pub fn reject_cis<L: HostTransport + ?Sized>(
        &mut self,
        link: &mut L,
        cis_handle: u16,
        reason: u8,
    )
        requires
            old(self).wf(),
        ensures
            final(self).wf(),
            old(self)@.reject_cis_shows(
                final(self)@,
                cis_handle,
                reason,
                old(link).log(),
                final(link).log(),
            ),
    {
        self.send_hci_command(
            link,
            Command::LeRejectCisRequest { connection_handle: cis_handle, reason },
        );
    }

    /// Whether a BIG handle is in use.
    fn is_big_in_use(&self, big_handle: u8) -> (used: bool)
        ensures
            used == self@.iso.big_in_use(big_handle),
    {
        let big: bool = self.iso.bigs.contains_key(&big_handle);
        let sync: bool = self.iso.big_syncs.contains_key(&big_handle);
        assert(big == self@.iso.bigs.contains_key(big_handle));
        assert(sync == self@.iso.big_syncs.contains_key(big_handle));
        big || self.iso.pending_bigs.contains(&big_handle) || sync
            || self.iso.pending_big_syncs.contains(&big_handle)
    }

    /// Create a BIG attached to an active periodic advertising set. BIS handles
    /// become available through [`Self::big_bis_handles`] after polling.
    pub fn create_big<L: HostTransport + ?Sized>(
        &mut self,
        link: &mut L,
        parameters: BigParameters,
    ) -> (asked: bool)
        requires
            old(self).wf(),
        ensures
            final(self).wf(),
            asked == old(self)@.iso.accepts_big(parameters),
            if asked {
                &&& final(self)@ == (DeviceView {
                    iso: old(self)@.iso.big_asked(parameters.big_handle),
                    ..old(self)@
                })
                &&& final(link).log() == with_command(
                    old(link).log(),
                    old(self).controller_id,
                    big_command(parameters),
                )
            } else {
                final(self)@ == old(self)@ && final(link).log() == old(link).log()
            },
    {
        let phy: u8 = parameters.phy;
        assert((phy & !0x07u8 != 0) == (phy > 7)) by (bit_vector);
        if parameters.big_handle > 0xEF || self.is_big_in_use(parameters.big_handle)
            || parameters.num_bis == 0 || parameters.num_bis > 31 || parameters.sdu_interval < 0xFF
            || parameters.sdu_interval > MAX_THREE_BYTES || parameters.max_sdu < 1
            || parameters.max_sdu > 0x0FFF || parameters.max_transport_latency < 5
            || parameters.max_transport_latency > 4_000 || parameters.rtn > 0x1E || phy == 0
            || phy & !0x07u8 != 0 || parameters.packing > 1 || parameters.framing > 1 {
            return false;
        }
        self.iso.pending_bigs.insert(parameters.big_handle);
        self.iso.pending_big_commands.push(parameters.big_handle);
        assert(self@ =~= (DeviceView {
            iso: old(self)@.iso.big_asked(parameters.big_handle),
            ..old(self)@
        }));
        let (encryption, broadcast_code): (u8, [u8; 16]) = match parameters.broadcast_code {
            Some(code) => (1, code),
            None => (0, NO_BROADCAST_CODE),
        };
        self.send_hci_command(
            link,
            Command::LeCreateBig {
                big_handle: parameters.big_handle,
                advertising_handle: parameters.advertising_handle,
                num_bis: parameters.num_bis,
                sdu_interval: parameters.sdu_interval,
                max_sdu: parameters.max_sdu,
                max_transport_latency: parameters.max_transport_latency,
                rtn: parameters.rtn,
                phy: parameters.phy,
                packing: parameters.packing,
                framing: parameters.framing,
                encryption,
                broadcast_code,
            },
        );
        true
    }

    /// End a BIG.
    pub fn terminate_big<L: HostTransport + ?Sized>(
        &mut self,
        link: &mut L,
        big_handle: u8,
        reason: u8,
    ) -> (asked: bool)
        requires
            old(self).wf(),
        ensures
            final(self).wf(),
            old(self)@.terminate_big_shows(
                final(self)@,
                big_handle,
                reason,
                asked,
                old(link).log(),
                final(link).log(),
            ),
    {
        let known: bool = self.iso.bigs.contains_key(&big_handle);
        assert(known == self@.iso.bigs.contains_key(big_handle));
        if known {
            self.send_hci_command(link, Command::LeTerminateBig { big_handle, reason });
        }
        known
    }

    /// End synchronization to a BIG.
    pub fn terminate_big_sync<L: HostTransport + ?Sized>(
        &mut self,
        link: &mut L,
        big_handle: u8,
    ) -> (asked: bool)
        requires
            old(self).wf(),
        ensures
            final(self).wf(),
            old(self)@.terminate_big_sync_shows(
                final(self)@,
                big_handle,
                asked,
                old(link).log(),
                final(link).log(),
            ),
    {
        let known: bool = self.iso.big_syncs.contains_key(&big_handle);
        assert(known == self@.iso.big_syncs.contains_key(big_handle));
        if known {
            self.send_hci_command(link, Command::LeBigTerminateSync { big_handle });
        }
        known
    }
}

/// Whether BIS indices can be synchronized to.
pub fn is_acceptable_bis(bis: &Vec<u8>) -> (acceptable: bool)
    ensures
        acceptable == acceptable_bis(bis@),
{
    if bis.len() == 0 || bis.len() > 31 {
        return false;
    }
    let mut index: usize = 0;
    while index < bis.len()
        invariant
            index <= bis@.len(),
            forall|place: int| 0 <= place < index ==> 1 <= #[trigger] bis@[place] <= 31,
            forall|first: int, second: int|
                0 <= first < second < index ==> bis@[first] != bis@[second],
        decreases bis@.len() - index,
    {
        let value: u8 = bis[index];
        if value < 1 || value > 31 {
            assert(!(1 <= bis@[index as int] <= 31));
            return false;
        }
        let mut earlier: usize = 0;
        while earlier < index
            invariant
                earlier <= index < bis@.len(),
                value == bis@[index as int],
                forall|place: int| 0 <= place < earlier ==> bis@[place] != value,
            decreases index - earlier,
        {
            if bis[earlier] == value {
                assert(bis@[earlier as int] == bis@[index as int]);
                assert(!bis@.no_duplicates());
                return false;
            }
            earlier += 1;
        }
        index += 1;
    }
    true
}

impl Device {
    /// Start receiver synchronization to selected BIS indices. The periodic
    /// sync must already exist and BIGInfo must subsequently arrive over it.
    pub fn create_big_sync<L: HostTransport + ?Sized>(
        &mut self,
        link: &mut L,
        parameters: BigSyncParameters,
    ) -> (asked: bool)
        requires
            old(self).wf(),
        ensures
            final(self).wf(),
            asked == old(self)@.accepts_big_sync(parameters),
            if asked {
                &&& final(self)@ == (DeviceView {
                    iso: old(self)@.iso.big_sync_asked(parameters.big_handle),
                    ..old(self)@
                })
                &&& sent_one(old(link).log(), final(link).log(), old(self).controller_id)
                &&& asks_big_sync(
                    sent_between(old(link).log(), final(link).log())[0],
                    parameters,
                )
            } else {
                final(self)@ == old(self)@ && final(link).log() == old(link).log()
            },
    {
        if parameters.big_handle > 0xEF || self.is_big_in_use(parameters.big_handle)
            || !self.gap.periodic_syncs.contains_key(&parameters.sync_handle)
            || !is_acceptable_bis(&parameters.bis) || parameters.mse > 0x1F
            || parameters.big_sync_timeout < 0x000A || parameters.big_sync_timeout > 0x4000 {
            return false;
        }
        self.iso.pending_big_syncs.insert(parameters.big_handle);
        self.iso.pending_big_sync_commands.push(parameters.big_handle);
        assert(self@ =~= (DeviceView {
            iso: old(self)@.iso.big_sync_asked(parameters.big_handle),
            ..old(self)@
        }));
        let (encryption, broadcast_code): (u8, [u8; 16]) = match parameters.broadcast_code {
            Some(code) => (1, code),
            None => (0, NO_BROADCAST_CODE),
        };
        self.hand_over_one(
            link,
            Command::LeBigCreateSync {
                big_handle: parameters.big_handle,
                sync_handle: parameters.sync_handle,
                encryption,
                broadcast_code,
                mse: parameters.mse,
                big_sync_timeout: parameters.big_sync_timeout,
                bis: parameters.bis,
            },
        );
        true
    }
}

impl IsoView {
    /// Whether a data path in a direction has been asked for.
    pub open spec fn path_pending(self, iso_handle: u16, direction: u8) -> bool {
        exists|index: int|
            0 <= index < self.pending_iso_data_path_setups.len() && (
            #[trigger] self.pending_iso_data_path_setups[index]).0 == iso_handle
                && self.pending_iso_data_path_setups[index].1.direction == direction
    }

    /// Whether a data path can be asked for.
    pub open spec fn accepts_path(self, iso_handle: u16, path: IsoDataPathParametersView) -> bool {
        &&& self.established_for(iso_handle, path.direction)
        &&& path.direction <= 1
        &&& path.controller_delay <= MAX_THREE_BYTES
        &&& path.codec_configuration.len() <= 255
    }

    /// Whether a data path is there or on its way.
    pub open spec fn has_path(self, iso_handle: u16, direction: u8) -> bool {
        self.path(iso_handle, direction) is Some || self.path_pending(iso_handle, direction)
    }

    /// The directions, out of some, in which a stream has a data path.
    pub open spec fn installed(self, iso_handle: u16, directions: u8) -> u8 {
        ((if directions & 0x01 != 0 && self.path(iso_handle, 0) is Some {
            1int
        } else {
            0
        }) + (if directions & 0x02 != 0 && self.path(iso_handle, 1) is Some {
            2int
        } else {
            0
        })) as u8
    }
}

/// Whether a command asks for a data path.
pub open spec fn asks_path(
    command: Command,
    iso_handle: u16,
    path: IsoDataPathParametersView,
) -> bool {
    command matches Command::LeSetupIsoDataPath {
        connection_handle,
        data_path_direction,
        data_path_id,
        codec_id,
        controller_delay,
        codec_configuration,
    } && {
        &&& connection_handle == iso_handle
        &&& data_path_direction == path.direction
        &&& data_path_id == path.data_path_id
        &&& codec_id == path.codec_id
        &&& controller_delay == path.controller_delay
        &&& codec_configuration@ == path.codec_configuration
    }
}

impl Device {
    /// Whether a stream has a data path in a direction.
    pub fn iso_data_path(&self, iso_handle: u16, direction: u8) -> (path: Option<
        &IsoDataPathParameters,
    >)
        ensures
            match path {
                Some(path) => self@.iso.path(iso_handle, direction) == Some(path@),
                None => self@.iso.path(iso_handle, direction) is None,
            },
    {
        match self.iso.iso_data_paths.get(&iso_handle) {
            Some(paths) => paths.get(&direction),
            None => None,
        }
    }

    /// Whether a data path in a direction has been asked for.
    fn is_path_pending(&self, iso_handle: u16, direction: u8) -> (pending: bool)
        ensures
            pending == self@.iso.path_pending(iso_handle, direction),
    {
        let mut index: usize = 0;
        while index < self.iso.pending_iso_data_path_setups.len()
            invariant
                index <= self.iso.pending_iso_data_path_setups@.len(),
                forall|earlier: int|
                    0 <= earlier < index ==> !((
                    #[trigger] self@.iso.pending_iso_data_path_setups[earlier]).0 == iso_handle
                        && self@.iso.pending_iso_data_path_setups[earlier].1.direction
                        == direction),
            decreases self.iso.pending_iso_data_path_setups@.len() - index,
        {
            let entry = &self.iso.pending_iso_data_path_setups[index];
            assert(self@.iso.pending_iso_data_path_setups[index as int] == (entry.0, entry.1@));
            if entry.0 == iso_handle && entry.1.direction == direction {
                return true;
            }
            index += 1;
        }
        false
    }

    /// Set up a data path over HCI.
    pub fn setup_iso_data_path<L: HostTransport + ?Sized>(
        &mut self,
        link: &mut L,
        iso_handle: u16,
        direction: u8,
    ) -> (accepted: bool)
        requires
            old(self).wf(),
        ensures
            final(self).wf(),
            accepted == (old(self)@.iso.established_for(iso_handle, direction) && direction <= 1),
            if !accepted || old(self)@.iso.has_path(iso_handle, direction) {
                final(self)@ == old(self)@ && final(link).log() == old(link).log()
            } else {
                &&& final(self)@ == old(self)@.path_asked(
                    iso_handle,
                    IsoDataPathParametersView::spec_hci(direction),
                )
                &&& sent_one(old(link).log(), final(link).log(), old(self).controller_id)
                &&& asks_path(
                    sent_between(old(link).log(), final(link).log())[0],
                    iso_handle,
                    IsoDataPathParametersView::spec_hci(direction),
                )
            },
    {
        self.setup_iso_data_path_with_parameters(
            link,
            iso_handle,
            IsoDataPathParameters::hci(direction),
        )
    }

    /// Set up a data path with codec and controller-delay fields. Returns
    /// `false`, with nothing done, where the stream is not established for the
    /// direction or a field is out of range. A path that is there or on its
    /// way is left as it is.
    pub fn setup_iso_data_path_with_parameters<L: HostTransport + ?Sized>(
        &mut self,
        link: &mut L,
        iso_handle: u16,
        parameters: IsoDataPathParameters,
    ) -> (accepted: bool)
        requires
            old(self).wf(),
        ensures
            final(self).wf(),
            accepted == old(self)@.iso.accepts_path(iso_handle, parameters@),
            if !accepted || old(self)@.iso.has_path(iso_handle, parameters@.direction) {
                final(self)@ == old(self)@ && final(link).log() == old(link).log()
            } else {
                &&& final(self)@ == old(self)@.path_asked(iso_handle, parameters@)
                &&& sent_one(old(link).log(), final(link).log(), old(self).controller_id)
                &&& asks_path(
                    sent_between(old(link).log(), final(link).log())[0],
                    iso_handle,
                    parameters@,
                )
            },
    {
        let direction: u8 = parameters.direction;
        let broadcast: bool = match self.iso.bis_directions.get(&iso_handle) {
            Some(established) => *established == direction,
            None => false,
        };
        if !(self.iso.cis_links.contains_key(&iso_handle) || broadcast) || direction > 1
            || parameters.controller_delay > MAX_THREE_BYTES
            || parameters.codec_configuration.len() > 255 {
            return false;
        }
        if self.iso_data_path(iso_handle, direction).is_some() || self.is_path_pending(
            iso_handle,
            direction,
        ) {
            return true;
        }
        let copy = parameters.clone();
        self.iso.pending_iso_data_path_setups.push((iso_handle, copy));
        assert(self@.iso.pending_iso_data_path_setups =~= old(
            self,
        )@.iso.pending_iso_data_path_setups.push((iso_handle, parameters@)));
        assert(self@ =~= old(self)@.path_asked(iso_handle, parameters@));
        self.hand_over_one(
            link,
            Command::LeSetupIsoDataPath {
                connection_handle: iso_handle,
                data_path_direction: direction,
                data_path_id: parameters.data_path_id,
                codec_id: parameters.codec_id,
                controller_delay: parameters.controller_delay,
                codec_configuration: parameters.codec_configuration,
            },
        );
        true
    }

    /// Remove data paths in some directions. Returns `false`, with nothing
    /// done, where the stream is not established or the directions are out of
    /// range. Directions without a path are passed over.
    pub fn remove_iso_data_path<L: HostTransport + ?Sized>(
        &mut self,
        link: &mut L,
        iso_handle: u16,
        directions: u8,
    ) -> (accepted: bool)
        requires
            old(self).wf(),
        ensures
            final(self).wf(),
            old(self)@.remove_iso_data_path_shows(
                final(self)@,
                iso_handle,
                directions,
                accepted,
                old(link).log(),
                final(link).log(),
            ),
    {
        assert((directions & !0x03u8 != 0) == (directions > 3)) by (bit_vector);
        let established: bool = self.iso.cis_links.contains_key(&iso_handle)
            || self.iso.bis_directions.contains_key(&iso_handle);
        if !established || directions & !0x03u8 != 0 || directions == 0 {
            return false;
        }
        let mut installed: u8 = 0;
        if directions & 0x01 != 0 && self.iso_data_path(iso_handle, 0).is_some() {
            installed = 1;
        }
        if directions & 0x02 != 0 && self.iso_data_path(iso_handle, 1).is_some() {
            installed = installed + 2;
        }
        assert(installed == self@.iso.installed(iso_handle, directions));
        if installed == 0 || crate::retain::holds(
            &self.iso.pending_iso_data_path_removals,
            (iso_handle, installed),
        ) {
            return true;
        }
        self.iso.pending_iso_data_path_removals.push((iso_handle, installed));
        assert(self@ =~= old(self)@.removal_asked(iso_handle, installed));
        self.send_hci_command(
            link,
            Command::LeRemoveIsoDataPath {
                connection_handle: iso_handle,
                data_path_direction: installed,
            },
        );
        true
    }

    /// Request synchronization metadata for the most recently transmitted ISO
    /// SDU on an established CIS or BIS.
    pub fn read_iso_tx_sync<L: HostTransport + ?Sized>(
        &mut self,
        link: &mut L,
        iso_handle: u16,
    ) -> (asked: bool)
        requires
            old(self).wf(),
        ensures
            final(self).wf(),
            old(self)@.read_iso_tx_sync_shows(
                final(self)@,
                iso_handle,
                asked,
                old(link).log(),
                final(link).log(),
            ),
    {
        if !(self.iso.cis_links.contains_key(&iso_handle) || self.iso.bis_directions.contains_key(
            &iso_handle,
        )) {
            return false;
        }
        self.iso.pending_iso_tx_syncs.push(iso_handle);
        assert(self@ =~= (DeviceView {
            iso: IsoView {
                pending_iso_tx_syncs: old(self)@.iso.pending_iso_tx_syncs.push(iso_handle),
                ..old(self)@.iso
            },
            ..old(self)@
        }));
        self.send_hci_command(link, Command::LeReadIsoTxSync { connection_handle: iso_handle });
        true
    }
}

impl DeviceView {
    /// A device that has asked for a data path.
    pub open spec fn path_asked(
        self,
        iso_handle: u16,
        path: IsoDataPathParametersView,
    ) -> DeviceView {
        DeviceView {
            iso: IsoView {
                pending_iso_data_path_setups: self.iso.pending_iso_data_path_setups.push(
                    (iso_handle, path),
                ),
                ..self.iso
            },
            ..self
        }
    }

    /// Whether a removal of data paths is asked of the controller.
    pub open spec fn removes_path(self, iso_handle: u16, directions: u8) -> bool {
        let installed = self.iso.installed(iso_handle, directions);
        installed != 0 && !self.iso.pending_iso_data_path_removals.contains(
            (iso_handle, installed),
        )
    }

    /// A device that has asked for the removal of data paths.
    pub open spec fn removal_asked(self, iso_handle: u16, directions: u8) -> DeviceView {
        DeviceView {
            iso: IsoView {
                pending_iso_data_path_removals: self.iso.pending_iso_data_path_removals.push(
                    (iso_handle, directions),
                ),
                ..self.iso
            },
            ..self
        }
    }
}

/// The packet length before the controller has told its own.
pub const DEFAULT_ISO_PACKET_LENGTH: usize = 960;

/// The longest SDU.
pub const MAX_SDU: usize = 0x0FFF;

impl DeviceView {
    /// The packet length for isochronous data.
    pub open spec fn iso_packet_length(self) -> usize {
        match self.pools.iso_data_packet_length {
            Some(length) => length,
            None => DEFAULT_ISO_PACKET_LENGTH,
        }
    }

    /// Whether an SDU can be sent on a stream: the stream leads away from
    /// here, the SDU is not too long, and a packet has room for data.
    pub open spec fn sends_sdu(self, iso_handle: u16, length: int) -> bool {
        &&& self.iso.established_for(iso_handle, 0)
        &&& length <= MAX_SDU
        &&& self.iso_packet_length() > SDU_INFO_LENGTH
    }

    /// The number of the next SDU on a stream.
    pub open spec fn next_sequence(self, iso_handle: u16) -> u16 {
        if self.iso.iso_sequence_numbers.contains_key(iso_handle) {
            self.iso.iso_sequence_numbers[iso_handle]
        } else {
            0
        }
    }

    /// A device whose next SDU on a stream has a given number.
    pub open spec fn with_sequence(self, iso_handle: u16, sequence: u16) -> DeviceView {
        DeviceView {
            iso: IsoView {
                iso_sequence_numbers: self.iso.iso_sequence_numbers.insert(iso_handle, sequence),
                ..self.iso
            },
            ..self
        }
    }

    /// How sending an SDU in given packets shows. With a flow-controlled pool
    /// the packets queue up behind all others; without one they are handed over
    /// at once, until one is refused. The number goes up once every packet is
    /// queued or accepted.
    pub open spec fn sdu_sent_as(
        self,
        after: DeviceView,
        packets: Seq<IsoDataPacket>,
        iso_handle: u16,
        success: bool,
        log_before: Seq<HostAction>,
        log_after: Seq<HostAction>,
    ) -> bool {
        let next = wrapping_next(self.next_sequence(iso_handle));
        match self.pools.iso {
            Some(queue) => {
                let queued = self.with_sequence(iso_handle, next);
                &&& PoolsView {
                    iso: Some(queue.enqueued_all(packets, iso_handle)),
                    ..self.pools
                }.iso_flushed(after.pools, log_before, log_after, self.controller_id)
                &&& after == (DeviceView { pools: after.pools, ..queued })
                &&& success == all_accepted(answers(log_before, log_after))
            },
            None => {
                &&& handed_over(packets, log_before, log_after, self.controller_id, success)
                &&& after == self.with_sequence(
                    iso_handle,
                    if success {
                        next
                    } else {
                        self.next_sequence(iso_handle)
                    },
                )
            },
        }
    }
}

/// The number after another one.
pub open spec fn wrapping_next(sequence: u16) -> u16 {
    if sequence == u16::MAX {
        0
    } else {
        (sequence + 1) as u16
    }
}

/// An SDU has no more fragments than bytes, and one where it has none.
proof fn lemma_fragment_count(
    packets: Seq<IsoDataPacket>,
    iso_handle: u16,
    sequence: u16,
    sdu: Seq<u8>,
    packet_length: int,
)
    requires
        are_fragments(packets, iso_handle, sequence, sdu, packet_length),
        packet_length > SDU_INFO_LENGTH,
    ensures
        packets.len() <= sdu.len() + 1,
{
    if packets.len() > 1 {
        let last = packets.len() - 2;
        assert(fragment_start(last + 1, packet_length) < sdu.len());
        assert((last + 1) * packet_length >= (last + 1) * 5) by (nonlinear_arith)
            requires
                packet_length >= 5,
                last >= 0,
        ;
    }
}

impl Device {
    /// Fragment and send one ISO SDU through an established CIS or broadcaster
    /// BIS. Reset-time buffer discovery supplies the packet size and flow
    /// window; the default remains the pre-reset fallback.
    ///
    /// Returns `false`, with nothing done, where the SDU cannot be sent, and
    /// also where the transport refuses a packet.
    pub fn send_iso_sdu<L: HostTransport + ?Sized>(
        &mut self,
        link: &mut L,
        iso_handle: u16,
        sdu: &[u8],
    ) -> (success: bool)
        requires
            old(self).wf(),
            old(self)@.pools.iso is Some ==> old(self)@.pools.iso->0.queued + MAX_SDU + 1
                <= usize::MAX,
        ensures
            final(self).wf(),
            if old(self)@.sends_sdu(iso_handle, sdu@.len() as int) {
                exists|packets: Seq<IsoDataPacket>|
                    {
                        &&& #[trigger] are_fragments(
                            packets,
                            iso_handle,
                            old(self)@.next_sequence(iso_handle),
                            sdu@,
                            old(self)@.iso_packet_length() as int,
                        )
                        &&& old(self)@.sdu_sent_as(
                            final(self)@,
                            packets,
                            iso_handle,
                            success,
                            old(link).log(),
                            final(link).log(),
                        )
                    }
            } else {
                &&& !success
                &&& final(self)@ == old(self)@
                &&& final(link).log() == old(link).log()
            },
    {
        let broadcasts: bool = match self.iso.bis_directions.get(&iso_handle) {
            Some(direction) => *direction == 0,
            None => false,
        };
        if !(self.iso.cis_links.contains_key(&iso_handle) || broadcasts) || sdu.len() > MAX_SDU {
            return false;
        }
        let packet_length: usize = match self.pools.iso_data_packet_length {
            Some(length) => length,
            None => DEFAULT_ISO_PACKET_LENGTH,
        };
        if packet_length <= SDU_INFO_LENGTH {
            return false;
        }
        let sequence: u16 = match self.iso.iso_sequence_numbers.get(&iso_handle) {
            Some(sequence) => *sequence,
            None => 0,
        };
        let next: u16 = if sequence == u16::MAX {
            0
        } else {
            sequence + 1
        };
        let packets = iso_fragments(iso_handle, sequence, sdu, packet_length);
        let ghost fragments = packets@;
        proof {
            assert(old(self)@.sends_sdu(iso_handle, sdu@.len() as int));
            assert(are_fragments(
                fragments,
                iso_handle,
                old(self)@.next_sequence(iso_handle),
                sdu@,
                old(self)@.iso_packet_length() as int,
            ));
            lemma_fragment_count(
                fragments,
                iso_handle,
                sequence,
                sdu@,
                packet_length as int,
            );
        }
        let ghost log = link.log();
        match self.pools.iso_packet_queue.as_mut() {
            Some(queue) => {
                enqueue_all(queue, packets, iso_handle);
                self.iso.iso_sequence_numbers.insert(iso_handle, next);
                let ghost between = self@;
                assert(between.pools =~= (PoolsView {
                    iso: Some(old(self)@.pools.iso->0.enqueued_all(fragments, iso_handle)),
                    ..old(self)@.pools
                }));
                let success = self.pools.flush_iso(link, self.controller_id);
                proof {
                    assert(self@ =~= (DeviceView {
                        pools: self@.pools,
                        ..old(self)@.with_sequence(iso_handle, next)
                    }));
                    assert(old(self)@.sdu_sent_as(
                        self@,
                        fragments,
                        iso_handle,
                        success,
                        log,
                        link.log(),
                    ));
                }
                success
            },
            None => {
                let success = hand_over_packets(packets, link, self.controller_id);
                if success {
                    self.iso.iso_sequence_numbers.insert(iso_handle, next);
                } else {
                    self.iso.iso_sequence_numbers.insert(iso_handle, sequence);
                }
                proof {
                    assert(self@ =~= old(self)@.with_sequence(
                        iso_handle,
                        if success {
                            next
                        } else {
                            sequence
                        },
                    ));
                    assert(old(self)@.sdu_sent_as(
                        self@,
                        fragments,
                        iso_handle,
                        success,
                        log,
                        link.log(),
                    ));
                }
                success
            },
        }
    }

    /// Take the SDUs of one stream, oldest first; those of others stay.
    pub fn take_iso_sdus(&mut self, cis_handle: u16) -> (sdus: Vec<IsoSdu>)
        requires
            old(self).wf(),
        ensures
            final(self).wf(),
            sdus@.map_values(sdu_view()) == old(self)@.iso.iso_inbox.filter(sdu_of(cis_handle)),
            final(self)@ == (DeviceView {
                iso: IsoView {
                    iso_inbox: old(self)@.iso.iso_inbox.filter(sdu_of_other(cis_handle)),
                    ..old(self)@.iso
                },
                ..old(self)@
            }),
    {
        let ghost inbox = self.iso.iso_inbox@;
        let sdus = take_of_connection(&mut self.iso.iso_inbox, cis_handle);
        proof {
            lemma_filter_map(
                inbox,
                sdu_view(),
                of_connection(cis_handle),
                sdu_of(cis_handle),
            );
            lemma_filter_map(
                inbox,
                sdu_view(),
                not_of_connection(cis_handle),
                sdu_of_other(cis_handle),
            );
            assert(old(self)@.iso.iso_inbox =~= inbox.map_values(sdu_view()));
            assert(self@.iso.iso_inbox =~= self.iso.iso_inbox@.map_values(sdu_view()));
            assert(self@ =~= (DeviceView {
                iso: IsoView {
                    iso_inbox: old(self)@.iso.iso_inbox.filter(sdu_of_other(cis_handle)),
                    ..old(self)@.iso
                },
                ..old(self)@
            }));
        }
        sdus
    }
}

/// Selects the SDUs of a stream.
pub open spec fn sdu_of(handle: u16) -> spec_fn(IsoSduView) -> bool {
    |sdu: IsoSduView| sdu.connection_handle == handle
}

} // verus!
