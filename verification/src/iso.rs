//! Isochronous streams: group and stream parameters, data paths, and the
//! fragmentation and reassembly of SDUs.

use crate::hci::IsoDataPacket;
use crate::retain::OfConnection;
use vstd::prelude::*;

verus! {

/// The coding format of an isochronous data path.
#[derive(Clone, Copy, Debug, PartialEq, Eq, Structural)]
pub struct CodingFormat {
    pub codec_id: u8,
    pub company_id: u16,
    pub vendor_specific_codec_id: u16,
}

impl CodingFormat {
    pub open spec fn spec_transparent() -> CodingFormat {
        CodingFormat { codec_id: 0x03, company_id: 0, vendor_specific_codec_id: 0 }
    }

    /// Data that the controller passes on as it is.
    pub fn transparent() -> (format: CodingFormat)
        ensures
            format == CodingFormat::spec_transparent(),
    {
        CodingFormat { codec_id: 0x03, company_id: 0, vendor_specific_codec_id: 0 }
    }
}

/// A central's request to establish a Connected Isochronous Stream.
#[derive(Clone, Copy, Debug, PartialEq, Eq, Structural)]
pub struct CisRequestInfo {
    pub acl_connection_handle: u16,
    pub cis_connection_handle: u16,
    pub cig_id: u8,
    pub cis_id: u8,
}

/// Defaults for one Connected Isochronous Stream.
pub const DEFAULT_ISO_CIS_MAX_SDU: u16 = 251;

pub const DEFAULT_ISO_CIS_RTN: u8 = 10;

pub const DEFAULT_ISO_CIS_MAX_TRANSPORT_LATENCY: u16 = 100;

/// Directional parameters for one CIS in a Connected Isochronous Group.
#[derive(Clone, Copy, Debug, PartialEq, Eq, Structural)]
pub struct CisParameters {
    pub cis_id: u8,
    pub max_sdu_c_to_p: u16,
    pub max_sdu_p_to_c: u16,
    pub phy_c_to_p: u8,
    pub phy_p_to_c: u8,
    pub rtn_c_to_p: u8,
    pub rtn_p_to_c: u8,
}

impl CisParameters {
    pub open spec fn spec_new(cis_id: u8) -> Self {
        CisParameters {
            cis_id,
            max_sdu_c_to_p: DEFAULT_ISO_CIS_MAX_SDU,
            max_sdu_p_to_c: DEFAULT_ISO_CIS_MAX_SDU,
            phy_c_to_p: 0x02,
            phy_p_to_c: 0x02,
            rtn_c_to_p: DEFAULT_ISO_CIS_RTN,
            rtn_p_to_c: DEFAULT_ISO_CIS_RTN,
        }
    }

    /// One bidirectional CIS with the default parameters.
    pub fn new(cis_id: u8) -> (parameters: Self)
        ensures
            parameters == CisParameters::spec_new(cis_id),
    {
        CisParameters {
            cis_id,
            max_sdu_c_to_p: DEFAULT_ISO_CIS_MAX_SDU,
            max_sdu_p_to_c: DEFAULT_ISO_CIS_MAX_SDU,
            phy_c_to_p: 0x02,
            phy_p_to_c: 0x02,
            rtn_c_to_p: DEFAULT_ISO_CIS_RTN,
            rtn_p_to_c: DEFAULT_ISO_CIS_RTN,
        }
    }

    /// A direction without data has no retransmissions.
    pub open spec fn spec_normalized(self) -> Self {
        CisParameters {
            rtn_c_to_p: if self.max_sdu_c_to_p == 0 {
                0
            } else {
                self.rtn_c_to_p
            },
            rtn_p_to_c: if self.max_sdu_p_to_c == 0 {
                0
            } else {
                self.rtn_p_to_c
            },
            ..self
        }
    }

    /// Apply the unidirectional retransmission rule.
    ///
    /// A zero-sized direction forces RTN to zero for compatibility with older
    /// controller firmware, while its configured PHY remains valid. The rule is
    /// applied again when the containing CIG is sent, so that later field
    /// updates cannot reintroduce a nonzero RTN.
    pub fn normalized(self) -> (parameters: Self)
        ensures
            parameters == self.spec_normalized(),
    {
        let mut parameters = self;
        if parameters.max_sdu_c_to_p == 0 {
            parameters.rtn_c_to_p = 0;
        }
        if parameters.max_sdu_p_to_c == 0 {
            parameters.rtn_p_to_c = 0;
        }
        parameters
    }

    /// Normalizing twice is normalizing once.
    pub proof fn lemma_normalized_idempotent(self)
        ensures
            self.spec_normalized().spec_normalized() == self.spec_normalized(),
    {
    }
}

/// Complete parameters for `LE Set CIG Parameters`.
#[derive(Clone, Debug, PartialEq, Eq)]
pub struct CigParameters {
    pub cig_id: u8,
    pub cis_parameters: Vec<CisParameters>,
    /// Central-to-peripheral SDU interval, in microseconds.
    pub sdu_interval_c_to_p: u32,
    /// Peripheral-to-central SDU interval, in microseconds.
    pub sdu_interval_p_to_c: u32,
    pub worst_case_sca: u8,
    pub packing: u8,
    pub framing: u8,
    /// Central-to-peripheral maximum transport latency, in milliseconds.
    pub max_transport_latency_c_to_p: u16,
    /// Peripheral-to-central maximum transport latency, in milliseconds.
    pub max_transport_latency_p_to_c: u16,
}

impl CigParameters {
    /// Whether a group has the default parameters but for its streams.
    pub open spec fn is_new(
        self,
        cig_id: u8,
        sdu_interval_c_to_p: u32,
        sdu_interval_p_to_c: u32,
    ) -> bool {
        self == (CigParameters {
            cig_id,
            cis_parameters: self.cis_parameters,
            sdu_interval_c_to_p,
            sdu_interval_p_to_c,
            worst_case_sca: 0x00,
            packing: 0x00,
            framing: 0x00,
            max_transport_latency_c_to_p: DEFAULT_ISO_CIS_MAX_TRANSPORT_LATENCY,
            max_transport_latency_p_to_c: DEFAULT_ISO_CIS_MAX_TRANSPORT_LATENCY,
        })
    }

    /// A group of streams with the default parameters.
    pub fn new(
        cig_id: u8,
        cis_parameters: Vec<CisParameters>,
        sdu_interval_c_to_p: u32,
        sdu_interval_p_to_c: u32,
    ) -> (parameters: Self)
        ensures
            parameters.is_new(cig_id, sdu_interval_c_to_p, sdu_interval_p_to_c),
            parameters.cis_parameters == cis_parameters,
    {
        CigParameters {
            cig_id,
            cis_parameters,
            sdu_interval_c_to_p,
            sdu_interval_p_to_c,
            worst_case_sca: 0x00,
            packing: 0x00,
            framing: 0x00,
            max_transport_latency_c_to_p: DEFAULT_ISO_CIS_MAX_TRANSPORT_LATENCY,
            max_transport_latency_p_to_c: DEFAULT_ISO_CIS_MAX_TRANSPORT_LATENCY,
        }
    }
}

/// Timing and transport state reported by `LE CIS Established`.
#[derive(Clone, Copy, Debug, PartialEq, Eq, Structural)]
pub struct CisLinkInfo {
    pub connection_handle: u16,
    pub cig_sync_delay: u32,
    pub cis_sync_delay: u32,
    pub transport_latency_c_to_p: u32,
    pub transport_latency_p_to_c: u32,
    pub phy_c_to_p: u8,
    pub phy_p_to_c: u8,
    pub nse: u8,
    pub bn_c_to_p: u8,
    pub bn_p_to_c: u8,
    pub ft_c_to_p: u8,
    pub ft_p_to_c: u8,
    pub max_pdu_c_to_p: u16,
    pub max_pdu_p_to_c: u16,
    pub iso_interval: u16,
}

/// Ordered completion journal for CIG/CIS commands and establishment events.
#[derive(Clone, Debug, PartialEq, Eq)]
pub enum CisControlEvent {
    CigConfigured { status: u8, cig_id: u8, connection_handles: Vec<u16> },
    CommandStatus { command_opcode: u16, status: u8 },
    Established { status: u8, link: CisLinkInfo },
}

/// The content of a [`CisControlEvent`].
#[verifier::ext_equal]
pub enum CisControlEventView {
    CigConfigured { status: u8, cig_id: u8, connection_handles: Seq<u16> },
    CommandStatus { command_opcode: u16, status: u8 },
    Established { status: u8, link: CisLinkInfo },
}

impl View for CisControlEvent {
    type V = CisControlEventView;

    open spec fn view(&self) -> CisControlEventView {
        match *self {
            CisControlEvent::CigConfigured {
                status,
                cig_id,
                connection_handles,
            } => CisControlEventView::CigConfigured {
                status,
                cig_id,
                connection_handles: connection_handles@,
            },
            CisControlEvent::CommandStatus {
                command_opcode,
                status,
            } => CisControlEventView::CommandStatus { command_opcode, status },
            CisControlEvent::Established { status, link } => CisControlEventView::Established {
                status,
                link,
            },
        }
    }
}

/// Complete parameters for `LE Setup ISO Data Path`.
#[derive(Debug, PartialEq, Eq)]
pub struct IsoDataPathParameters {
    pub direction: u8,
    pub data_path_id: u8,
    pub codec_id: CodingFormat,
    /// Controller delay in microseconds, encoded as a 24-bit HCI value.
    pub controller_delay: u32,
    pub codec_configuration: Vec<u8>,
}

/// The content of a [`IsoDataPathParameters`].
#[verifier::ext_equal]
pub struct IsoDataPathParametersView {
    pub direction: u8,
    pub data_path_id: u8,
    pub codec_id: CodingFormat,
    pub controller_delay: u32,
    pub codec_configuration: Seq<u8>,
}

impl View for IsoDataPathParameters {
    type V = IsoDataPathParametersView;

    open spec fn view(&self) -> IsoDataPathParametersView {
        IsoDataPathParametersView {
            direction: self.direction,
            data_path_id: self.data_path_id,
            codec_id: self.codec_id,
            controller_delay: self.controller_delay,
            codec_configuration: self.codec_configuration@,
        }
    }
}

impl Clone for IsoDataPathParameters {
    fn clone(&self) -> (copy: Self)
        ensures
            copy@ == self@,
    {
        IsoDataPathParameters {
            direction: self.direction,
            data_path_id: self.data_path_id,
            codec_id: self.codec_id,
            controller_delay: self.controller_delay,
            codec_configuration: self.codec_configuration.clone(),
        }
    }
}

impl IsoDataPathParametersView {
    /// Host-controller-interface data path with transparent codec framing.
    pub open spec fn spec_hci(direction: u8) -> Self {
        IsoDataPathParametersView {
            direction,
            data_path_id: 0,
            codec_id: CodingFormat::spec_transparent(),
            controller_delay: 0,
            codec_configuration: Seq::empty(),
        }
    }
}

impl IsoDataPathParameters {
    /// Host-controller-interface data path with transparent codec framing.
    pub fn hci(direction: u8) -> (parameters: Self)
        ensures
            parameters@ == IsoDataPathParametersView::spec_hci(direction),
    {
        IsoDataPathParameters {
            direction,
            data_path_id: 0,
            codec_id: CodingFormat::transparent(),
            controller_delay: 0,
            codec_configuration: Vec::new(),
        }
    }
}

/// Successful `LE Read ISO TX Sync` result.
#[derive(Clone, Copy, Debug, PartialEq, Eq, Structural)]
pub struct IsoTxSyncInfo {
    pub connection_handle: u16,
    pub packet_sequence_number: u16,
    pub tx_time_stamp: u32,
    pub time_offset: u32,
}

/// Ordered completion journal for ISO data-path and TX-sync commands.
#[derive(Clone, Debug, PartialEq, Eq)]
pub enum IsoControlEvent {
    DataPathSetup { status: u8, connection_handle: u16, parameters: IsoDataPathParameters },
    DataPathRemoved { status: u8, connection_handle: u16, directions: u8 },
    TxSync { status: u8, connection_handle: u16, sync: Option<IsoTxSyncInfo> },
}

/// The content of an [`IsoControlEvent`].
#[verifier::ext_equal]
pub enum IsoControlEventView {
    DataPathSetup { status: u8, connection_handle: u16, parameters: IsoDataPathParametersView },
    DataPathRemoved { status: u8, connection_handle: u16, directions: u8 },
    TxSync { status: u8, connection_handle: u16, sync: Option<IsoTxSyncInfo> },
}

impl View for IsoControlEvent {
    type V = IsoControlEventView;

    open spec fn view(&self) -> IsoControlEventView {
        match *self {
            IsoControlEvent::DataPathSetup {
                status,
                connection_handle,
                parameters,
            } => IsoControlEventView::DataPathSetup {
                status,
                connection_handle,
                parameters: parameters@,
            },
            IsoControlEvent::DataPathRemoved {
                status,
                connection_handle,
                directions,
            } => IsoControlEventView::DataPathRemoved { status, connection_handle, directions },
            IsoControlEvent::TxSync {
                status,
                connection_handle,
                sync,
            } => IsoControlEventView::TxSync { status, connection_handle, sync },
        }
    }
}

/// One complete SDU of an isochronous stream.
#[derive(Clone, Debug, PartialEq, Eq)]
pub struct IsoSdu {
    pub connection_handle: u16,
    pub packet_sequence_number: u16,
    pub packet_status_flag: u8,
    pub data: Vec<u8>,
}

/// The content of an [`IsoSdu`].
#[verifier::ext_equal]
pub struct IsoSduView {
    pub connection_handle: u16,
    pub packet_sequence_number: u16,
    pub packet_status_flag: u8,
    pub data: Seq<u8>,
}

impl View for IsoSdu {
    type V = IsoSduView;

    open spec fn view(&self) -> IsoSduView {
        IsoSduView {
            connection_handle: self.connection_handle,
            packet_sequence_number: self.packet_sequence_number,
            packet_status_flag: self.packet_status_flag,
            data: self.data@,
        }
    }
}

impl OfConnection for IsoSdu {
    open spec fn connection(&self) -> u16 {
        self.connection_handle
    }

    fn get_connection(&self) -> (connection_handle: u16) {
        self.connection_handle
    }
}

/// Parameters for creating a Broadcast Isochronous Group.
#[derive(Clone, Copy, Debug, PartialEq, Eq)]
pub struct BigParameters {
    pub big_handle: u8,
    pub advertising_handle: u8,
    pub num_bis: u8,
    pub sdu_interval: u32,
    pub max_sdu: u16,
    pub max_transport_latency: u16,
    pub rtn: u8,
    pub phy: u8,
    pub packing: u8,
    pub framing: u8,
    pub broadcast_code: Option<[u8; 16]>,
}

impl BigParameters {
    pub fn new(big_handle: u8, advertising_handle: u8, num_bis: u8) -> (parameters: Self)
        ensures
            parameters == (BigParameters {
                big_handle,
                advertising_handle,
                num_bis,
                sdu_interval: 10_000,
                max_sdu: 120,
                max_transport_latency: 65,
                rtn: 4,
                phy: 2,
                packing: 0,
                framing: 0,
                broadcast_code: None,
            }),
    {
        BigParameters {
            big_handle,
            advertising_handle,
            num_bis,
            sdu_interval: 10_000,
            max_sdu: 120,
            max_transport_latency: 65,
            rtn: 4,
            phy: 2,
            packing: 0,
            framing: 0,
            broadcast_code: None,
        }
    }
}

/// Parameters for synchronizing to selected BIS indices in a remote BIG.
#[derive(Clone, Debug, PartialEq, Eq)]
pub struct BigSyncParameters {
    pub big_handle: u8,
    pub sync_handle: u16,
    pub bis: Vec<u8>,
    pub mse: u8,
    pub big_sync_timeout: u16,
    pub broadcast_code: Option<[u8; 16]>,
}

impl BigSyncParameters {
    pub fn new(big_handle: u8, sync_handle: u16, bis: Vec<u8>) -> (parameters: Self)
        ensures
            parameters == (BigSyncParameters {
                big_handle,
                sync_handle,
                bis,
                mse: 0,
                big_sync_timeout: 0x4000,
                broadcast_code: None,
            }),
    {
        BigSyncParameters {
            big_handle,
            sync_handle,
            bis,
            mse: 0,
            big_sync_timeout: 0x4000,
            broadcast_code: None,
        }
    }
}

/// The controller's BIGInfo report associated with a periodic sync.
#[derive(Clone, Copy, Debug, PartialEq, Eq, Structural)]
pub struct BigInfoReport {
    pub sync_handle: u16,
    pub num_bis: u8,
    pub nse: u8,
    pub iso_interval: u16,
    pub bn: u8,
    pub pto: u8,
    pub irc: u8,
    pub max_pdu: u16,
    pub sdu_interval: u32,
    pub max_sdu: u16,
    pub phy: u8,
    pub framing: u8,
    pub encrypted: bool,
}

/// The state of an [`IsoSduAssembler`]: the SDU being collected and the length
/// that its first fragment announced.
#[verifier::ext_equal]
pub struct AssemblyView {
    pub pending: Option<IsoSduView>,
    pub expected_length: nat,
}

impl AssemblyView {
    /// The SDU that a first or only fragment announces.
    pub open spec fn announced(packet: IsoDataPacket) -> Option<IsoSduView> {
        match (packet.packet_sequence_number, packet.iso_sdu_length, packet.packet_status_flag) {
            (Some(sequence), Some(_), Some(status)) => Some(
                IsoSduView {
                    connection_handle: packet.connection_handle,
                    packet_sequence_number: sequence,
                    packet_status_flag: status,
                    data: packet.iso_sdu_fragment@,
                },
            ),
            _ => None,
        }
    }

    /// The state after one packet.
    pub open spec fn after(self, packet: IsoDataPacket) -> AssemblyView {
        if packet.pb_flag == 0b00 || packet.pb_flag == 0b10 {
            match AssemblyView::announced(packet) {
                None => AssemblyView { pending: None, ..self },
                Some(sdu) => if packet.pb_flag == 0b10 {
                    AssemblyView { pending: None, ..self }
                } else {
                    AssemblyView {
                        pending: Some(sdu),
                        expected_length: packet.iso_sdu_length->0 as nat,
                    }
                },
            }
        } else if packet.pb_flag == 0b01 || packet.pb_flag == 0b11 {
            match self.pending {
                None => self,
                Some(sdu) => {
                    let extended = sdu.data + packet.iso_sdu_fragment@;
                    if extended.len() > self.expected_length || packet.pb_flag == 0b11 {
                        AssemblyView { pending: None, ..self }
                    } else {
                        AssemblyView {
                            pending: Some(IsoSduView { data: extended, ..sdu }),
                            ..self
                        }
                    }
                },
            }
        } else {
            self
        }
    }

    /// The SDU that one packet completes.
    pub open spec fn completed(self, packet: IsoDataPacket) -> Option<IsoSduView> {
        if packet.pb_flag == 0b10 {
            match AssemblyView::announced(packet) {
                Some(sdu) => if sdu.data.len() == packet.iso_sdu_length->0 {
                    Some(sdu)
                } else {
                    None
                },
                None => None,
            }
        } else if packet.pb_flag == 0b11 && self.pending is Some {
            let sdu = self.pending->0;
            let extended = sdu.data + packet.iso_sdu_fragment@;
            if extended.len() == self.expected_length {
                Some(IsoSduView { data: extended, ..sdu })
            } else {
                None
            }
        } else {
            None
        }
    }

    /// The state after a sequence of packets.
    pub open spec fn after_all(self, packets: Seq<IsoDataPacket>) -> AssemblyView
        decreases packets.len(),
    {
        if packets.len() == 0 {
            self
        } else {
            self.after_all(packets.drop_last()).after(packets.last())
        }
    }

    /// The SDUs that a sequence of packets completes, in order.
    pub open spec fn completed_all(self, packets: Seq<IsoDataPacket>) -> Seq<IsoSduView>
        decreases packets.len(),
    {
        if packets.len() == 0 {
            Seq::empty()
        } else {
            let before = self.completed_all(packets.drop_last());
            match self.after_all(packets.drop_last()).completed(packets.last()) {
                Some(sdu) => before.push(sdu),
                None => before,
            }
        }
    }
}

/// Reassembles the SDUs of one isochronous stream.
#[derive(Debug)]
pub struct IsoSduAssembler {
    pub pending: Option<IsoSdu>,
    pub expected_length: usize,
}

impl View for IsoSduAssembler {
    type V = AssemblyView;

    open spec fn view(&self) -> AssemblyView {
        AssemblyView {
            pending: match self.pending {
                Some(sdu) => Some(sdu@),
                None => None,
            },
            expected_length: self.expected_length as nat,
        }
    }
}

impl Default for IsoSduAssembler {
    fn default() -> (assembler: Self)
        ensures
            assembler@ == (AssemblyView { pending: None, expected_length: 0 }),
    {
        IsoSduAssembler { pending: None, expected_length: 0 }
    }
}

impl IsoSduAssembler {
    /// Take one packet in and return the SDU that it completes, if any.
    pub fn push(&mut self, packet: IsoDataPacket) -> (sdu: Option<IsoSdu>)
        ensures
            final(self)@ == old(self)@.after(packet),
            match sdu {
                Some(sdu) => old(self)@.completed(packet) == Some(sdu@),
                None => old(self)@.completed(packet) is None,
            },
    {
        if packet.pb_flag == 0b00 || packet.pb_flag == 0b10 {
            match (
                packet.packet_sequence_number,
                packet.iso_sdu_length,
                packet.packet_status_flag,
            ) {
                (Some(sequence), Some(length), Some(status)) => {
                    let pb_flag: u8 = packet.pb_flag;
                    let sdu = IsoSdu {
                        connection_handle: packet.connection_handle,
                        packet_sequence_number: sequence,
                        packet_status_flag: status,
                        data: packet.iso_sdu_fragment,
                    };
                    if pb_flag == 0b10 {
                        self.pending = None;
                        if sdu.data.len() == length as usize {
                            return Some(sdu);
                        }
                        return None;
                    }
                    self.expected_length = length as usize;
                    self.pending = Some(sdu);
                    None
                },
                _ => {
                    self.pending = None;
                    None
                },
            }
        } else if packet.pb_flag == 0b01 || packet.pb_flag == 0b11 {
            match self.pending.take() {
                None => None,
                Some(mut pending) => {
                    let ghost before = pending@;
                    pending.data.extend_from_slice(packet.iso_sdu_fragment.as_slice());
                    assert(pending.data@ =~= before.data + packet.iso_sdu_fragment@);
                    if pending.data.len() > self.expected_length {
                        return None;
                    }
                    if packet.pb_flag == 0b11 {
                        if pending.data.len() == self.expected_length {
                            return Some(pending);
                        }
                        return None;
                    }
                    self.pending = Some(pending);
                    None
                },
            }
        } else {
            None
        }
    }
}

/// Bytes of the first packet's payload that describe the SDU.
pub const SDU_INFO_LENGTH: usize = 4;

/// Where fragment `index` of an SDU begins, for packets of `packet_length`
/// bytes: the first one gives four bytes to the SDU's description.
pub open spec fn fragment_start(index: int, packet_length: int) -> int {
    if index <= 0 {
        0
    } else {
        index * packet_length - SDU_INFO_LENGTH
    }
}

/// Where fragment `index` of an SDU of `length` bytes ends.
pub open spec fn fragment_end(index: int, packet_length: int, length: int) -> int {
    if fragment_start(index + 1, packet_length) < length {
        fragment_start(index + 1, packet_length)
    } else {
        length
    }
}

/// Whether `packet` is fragment `index` of the given SDU.
pub open spec fn is_fragment(
    packet: IsoDataPacket,
    index: int,
    iso_handle: u16,
    sequence: u16,
    sdu: Seq<u8>,
    packet_length: int,
) -> bool {
    let start = fragment_start(index, packet_length);
    let end = fragment_end(index, packet_length, sdu.len() as int);
    let first = index == 0;
    let last = end == sdu.len();
    &&& packet.connection_handle == iso_handle
    &&& packet.pb_flag == if first && last {
        0b10u8
    } else if first {
        0b00u8
    } else if last {
        0b11u8
    } else {
        0b01u8
    }
    &&& packet.ts_flag == 0
    &&& packet.data_total_length == end - start + if first {
        SDU_INFO_LENGTH as int
    } else {
        0
    }
    &&& packet.time_stamp is None
    &&& packet.packet_sequence_number == if first {
        Some(sequence)
    } else {
        None
    }
    &&& packet.iso_sdu_length == if first {
        Some(sdu.len() as u16)
    } else {
        None
    }
    &&& packet.packet_status_flag == if first {
        Some(0u8)
    } else {
        None
    }
    &&& packet.iso_sdu_fragment@ == sdu.subrange(start, end)
}

/// Whether `packets` are all the fragments of the given SDU, in order.
pub open spec fn are_fragments(
    packets: Seq<IsoDataPacket>,
    iso_handle: u16,
    sequence: u16,
    sdu: Seq<u8>,
    packet_length: int,
) -> bool {
    &&& packets.len() > 0
    &&& forall|index: int|
        0 <= index < packets.len() ==> is_fragment(
            #[trigger] packets[index],
            index,
            iso_handle,
            sequence,
            sdu,
            packet_length,
        )
    &&& fragment_end(packets.len() - 1, packet_length, sdu.len() as int) == sdu.len()
    &&& forall|index: int|
        0 <= index < packets.len() - 1 ==> #[trigger] fragment_start(index + 1, packet_length)
            < sdu.len()
}

/// Cut an SDU into packets of at most `packet_length` bytes.
pub fn iso_fragments(iso_handle: u16, sequence: u16, sdu: &[u8], packet_length: usize) -> (packets:
    Vec<IsoDataPacket>)
    requires
        packet_length > SDU_INFO_LENGTH,
        sdu@.len() <= 0x0FFF,
    ensures
        are_fragments(packets@, iso_handle, sequence, sdu@, packet_length as int),
{
    let mut packets: Vec<IsoDataPacket> = Vec::new();
    let mut offset: usize = 0;
    loop
        invariant_except_break
            offset <= sdu@.len(),
            packets@.len() == 0 ==> offset == 0,
            packets@.len() > 0 ==> 0 < offset < sdu@.len(),
            offset == fragment_start(packets@.len() as int, packet_length as int),
            forall|index: int|
                0 <= index < packets@.len() ==> is_fragment(
                    #[trigger] packets@[index],
                    index,
                    iso_handle,
                    sequence,
                    sdu@,
                    packet_length as int,
                ),
            forall|index: int|
                0 <= index < packets@.len() ==> #[trigger] fragment_start(
                    index + 1,
                    packet_length as int,
                ) < sdu@.len(),
        invariant
            packet_length > SDU_INFO_LENGTH,
            sdu@.len() <= 0x0FFF,
        ensures
            are_fragments(packets@, iso_handle, sequence, sdu@, packet_length as int),
        decreases sdu@.len() - offset,
    {
        let first: bool = offset == 0;
        let capacity: usize = if first {
            packet_length - SDU_INFO_LENGTH
        } else {
            packet_length
        };
        proof {
            let index = packets@.len() as int;
            assert(index * packet_length + packet_length == (index + 1) * packet_length)
                by (nonlinear_arith);
            assert(fragment_start(index + 1, packet_length as int) == offset + capacity);
        }
        let end: usize = if capacity < sdu.len() - offset {
            offset + capacity
        } else {
            sdu.len()
        };
        let last: bool = end == sdu.len();
        let mut fragment: Vec<u8> = Vec::new();
        fragment.extend_from_slice(vstd::slice::slice_subrange(sdu, offset, end));
        assert(fragment@ =~= sdu@.subrange(offset as int, end as int));
        let ghost before = packets@;
        packets.push(
            IsoDataPacket {
                connection_handle: iso_handle,
                pb_flag: if first && last {
                    0b10
                } else if first {
                    0b00
                } else if last {
                    0b11
                } else {
                    0b01
                },
                ts_flag: 0,
                data_total_length: if first {
                    (fragment.len() + SDU_INFO_LENGTH) as u16
                } else {
                    fragment.len() as u16
                },
                time_stamp: None,
                packet_sequence_number: if first {
                    Some(sequence)
                } else {
                    None
                },
                iso_sdu_length: if first {
                    Some(sdu.len() as u16)
                } else {
                    None
                },
                packet_status_flag: if first {
                    Some(0)
                } else {
                    None
                },
                iso_sdu_fragment: fragment,
            },
        );
        proof {
            let index = before.len() as int;
            assert(is_fragment(
                packets@[index],
                index,
                iso_handle,
                sequence,
                sdu@,
                packet_length as int,
            ));
        }
        if last {
            break ;
        }
        offset = end;
    }
    packets
}

/// What has been collected after some of the fragments of an SDU.
proof fn lemma_partial_reassembly(
    state: AssemblyView,
    packets: Seq<IsoDataPacket>,
    count: int,
    iso_handle: u16,
    sequence: u16,
    sdu: Seq<u8>,
    packet_length: int,
)
    requires
        packet_length > SDU_INFO_LENGTH,
        sdu.len() <= 0x0FFF,
        are_fragments(packets, iso_handle, sequence, sdu, packet_length),
        0 < count <= packets.len(),
    ensures
        count < packets.len() ==> {
            &&& state.completed_all(packets.take(count)) == Seq::<IsoSduView>::empty()
            &&& state.after_all(packets.take(count)) == (AssemblyView {
                pending: Some(
                    IsoSduView {
                        connection_handle: iso_handle,
                        packet_sequence_number: sequence,
                        packet_status_flag: 0,
                        data: sdu.take(fragment_start(count, packet_length)),
                    },
                ),
                expected_length: sdu.len(),
            })
        },
        count == packets.len() ==> {
            &&& state.completed_all(packets.take(count)) == seq![
                IsoSduView {
                    connection_handle: iso_handle,
                    packet_sequence_number: sequence,
                    packet_status_flag: 0,
                    data: sdu,
                },
            ]
            &&& state.after_all(packets.take(count)).pending is None
        },
    decreases count,
{
    let taken = packets.take(count);
    let index = count - 1;
    assert(taken.drop_last() =~= packets.take(index));
    assert(taken.last() == packets[index]);
    assert(is_fragment(packets[index], index, iso_handle, sequence, sdu, packet_length));
    assert(index * packet_length + packet_length == (index + 1) * packet_length)
        by (nonlinear_arith);
    assert(index >= 1 ==> index * packet_length >= packet_length) by (nonlinear_arith)
        requires
            packet_length > 4,
    ;
    if count < packets.len() {
        assert(fragment_start(index + 1, packet_length) < sdu.len());
    }
    if index == 0 {
        assert(state.after_all(packets.take(0)) == state);
        assert(state.completed_all(packets.take(0)) == Seq::<IsoSduView>::empty());
        assert(sdu.subrange(0, fragment_end(0, packet_length, sdu.len() as int)) =~= sdu.take(
            fragment_end(0, packet_length, sdu.len() as int),
        ));
        if packets.len() == 1 {
            assert(sdu.take(sdu.len() as int) =~= sdu);
        }
    } else {
        lemma_partial_reassembly(
            state,
            packets,
            index,
            iso_handle,
            sequence,
            sdu,
            packet_length,
        );
        let start = fragment_start(index, packet_length);
        let end = fragment_end(index, packet_length, sdu.len() as int);
        assert(fragment_start((index - 1) + 1, packet_length) < sdu.len());
        assert(sdu.take(start) + sdu.subrange(start, end) =~= sdu.take(end));
        if count == packets.len() {
            assert(sdu.take(sdu.len() as int) =~= sdu);
        }
    }
}

/// Feeding an assembler all the fragments of an SDU, whatever it held before,
/// yields exactly that SDU and leaves nothing pending.
pub proof fn lemma_reassembly(
    state: AssemblyView,
    packets: Seq<IsoDataPacket>,
    iso_handle: u16,
    sequence: u16,
    sdu: Seq<u8>,
    packet_length: int,
)
    requires
        packet_length > SDU_INFO_LENGTH,
        sdu.len() <= 0x0FFF,
        are_fragments(packets, iso_handle, sequence, sdu, packet_length),
    ensures
        state.completed_all(packets) == seq![
            IsoSduView {
                connection_handle: iso_handle,
                packet_sequence_number: sequence,
                packet_status_flag: 0,
                data: sdu,
            },
        ],
        state.after_all(packets).pending is None,
{
    lemma_partial_reassembly(
        state,
        packets,
        packets.len() as int,
        iso_handle,
        sequence,
        sdu,
        packet_length,
    );
    assert(packets.take(packets.len() as int) =~= packets);
}

/// Without the first fragment of an SDU, an assembler that holds nothing makes
/// nothing of the others, and still holds nothing.
pub proof fn lemma_lost_first_fragment(
    state: AssemblyView,
    packets: Seq<IsoDataPacket>,
    iso_handle: u16,
    sequence: u16,
    sdu: Seq<u8>,
    packet_length: int,
)
    requires
        packet_length > SDU_INFO_LENGTH,
        sdu.len() <= 0x0FFF,
        are_fragments(packets, iso_handle, sequence, sdu, packet_length),
        state.pending is None,
    ensures
        state.completed_all(packets.skip(1)) == Seq::<IsoSduView>::empty(),
        state.after_all(packets.skip(1)) == state,
{
    let rest = packets.skip(1);
    assert forall|index: int| 0 <= index < rest.len() implies (#[trigger] rest[index]).pb_flag
        == 0b01 || rest[index].pb_flag == 0b11 by {
        assert(is_fragment(
            packets[index + 1],
            index + 1,
            iso_handle,
            sequence,
            sdu,
            packet_length,
        ));
    }
    lemma_unannounced(state, rest);
}

/// Fragments that continue nothing are dropped.
proof fn lemma_unannounced(state: AssemblyView, packets: Seq<IsoDataPacket>)
    requires
        state.pending is None,
        forall|index: int|
            0 <= index < packets.len() ==> (#[trigger] packets[index]).pb_flag == 0b01
                || packets[index].pb_flag == 0b11,
    ensures
        state.completed_all(packets) == Seq::<IsoSduView>::empty(),
        state.after_all(packets) == state,
    decreases packets.len(),
{
    if packets.len() > 0 {
        assert forall|index: int| 0 <= index < packets.len() - 1 implies (
        #[trigger] packets.drop_last()[index]).pb_flag == 0b01
            || packets.drop_last()[index].pb_flag == 0b11 by {
            assert(packets.drop_last()[index] == packets[index]);
        }
        lemma_unannounced(state, packets.drop_last());
        assert(packets.last() == packets[packets.len() - 1]);
    }
}

/// What has been collected after some of the fragments of an SDU, with one in
/// the middle missing: one packet's worth of bytes too little.
proof fn lemma_partial_without_middle(
    state: AssemblyView,
    packets: Seq<IsoDataPacket>,
    middle: int,
    count: int,
    iso_handle: u16,
    sequence: u16,
    sdu: Seq<u8>,
    packet_length: int,
)
    requires
        packet_length > SDU_INFO_LENGTH,
        sdu.len() <= 0x0FFF,
        are_fragments(packets, iso_handle, sequence, sdu, packet_length),
        0 < middle < count <= packets.len(),
        middle < packets.len() - 1,
    ensures
        ({
            let heard = packets.take(middle) + packets.subrange(middle + 1, count);
            let after = state.after_all(heard);
            &&& state.completed_all(heard) == Seq::<IsoSduView>::empty()
            &&& count < packets.len() ==> {
                &&& after.pending is Some
                &&& after.pending->0.data.len() == fragment_start(count, packet_length)
                    - packet_length
                &&& after.expected_length == sdu.len()
            }
            &&& count == packets.len() ==> after.pending is None
        }),
    decreases count,
{
    let heard = packets.take(middle) + packets.subrange(middle + 1, count);
    let index = count - 1;
    assert(index * packet_length + packet_length == (index + 1) * packet_length)
        by (nonlinear_arith);
    assert(index >= 1 ==> index * packet_length >= packet_length) by (nonlinear_arith)
        requires
            packet_length > 4,
    ;
    if index == middle {
        assert(heard =~= packets.take(middle));
        lemma_partial_reassembly(
            state,
            packets,
            middle,
            iso_handle,
            sequence,
            sdu,
            packet_length,
        );
        assert(fragment_start((middle - 1) + 1, packet_length) < sdu.len());
    } else {
        lemma_partial_without_middle(
            state,
            packets,
            middle,
            index,
            iso_handle,
            sequence,
            sdu,
            packet_length,
        );
        let earlier = packets.take(middle) + packets.subrange(middle + 1, index);
        assert(heard.drop_last() =~= earlier);
        assert(heard.last() == packets[index]);
        assert(is_fragment(packets[index], index, iso_handle, sequence, sdu, packet_length));
        assert(fragment_start((index - 1) + 1, packet_length) < sdu.len());
        if count < packets.len() {
            assert(fragment_start(index + 1, packet_length) < sdu.len());
        }
    }
}

/// Without a fragment from the middle of an SDU, an assembler makes nothing of
/// the others, whatever it held before, and holds nothing afterwards.
pub proof fn lemma_lost_middle_fragment(
    state: AssemblyView,
    packets: Seq<IsoDataPacket>,
    middle: int,
    iso_handle: u16,
    sequence: u16,
    sdu: Seq<u8>,
    packet_length: int,
)
    requires
        packet_length > SDU_INFO_LENGTH,
        sdu.len() <= 0x0FFF,
        are_fragments(packets, iso_handle, sequence, sdu, packet_length),
        0 < middle < packets.len() - 1,
    ensures
        state.completed_all(packets.remove(middle)) == Seq::<IsoSduView>::empty(),
        state.after_all(packets.remove(middle)).pending is None,
{
    let count = packets.len() as int;
    lemma_partial_without_middle(
        state,
        packets,
        middle,
        count,
        iso_handle,
        sequence,
        sdu,
        packet_length,
    );
    assert(packets.remove(middle) =~= packets.take(middle) + packets.subrange(middle + 1, count));
}

/// Without the last fragment of an SDU, an assembler makes nothing of the others,
/// whatever it held before.
pub proof fn lemma_lost_last_fragment(
    state: AssemblyView,
    packets: Seq<IsoDataPacket>,
    iso_handle: u16,
    sequence: u16,
    sdu: Seq<u8>,
    packet_length: int,
)
    requires
        packet_length > SDU_INFO_LENGTH,
        sdu.len() <= 0x0FFF,
        are_fragments(packets, iso_handle, sequence, sdu, packet_length),
    ensures
        state.completed_all(packets.drop_last()) == Seq::<IsoSduView>::empty(),
{
    let count = packets.len() - 1;
    assert(packets.drop_last() =~= packets.take(count));
    if count > 0 {
        lemma_partial_reassembly(
            state,
            packets,
            count,
            iso_handle,
            sequence,
            sdu,
            packet_length,
        );
    }
}

/// No fragment is larger than the controller's packets.
pub proof fn lemma_fragments_fit(
    packets: Seq<IsoDataPacket>,
    iso_handle: u16,
    sequence: u16,
    sdu: Seq<u8>,
    packet_length: int,
)
    requires
        packet_length > SDU_INFO_LENGTH,
        sdu.len() <= 0x0FFF,
        are_fragments(packets, iso_handle, sequence, sdu, packet_length),
    ensures
        forall|index: int|
            0 <= index < packets.len() ==> (#[trigger] packets[index]).data_total_length
                <= packet_length,
{
    assert forall|index: int| 0 <= index < packets.len() implies (
    #[trigger] packets[index]).data_total_length <= packet_length by {
        assert(is_fragment(packets[index], index, iso_handle, sequence, sdu, packet_length));
        assert(index * packet_length + packet_length == (index + 1) * packet_length)
            by (nonlinear_arith);
        assert(index == 0 ==> index * packet_length == 0) by (nonlinear_arith);
        let next = fragment_start(index + 1, packet_length);
        assert(fragment_end(index, packet_length, sdu.len() as int) <= next);
        assert(next - fragment_start(index, packet_length) + (if index == 0 {
            SDU_INFO_LENGTH as int
        } else {
            0
        }) == packet_length);
    }
}

} // verus!
