//! The services that a device offers on L2CAP: fixed channels, and servers of
//! LE credit-based channels under their protocol/service multiplexers (PSMs).

use crate::att::{ATT_CID, EATT_PSM, SMP_BR_CID, SMP_CID};
use crate::device::{Device, DeviceView};
use crate::state::ChannelView;
use vstd::prelude::*;

verus! {

broadcast use vstd::laws_cmp::group_laws_cmp;

/// The first PSM that is handed out to a server without one of its own.
pub const LE_PSM_DYNAMIC_RANGE_START: u16 = 0x0080;

/// The last PSM that is handed out.
pub const LE_PSM_DYNAMIC_RANGE_END: u16 = 0x00FF;

/// Why a server of LE credit-based channels cannot be registered.
#[derive(Clone, Copy, Debug, PartialEq, Eq, Structural)]
pub enum LePsmError {
    /// Zero is no PSM.
    Zero,
    /// Every PSM that could be handed out is in use.
    NoneFree,
    /// Another server has the PSM.
    InUse { psm: u16 },
    /// Enhanced ATT needs an attribute server.
    NoAttServer,
}

/// Why an ATT PDU cannot go out on an LE credit-based channel.
#[derive(Clone, Copy, Debug, PartialEq, Eq, Structural)]
pub enum EattChannelError {
    /// There is no such channel.
    UnknownChannel { source_cid: u16 },
    /// The channel serves something else.
    NotEatt { source_cid: u16 },
}

/// Whether a PSM can be handed out.
pub open spec fn is_dynamic(psm: u16) -> bool {
    LE_PSM_DYNAMIC_RANGE_START <= psm <= LE_PSM_DYNAMIC_RANGE_END
}

/// Whether a PSM is the first one that can be handed out and that nobody uses.
pub open spec fn is_first_free(used: Set<u16>, psm: u16) -> bool {
    &&& is_dynamic(psm)
    &&& !used.contains(psm)
    &&& forall|other: u16| is_dynamic(other) && other < psm ==> used.contains(other)
}

/// Whether a PSM, or an error, is what a server gets that asked for a PSM, or
/// left the choice open.
pub open spec fn is_psm_choice(
    used: Set<u16>,
    requested: Option<u16>,
    result: Result<u16, LePsmError>,
) -> bool {
    match (requested, result) {
        (Some(psm), Ok(chosen)) => psm != 0 && !used.contains(psm) && chosen == psm,
        (Some(psm), Err(LePsmError::Zero)) => psm == 0,
        (Some(psm), Err(LePsmError::InUse { psm: busy })) => {
            psm != 0 && used.contains(psm) && busy == psm
        },
        (None, Ok(chosen)) => is_first_free(used, chosen),
        (None, Err(LePsmError::NoneFree)) => {
            forall|psm: u16| is_dynamic(psm) ==> used.contains(psm)
        },
        _ => false,
    }
}

impl DeviceView {
    /// A device with a given set of registered PSMs.
    pub open spec fn with_le_credit_servers(self, servers: Set<u16>) -> DeviceView {
        DeviceView { channels: ChannelView { le_credit_servers: servers, ..self.channels }, ..self }
    }

    /// A device after a server has asked for a PSM and got an answer.
    pub open spec fn server_registered(self, result: Result<u16, LePsmError>) -> DeviceView {
        match result {
            Ok(psm) => self.with_le_credit_servers(self.channels.le_credit_servers.insert(psm)),
            Err(_) => self,
        }
    }

    /// A device without the server under a PSM.
    pub open spec fn server_unregistered(self, psm: u16) -> DeviceView {
        self.with_le_credit_servers(self.channels.le_credit_servers.remove(psm))
    }

    /// The fixed channels that a device answers for.
    pub open spec fn fixed_channels(self) -> Seq<u16> {
        if self.config.classic_smp_enabled {
            seq![ATT_CID, SMP_CID, SMP_BR_CID]
        } else {
            seq![ATT_CID, SMP_CID]
        }
    }
}

impl Device {
    /// The PSM for a server that asked for one, or left the choice open.
    fn choose_le_psm(&self, requested: Option<u16>) -> (result: Result<u16, LePsmError>)
        ensures
            is_psm_choice(self@.channels.le_credit_servers, requested, result),
    {
        if let Some(psm) = requested {
            if psm == 0 {
                return Err(LePsmError::Zero);
            }
            if self.channels.le_credit_servers.contains(&psm) {
                return Err(LePsmError::InUse { psm });
            }
            return Ok(psm);
        }
        let mut psm: u16 = LE_PSM_DYNAMIC_RANGE_START;
        while psm <= LE_PSM_DYNAMIC_RANGE_END
            invariant
                LE_PSM_DYNAMIC_RANGE_START <= psm <= LE_PSM_DYNAMIC_RANGE_END + 1,
                requested is None,
                forall|other: u16|
                    is_dynamic(other) && other < psm
                        ==> self@.channels.le_credit_servers.contains(other),
            decreases LE_PSM_DYNAMIC_RANGE_END + 1 - psm,
        {
            if !self.channels.le_credit_servers.contains(&psm) {
                return Ok(psm);
            }
            psm += 1;
        }
        Err(LePsmError::NoneFree)
    }

    /// Register a server of LE credit-based channels. Returns its PSM: the
    /// requested one, or the first that is free.
    pub fn register_le_credit_server(&mut self, requested: Option<u16>) -> (result: Result<
        u16,
        LePsmError,
    >)
        requires
            old(self).wf(),
        ensures
            final(self).wf(),
            is_psm_choice(old(self)@.channels.le_credit_servers, requested, result),
            final(self)@ == old(self)@.server_registered(result),
    {
        let result = self.choose_le_psm(requested);
        if let Ok(psm) = result {
            self.channels.le_credit_servers.insert(psm);
        }
        assert(self@ =~= old(self)@.server_registered(result));
        result
    }

    /// Unregister the server under a PSM. Returns whether there was one.
    pub fn unregister_le_credit_server(&mut self, psm: u16) -> (removed: bool)
        requires
            old(self).wf(),
        ensures
            final(self).wf(),
            removed == old(self)@.channels.le_credit_servers.contains(psm),
            final(self)@ == old(self)@.server_unregistered(psm),
    {
        let removed = self.channels.le_credit_servers.remove(&psm);
        assert(self@ =~= old(self)@.server_unregistered(psm));
        removed
    }

    /// Register Enhanced ATT on its assigned PSM.
    pub fn register_eatt_server(&mut self) -> (result: Result<u16, LePsmError>)
        requires
            old(self).wf(),
        ensures
            final(self).wf(),
            if old(self)@.channels.server_attached {
                is_psm_choice(old(self)@.channels.le_credit_servers, Some(EATT_PSM), result)
            } else {
                result == Err::<u16, _>(LePsmError::NoAttServer)
            },
            final(self)@ == old(self)@.server_registered(result),
    {
        if !self.channels.server_attached {
            return Err(LePsmError::NoAttServer);
        }
        self.register_le_credit_server(Some(EATT_PSM))
    }

    /// Unregister Enhanced ATT. Returns whether it was registered.
    pub fn unregister_eatt_server(&mut self) -> (removed: bool)
        requires
            old(self).wf(),
        ensures
            final(self).wf(),
            removed == old(self)@.channels.le_credit_servers.contains(EATT_PSM),
            final(self)@ == old(self)@.server_unregistered(EATT_PSM),
    {
        self.unregister_le_credit_server(EATT_PSM)
    }

    /// The fixed channels that the device answers for.
    pub fn fixed_channels(&self) -> (cids: Vec<u16>)
        ensures
            cids@ == self@.fixed_channels(),
    {
        let mut cids: Vec<u16> = Vec::new();
        cids.push(ATT_CID);
        cids.push(SMP_CID);
        if self.config.classic_smp_enabled {
            cids.push(SMP_BR_CID);
        }
        assert(cids@ =~= self@.fixed_channels());
        cids
    }
}

/// Whether ATT PDUs may go out on a channel, given the PSM that the channel was
/// opened for, if there is such a channel.
pub fn check_eatt_channel(source_cid: u16, psm: Option<u16>) -> (result: Result<
    (),
    EattChannelError,
>)
    ensures
        result == match psm {
            None => Err(EattChannelError::UnknownChannel { source_cid }),
            Some(psm) => if psm == EATT_PSM {
                Ok(())
            } else {
                Err(EattChannelError::NotEatt { source_cid })
            },
        },
{
    match psm {
        None => Err(EattChannelError::UnknownChannel { source_cid }),
        Some(psm) => if psm == EATT_PSM {
            Ok(())
        } else {
            Err(EattChannelError::NotEatt { source_cid })
        },
    }
}

/// A server that unregisters leaves the device as it was before it registered.
pub proof fn lemma_psm_is_given_back(
    device: DeviceView,
    requested: Option<u16>,
    result: Result<u16, LePsmError>,
)
    requires
        is_psm_choice(device.channels.le_credit_servers, requested, result),
        result is Ok,
    ensures
        device.server_registered(result).server_unregistered(result->Ok_0) == device,
{
    assert(device.channels.le_credit_servers.insert(result->Ok_0).remove(result->Ok_0)
        =~= device.channels.le_credit_servers);
}

/// No two servers share a PSM: what one has got, another does not get.
pub proof fn lemma_psms_distinct(
    device: DeviceView,
    first_request: Option<u16>,
    first: Result<u16, LePsmError>,
    second_request: Option<u16>,
    second: Result<u16, LePsmError>,
)
    requires
        is_psm_choice(device.channels.le_credit_servers, first_request, first),
        is_psm_choice(
            device.server_registered(first).channels.le_credit_servers,
            second_request,
            second,
        ),
        first is Ok,
        second is Ok,
    ensures
        first->Ok_0 != second->Ok_0,
{
}

} // verus!
