//! The ATT bearers of a connection and the values that they are sent.

use crate::att::ATT_CID;
use crate::content::copy_bytes;
use crate::device::{Device, DeviceView};
use crate::disconnect::lemma_bearers_keep;
use crate::retain::{
    drop_connection, lemma_filter_empty, lemma_filter_keeps_distinct, lemma_filter_members,
    lemma_filter_step, lemma_push_keeps_distinct, not_of_connection, of_connection,
};
use crate::state::ChannelView;
use vstd::prelude::*;

verus! {

broadcast use vstd::laws_cmp::group_laws_cmp;

/// The smallest MTU of an ATT bearer.
pub const ATT_DEFAULT_MTU: u16 = 23;

/// The bytes of a value PDU before the value.
pub const ATT_VALUE_HEADER: u16 = 3;

/// What the attribute server knows of a value's subscription on a bearer.
#[derive(Clone, Copy, Debug, PartialEq, Eq, Structural)]
pub struct BearerSubscription {
    pub source_cid: u16,
    /// Bit 0 asks for notifications, bit 1 for indications.
    pub bits: u16,
    pub mtu: u16,
}

/// A value on its way to a subscriber.
#[derive(Debug, PartialEq, Eq)]
pub struct ValueMessage {
    pub source_cid: u16,
    pub attribute_handle: u16,
    pub attribute_value: Vec<u8>,
    /// An indication, which is confirmed, or a notification, which is not.
    pub indication: bool,
}

/// Why values cannot be sent to subscribers.
#[derive(Clone, Copy, Debug, PartialEq, Eq, Structural)]
pub enum SubscriberError {
    /// There is no attribute server.
    NoServer,
}

/// The bit that asks for a kind of value.
pub open spec fn subscription_bit(indicate: bool) -> u16 {
    if indicate {
        0x0002
    } else {
        0x0001
    }
}

/// How long a value can be on a bearer.
pub open spec fn value_room(mtu: u16) -> int {
    if mtu > ATT_DEFAULT_MTU {
        mtu - ATT_VALUE_HEADER
    } else {
        ATT_DEFAULT_MTU - ATT_VALUE_HEADER
    }
}

/// Selects the bearers of a connection that are no longer open.
pub open spec fn closed_by(connection_handle: u16, open: Seq<u16>) -> spec_fn((u16, u16)) -> bool {
    |bearer: (u16, u16)| bearer.0 == connection_handle && !open.contains(bearer.1)
}

/// The bearers of a connection on given channels.
pub open spec fn bearers_on(connection_handle: u16, cids: Seq<u16>) -> Seq<(u16, u16)> {
    cids.map_values(|cid: u16| (connection_handle, cid))
}

/// The channels in a list, each where it occurs first.
pub open spec fn once_each(cids: Seq<u16>) -> Seq<u16>
    decreases cids.len(),
{
    if cids.len() == 0 {
        Seq::empty()
    } else {
        let earlier = once_each(cids.drop_last());
        if earlier.contains(cids.last()) {
            earlier
        } else {
            earlier.push(cids.last())
        }
    }
}

/// Nothing occurs twice in what is taken once each, and where nothing occurs
/// twice in the list, that is the list.
pub proof fn lemma_once_each(cids: Seq<u16>)
    ensures
        once_each(cids).no_duplicates(),
        forall|cid: u16| #[trigger] once_each(cids).contains(cid) == cids.contains(cid),
        cids.no_duplicates() ==> once_each(cids) == cids,
    decreases cids.len(),
{
    if cids.len() > 0 {
        let earlier = cids.drop_last();
        let last = cids.last();
        lemma_once_each(earlier);
        if !once_each(earlier).contains(last) {
            lemma_push_keeps_distinct(once_each(earlier), last);
        }
        assert forall|cid: u16| #[trigger] once_each(cids).contains(cid) == cids.contains(cid) by {
            assert(cids[cids.len() - 1] == last);
            if earlier.contains(cid) {
                let place = choose|place: int|
                    0 <= place < earlier.len() && earlier[place] == cid;
                assert(cids[place] == cid);
            }
            if cids.contains(cid) && cid != last {
                let place = choose|place: int| 0 <= place < cids.len() && cids[place] == cid;
                assert(earlier[place] == cid);
            }
            let kept = once_each(earlier);
            if kept.contains(cid) {
                let place = choose|place: int| 0 <= place < kept.len() && kept[place] == cid;
                assert(kept.push(last)[place] == cid);
            }
            assert(kept.push(last)[kept.len() as int] == last);
        }
        if cids.no_duplicates() {
            assert(!earlier.contains(last));
            assert(earlier.push(last) =~= cids);
        }
    }
}

/// The channel of a bearer.
pub open spec fn bearer_cid() -> spec_fn((u16, u16)) -> u16 {
    |bearer: (u16, u16)| bearer.1
}

impl DeviceView {
    /// The EATT channels of a connection.
    pub open spec fn eatt_cids(self, connection_handle: u16) -> Seq<u16> {
        self.channels.eatt_bearers.filter(of_connection(connection_handle)).map_values(
            bearer_cid(),
        )
    }

    /// The EATT bearers of a connection that are no longer open.
    pub open spec fn closed_bearers(self, connection_handle: u16, open: Seq<u16>) -> Seq<
        (u16, u16),
    > {
        self.channels.eatt_bearers.filter(closed_by(connection_handle, open))
    }

    /// A device that has learnt which EATT channels of a connection are open:
    /// what the closed ones held is gone, and the open ones are listed once.
    pub open spec fn bearers_updated(self, connection_handle: u16, open: Seq<u16>) -> DeviceView {
        let removed = self.channels.bearers_removed(self.closed_bearers(connection_handle, open));
        DeviceView {
            channels: ChannelView {
                eatt_bearers: self.channels.eatt_bearers.filter(
                    not_of_connection(connection_handle),
                ) + bearers_on(connection_handle, once_each(open)),
                ..removed
            },
            ..self
        }
    }

    /// Selects the bearers of a connection that a value is sent to: the
    /// subscribed ones, or all of them, but for an indication none that waits
    /// for a confirmation.
    pub open spec fn value_goes_to(
        self,
        connection_handle: u16,
        force: bool,
        indicate: bool,
    ) -> spec_fn(BearerSubscription) -> bool {
        |bearer: BearerSubscription|
            {
                &&& force || bearer.bits & subscription_bit(indicate) != 0
                &&& !(indicate && self.indication_open(connection_handle, bearer.source_cid))
            }
    }

    /// A device whose bearer waits for the confirmation of an indication.
    pub open spec fn indicated(self, connection_handle: u16, source_cid: u16) -> DeviceView {
        if self.indication_open(connection_handle, source_cid) {
            self
        } else {
            DeviceView {
                channels: ChannelView {
                    pending_att_indications: self.channels.pending_att_indications.push(
                        (connection_handle, source_cid),
                    ),
                    ..self.channels
                },
                ..self
            }
        }
    }
}

/// The part of a value that fits on a bearer.
pub open spec fn fitting(value: Seq<u8>, room: int) -> Seq<u8> {
    if value.len() <= room {
        value
    } else {
        value.take(room)
    }
}

/// Whether messages carry a value to the bearers that it goes to, in order, each
/// cut to what its bearer takes.
pub open spec fn carries_value(
    messages: Seq<ValueMessage>,
    bearers: Seq<BearerSubscription>,
    value_handle: u16,
    value: Seq<u8>,
    indicate: bool,
) -> bool {
    &&& messages.len() == bearers.len()
    &&& forall|index: int|
        0 <= index < messages.len() ==> {
            &&& (#[trigger] messages[index]).source_cid == bearers[index].source_cid
            &&& messages[index].attribute_handle == value_handle
            &&& messages[index].attribute_value@ == fitting(value, value_room(bearers[index].mtu))
            &&& messages[index].indication == indicate
        }
}

/// The part of a value that fits on a bearer.
pub fn fitting_value(value: &[u8], room: usize) -> (part: Vec<u8>)
    ensures
        part@ == fitting(value@, room as int),
{
    let end: usize = if value.len() <= room {
        value.len()
    } else {
        room
    };
    let part = copy_bytes(value, 0, end);
    assert(part@ =~= value@.take(end as int));
    assert(value@.len() <= room ==> part@ =~= value@);
    part
}

fn is_among(cids: &[u16], cid: u16) -> (found: bool)
    ensures
        found == cids@.contains(cid),
{
    let mut index: usize = 0;
    while index < cids.len()
        invariant
            index <= cids@.len(),
            forall|earlier: int| 0 <= earlier < index ==> cids@[earlier] != cid,
        decreases cids@.len() - index,
    {
        if cids[index] == cid {
            assert(cids@[index as int] == cid);
            return true;
        }
        index += 1;
    }
    false
}

/// The channels in a list, each where it occurs first.
fn first_occurrences(cids: &[u16]) -> (distinct: Vec<u16>)
    ensures
        distinct@ == once_each(cids@),
{
    let mut distinct: Vec<u16> = Vec::new();
    let mut index: usize = 0;
    assert(cids@.take(0) =~= Seq::<u16>::empty());
    while index < cids.len()
        invariant
            index <= cids@.len(),
            distinct@ == once_each(cids@.take(index as int)),
        decreases cids@.len() - index,
    {
        assert(cids@.take(index + 1).drop_last() =~= cids@.take(index as int));
        if !is_among(distinct.as_slice(), cids[index]) {
            distinct.push(cids[index]);
        }
        index += 1;
    }
    assert(cids@.take(index as int) =~= cids@);
    distinct
}

/// The bearers of other connections and those on distinct channels are distinct.
proof fn lemma_bearers_distinct(bearers: Seq<(u16, u16)>, connection_handle: u16, cids: Seq<u16>)
    requires
        bearers.no_duplicates(),
        cids.no_duplicates(),
    ensures
        (bearers.filter(not_of_connection(connection_handle)) + bearers_on(
            connection_handle,
            cids,
        )).no_duplicates(),
{
    let keep = not_of_connection::<(u16, u16)>(connection_handle);
    let others = bearers.filter(keep);
    let added = bearers_on(connection_handle, cids);
    lemma_filter_keeps_distinct(bearers, keep);
    assert forall|place: int| 0 <= place < others.len() implies (#[trigger] others[place]).0
        != connection_handle by {
        assert(others.contains(others[place]));
        lemma_filter_members(bearers, keep, others[place]);
    }
    assert forall|first: int, second: int|
        0 <= first < (others + added).len() && 0 <= second < (others + added).len() && first
            != second implies (others + added)[first] != (others + added)[second] by {
        if first < others.len() && second < others.len() {
            assert(others[first] != others[second]);
        } else if first >= others.len() && second >= others.len() {
            assert(cids[first - others.len()] != cids[second - others.len()]);
        } else if first < others.len() {
            assert(others[first].0 != connection_handle);
        } else {
            assert(others[second].0 != connection_handle);
        }
    }
}

impl Device {
    /// Connected EATT source CIDs on one LE connection.
    pub fn eatt_bearers(&self, connection_handle: u16) -> (cids: Vec<u16>)
        ensures
            cids@ == self@.eatt_cids(connection_handle),
    {
        let ghost all = self.channels.eatt_bearers@;
        let ghost mine = of_connection::<(u16, u16)>(connection_handle);
        let mut cids: Vec<u16> = Vec::new();
        let mut index: usize = 0;
        proof {
            lemma_filter_empty(all, mine);
            assert(cids@ =~= all.take(0).filter(mine).map_values(bearer_cid()));
        }
        while index < self.channels.eatt_bearers.len()
            invariant
                index <= all.len(),
                all == self.channels.eatt_bearers@,
                mine == of_connection::<(u16, u16)>(connection_handle),
                cids@ == all.take(index as int).filter(mine).map_values(bearer_cid()),
            decreases all.len() - index,
        {
            proof {
                lemma_filter_step(all, index as int, mine);
            }
            let bearer: (u16, u16) = self.channels.eatt_bearers[index];
            if bearer.0 == connection_handle {
                cids.push(bearer.1);
            }
            index += 1;
            assert(cids@ =~= all.take(index as int).filter(mine).map_values(bearer_cid()));
        }
        assert(all.take(index as int) =~= all);
        cids
    }

    /// The fixed ATT bearer of a connection, and then its EATT bearers.
    pub fn att_bearers(&self, connection_handle: u16) -> (cids: Vec<u16>)
        ensures
            cids@ == seq![ATT_CID] + self@.eatt_cids(connection_handle),
    {
        let mut cids: Vec<u16> = Vec::new();
        cids.push(ATT_CID);
        let mut enhanced: Vec<u16> = self.eatt_bearers(connection_handle);
        cids.append(&mut enhanced);
        assert(cids@ =~= seq![ATT_CID] + self@.eatt_cids(connection_handle));
        cids
    }

    /// Learn which EATT channels of a connection are open. Returns the bearers
    /// that have closed since.
    pub fn update_eatt_bearers(&mut self, connection_handle: u16, open: &[u16]) -> (closed: Vec<
        (u16, u16),
    >)
        requires
            old(self).wf(),
        ensures
            final(self).wf(),
            closed@ == old(self)@.closed_bearers(connection_handle, open@),
            final(self)@ == old(self)@.bearers_updated(connection_handle, open@),
    {
        let ghost all = self.channels.eatt_bearers@;
        let ghost gone = closed_by(connection_handle, open@);
        let mut closed: Vec<(u16, u16)> = Vec::new();
        let mut index: usize = 0;
        proof {
            lemma_filter_empty(all, gone);
        }
        while index < self.channels.eatt_bearers.len()
            invariant
                index <= all.len(),
                all == self.channels.eatt_bearers@,
                gone == closed_by(connection_handle, open@),
                closed@ == all.take(index as int).filter(gone),
            decreases all.len() - index,
        {
            proof {
                lemma_filter_step(all, index as int, gone);
            }
            let bearer: (u16, u16) = self.channels.eatt_bearers[index];
            if bearer.0 == connection_handle && !is_among(open, bearer.1) {
                closed.push(bearer);
            }
            index += 1;
        }
        assert(all.take(index as int) =~= all);
        let ghost channels = self@.channels;
        self.channels.remove_bearers(&closed);
        proof {
            lemma_bearers_keep(channels, closed@);
        }
        drop_connection(&mut self.channels.eatt_bearers, connection_handle);
        let ghost others = self.channels.eatt_bearers@;
        let ghost between = self@;
        let fresh: Vec<u16> = first_occurrences(open);
        let mut next: usize = 0;
        assert(others + bearers_on(connection_handle, fresh@.take(0)) =~= others);
        while next < fresh.len()
            invariant
                next <= fresh@.len(),
                self@ == (DeviceView {
                    channels: ChannelView {
                        eatt_bearers: others + bearers_on(connection_handle, fresh@.take(next as int)),
                        ..between.channels
                    },
                    ..between
                }),
                self.pools == old(self).pools,
            decreases fresh@.len() - next,
        {
            let ghost filed = self@;
            self.channels.eatt_bearers.push((connection_handle, fresh[next]));
            next += 1;
            assert(self@.channels.eatt_bearers =~= others + bearers_on(
                connection_handle,
                fresh@.take(next as int),
            ));
            assert(self@ =~= (DeviceView {
                channels: ChannelView {
                    eatt_bearers: others + bearers_on(connection_handle, fresh@.take(next as int)),
                    ..between.channels
                },
                ..between
            }));
        }
        assert(fresh@.take(next as int) =~= fresh@);
        assert(self@ =~= old(self)@.bearers_updated(connection_handle, open@));
        proof {
            lemma_once_each(open@);
            lemma_bearers_distinct(
                old(self)@.channels.eatt_bearers,
                connection_handle,
                once_each(open@),
            );
        }
        closed
    }

    /// The messages that carry a value to the subscribers of a connection:
    /// notifications or indications, to the subscribed bearers or, where
    /// forced, to all. A bearer with an outstanding indication is not sent
    /// another one.
    pub fn subscribed_values(
        &self,
        connection_handle: u16,
        bearers: &[BearerSubscription],
        value_handle: u16,
        value: &[u8],
        force: bool,
        indicate: bool,
    ) -> (result: Result<Vec<ValueMessage>, SubscriberError>)
        ensures
            match result {
                Ok(messages) => {
                    &&& self@.channels.server_attached
                    &&& carries_value(
                        messages@,
                        bearers@.filter(self@.value_goes_to(connection_handle, force, indicate)),
                        value_handle,
                        value@,
                        indicate,
                    )
                },
                Err(error) => !self@.channels.server_attached && error
                    == SubscriberError::NoServer,
            },
    {
        if !self.channels.server_attached {
            return Err(SubscriberError::NoServer);
        }
        let ghost wanted = self@.value_goes_to(connection_handle, force, indicate);
        let required: u16 = if indicate {
            0x0002
        } else {
            0x0001
        };
        let mut messages: Vec<ValueMessage> = Vec::new();
        let mut index: usize = 0;
        proof {
            lemma_filter_empty(bearers@, wanted);
        }
        while index < bearers.len()
            invariant
                index <= bearers@.len(),
                required == subscription_bit(indicate),
                wanted == self@.value_goes_to(connection_handle, force, indicate),
                carries_value(
                    messages@,
                    bearers@.take(index as int).filter(wanted),
                    value_handle,
                    value@,
                    indicate,
                ),
            decreases bearers@.len() - index,
        {
            proof {
                lemma_filter_step(bearers@, index as int, wanted);
            }
            let bearer: BearerSubscription = bearers[index];
            if (force || bearer.bits & required != 0) && !(indicate && self.indication_pending(
                connection_handle,
                bearer.source_cid,
            )) {
                let mtu: u16 = if bearer.mtu > ATT_DEFAULT_MTU {
                    bearer.mtu
                } else {
                    ATT_DEFAULT_MTU
                };
                messages.push(
                    ValueMessage {
                        source_cid: bearer.source_cid,
                        attribute_handle: value_handle,
                        attribute_value: fitting_value(value, (mtu - ATT_VALUE_HEADER) as usize),
                        indication: indicate,
                    },
                );
            }
            index += 1;
        }
        assert(bearers@.take(index as int) =~= bearers@);
        Ok(messages)
    }

    /// Note that an indication was sent on a bearer.
    pub fn mark_indicated(&mut self, connection_handle: u16, source_cid: u16)
        requires
            old(self).wf(),
        ensures
            final(self).wf(),
            final(self)@ == old(self)@.indicated(connection_handle, source_cid),
    {
        if !self.indication_pending(connection_handle, source_cid) {
            self.channels.pending_att_indications.push((connection_handle, source_cid));
        }
        assert(self@ =~= old(self)@.indicated(connection_handle, source_cid));
    }
}

} // verus!
