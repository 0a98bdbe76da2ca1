//! Handing commands to the controller.

use crate::address::Address;
use crate::connection::ROLE_CENTRAL;
use crate::device::{Device, DeviceView};
use crate::hci::Command;
use crate::retain::lemma_push_keeps_distinct;
use crate::state::{ClassicState, ClassicView};
use crate::transport::{HostAction, HostTransport};
use vstd::prelude::*;

verus! {

/// The addresses that file a list's entries.
pub open spec fn addresses<A>(entries: Seq<(Address, A)>) -> Seq<Address> {
    entries.map_values(|entry: (Address, A)| entry.0)
}

/// The position of the first entry that an address files.
pub open spec fn first_at<A>(entries: Seq<(Address, A)>, address: Address) -> Option<int> {
    addresses(entries).index_of_first(address)
}

/// The history with one more command.
pub open spec fn with_command(
    log: Seq<HostAction>,
    controller_id: usize,
    command: Command,
) -> Seq<HostAction> {
    log.push(HostAction::Command { controller_id, command })
}

/// The history with one more command, where a condition holds.
pub open spec fn with_command_if(
    log: Seq<HostAction>,
    controller_id: usize,
    condition: bool,
    command: Command,
) -> Seq<HostAction> {
    if condition {
        with_command(log, controller_id, command)
    } else {
        log
    }
}

/// Find the first entry that an address files.
pub fn find_address<A>(entries: &Vec<(Address, A)>, address: Address) -> (found: Option<usize>)
    ensures
        match found {
            Some(index) => first_at(entries@, address) == Some(index as int) && index
                < entries@.len() && entries@[index as int].0 == address,
            None => first_at(entries@, address) is None,
        },
{
    let ghost filed = addresses(entries@);
    let mut index: usize = 0;
    while index < entries.len()
        invariant
            index <= entries@.len(),
            filed == addresses(entries@),
            forall|earlier: int| 0 <= earlier < index ==> filed[earlier] != address,
        decreases entries@.len() - index,
    {
        assert(filed[index as int] == entries@[index as int].0);
        if entries[index].0 == address {
            proof {
                assert(filed.contains(address));
                filed.index_of_first_ensures(address);
            }
            return Some(index);
        }
        index += 1;
    }
    proof {
        filed.index_of_first_ensures(address);
    }
    None
}

/// Where every address files one entry, it still does when an entry is replaced,
/// taken out, or added for an address that has none.
pub proof fn lemma_filed_once<A>(entries: Seq<(Address, A)>, address: Address, entry: A)
    requires
        addresses(entries).no_duplicates(),
    ensures
        match first_at(entries, address) {
            Some(index) => {
                &&& addresses(entries.update(index, (address, entry))).no_duplicates()
                &&& addresses(entries.remove(index)).no_duplicates()
            },
            None => addresses(entries.push((address, entry))).no_duplicates(),
        },
{
    let filed = addresses(entries);
    filed.index_of_first_ensures(address);
    match first_at(entries, address) {
        Some(index) => {
            assert(addresses(entries.update(index, (address, entry))) =~= filed);
            assert(addresses(entries.remove(index)) =~= filed.remove(index));
        },
        None => {
            assert(addresses(entries.push((address, entry))) =~= filed.push(address));
            lemma_push_keeps_distinct(filed, address);
        },
    }
}

/// Where every address files one entry, it still does among the entries that are
/// kept.
pub proof fn lemma_filed_once_filtered<A>(
    entries: Seq<(Address, A)>,
    keep: spec_fn((Address, A)) -> bool,
)
    requires
        addresses(entries).no_duplicates(),
    ensures
        addresses(entries.filter(keep)).no_duplicates(),
        forall|address: Address| #[trigger]
            addresses(entries.filter(keep)).contains(address) ==> addresses(entries).contains(
                address,
            ),
    decreases entries.len(),
{
    reveal(Seq::filter);
    if entries.len() > 0 {
        let earlier = entries.drop_last();
        let last = entries.last();
        let kept = earlier.filter(keep);
        let filed = addresses(entries);
        assert(addresses(earlier) =~= filed.drop_last());
        lemma_filed_once_filtered(earlier, keep);
        assert(!addresses(earlier).contains(last.0)) by {
            assert(filed[entries.len() - 1] == last.0);
        }
        assert(addresses(kept.push(last)) =~= addresses(kept).push(last.0));
        lemma_push_keeps_distinct(addresses(kept), last.0);
        assert forall|address: Address| #[trigger]
            addresses(entries.filter(keep)).contains(address) implies filed.contains(address) by {
            if addresses(kept).contains(address) {
                let place = choose|place: int|
                    0 <= place < earlier.len() && addresses(earlier)[place] == address;
                assert(filed[place] == address);
            } else {
                assert(filed[entries.len() - 1] == last.0);
            }
        }
    }
}

impl ClassicView {
    /// The state with the role noted that a connection to a peer will have.
    pub open spec fn with_pending_role(self, peer_address: Address, role: u8) -> ClassicView {
        ClassicView {
            pending_classic_roles: match first_at(self.pending_classic_roles, peer_address) {
                Some(index) => self.pending_classic_roles.update(index, (peer_address, role)),
                None => self.pending_classic_roles.push((peer_address, role)),
            },
            ..self
        }
    }
}

impl ClassicState {
    /// Note the role that a connection to a peer will have.
    pub fn set_pending_role(&mut self, peer_address: Address, role: u8)
        ensures
            final(self)@ == old(self)@.with_pending_role(peer_address, role),
            old(self)@.valid() ==> final(self)@.valid(),
    {
        proof {
            if self@.valid() {
                lemma_filed_once(self@.pending_classic_roles, peer_address, role);
            }
        }
        match find_address(&self.pending_classic_roles, peer_address) {
            Some(index) => {
                self.pending_classic_roles[index] = (peer_address, role);
            },
            None => {
                self.pending_classic_roles.push((peer_address, role));
            },
        }
        assert(self@ =~= old(self)@.with_pending_role(peer_address, role));
    }
}

impl DeviceView {
    /// What a device remembers of a command that it sends: the role in the
    /// Classic connection that the command will bring about, or the random
    /// address that it gives the controller.
    pub open spec fn after_command(self, command: Command) -> DeviceView {
        match command {
            Command::CreateConnection { bd_addr, .. } => DeviceView {
                classic: self.classic.with_pending_role(bd_addr, ROLE_CENTRAL),
                ..self
            },
            Command::AcceptConnectionRequest { bd_addr, role } => DeviceView {
                classic: self.classic.with_pending_role(bd_addr, role),
                ..self
            },
            Command::LeSetRandomAddress { random_address } => self.with_random_address(
                random_address,
            ),
            _ => self,
        }
    }
}

impl Device {
    /// Submit any typed HCI command through this device's attached controller.
    pub fn send_hci_command<L: HostTransport + ?Sized>(&mut self, link: &mut L, command: Command)
        requires
            old(self).wf(),
        ensures
            final(self).wf(),
            final(self)@ == old(self)@.after_command(command),
            final(link).log() == with_command(old(link).log(), old(self).controller_id, command),
    {
        match &command {
            Command::CreateConnection { bd_addr, .. } => {
                self.classic.set_pending_role(*bd_addr, ROLE_CENTRAL);
            },
            Command::AcceptConnectionRequest { bd_addr, role } => {
                self.classic.set_pending_role(*bd_addr, *role);
            },
            Command::LeSetRandomAddress { random_address } => {
                self.identity.random_address = *random_address;
            },
            _ => {},
        }
        assert(self@ =~= old(self)@.after_command(command));
        link.handle_command(self.controller_id, command);
    }
}

} // verus!
