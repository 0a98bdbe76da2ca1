//! The resolving list: the identities behind resolvable private addresses.

use crate::address::Address;
use crate::device::{Device, DeviceView};
use crate::hci::Command;
use crate::power::{bit, spec_bit};
use crate::retain::{lemma_filter_empty, lemma_filter_step};
use crate::security::{key_of_16, DeviceKeyStoreError, KeyField};
use crate::transport::{only_commands, sent_between, HostTransport};
use vstd::prelude::*;

verus! {

/// The key that stands for no identity.
pub const NO_KEY: [u8; 16] = [0, 0, 0, 0, 0, 0, 0, 0, 0, 0, 0, 0, 0, 0, 0, 0];

/// Selects the resolving keys that are as long as a key has to be.
pub open spec fn usable() -> spec_fn((Vec<u8>, Address)) -> bool {
    |entry: (Vec<u8>, Address)| entry.0@.len() == 16
}

/// Whether a command adds an identity to the resolving list.
pub open spec fn adds_device(
    command: Command,
    entry: (Vec<u8>, Address),
    own_key: [u8; 16],
) -> bool {
    command matches Command::LeAddDeviceToResolvingList {
        peer_identity_address_type,
        peer_identity_address,
        peer_irk,
        local_irk,
    } && {
        &&& peer_identity_address_type == spec_bit(!entry.1.spec_is_public())
        &&& peer_identity_address == entry.1
        &&& peer_irk@ == entry.0@
        &&& local_irk == own_key
    }
}

/// Whether commands add identities to the resolving list, one each, in order.
pub open spec fn adds_devices(
    list: Seq<Command>,
    entries: Seq<(Vec<u8>, Address)>,
    own_key: [u8; 16],
) -> bool {
    &&& list.len() == entries.len()
    &&& forall|index: int|
        0 <= index < list.len() ==> adds_device(
            #[trigger] list[index],
            entries[index],
            own_key,
        )
}

/// Whether commands load the resolving list and switch resolution on where
/// anything was loaded.
pub open spec fn loads_list(
    list: Seq<Command>,
    entries: Seq<(Vec<u8>, Address)>,
    own_key: [u8; 16],
) -> bool {
    &&& list.len() == entries.len() + 2
    &&& list[0] == Command::LeClearResolvingList
    &&& adds_devices(list.subrange(1, 1 + entries.len() as int), entries, own_key)
    &&& list.last() == (Command::LeSetAddressResolutionEnable {
        address_resolution_enable: spec_bit(entries.len() != 0),
    })
}

/// The command that lets the controller use the local key towards any peer.
pub open spec fn adds_local_key(own_key: [u8; 16]) -> Command {
    Command::LeAddDeviceToResolvingList {
        peer_identity_address_type: 0,
        peer_identity_address: Address::spec_any_public(),
        peer_irk: NO_KEY,
        local_irk: own_key,
    }
}

/// Whether commands load the resolving list with the local key and some
/// identities, and switch resolution on where that is offloaded.
pub open spec fn offloads_list(
    list: Seq<Command>,
    entries: Seq<(Vec<u8>, Address)>,
    own_key: [u8; 16],
    resolution: bool,
) -> bool {
    let rest: int = if resolution {
        1
    } else {
        0
    };
    &&& list.len() == entries.len() + 2 + rest
    &&& list[0] == Command::LeClearResolvingList
    &&& list[1] == adds_local_key(own_key)
    &&& adds_devices(list.subrange(2, 2 + entries.len() as int), entries, own_key)
    &&& resolution ==> list.last() == (Command::LeSetAddressResolutionEnable {
        address_resolution_enable: 1,
    })
}

/// Append the commands that add the usable identities, and count them.
fn append_devices(list: &mut Vec<Command>, keys: &[(Vec<u8>, Address)], local_irk: [u8; 16]) -> (
loaded: usize)
    ensures
        loaded == keys@.filter(usable()).len(),
        final(list)@.len() == old(list)@.len() + loaded,
        final(list)@.take(old(list)@.len() as int) == old(list)@,
        adds_devices(
            final(list)@.skip(old(list)@.len() as int),
            keys@.filter(usable()),
            local_irk,
        ),
{
    let ghost before = list@;
    let mut index: usize = 0;
    let mut loaded: usize = 0;
    proof {
        lemma_filter_empty(keys@, usable());
    }
    while index < keys.len()
        invariant
            index <= keys@.len(),
            loaded <= index,
            loaded == keys@.take(index as int).filter(usable()).len(),
            list@.len() == before.len() + loaded,
            list@.take(before.len() as int) == before,
            adds_devices(
                list@.skip(before.len() as int),
                keys@.take(index as int).filter(usable()),
                local_irk,
            ),
        decreases keys@.len() - index,
    {
        proof {
            lemma_filter_step(keys@, index as int, usable());
        }
        let ghost sent = list@;
        if let Some(peer_irk) = key_of_16(keys[index].0.as_slice()) {
            let identity: Address = keys[index].1;
            list.push(
                Command::LeAddDeviceToResolvingList {
                    peer_identity_address_type: bit(!identity.is_public()),
                    peer_identity_address: identity,
                    peer_irk,
                    local_irk,
                },
            );
            loaded += 1;
            assert(list@.take(before.len() as int) =~= sent.take(before.len() as int));
            assert(list@.skip(before.len() as int) =~= sent.skip(before.len() as int).push(
                list@.last(),
            ));
        }
        index += 1;
    }
    assert(keys@.take(index as int) =~= keys@);
    loaded
}

/// How many resolving keys are usable.
fn count_usable(keys: &[(Vec<u8>, Address)]) -> (count: usize)
    ensures
        count == keys@.filter(usable()).len(),
{
    let mut count: usize = 0;
    let mut index: usize = 0;
    proof {
        lemma_filter_empty(keys@, usable());
    }
    while index < keys.len()
        invariant
            index <= keys@.len(),
            count <= index,
            count == keys@.take(index as int).filter(usable()).len(),
        decreases keys@.len() - index,
    {
        proof {
            lemma_filter_step(keys@, index as int, usable());
        }
        if keys[index].0.len() == 16 {
            count += 1;
        }
        index += 1;
    }
    assert(keys@.take(index as int) =~= keys@);
    count
}

impl DeviceView {
    /// Whether the controller takes part in private addresses.
    pub open spec fn offloads(self) -> bool {
        self.config.address_resolution_offload || self.config.address_generation_offload
    }
}

impl Device {
    /// Program the controller's resolving list. Keys of a wrong length are
    /// skipped; the returned count is the number loaded.
    pub fn configure_address_resolution<L: HostTransport + ?Sized>(
        &mut self,
        link: &mut L,
        resolving_keys: &[(Vec<u8>, Address)],
        local_irk: [u8; 16],
    ) -> (loaded: usize)
        requires
            old(self).wf(),
        ensures
            final(self).wf(),
            final(self)@ == old(self)@,
            loaded == resolving_keys@.filter(usable()).len(),
            only_commands(old(link).log(), final(link).log(), old(self).controller_id),
            loads_list(
                sent_between(old(link).log(), final(link).log()),
                resolving_keys@.filter(usable()),
                local_irk,
            ),
    {
        let mut list: Vec<Command> = Vec::new();
        list.push(Command::LeClearResolvingList);
        let ghost start = list@;
        let loaded: usize = append_devices(&mut list, resolving_keys, local_irk);
        let ghost devices = list@;
        list.push(
            Command::LeSetAddressResolutionEnable { address_resolution_enable: bit(loaded != 0) },
        );
        proof {
            assert(devices.take(1)[0] == start[0]);
            assert(list@[0] == devices[0]);
            assert(list@.subrange(1, loaded + 1) =~= devices.skip(1));
        }
        self.hand_over(link, list);
        loaded
    }

    /// Note that the host can resolve addresses with the keys of its store, and
    /// count the usable ones.
    pub fn refresh_address_resolver(&mut self, resolving_keys: &[(Vec<u8>, Address)]) -> (loaded:
        usize)
        requires
            old(self).wf(),
        ensures
            final(self).wf(),
            final(self)@ == old(self)@.with_store(old(self)@.security.key_store_open, true),
            loaded == resolving_keys@.filter(usable()).len(),
    {
        self.security.address_resolver_ready = true;
        assert(self@ =~= old(self)@.with_store(old(self)@.security.key_store_open, true));
        count_usable(resolving_keys)
    }

    /// Rebuild host resolution from the keys of the store, and program the
    /// configured controller offload. Returns how many keys were loaded.
    pub fn refresh_resolving_list<L: HostTransport + ?Sized>(
        &mut self,
        link: &mut L,
        resolving_keys: &[(Vec<u8>, Address)],
    ) -> (result: Result<usize, DeviceKeyStoreError>)
        requires
            old(self).wf(),
        ensures
            final(self).wf(),
            final(self)@ == old(self)@.with_store(old(self)@.security.key_store_open, true),
            if old(self)@.offloads() && old(self).config.irk@.len() != 16 {
                &&& result == Err::<usize, _>(
                    DeviceKeyStoreError::InvalidKeyLength {
                        field: KeyField::Irk,
                        expected: 16,
                        actual: old(self).config.irk@.len() as usize,
                    },
                )
                &&& final(link).log() == old(link).log()
            } else {
                &&& result is Ok
                &&& result->Ok_0 == resolving_keys@.filter(usable()).len()
                &&& if old(self)@.offloads() {
                    &&& only_commands(old(link).log(), final(link).log(), old(self).controller_id)
                    &&& exists|own_key: [u8; 16]|
                        {
                            &&& own_key@ == old(self).config.irk@
                            &&& #[trigger] offloads_list(
                                sent_between(old(link).log(), final(link).log()),
                                resolving_keys@.filter(usable()),
                                own_key,
                                old(self).config.address_resolution_offload,
                            )
                        }
                } else {
                    final(link).log() == old(link).log()
                }
            },
    {
        let count: usize = self.refresh_address_resolver(resolving_keys);
        if !self.config.address_resolution_offload && !self.config.address_generation_offload {
            return Ok(count);
        }
        let local_irk: [u8; 16] = match key_of_16(self.config.irk.as_slice()) {
            Some(local_irk) => local_irk,
            None => {
                return Err(
                    DeviceKeyStoreError::InvalidKeyLength {
                        field: KeyField::Irk,
                        expected: 16,
                        actual: self.config.irk.len(),
                    },
                );
            },
        };
        let mut list: Vec<Command> = Vec::new();
        list.push(Command::LeClearResolvingList);
        list.push(
            Command::LeAddDeviceToResolvingList {
                peer_identity_address_type: 0,
                peer_identity_address: Address::any_public(),
                peer_irk: NO_KEY,
                local_irk,
            },
        );
        let ghost start = list@;
        let loaded: usize = append_devices(&mut list, resolving_keys, local_irk);
        let ghost devices = list@;
        if self.config.address_resolution_offload {
            list.push(Command::LeSetAddressResolutionEnable { address_resolution_enable: 1 });
        }
        proof {
            assert(devices.take(2)[0] == start[0]);
            assert(devices.take(2)[1] == start[1]);
            assert(list@[0] == devices[0]);
            assert(list@[1] == devices[1]);
            assert(list@.subrange(2, loaded + 2) =~= devices.skip(2));
            assert(offloads_list(
                list@,
                resolving_keys@.filter(usable()),
                local_irk,
                self.config.address_resolution_offload,
            ));
        }
        self.hand_over(link, list);
        Ok(loaded)
    }
}

} // verus!
