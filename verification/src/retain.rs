//! Lists whose entries belong to connections.

use crate::address::Address;
use vstd::prelude::*;

verus! {

/// Something that belongs to one connection.
pub trait OfConnection: Sized {
    spec fn connection(&self) -> u16;

    fn get_connection(&self) -> (connection_handle: u16)
        ensures
            connection_handle == self.connection(),
    ;
}

impl<A> OfConnection for (u16, A) {
    open spec fn connection(&self) -> u16 {
        self.0
    }

    fn get_connection(&self) -> (connection_handle: u16) {
        self.0
    }
}

impl<A, B> OfConnection for (u16, A, B) {
    open spec fn connection(&self) -> u16 {
        self.0
    }

    fn get_connection(&self) -> (connection_handle: u16) {
        self.0
    }
}

/// Selects the entries of one connection.
pub open spec fn of_connection<T: OfConnection>(connection_handle: u16) -> spec_fn(T) -> bool {
    |entry: T| entry.connection() == connection_handle
}

/// Selects the entries of every other connection.
pub open spec fn not_of_connection<T: OfConnection>(connection_handle: u16) -> spec_fn(T) -> bool {
    |entry: T| entry.connection() != connection_handle
}

/// Filtering a longer list looks at the new entry alone.
pub proof fn lemma_filter_step<T>(entries: Seq<T>, index: int, keep: spec_fn(T) -> bool)
    requires
        0 <= index < entries.len(),
    ensures
        entries.take(index + 1).filter(keep) == if keep(entries[index]) {
            entries.take(index).filter(keep).push(entries[index])
        } else {
            entries.take(index).filter(keep)
        },
{
    reveal(Seq::filter);
    assert(entries.take(index + 1).drop_last() =~= entries.take(index));
}

/// Filtering keeps nothing of an empty list.
pub proof fn lemma_filter_empty<T>(entries: Seq<T>, keep: spec_fn(T) -> bool)
    ensures
        entries.take(0).filter(keep) == Seq::<T>::empty(),
{
    reveal(Seq::filter);
}

/// Nothing of one connection is left once its entries are filtered out.
pub proof fn lemma_none_left<T: OfConnection>(entries: Seq<T>, connection_handle: u16)
    ensures
        forall|index: int|
            0 <= index < entries.filter(not_of_connection(connection_handle)).len()
                ==> (#[trigger] entries.filter(
                not_of_connection(connection_handle),
            )[index]).connection() != connection_handle,
    decreases entries.len(),
{
    reveal(Seq::filter);
    if entries.len() > 0 {
        lemma_none_left(entries.drop_last(), connection_handle);
    }
}

/// Filtering keeps exactly the entries that it selects.
pub proof fn lemma_filter_members<T>(entries: Seq<T>, keep: spec_fn(T) -> bool, entry: T)
    ensures
        entries.filter(keep).contains(entry) <==> entries.contains(entry) && keep(entry),
    decreases entries.len(),
{
    reveal(Seq::filter);
    if entries.len() > 0 {
        let rest = entries.drop_last();
        let last = entries.last();
        lemma_filter_members(rest, keep, entry);
        assert(entries =~= rest.push(last));
        let kept = rest.filter(keep);
        assert(entries.contains(entry) <==> rest.contains(entry) || entry == last) by {
            if rest.contains(entry) {
                let place = choose|place: int| 0 <= place < rest.len() && rest[place] == entry;
                assert(entries[place] == entry);
            }
            if entries.contains(entry) && entry != last {
                let place = choose|place: int|
                    0 <= place < entries.len() && entries[place] == entry;
                assert(rest[place] == entry);
            }
            if entry == last {
                assert(entries[entries.len() - 1] == entry);
            }
        }
        if keep(last) {
            assert(kept.push(last).contains(entry) <==> kept.contains(entry) || entry == last) by {
                if kept.contains(entry) {
                    let place = choose|place: int| 0 <= place < kept.len() && kept[place] == entry;
                    assert(kept.push(last)[place] == entry);
                }
                if kept.push(last).contains(entry) && entry != last {
                    let place = choose|place: int|
                        0 <= place < kept.push(last).len() && kept.push(last)[place] == entry;
                    assert(kept[place] == entry);
                }
                if entry == last {
                    assert(kept.push(last)[kept.len() as int] == entry);
                }
            }
        }
    }
}

/// A list in which nothing occurs twice stays so when it is filtered.
pub proof fn lemma_filter_keeps_distinct<T>(entries: Seq<T>, keep: spec_fn(T) -> bool)
    requires
        entries.no_duplicates(),
    ensures
        entries.filter(keep).no_duplicates(),
    decreases entries.len(),
{
    reveal(Seq::filter);
    if entries.len() > 0 {
        let earlier = entries.drop_last();
        lemma_filter_keeps_distinct(earlier, keep);
        if keep(entries.last()) {
            lemma_filter_members(earlier, keep, entries.last());
            lemma_push_keeps_distinct(earlier.filter(keep), entries.last());
        }
    }
}

/// A list in which nothing occurs twice stays so with something new in it.
pub proof fn lemma_push_keeps_distinct<T>(entries: Seq<T>, entry: T)
    requires
        entries.no_duplicates(),
        !entries.contains(entry),
    ensures
        entries.push(entry).no_duplicates(),
{
}

/// A list in which nothing occurs twice stays so without a value, which is then
/// not in it any more.
pub proof fn lemma_remove_keeps_distinct<T>(entries: Seq<T>, value: T)
    requires
        entries.no_duplicates(),
    ensures
        entries.remove_value(value).no_duplicates(),
        !entries.remove_value(value).contains(value),
{
    entries.index_of_first_ensures(value);
}

/// What is taken of one connection and what stays share out a list: nothing is
/// lost, nothing is made up, and each entry goes to one side.
pub proof fn lemma_take_shares_out<T: OfConnection>(entries: Seq<T>, connection_handle: u16)
    ensures
        entries.filter(of_connection(connection_handle)).to_multiset().add(
            entries.filter(not_of_connection(connection_handle)).to_multiset(),
        ) == entries.to_multiset(),
    decreases entries.len(),
{
    broadcast use vstd::seq_lib::group_to_multiset_ensures;

    reveal(Seq::filter);
    let mine = of_connection::<T>(connection_handle);
    let others = not_of_connection::<T>(connection_handle);
    if entries.len() == 0 {
        assert(entries.filter(mine).to_multiset().add(entries.filter(others).to_multiset())
            =~= entries.to_multiset());
    } else {
        let rest = entries.drop_last();
        lemma_take_shares_out(rest, connection_handle);
        assert(entries =~= rest.push(entries.last()));
        assert(entries.filter(mine).to_multiset().add(entries.filter(others).to_multiset())
            =~= entries.to_multiset());
    }
}

/// Take the whole content out of a list.
pub fn take_all<T>(entries: &mut Vec<T>) -> (taken: Vec<T>)
    ensures
        taken == *old(entries),
        final(entries)@ == Seq::<T>::empty(),
{
    let mut taken: Vec<T> = Vec::new();
    core::mem::swap(&mut taken, entries);
    taken
}

/// Take the entries of one connection out of a list. Both the entries taken
/// and the entries left keep their order.
pub fn take_of_connection<T: OfConnection>(entries: &mut Vec<T>, connection_handle: u16) -> (taken:
    Vec<T>)
    ensures
        taken@ == old(entries)@.filter(of_connection(connection_handle)),
        final(entries)@ == old(entries)@.filter(not_of_connection(connection_handle)),
{
    let mut all: Vec<T> = take_all(entries);
    let ghost before = all@;
    let ghost wanted = of_connection::<T>(connection_handle);
    let ghost other = not_of_connection::<T>(connection_handle);
    let total: usize = all.len();
    let mut reversed: Vec<T> = Vec::new();
    let mut moved: usize = 0;
    while moved < total
        invariant
            moved <= total,
            before.len() == total,
            all@ == before.take(total - moved),
            reversed@.len() == moved,
            forall|index: int| 0 <= index < moved ==> reversed@[index] == before[total - 1 - index],
        decreases total - moved,
    {
        if let Some(entry) = all.pop() {
            reversed.push(entry);
        }
        moved += 1;
    }
    let mut taken: Vec<T> = Vec::new();
    let mut index: usize = 0;
    proof {
        lemma_filter_empty(before, wanted);
        lemma_filter_empty(before, other);
    }
    while index < total
        invariant
            index <= total,
            before.len() == total,
            reversed@.len() == total - index,
            forall|left: int|
                0 <= left < total - index ==> reversed@[left] == before[total - 1 - left],
            wanted == of_connection::<T>(connection_handle),
            other == not_of_connection::<T>(connection_handle),
            taken@ == before.take(index as int).filter(wanted),
            entries@ == before.take(index as int).filter(other),
        decreases total - index,
    {
        proof {
            lemma_filter_step(before, index as int, wanted);
            lemma_filter_step(before, index as int, other);
        }
        if let Some(entry) = reversed.pop() {
            if entry.get_connection() == connection_handle {
                taken.push(entry);
            } else {
                entries.push(entry);
            }
        }
        index += 1;
    }
    assert(before.take(total as int) =~= before);
    taken
}

/// Drop the entries of one connection from a list.
pub fn drop_connection<T: OfConnection>(entries: &mut Vec<T>, connection_handle: u16)
    ensures
        final(entries)@ == old(entries)@.filter(not_of_connection(connection_handle)),
{
    let _ = take_of_connection(entries, connection_handle);
}

/// The position of the first entry of one connection.
pub open spec fn first_of<T: OfConnection>(entries: Seq<T>, connection_handle: u16) -> Option<int>
    decreases entries.len(),
{
    if entries.len() == 0 {
        None
    } else if entries[0].connection() == connection_handle {
        Some(0)
    } else {
        match first_of(entries.skip(1), connection_handle) {
            Some(index) => Some(index + 1),
            None => None,
        }
    }
}

/// What a position found by [`first_of`] means.
pub proof fn lemma_first_of<T: OfConnection>(entries: Seq<T>, connection_handle: u16)
    ensures
        match first_of(entries, connection_handle) {
            Some(found) => {
                &&& 0 <= found < entries.len()
                &&& entries[found].connection() == connection_handle
                &&& forall|index: int|
                    0 <= index < found ==> (#[trigger] entries[index]).connection()
                        != connection_handle
            },
            None => forall|index: int|
                0 <= index < entries.len() ==> (#[trigger] entries[index]).connection()
                    != connection_handle,
        },
    decreases entries.len(),
{
    if entries.len() > 0 && entries[0].connection() != connection_handle {
        let rest = entries.skip(1);
        lemma_first_of(rest, connection_handle);
        assert forall|index: int| 0 < index < entries.len() implies entries[index] == rest[index
            - 1] by {}
        match first_of(rest, connection_handle) {
            Some(found) => {
                assert forall|index: int| 0 <= index < found + 1 implies (
                #[trigger] entries[index]).connection() != connection_handle by {
                    if index > 0 {
                        assert(rest[index - 1].connection() != connection_handle);
                    }
                }
            },
            None => {
                assert forall|index: int| 0 <= index < entries.len() implies (
                #[trigger] entries[index]).connection() != connection_handle by {
                    if index > 0 {
                        assert(rest[index - 1].connection() != connection_handle);
                    }
                }
            },
        }
    }
}

/// A position with the properties of the first one is the first one.
pub proof fn lemma_first_of_is<T: OfConnection>(
    entries: Seq<T>,
    connection_handle: u16,
    found: int,
)
    requires
        0 <= found < entries.len(),
        entries[found].connection() == connection_handle,
        forall|index: int|
            0 <= index < found ==> (#[trigger] entries[index]).connection() != connection_handle,
    ensures
        first_of(entries, connection_handle) == Some(found),
{
    lemma_first_of(entries, connection_handle);
}

/// Remove and return the first entry of one connection.
pub fn remove_first_of<T: OfConnection>(entries: &mut Vec<T>, connection_handle: u16) -> (removed:
    Option<T>)
    ensures
        match first_of(old(entries)@, connection_handle) {
            Some(found) => 0 <= found < old(entries)@.len() && removed == Some(
                old(entries)@[found],
            ) && final(entries)@ == old(entries)@.remove(found),
            None => removed is None && final(entries)@ == old(entries)@,
        },
{
    let mut index: usize = 0;
    while index < entries.len()
        invariant
            index <= entries@.len(),
            *entries == *old(entries),
            forall|earlier: int|
                0 <= earlier < index ==> (#[trigger] entries@[earlier]).connection()
                    != connection_handle,
        decreases entries@.len() - index,
    {
        if entries[index].get_connection() == connection_handle {
            proof {
                lemma_first_of_is(entries@, connection_handle, index as int);
            }
            return Some(entries.remove(index));
        }
        index += 1;
    }
    proof {
        lemma_first_of(entries@, connection_handle);
    }
    None
}

/// A plain value that can be found in a list.
pub trait Findable: Sized {
    fn is(&self, other: &Self) -> (same: bool)
        ensures
            same == (*self == *other),
    ;
}

impl Findable for u8 {
    fn is(&self, other: &Self) -> (same: bool) {
        *self == *other
    }
}

impl Findable for u16 {
    fn is(&self, other: &Self) -> (same: bool) {
        *self == *other
    }
}

impl Findable for (u16, u8) {
    fn is(&self, other: &Self) -> (same: bool) {
        self.0 == other.0 && self.1 == other.1
    }
}

impl Findable for (u16, u16) {
    fn is(&self, other: &Self) -> (same: bool) {
        self.0 == other.0 && self.1 == other.1
    }
}

impl Findable for Address {
    fn is(&self, other: &Self) -> (same: bool) {
        *self == *other
    }
}

/// Remove the first occurrence of a value, and say whether there was one.
pub fn remove_value<T: Findable>(entries: &mut Vec<T>, value: T) -> (found: bool)
    ensures
        found == old(entries)@.contains(value),
        final(entries)@ == old(entries)@.remove_value(value),
{
    proof {
        entries@.index_of_first_ensures(value);
    }
    let mut index: usize = 0;
    while index < entries.len()
        invariant
            index <= entries@.len(),
            *entries == *old(entries),
            forall|earlier: int| 0 <= earlier < index ==> entries@[earlier] != value,
        decreases entries@.len() - index,
    {
        if entries[index].is(&value) {
            proof {
                entries@.index_of_first_ensures(value);
                assert(entries@.contains(value));
            }
            let _ = entries.remove(index);
            return true;
        }
        index += 1;
    }
    false
}

/// Whether a list holds a value.
pub fn holds<T: Findable>(entries: &Vec<T>, value: T) -> (found: bool)
    ensures
        found == entries@.contains(value),
{
    let mut index: usize = 0;
    while index < entries.len()
        invariant
            index <= entries@.len(),
            forall|earlier: int| 0 <= earlier < index ==> entries@[earlier] != value,
        decreases entries@.len() - index,
    {
        if entries[index].is(&value) {
            return true;
        }
        index += 1;
    }
    false
}

/// Take the first entry of a list.
pub fn take_first<T>(entries: &mut Vec<T>) -> (first: Option<T>)
    ensures
        match first {
            Some(entry) => old(entries)@.len() > 0 && entry == old(entries)@[0]
                && final(entries)@ == old(entries)@.skip(1),
            None => old(entries)@.len() == 0 && final(entries)@ == old(entries)@,
        },
{
    if entries.len() == 0 {
        None
    } else {
        let first = entries.remove(0);
        assert(entries@ =~= old(entries)@.skip(1));
        Some(first)
    }
}

impl OfConnection for u16 {
    open spec fn connection(&self) -> u16 {
        *self
    }

    fn get_connection(&self) -> (connection_handle: u16) {
        *self
    }
}

/// Filtering commutes with a change of representation that keeps what the
/// filter looks at.
pub proof fn lemma_filter_map<T, U>(
    entries: Seq<T>,
    change: spec_fn(T) -> U,
    keep: spec_fn(T) -> bool,
    keep_changed: spec_fn(U) -> bool,
)
    requires
        forall|entry: T| #[trigger] keep(entry) == keep_changed(change(entry)),
    ensures
        entries.filter(keep).map_values(change) == entries.map_values(change).filter(keep_changed),
    decreases entries.len(),
{
    reveal(Seq::filter);
    if entries.len() == 0 {
        assert(entries.filter(keep).map_values(change) =~= entries.map_values(change).filter(
            keep_changed,
        ));
    } else {
        lemma_filter_map(entries.drop_last(), change, keep, keep_changed);
        let changed = entries.map_values(change);
        assert(changed.drop_last() =~= entries.drop_last().map_values(change));
        assert(changed.last() == change(entries.last()));
        assert(keep(entries.last()) == keep_changed(change(entries.last())));
        assert(entries.filter(keep).map_values(change) =~= changed.filter(keep_changed));
    }
}

/// Finding the first entry of a connection commutes with a change of
/// representation that keeps the connection.
pub proof fn lemma_first_of_map<T: OfConnection, U: OfConnection>(
    entries: Seq<T>,
    change: spec_fn(T) -> U,
    connection_handle: u16,
)
    requires
        forall|entry: T| (#[trigger] change(entry)).connection() == entry.connection(),
    ensures
        first_of(entries.map_values(change), connection_handle) == first_of(
            entries,
            connection_handle,
        ),
    decreases entries.len(),
{
    if entries.len() > 0 {
        let changed = entries.map_values(change);
        assert(changed[0] == change(entries[0]));
        assert(changed.skip(1) =~= entries.skip(1).map_values(change));
        lemma_first_of_map(entries.skip(1), change, connection_handle);
    }
}

/// A choice of entries.
pub trait Selector<T>: Sized {
    spec fn selects(&self, entry: T) -> bool;

    fn test(&self, entry: &T) -> (selected: bool)
        ensures
            selected == self.selects(*entry),
    ;
}

/// The entries that a selector selects.
pub open spec fn selected<T, S: Selector<T>>(selector: S) -> spec_fn(T) -> bool {
    |entry: T| selector.selects(entry)
}

/// The entries that a selector does not select.
pub open spec fn not_selected<T, S: Selector<T>>(selector: S) -> spec_fn(T) -> bool {
    |entry: T| !selector.selects(entry)
}

/// Take the selected entries out of a list; both parts keep their order.
pub fn take_selected<T, S: Selector<T>>(entries: &mut Vec<T>, selector: &S) -> (taken: Vec<T>)
    ensures
        taken@ == old(entries)@.filter(selected(*selector)),
        final(entries)@ == old(entries)@.filter(not_selected(*selector)),
{
    let ghost all = entries@;
    let mut rest: Vec<T> = take_all(entries);
    let mut reversed: Vec<T> = Vec::new();
    while rest.len() > 0
        invariant
            rest@.len() + reversed@.len() == all.len(),
            rest@ == all.take(rest@.len() as int),
            forall|index: int|
                0 <= index < reversed@.len() ==> reversed@[index] == all[all.len() - 1 - index],
        decreases rest@.len(),
    {
        if let Some(entry) = rest.pop() {
            reversed.push(entry);
        }
    }
    let mut taken: Vec<T> = Vec::new();
    let mut kept: Vec<T> = Vec::new();
    let ghost mut next: int = 0;
    proof {
        lemma_filter_empty(all, selected(*selector));
        lemma_filter_empty(all, not_selected(*selector));
    }
    while reversed.len() > 0
        invariant
            0 <= next <= all.len(),
            reversed@.len() == all.len() - next,
            forall|index: int|
                0 <= index < reversed@.len() ==> reversed@[index] == all[all.len() - 1 - index],
            taken@ == all.take(next).filter(selected(*selector)),
            kept@ == all.take(next).filter(not_selected(*selector)),
        decreases reversed@.len(),
    {
        proof {
            lemma_filter_step(all, next, selected(*selector));
            lemma_filter_step(all, next, not_selected(*selector));
        }
        if let Some(entry) = reversed.pop() {
            if selector.test(&entry) {
                taken.push(entry);
            } else {
                kept.push(entry);
            }
        }
        proof {
            next = next + 1;
        }
    }
    assert(all.take(next) =~= all);
    *entries = kept;
    taken
}

/// Drop the selected entries of a list; the others keep their order.
pub fn drop_selected<T, S: Selector<T>>(entries: &mut Vec<T>, selector: &S)
    ensures
        final(entries)@ == old(entries)@.filter(not_selected(*selector)),
{
    let _ = take_selected(entries, selector);
}

} // verus!
