//! Reading ordered maps in the order of their keys.

use std::collections::BTreeMap;
use vstd::prelude::*;
use vstd::std_specs::btree::increasing_seq;
use vstd::std_specs::cmp::OrdSpec;
use vstd::std_specs::iter::IteratorSpec;

verus! {

broadcast use {vstd::laws_cmp::group_laws_cmp, vstd::std_specs::btree::group_btree_axioms};

/// Whether a list holds the members of a set, each once, in ascending order.
pub open spec fn lists_u16(keys: Seq<u16>, members: Set<u16>) -> bool {
    &&& forall|first: int, second: int|
        0 <= first < second < keys.len() ==> keys[first] < keys[second]
    &&& forall|key: u16| #[trigger] keys.contains(key) <==> members.contains(key)
}

/// Whether a list holds the members of a set, each once, in ascending order.
pub open spec fn lists_u64(keys: Seq<u64>, members: Set<u64>) -> bool {
    &&& forall|first: int, second: int|
        0 <= first < second < keys.len() ==> keys[first] < keys[second]
    &&& forall|key: u64| #[trigger] keys.contains(key) <==> members.contains(key)
}

/// The members of a set in ascending order.
pub open spec fn sorted(members: Set<u16>) -> Seq<u16> {
    choose|keys: Seq<u16>| lists_u16(keys, members)
}

/// The members of a set in ascending order.
pub open spec fn sorted_u64(members: Set<u64>) -> Seq<u64> {
    choose|keys: Seq<u64>| lists_u64(keys, members)
}

/// The least member of a set.
pub open spec fn least(members: Set<u16>) -> u16 {
    choose|key: u16|
        #![trigger members.contains(key)]
        members.contains(key) && forall|other: u16| members.contains(other) ==> key <= other
}

/// There is only one such list.
pub proof fn lemma_one_listing_u16(first: Seq<u16>, second: Seq<u16>, members: Set<u16>)
    requires
        lists_u16(first, members),
        lists_u16(second, members),
    ensures
        first == second,
    decreases first.len(),
{
    if first.len() == 0 {
        if second.len() > 0 {
            assert(second.contains(second[0]));
            assert(first.contains(second[0]));
        }
    } else {
        let last = first.last();
        assert(first.contains(last));
        assert(second.contains(last));
        assert(second.contains(second.last()));
        assert(first.contains(second.last()));
        assert(last == second.last()) by {
            let place = choose|place: int| 0 <= place < second.len() && second[place] == last;
            let other = choose|other: int|
                0 <= other < first.len() && first[other] == second.last();
        }
        let rest = members.remove(last);
        lemma_drop_listed(first, members);
        lemma_drop_listed(second, members);
        lemma_one_listing_u16(first.drop_last(), second.drop_last(), rest);
        assert(first =~= first.drop_last().push(last));
        assert(second =~= second.drop_last().push(last));
    }
}

/// There is only one such list.
pub proof fn lemma_one_listing_u64(first: Seq<u64>, second: Seq<u64>, members: Set<u64>)
    requires
        lists_u64(first, members),
        lists_u64(second, members),
    ensures
        first == second,
    decreases first.len(),
{
    if first.len() == 0 {
        if second.len() > 0 {
            assert(second.contains(second[0]));
            assert(first.contains(second[0]));
        }
    } else {
        let last = first.last();
        assert(first.contains(last));
        assert(second.contains(last));
        assert(second.contains(second.last()));
        assert(first.contains(second.last()));
        assert(last == second.last()) by {
            let place = choose|place: int| 0 <= place < second.len() && second[place] == last;
            let other = choose|other: int|
                0 <= other < first.len() && first[other] == second.last();
        }
        let rest = members.remove(last);
        lemma_drop_listed_u64(first, members);
        lemma_drop_listed_u64(second, members);
        lemma_one_listing_u64(first.drop_last(), second.drop_last(), rest);
        assert(first =~= first.drop_last().push(last));
        assert(second =~= second.drop_last().push(last));
    }
}

/// A listing without its last member lists the rest.
proof fn lemma_drop_listed_u64(keys: Seq<u64>, members: Set<u64>)
    requires
        keys.len() > 0,
        lists_u64(keys, members),
    ensures
        lists_u64(keys.drop_last(), members.remove(keys.last())),
{
    let rest = keys.drop_last();
    assert forall|key: u64| #[trigger] rest.contains(key) <==> members.remove(
        keys.last(),
    ).contains(key) by {
        if rest.contains(key) {
            let place = choose|place: int| 0 <= place < rest.len() && rest[place] == key;
            assert(keys[place] == key);
            assert(keys.contains(key));
        }
        if members.contains(key) && key != keys.last() {
            assert(keys.contains(key));
            let place = choose|place: int| 0 <= place < keys.len() && keys[place] == key;
            assert(rest[place] == key);
        }
    }
}

/// A listing without its last member lists the rest.
proof fn lemma_drop_listed(keys: Seq<u16>, members: Set<u16>)
    requires
        keys.len() > 0,
        lists_u16(keys, members),
    ensures
        lists_u16(keys.drop_last(), members.remove(keys.last())),
{
    let rest = keys.drop_last();
    assert forall|key: u16| #[trigger] rest.contains(key) <==> members.remove(
        keys.last(),
    ).contains(key) by {
        if rest.contains(key) {
            let place = choose|place: int| 0 <= place < rest.len() && rest[place] == key;
            assert(keys[place] == key);
            assert(keys.contains(key));
        }
        if members.contains(key) && key != keys.last() {
            assert(keys.contains(key));
            let place = choose|place: int| 0 <= place < keys.len() && keys[place] == key;
            assert(rest[place] == key);
        }
    }
}

/// The first of the listed members is the least.
pub proof fn lemma_least(keys: Seq<u16>, members: Set<u16>)
    requires
        lists_u16(keys, members),
        keys.len() > 0,
    ensures
        least(members) == keys[0],
        members.contains(keys[0]),
{
    assert(keys.contains(keys[0]));
    assert forall|other: u16| members.contains(other) implies keys[0] <= other by {
        assert(keys.contains(other));
        let place = choose|place: int| 0 <= place < keys.len() && keys[place] == other;
    }
    let chosen = least(members);
    assert(members.contains(chosen));
    assert(keys.contains(chosen));
}

/// An increasing sequence of handles is in ascending order.
proof fn lemma_increasing_u16(keys: Seq<u16>)
    requires
        increasing_seq(keys),
    ensures
        forall|first: int, second: int|
            0 <= first < second < keys.len() ==> keys[first] < keys[second],
{
    assert forall|first: int, second: int| 0 <= first < second < keys.len() implies keys[first]
        < keys[second] by {
        assert(keys[first].cmp_spec(&keys[second]) is Less);
    }
}

/// An increasing sequence of identifiers is in ascending order.
proof fn lemma_increasing_u64(keys: Seq<u64>)
    requires
        increasing_seq(keys),
    ensures
        forall|first: int, second: int|
            0 <= first < second < keys.len() ==> keys[first] < keys[second],
{
    assert forall|first: int, second: int| 0 <= first < second < keys.len() implies keys[first]
        < keys[second] by {
        assert(keys[first].cmp_spec(&keys[second]) is Less);
    }
}

/// The members of a set below a bound have a list.
proof fn lemma_listed_below(members: Set<u16>, bound: int) -> (keys: Seq<u16>)
    requires
        0 <= bound <= u16::MAX + 1,
    ensures
        lists_u16(keys, members.filter(|member: u16| member < bound)),
        forall|index: int| 0 <= index < keys.len() ==> (#[trigger] keys[index]) < bound,
    decreases bound,
{
    let below = members.filter(|member: u16| member < bound);
    if bound == 0 {
        let keys = Seq::<u16>::empty();
        assert(lists_u16(keys, below));
        keys
    } else {
        let earlier = lemma_listed_below(members, bound - 1);
        let last = (bound - 1) as u16;
        let smaller = members.filter(|member: u16| member < bound - 1);
        if members.contains(last) {
            let keys = earlier.push(last);
            assert forall|key: u16| #[trigger] keys.contains(key) <==> below.contains(key) by {
                if keys.contains(key) && key != last {
                    let place = choose|place: int| 0 <= place < keys.len() && keys[place] == key;
                    assert(earlier[place] == key);
                    assert(earlier.contains(key));
                }
                if below.contains(key) && key != last {
                    assert(smaller.contains(key));
                    assert(earlier.contains(key));
                    let place = choose|place: int|
                        0 <= place < earlier.len() && earlier[place] == key;
                    assert(keys[place] == key);
                }
                if key == last {
                    assert(keys[earlier.len() as int] == last);
                }
            }
            keys
        } else {
            assert(below =~= smaller);
            earlier
        }
    }
}

/// Every set of handles has its list.
pub proof fn lemma_sorted_lists(members: Set<u16>)
    ensures
        lists_u16(sorted(members), members),
{
    let keys = lemma_listed_below(members, u16::MAX + 1);
    assert(members.filter(|member: u16| member < u16::MAX + 1) =~= members);
    assert(lists_u16(keys, members));
}

/// A finite set that is not empty has a greatest member.
proof fn lemma_greatest(members: Set<u64>) -> (greatest: u64)
    requires
        members.finite(),
        members.len() > 0,
    ensures
        members.contains(greatest),
        forall|member: u64| members.contains(member) ==> member <= greatest,
    decreases members.len(),
{
    let some = members.choose();
    let rest = members.remove(some);
    if rest.len() == 0 {
        assert forall|member: u64| members.contains(member) implies member <= some by {
            if member != some {
                assert(rest.contains(member));
            }
        }
        some
    } else {
        let other = lemma_greatest(rest);
        let greatest = if some > other {
            some
        } else {
            other
        };
        assert forall|member: u64| members.contains(member) implies member <= greatest by {
            if member != some {
                assert(rest.contains(member));
            }
        }
        greatest
    }
}

/// A finite set of identifiers has a list.
proof fn lemma_listed_u64(members: Set<u64>) -> (keys: Seq<u64>)
    requires
        members.finite(),
    ensures
        lists_u64(keys, members),
    decreases members.len(),
{
    if members.len() == 0 {
        let keys = Seq::<u64>::empty();
        assert forall|key: u64| #[trigger] keys.contains(key) <==> members.contains(key) by {
            if members.contains(key) {
                assert(members.remove(key).len() < members.len());
            }
        }
        keys
    } else {
        let last = lemma_greatest(members);
        let rest = members.remove(last);
        let earlier = lemma_listed_u64(rest);
        let keys = earlier.push(last);
        assert forall|index: int| 0 <= index < earlier.len() implies (#[trigger] earlier[index])
            < last by {
            assert(earlier.contains(earlier[index]));
        }
        assert forall|key: u64| #[trigger] keys.contains(key) <==> members.contains(key) by {
            if keys.contains(key) && key != last {
                let place = choose|place: int| 0 <= place < keys.len() && keys[place] == key;
                assert(earlier[place] == key);
                assert(earlier.contains(key));
            }
            if members.contains(key) && key != last {
                assert(rest.contains(key));
                assert(earlier.contains(key));
                let place = choose|place: int|
                    0 <= place < earlier.len() && earlier[place] == key;
                assert(keys[place] == key);
            }
            if key == last {
                assert(keys[earlier.len() as int] == last);
            }
        }
        keys
    }
}

/// Every finite set of identifiers has its list.
pub proof fn lemma_sorted_lists_u64(members: Set<u64>)
    requires
        members.finite(),
    ensures
        lists_u64(sorted_u64(members), members),
{
    let keys = lemma_listed_u64(members);
    assert(lists_u64(keys, members));
}

/// The handles that a map files its values under, in ascending order.
pub fn sorted_handles<V>(map: &BTreeMap<u16, V>) -> (keys: Vec<u16>)
    ensures
        lists_u16(keys@, map@.dom()),
        keys@ == sorted(map@.dom()),
{
    let mut keys: Vec<u16> = Vec::new();
    let iter = map.iter();
    let ghost entries = iter.remaining();
    let ghost filed = entries.map_values(|entry: (&u16, &V)| *entry.0);
    proof {
        lemma_increasing_u16(filed);
        assert forall|key: u16| #[trigger] filed.contains(key) <==> map@.dom().contains(key) by {
            if map@.dom().contains(key) {
                assert(map@.contains_key(key));
                let index = choose|index: int|
                    0 <= index < entries.len() && entries[index] == (&key, &map@[key]);
                assert(filed[index] == key);
            }
            if filed.contains(key) {
                let index = choose|index: int| 0 <= index < filed.len() && filed[index] == key;
                assert(map@.contains_key(*entries[index].0));
            }
        }
    }
    for entry in it: iter
        invariant
            it.seq() == entries,
            filed == entries.map_values(|entry: (&u16, &V)| *entry.0),
            keys@ == filed.take(it.index()),
    {
        keys.push(*entry.0);
        assert(keys@ =~= filed.take(it.index() + 1));
    }
    assert(keys@ =~= filed);
    proof {
        lemma_one_listing_u16(keys@, sorted(map@.dom()), map@.dom());
    }
    keys
}

/// The identifiers that a map files its values under, in ascending order.
pub fn sorted_ids<V>(map: &BTreeMap<u64, V>) -> (keys: Vec<u64>)
    ensures
        lists_u64(keys@, map@.dom()),
        keys@ == sorted_u64(map@.dom()),
{
    let mut keys: Vec<u64> = Vec::new();
    let iter = map.iter();
    let ghost entries = iter.remaining();
    let ghost filed = entries.map_values(|entry: (&u64, &V)| *entry.0);
    proof {
        lemma_increasing_u64(filed);
        assert forall|key: u64| #[trigger] filed.contains(key) <==> map@.dom().contains(key) by {
            if map@.dom().contains(key) {
                assert(map@.contains_key(key));
                let index = choose|index: int|
                    0 <= index < entries.len() && entries[index] == (&key, &map@[key]);
                assert(filed[index] == key);
            }
            if filed.contains(key) {
                let index = choose|index: int| 0 <= index < filed.len() && filed[index] == key;
                assert(map@.contains_key(*entries[index].0));
            }
        }
    }
    for entry in it: iter
        invariant
            it.seq() == entries,
            filed == entries.map_values(|entry: (&u64, &V)| *entry.0),
            keys@ == filed.take(it.index()),
    {
        keys.push(*entry.0);
        assert(keys@ =~= filed.take(it.index() + 1));
    }
    assert(keys@ =~= filed);
    proof {
        lemma_one_listing_u64(keys@, sorted_u64(map@.dom()), map@.dom());
    }
    keys
}

/// The least handle that a map files a value under.
pub fn first_handle<V>(map: &BTreeMap<u16, V>) -> (first: Option<u16>)
    ensures
        match first {
            Some(handle) => map@.contains_key(handle) && handle == least(map@.dom()),
            None => map@.dom() == Set::<u16>::empty(),
        },
{
    let keys = sorted_handles(map);
    if keys.len() == 0 {
        assert forall|key: u16| !map@.dom().contains(key) by {
            assert(!keys@.contains(key));
        }
        assert(map@.dom() =~= Set::<u16>::empty());
        None
    } else {
        proof {
            lemma_least(keys@, map@.dom());
        }
        Some(keys[0])
    }
}

} // verus!
