//! A table from callsite to tally, and its listing from the heaviest entry down.

use vstd::prelude::*;
use vstd::seq_lib::{to_multiset_contains, to_multiset_insert, to_multiset_len, to_multiset_remove};

verus! {

/// A listing of `table`: every entry of it stands in the listing once, and nothing else does.
pub open spec fn lists<V>(listing: Seq<(String, V)>, table: Map<Seq<char>, V>) -> bool {
    &&& forall|i: int, j: int|
        0 <= i < j < listing.len() ==> (#[trigger] listing[i]).0@ != (#[trigger] listing[j]).0@
    &&& forall|i: int|
        0 <= i < listing.len() ==> table.contains_key((#[trigger] listing[i]).0@)
            && table[listing[i].0@] == listing[i].1
    &&& forall|key: Seq<char>| #[trigger]
        table.contains_key(key) ==> exists|i: int|
            0 <= i < listing.len() && (#[trigger] listing[i]).0@ == key
}

/// What an entry is ordered by.
pub trait Weighted {
    /// The weight of the entry.
    spec fn weight(&self) -> nat;

    /// Reads the weight.
    fn weighed(&self) -> (w: u128)
        ensures
            w == self.weight(),
    ;
}

impl Weighted for (String, usize) {
    open spec fn weight(&self) -> nat {
        self.1 as nat
    }

    fn weighed(&self) -> (w: u128) {
        self.1 as u128
    }
}

impl Weighted for (String, (usize, u128)) {
    open spec fn weight(&self) -> nat {
        self.1.1 as nat
    }

    fn weighed(&self) -> (w: u128) {
        self.1.1
    }
}

/// No entry weighs more than one that stands before it.
pub open spec fn descending<T: Weighted>(entries: Seq<T>) -> bool {
    forall|i: int, j: int|
        0 <= i < j < entries.len() ==> (#[trigger] entries[i]).weight() >= (
        #[trigger] entries[j]).weight()
}

/// Orders entries from the heaviest down.
pub fn sort_descending<T: Weighted>(entries: Vec<T>) -> (sorted: Vec<T>)
    ensures
        descending(sorted@),
        sorted@.to_multiset() == entries@.to_multiset(),
{
    let mut rest: Vec<T> = entries;
    let mut sorted: Vec<T> = Vec::new();
    proof {
        rest@.to_multiset_ensures();
        sorted@.to_multiset_ensures();
        assert(sorted@.to_multiset().add(rest@.to_multiset()) =~= entries@.to_multiset());
    }
    while rest.len() > 0
        invariant
            descending(sorted@),
            sorted@.to_multiset().add(rest@.to_multiset()) == entries@.to_multiset(),
        decreases rest.len(),
    {
        let ghost before = rest@;
        let ghost done = sorted@;
        let entry: T = rest.remove(0);
        let w: u128 = entry.weighed();
        let mut at: usize = sorted.len();
        while at > 0 && sorted[at - 1].weighed() < w
            invariant
                at <= sorted.len(),
                w == entry.weight(),
                forall|i: int|
                    at <= i < sorted.len() ==> (#[trigger] sorted@[i]).weight() < entry.weight(),
            decreases at,
        {
            at = at - 1;
        }
        sorted.insert(at, entry);
        proof {
            to_multiset_remove(before, 0);
            to_multiset_insert(done, at as int, entry);
            before.to_multiset_ensures();
            to_multiset_contains(before, before[0]);
            assert(before.contains(before[0]));
            assert(sorted@.to_multiset().add(rest@.to_multiset()) =~= done.to_multiset().add(
                before.to_multiset(),
            ));
        }
    }
    proof {
        assert(rest@ =~= Seq::<T>::empty());
        rest@.to_multiset_ensures();
        assert(sorted@.to_multiset().add(rest@.to_multiset()) =~= sorted@.to_multiset());
    }
    sorted
}

/// A permutation of a listing is a listing.
proof fn permutation_lists<V>(
    from: Seq<(String, V)>,
    to: Seq<(String, V)>,
    table: Map<Seq<char>, V>,
)
    requires
        lists(from, table),
        from.to_multiset() == to.to_multiset(),
    ensures
        lists(to, table),
{
    assert(from.no_duplicates()) by {
        assert forall|i: int, j: int|
            0 <= i < from.len() && 0 <= j < from.len() && i != j implies from[i] != from[j] by {
            if i < j {
                assert(from[i].0@ != from[j].0@);
            } else {
                assert(from[j].0@ != from[i].0@);
            }
        }
    }
    from.lemma_multiset_has_no_duplicates();
    to.lemma_multiset_has_no_duplicates_conv();
    assert forall|i: int| 0 <= i < to.len() implies table.contains_key((#[trigger] to[i]).0@)
        && table[to[i].0@] == to[i].1 && from.contains(to[i]) by {
        assert(to.contains(to[i]));
        to_multiset_contains(to, to[i]);
        to_multiset_contains(from, to[i]);
        let p = choose|p: int| 0 <= p < from.len() && from[p] == to[i];
        assert(from[p] == to[i]);
    }
    assert forall|i: int, j: int| 0 <= i < j < to.len() implies (#[trigger] to[i]).0@ != (
    #[trigger] to[j]).0@ by {
        let p = choose|p: int| 0 <= p < from.len() && from[p] == to[i];
        let q = choose|q: int| 0 <= q < from.len() && from[q] == to[j];
        assert(to[i] != to[j]);
        if p < q {
            assert(from[p].0@ != from[q].0@);
        } else {
            assert(from[q].0@ != from[p].0@);
        }
    }
    assert forall|key: Seq<char>| #[trigger] table.contains_key(key) implies exists|i: int|
        0 <= i < to.len() && (#[trigger] to[i]).0@ == key by {
        let p = choose|p: int| 0 <= p < from.len() && (#[trigger] from[p]).0@ == key;
        assert(from.contains(from[p]));
        to_multiset_contains(from, from[p]);
        to_multiset_contains(to, from[p]);
        let i = choose|i: int| 0 <= i < to.len() && to[i] == from[p];
        assert(to[i].0@ == key);
    }
}

/// Tallies by callsite. A callsite has one tally at most.
pub struct CallsiteTable<V> {
    entries: Vec<(String, V)>,
}

/// `key` has an entry among `entries`.
spec fn has_entry<V>(entries: Seq<(String, V)>, key: Seq<char>) -> bool {
    exists|i: int| 0 <= i < entries.len() && (#[trigger] entries[i]).0@ == key
}

/// The place of the entry of `key` among `entries`.
spec fn place<V>(entries: Seq<(String, V)>, key: Seq<char>) -> int {
    choose|i: int| 0 <= i < entries.len() && (#[trigger] entries[i]).0@ == key
}

impl<V> View for CallsiteTable<V> {
    type V = Map<Seq<char>, V>;

    closed spec fn view(&self) -> Map<Seq<char>, V> {
        Map::new(
            |key: Seq<char>| has_entry(self.entries@, key),
            |key: Seq<char>| self.entries@[place(self.entries@, key)].1,
        )
    }
}

impl<V> CallsiteTable<V> {
    /// No two entries share a callsite.
    pub closed spec fn wf(&self) -> bool {
        forall|i: int, j: int|
            0 <= i < j < self.entries@.len() ==> (#[trigger] self.entries@[i]).0@ != (
            #[trigger] self.entries@[j]).0@
    }

    proof fn entry_is_viewed(&self, i: int)
        requires
            self.wf(),
            0 <= i < self.entries@.len(),
        ensures
            self@.contains_key(self.entries@[i].0@),
            self@[self.entries@[i].0@] == self.entries@[i].1,
    {
        let key = self.entries@[i].0@;
        assert(has_entry(self.entries@, key));
        let p = place(self.entries@, key);
        assert(0 <= p < self.entries@.len() && self.entries@[p].0@ == key);
        if p < i {
            assert(self.entries@[p].0@ != self.entries@[i].0@);
        } else if i < p {
            assert(self.entries@[i].0@ != self.entries@[p].0@);
        }
    }

    /// A table without entries.
    pub fn new() -> (table: Self)
        ensures
            table.wf(),
            table@ == Map::<Seq<char>, V>::empty(),
    {
        let table: CallsiteTable<V> = CallsiteTable { entries: Vec::new() };
        assert(table@ =~= Map::<Seq<char>, V>::empty());
        table
    }

    fn find(&self, key: &String) -> (found: Option<usize>)
        ensures
            match found {
                Some(i) => i < self.entries@.len() && self.entries@[i as int].0@ == key@,
                None => !has_entry(self.entries@, key@),
            },
    {
        let mut i: usize = 0;
        while i < self.entries.len()
            invariant
                i <= self.entries@.len(),
                forall|j: int| 0 <= j < i ==> (#[trigger] self.entries@[j]).0@ != key@,
            decreases self.entries@.len() - i,
        {
            if self.entries[i].0 == *key {
                return Some(i);
            }
            i = i + 1;
        }
        None
    }

    /// The tally of a callsite.
    pub fn get(&self, key: &String) -> (tally: Option<&V>)
        requires
            self.wf(),
        ensures
            match tally {
                Some(v) => self@.contains_key(key@) && *v == self@[key@],
                None => !self@.contains_key(key@),
            },
    {
        match self.find(key) {
            Some(i) => {
                proof {
                    self.entry_is_viewed(i as int);
                }
                Some(&self.entries[i].1)
            },
            None => None,
        }
    }

    /// Gives a callsite a tally, in place of the one that it has.
    pub fn set(&mut self, key: String, tally: V)
        requires
            old(self).wf(),
        ensures
            final(self).wf(),
            final(self)@ == old(self)@.insert(key@, tally),
    {
        let ghost before = *self;
        let ghost name = key@;
        match self.find(&key) {
            Some(i) => {
                self.entries.set(i, (key, tally));
                proof {
                    assert forall|k: Seq<char>| self@.contains_key(k) <==> before@.insert(
                        name,
                        tally,
                    ).contains_key(k) by {
                        if has_entry(self.entries@, k) {
                            let p = place(self.entries@, k);
                            if p != i {
                                assert(before.entries@[p].0@ == k);
                            }
                        }
                        if has_entry(before.entries@, k) {
                            let p = place(before.entries@, k);
                            assert(self.entries@[p].0@ == k);
                        }
                        if k == name {
                            assert(self.entries@[i as int].0@ == k);
                        }
                    }
                    assert forall|k: Seq<char>| #[trigger] self@.contains_key(k) implies self@[k]
                        == before@.insert(name, tally)[k] by {
                        let p = place(self.entries@, k);
                        if p != i {
                            before.entry_is_viewed(p);
                            self.entry_is_viewed(p);
                            self.entry_is_viewed(i as int);
                        }
                    }
                    assert(self@ =~= before@.insert(name, tally));
                }
            },
            None => {
                self.entries.push((key, tally));
                proof {
                    let last = before.entries@.len() as int;
                    assert forall|k: Seq<char>| self@.contains_key(k) <==> before@.insert(
                        name,
                        tally,
                    ).contains_key(k) by {
                        if has_entry(self.entries@, k) {
                            let p = place(self.entries@, k);
                            if p != last {
                                assert(before.entries@[p].0@ == k);
                            }
                        }
                        if has_entry(before.entries@, k) {
                            let p = place(before.entries@, k);
                            assert(self.entries@[p].0@ == k);
                        }
                        if k == name {
                            assert(self.entries@[last].0@ == k);
                        }
                    }
                    assert forall|k: Seq<char>| #[trigger] self@.contains_key(k) implies self@[k]
                        == before@.insert(name, tally)[k] by {
                        let p = place(self.entries@, k);
                        if p != last {
                            before.entry_is_viewed(p);
                            self.entry_is_viewed(p);
                            assert(before.entries@[p].0@ != name);
                        }
                    }
                    assert(self@ =~= before@.insert(name, tally));
                }
            },
        }
    }

    proof fn entries_are_listed(&self)
        requires
            self.wf(),
        ensures
            lists(self.entries@, self@),
    {
        assert forall|i: int| 0 <= i < self.entries@.len() implies self@.contains_key(
            (#[trigger] self.entries@[i]).0@,
        ) && self@[self.entries@[i].0@] == self.entries@[i].1 by {
            self.entry_is_viewed(i);
        }
    }

    /// The entries, from the heaviest down. The order of entries that weigh the same is left
    /// open.
    pub fn into_descending(self) -> (listing: Vec<(String, V)>) where (String, V): Weighted
        requires
            self.wf(),
        ensures
            lists(listing@, self@),
            descending(listing@),
    {
        proof {
            self.entries_are_listed();
        }
        let ghost table = self@;
        let ghost from = self.entries@;
        let listing: Vec<(String, V)> = sort_descending(self.entries);
        proof {
            permutation_lists(from, listing@, table);
        }
        listing
    }
}

} // verus!
