//! Tables of values by key.

use crate::net::IpAddr;
use vstd::prelude::*;

verus! {

/// A type whose values can be told apart, so that they can be keys.
pub trait TableKey: View + Sized {
    fn same_key(&self, other: &Self) -> (res: bool)
        ensures
            res == (self@ == other@),
    ;
}

impl TableKey for String {
    fn same_key(&self, other: &Self) -> (res: bool) {
        *self == *other
    }
}

impl View for IpAddr {
    type V = IpAddr;

    open spec fn view(&self) -> IpAddr {
        *self
    }
}

impl TableKey for IpAddr {
    fn same_key(&self, other: &Self) -> (res: bool) {
        *self == *other
    }
}

#[derive(Debug)]
struct Entry<K, V> {
    key: K,
    value: V,
}

/// Values by key. Each key occurs once.
#[derive(Debug)]
pub struct Table<K, V> {
    entries: Vec<Entry<K, V>>,
}

spec fn distinct<K: TableKey, V>(entries: Seq<Entry<K, V>>) -> bool {
    forall|i: int, j: int|
        0 <= i < entries.len() && 0 <= j < entries.len() && i != j ==> #[trigger] entries[i].key@
            != #[trigger] entries[j].key@
}

spec fn holds<K: TableKey, V>(entries: Seq<Entry<K, V>>, key: K::V, i: int) -> bool {
    0 <= i < entries.len() && entries[i].key@ == key
}

spec fn contents<K: TableKey, V>(entries: Seq<Entry<K, V>>) -> Map<K::V, V> {
    Map::new(
        |key: K::V| exists|i: int| holds(entries, key, i),
        |key: K::V| entries[choose|i: int| holds(entries, key, i)].value,
    )
}

impl<K: TableKey, V> View for Table<K, V> {
    type V = Map<K::V, V>;

    closed spec fn view(&self) -> Map<K::V, V> {
        contents(self.entries@)
    }
}

impl<K: TableKey, V> Table<K, V> {
    /// Each key occurs once.
    pub closed spec fn wf(self) -> bool {
        distinct(self.entries@)
    }

    pub fn new() -> (res: Table<K, V>)
        ensures
            res.wf(),
            res@ == Map::<K::V, V>::empty(),
    {
        let res = Table { entries: Vec::new() };
        assert(res@ =~= Map::<K::V, V>::empty());
        res
    }

    fn position(&self, key: &K) -> (res: Option<usize>)
        ensures
            match res {
                Some(i) => holds(self.entries@, key@, i as int),
                None => forall|i: int| !holds(self.entries@, key@, i),
            },
    {
        let mut i: usize = 0;
        while i < self.entries.len()
            invariant
                i <= self.entries.len(),
                forall|j: int| j < i ==> !holds(self.entries@, key@, j),
            decreases self.entries.len() - i,
        {
            if self.entries[i].key.same_key(key) {
                return Some(i);
            }
            i = i + 1;
        }
        None
    }

    /// Whether there is a value for the key.
    pub fn contains(&self, key: &K) -> (res: bool)
        ensures
            res == self@.contains_key(key@),
    {
        match self.position(key) {
            Some(i) => true,
            None => false,
        }
    }

    /// The value for the key.
    pub fn get(&self, key: &K) -> (res: Option<&V>)
        requires
            self.wf(),
        ensures
            match res {
                Some(value) => self@.contains_key(key@) && *value == self@[key@],
                None => !self@.contains_key(key@),
            },
    {
        match self.position(key) {
            Some(i) => {
                proof {
                    lemma_entry_is_in_contents(self.entries@, i as int);
                }
                Some(&self.entries[i].value)
            },
            None => None,
        }
    }

    /// Enters a value, in place of an earlier one for the same key.
    pub fn insert(&mut self, key: K, value: V)
        requires
            old(self).wf(),
        ensures
            final(self).wf(),
            final(self)@ == old(self)@.insert(key@, value),
    {
        let ghost before = self.entries@;
        let position = self.position(&key);
        let entry = Entry { key, value };
        match position {
            Some(i) => {
                self.entries.set(i, entry);
                proof {
                    lemma_contents_after_write(before, i as int, entry);
                }
            },
            None => {
                self.entries.push(entry);
                proof {
                    lemma_contents_after_push(before, entry);
                }
            },
        }
    }

    /// Takes the value for the key out, if there is one.
    pub fn remove(&mut self, key: &K) -> (res: Option<V>)
        requires
            old(self).wf(),
        ensures
            final(self).wf(),
            final(self)@ == old(self)@.remove(key@),
            match res {
                Some(value) => old(self)@.contains_key(key@) && value == old(self)@[key@],
                None => !old(self)@.contains_key(key@),
            },
    {
        let ghost before = self.entries@;
        match self.position(key) {
            Some(i) => {
                let removed = self.entries.swap_remove(i);
                proof {
                    lemma_entry_is_in_contents(before, i as int);
                    lemma_contents_after_swap_remove(before, self.entries@, i as int);
                }
                Some(removed.value)
            },
            None => {
                assert(contents(before).remove(key@) =~= contents(before));
                None
            },
        }
    }
}

impl<V> Table<IpAddr, V> {
    /// The addresses for which there are values, each once.
    pub fn addresses(&self) -> (res: Vec<IpAddr>)
        requires
            self.wf(),
        ensures
            res@.no_duplicates(),
            forall|address: IpAddr| #[trigger] res@.contains(address) == self@.contains_key(address),
    {
        let mut res: Vec<IpAddr> = Vec::new();
        let mut i: usize = 0;
        while i < self.entries.len()
            invariant
                i <= self.entries.len(),
                res.len() == i,
                forall|j: int| 0 <= j < i ==> #[trigger] res[j] == self.entries[j].key,
            decreases self.entries.len() - i,
        {
            res.push(self.entries[i].key);
            i = i + 1;
        }
        proof {
            assert forall|j: int, k: int|
                0 <= j < res.len() && 0 <= k < res.len() && j != k implies res[j] != res[k] by {
                assert(self.entries[j].key@ != self.entries[k].key@);
            }
            assert forall|address: IpAddr| #[trigger]
                res@.contains(address) == self@.contains_key(address) by {
                if res@.contains(address) {
                    let j = choose|j: int| 0 <= j < res.len() && res[j] == address;
                    assert(holds(self.entries@, address, j));
                }
                if self@.contains_key(address) {
                    let j = choose|j: int| holds(self.entries@, address, j);
                    assert(res[j] == address);
                }
            }
        }
        res
    }
}

proof fn lemma_entry_is_in_contents<K: TableKey, V>(entries: Seq<Entry<K, V>>, i: int)
    requires
        distinct(entries),
        0 <= i < entries.len(),
    ensures
        contents(entries).contains_key(entries[i].key@),
        contents(entries)[entries[i].key@] == entries[i].value,
{
    let key = entries[i].key@;
    assert(holds(entries, key, i));
    let j = choose|j: int| holds(entries, key, j);
    assert(holds(entries, key, j));
    assert(i == j);
}

proof fn lemma_contents_after_write<K: TableKey, V>(
    before: Seq<Entry<K, V>>,
    i: int,
    entry: Entry<K, V>,
)
    requires
        distinct(before),
        0 <= i < before.len(),
        before[i].key@ == entry.key@,
    ensures
        distinct(before.update(i, entry)),
        contents(before.update(i, entry)) == contents(before).insert(entry.key@, entry.value),
{
    let after = before.update(i, entry);
    assert forall|h: K::V|
        contents(after).contains_key(h) == contents(before).insert(
            entry.key@,
            entry.value,
        ).contains_key(h) by {
        if contents(after).contains_key(h) {
            let j = choose|j: int| holds(after, h, j);
            assert(holds(before, h, j));
        }
        if contents(before).contains_key(h) {
            let j = choose|j: int| holds(before, h, j);
            assert(holds(after, h, j));
        }
        assert(holds(after, entry.key@, i));
    }
    assert forall|h: K::V| #[trigger] contents(after).contains_key(h) implies contents(after)[h]
        == contents(before).insert(entry.key@, entry.value)[h] by {
        let j = choose|j: int| holds(after, h, j);
        lemma_entry_is_in_contents(after, j);
        lemma_entry_is_in_contents(before, j);
    }
    assert(contents(after) =~= contents(before).insert(entry.key@, entry.value));
}

proof fn lemma_contents_after_push<K: TableKey, V>(before: Seq<Entry<K, V>>, entry: Entry<K, V>)
    requires
        distinct(before),
        forall|i: int| !holds(before, entry.key@, i),
    ensures
        distinct(before.push(entry)),
        contents(before.push(entry)) == contents(before).insert(entry.key@, entry.value),
{
    let after = before.push(entry);
    assert forall|i: int, j: int|
        0 <= i < after.len() && 0 <= j < after.len() && i != j implies #[trigger] after[i].key@
        != #[trigger] after[j].key@ by {
        assert(!holds(before, entry.key@, i));
        assert(!holds(before, entry.key@, j));
    }
    assert forall|h: K::V|
        contents(after).contains_key(h) == contents(before).insert(
            entry.key@,
            entry.value,
        ).contains_key(h) by {
        if contents(after).contains_key(h) {
            let j = choose|j: int| holds(after, h, j);
            if j < before.len() {
                assert(holds(before, h, j));
            }
        }
        if contents(before).contains_key(h) {
            let j = choose|j: int| holds(before, h, j);
            assert(holds(after, h, j));
        }
        assert(holds(after, entry.key@, before.len() as int));
    }
    assert forall|h: K::V| #[trigger] contents(after).contains_key(h) implies contents(after)[h]
        == contents(before).insert(entry.key@, entry.value)[h] by {
        let j = choose|j: int| holds(after, h, j);
        lemma_entry_is_in_contents(after, j);
        if j < before.len() {
            lemma_entry_is_in_contents(before, j);
        }
    }
    assert(contents(after) =~= contents(before).insert(entry.key@, entry.value));
}

proof fn lemma_contents_after_swap_remove<K: TableKey, V>(
    before: Seq<Entry<K, V>>,
    after: Seq<Entry<K, V>>,
    i: int,
)
    requires
        distinct(before),
        0 <= i < before.len(),
        after == before.update(i, before.last()).drop_last(),
    ensures
        distinct(after),
        contents(after) == contents(before).remove(before[i].key@),
{
    let name = before[i].key@;
    let source = |j: int|
        if j == i {
            before.len() - 1
        } else {
            j
        };
    assert forall|j: int| 0 <= j < after.len() implies #[trigger] after[j] == before[source(j)]
        && source(j) != i by {}
    assert(distinct(after));
    assert forall|h: K::V|
        contents(after).contains_key(h) == contents(before).remove(name).contains_key(h) by {
        if contents(after).contains_key(h) {
            let j = choose|j: int| holds(after, h, j);
            assert(after[j] == before[source(j)]);
            assert(holds(before, h, source(j)));
        }
        if contents(before).remove(name).contains_key(h) {
            let j = choose|j: int| holds(before, h, j);
            assert(j != i);
            let k = if j == before.len() - 1 {
                i
            } else {
                j
            };
            assert(holds(after, h, k));
        }
    }
    assert forall|h: K::V| #[trigger] contents(after).contains_key(h) implies contents(after)[h]
        == contents(before).remove(name)[h] by {
        let j = choose|j: int| holds(after, h, j);
        lemma_entry_is_in_contents(after, j);
        assert(after[j] == before[source(j)]);
        lemma_entry_is_in_contents(before, source(j));
    }
    assert(contents(after) =~= contents(before).remove(name));
}

/// The addresses of a table are exactly those for which it has values, and none is listed twice.
pub proof fn law_addresses_are_listed_once<V>(
    table: Table<IpAddr, V>,
    res: Vec<IpAddr>,
    address: IpAddr,
    i: int,
    j: int,
)
    requires
        call_ensures(Table::<IpAddr, V>::addresses, (&table,), res),
    ensures
        res@.contains(address) <==> table@.contains_key(address),
        0 <= i < j < res@.len() ==> res@[i] != res@[j],
{
}

/// What was entered for a key is found under that key, in place of what was there, and nothing else
/// changes.
pub proof fn law_entries_are_found_under_their_key<K: TableKey, V>(
    table: &mut Table<K, V>,
    key: K,
    value: V,
    other: K::V,
)
    requires
        call_ensures(Table::<K, V>::insert, (table, key, value), ()),
    ensures
        final(table)@.contains_key(key@),
        final(table)@[key@] == value,
        other != key@ ==> {
            &&& final(table)@.contains_key(other) == old(table)@.contains_key(other)
            &&& old(table)@.contains_key(other) ==> final(table)@[other] == old(table)@[other]
        },
{
}

/// What is taken out is what was there, it is there no more, and nothing else changes.
pub proof fn law_entries_are_taken_out_once<K: TableKey, V>(
    table: &mut Table<K, V>,
    key: K,
    res: Option<V>,
    other: K::V,
)
    requires
        call_ensures(Table::<K, V>::remove, (table, &key), res),
    ensures
        res is Some <==> old(table)@.contains_key(key@),
        res matches Some(value) ==> value == old(table)@[key@],
        !final(table)@.contains_key(key@),
        other != key@ ==> {
            &&& final(table)@.contains_key(other) == old(table)@.contains_key(other)
            &&& old(table)@.contains_key(other) ==> final(table)@[other] == old(table)@[other]
        },
{
}

/// A look into a table finds the value for the key where there is one, and nothing otherwise.
pub proof fn law_look_finds_what_is_there<K: TableKey, V>(
    table: Table<K, V>,
    key: K,
    there: bool,
    found: Option<&V>,
)
    requires
        call_ensures(Table::<K, V>::contains, (&table, &key), there),
        call_ensures(Table::<K, V>::get, (&table, &key), found),
    ensures
        there <==> table@.contains_key(key@),
        found is Some <==> there,
        found matches Some(value) ==> *value == table@[key@],
{
}

} // verus!
