//! An insertion-ordered map from names to values.
//!
//! The names live in an `indexmap::IndexMap`, which keeps them in the order
//! in which they came and finds each again by hash. Under each name the map
//! stores the position of the name's value in a vector of values.

use crate::deep::DeepClone;
use indexmap::IndexMap;
use std::collections::hash_map::RandomState;
use vstd::prelude::*;

verus! {

/// `indexmap::IndexMap`: a map that keeps its entries in the order in which
/// their keys came, each at an index. Nothing inside it is visible here.
#[verifier::external_type_specification]
#[verifier::external_body]
#[verifier::reject_recursive_types(K)]
#[verifier::reject_recursive_types(V)]
#[verifier::reject_recursive_types(S)]
pub struct ExIndexMap<K, V, S>(IndexMap<K, V, S>);

/// The entries that a map holds, each a name and the number under it, in
/// the order of their indices.
pub uninterp spec fn map_slots(m: IndexMap<String, usize, RandomState>) -> Seq<(Seq<char>, usize)>;

/// `IndexMap::new`: a map without entries.
#[verifier::external_body]
fn slots_new() -> (m: IndexMap<String, usize, RandomState>)
    ensures
        map_slots(m) == Seq::<(Seq<char>, usize)>::empty(),
{
    IndexMap::new()
}

/// `IndexMap::len`: the number of entries.
#[verifier::external_body]
fn slots_len(m: &IndexMap<String, usize, RandomState>) -> (n: usize)
    ensures
        n == map_slots(*m).len(),
{
    m.len()
}

/// `IndexMap::get_full`: the index of the entry under `name` and the number
/// that it holds, or `None` where no entry is under `name`.
#[verifier::external_body]
fn slots_find(m: &IndexMap<String, usize, RandomState>, name: &str) -> (found: Option<
    (usize, usize),
>)
    ensures
        match found {
            Some((i, slot)) => i < map_slots(*m).len() && map_slots(*m)[i as int] == (name@, slot),
            None => forall|i: int|
                0 <= i < map_slots(*m).len() ==> (#[trigger] map_slots(*m)[i]).0 != name@,
        },
{
    m.get_full(name).map(|found| (found.0, *found.2))
}

/// `IndexMap::get_index`: the name and the number of the entry at `index`,
/// or `None` where `index` is not below the length.
#[verifier::external_body]
fn slots_get_index(m: &IndexMap<String, usize, RandomState>, index: usize) -> (found: Option<
    (&String, usize),
>)
    ensures
        match found {
            Some((name, slot)) => index < map_slots(*m).len() && (name@, slot) == map_slots(
                *m,
            )[index as int],
            None => index >= map_slots(*m).len(),
        },
{
    m.get_index(index).map(|found| (found.0, *found.1))
}

/// `IndexMap::insert_full`: where an entry is under an equal name already,
/// it keeps its index and name and gets the new number, and the call gives
/// that index and the number that it held; otherwise the new entry becomes
/// the last one, and the call gives its index and `None`.
#[verifier::external_body]
fn slots_insert(m: &mut IndexMap<String, usize, RandomState>, name: String, slot: usize) -> (placed:
    (usize, Option<usize>))
    ensures
        match placed.1 {
            Some(held) => {
                &&& placed.0 < map_slots(*old(m)).len()
                &&& map_slots(*old(m))[placed.0 as int] == (name@, held)
                &&& map_slots(*final(m)) == map_slots(*old(m)).update(
                    placed.0 as int,
                    (name@, slot),
                )
            },
            None => {
                &&& forall|i: int|
                    0 <= i < map_slots(*old(m)).len() ==> (#[trigger] map_slots(*old(m))[i]).0
                        != name@
                &&& placed.0 == map_slots(*old(m)).len()
                &&& map_slots(*final(m)) == map_slots(*old(m)).push((name@, slot))
            },
        },
{
    m.insert_full(name, slot)
}

/// `IndexMap::shift_remove_full`: where an entry is under `name`, it
/// leaves, those behind it move one index down, and the call gives the index
/// and the number that it had; otherwise the map stays as it is and the call
/// gives `None`.
#[verifier::external_body]
fn slots_shift_remove(m: &mut IndexMap<String, usize, RandomState>, name: &str) -> (removed:
    Option<(usize, usize)>)
    ensures
        match removed {
            Some((i, slot)) => {
                &&& i < map_slots(*old(m)).len()
                &&& map_slots(*old(m))[i as int] == (name@, slot)
                &&& map_slots(*final(m)) == map_slots(*old(m)).remove(i as int)
            },
            None => {
                &&& forall|i: int|
                    0 <= i < map_slots(*old(m)).len() ==> (#[trigger] map_slots(*old(m))[i]).0
                        != name@
                &&& map_slots(*final(m)) == map_slots(*old(m))
            },
        },
{
    m.shift_remove_full(name).map(|found| (found.0, found.2))
}

/// The names of an ordered map: each name once, and under each the position
/// at which it stands.
#[derive(Debug)]
struct NameIndex {
    slots: IndexMap<String, usize, RandomState>,
}

impl NameIndex {
    /// The names in their order.
    closed spec fn names(self) -> Seq<Seq<char>> {
        Seq::new(map_slots(self.slots).len(), |i: int| map_slots(self.slots)[i].0)
    }

    /// Each name holds its own position, and no name stands twice.
    closed spec fn wf(self) -> bool {
        &&& forall|i: int|
            0 <= i < map_slots(self.slots).len() ==> (#[trigger] map_slots(self.slots)[i]).1 == i
        &&& self.names().no_duplicates()
    }
}

fn names_new() -> (n: NameIndex)
    ensures
        n.names() == Seq::<Seq<char>>::empty(),
        n.wf(),
{
    let n = NameIndex { slots: slots_new() };
    proof {
        assert(n.names() =~= Seq::<Seq<char>>::empty());
    }
    n
}

/// The position of `name`, if it is among the names.
fn names_index_of(n: &NameIndex, name: &str) -> (found: Option<usize>)
    requires
        n.wf(),
    ensures
        match found {
            Some(i) => i < n.names().len() && n.names()[i as int] == name@,
            None => !n.names().contains(name@),
        },
{
    match slots_find(&n.slots, name) {
        Some((i, slot)) => {
            proof {
                assert(map_slots(n.slots)[i as int].1 == i);
            }
            Some(slot)
        },
        None => {
            proof {
                if n.names().contains(name@) {
                    let i = n.names().index_of(name@);
                    assert(map_slots(n.slots)[i].0 == name@);
                }
            }
            None
        },
    }
}

/// The name at position `index`, if there is one.
fn names_get(n: &NameIndex, index: usize) -> (found: Option<&String>)
    ensures
        match found {
            Some(name) => index < n.names().len() && name@ == n.names()[index as int],
            None => index >= n.names().len(),
        },
{
    match slots_get_index(&n.slots, index) {
        Some((name, _)) => Some(name),
        None => None,
    }
}

/// Puts `name` last among the names unless it is among them already, and
/// gives its position and whether it is new.
fn names_insert(n: &mut NameIndex, name: String) -> (placed: (usize, bool))
    requires
        old(n).wf(),
    ensures
        final(n).wf(),
        placed.0 < final(n).names().len(),
        final(n).names()[placed.0 as int] == name@,
        placed.1 == !old(n).names().contains(name@),
        placed.1 ==> final(n).names() == old(n).names().push(name@),
        !placed.1 ==> final(n).names() == old(n).names(),
{
    let ghost before = map_slots(n.slots);
    let ghost names_before = n.names();
    match slots_find(&n.slots, name.as_str()) {
        Some((i, slot)) => {
            proof {
                assert(before[i as int].1 == i);
                assert(names_before[i as int] == name@);
            }
            (slot, false)
        },
        None => {
            let at = slots_len(&n.slots);
            let placed = slots_insert(&mut n.slots, name, at);
            proof {
                if placed.1 is Some {
                    assert(before[placed.0 as int].0 == name@);
                }
                if names_before.contains(name@) {
                    let i = names_before.index_of(name@);
                    assert(before[i].0 == name@);
                }
                assert(n.names() =~= names_before.push(name@));
                let after = map_slots(n.slots);
                assert forall|i: int| 0 <= i < after.len() implies (#[trigger] after[i]).1 == i by {
                    if i < before.len() {
                        assert(after[i] == before[i]);
                    }
                }
                assert forall|i: int, j: int|
                    0 <= i < n.names().len() && 0 <= j < n.names().len() && i != j implies n.names()[i]
                    != n.names()[j] by {
                    if i < names_before.len() && j < names_before.len() {
                        assert(names_before[i] != names_before[j]);
                    } else if i < names_before.len() {
                        assert(names_before.contains(names_before[i]));
                    } else {
                        assert(names_before.contains(names_before[j]));
                    }
                }
            }
            (at, true)
        },
    }
}

/// Takes `name` from among the names, if it is there, and gives the position
/// that it had. The names behind it move one position down.
fn names_shift_remove(n: &mut NameIndex, name: &str) -> (removed: Option<usize>)
    requires
        old(n).wf(),
    ensures
        final(n).wf(),
        match removed {
            Some(i) => {
                &&& i < old(n).names().len()
                &&& old(n).names()[i as int] == name@
                &&& final(n).names() == old(n).names().remove(i as int)
            },
            None => {
                &&& !old(n).names().contains(name@)
                &&& final(n).names() == old(n).names()
            },
        },
{
    let ghost before = map_slots(n.slots);
    let ghost names_before = n.names();
    match slots_shift_remove(&mut n.slots, name) {
        None => {
            proof {
                if names_before.contains(name@) {
                    let i = names_before.index_of(name@);
                    assert(before[i].0 == name@);
                }
            }
            None
        },
        Some((at, _)) => {
            let ghost target = names_before.remove(at as int);
            proof {
                assert(names_before[at as int] == name@);
                assert(n.names() =~= target);
                assert forall|i: int, j: int|
                    0 <= i < target.len() && 0 <= j < target.len() && i != j implies target[i]
                    != target[j] by {
                    let i0 = if i < at { i } else { i + 1 };
                    let j0 = if j < at { j } else { j + 1 };
                    assert(target[i] == names_before[i0]);
                    assert(target[j] == names_before[j0]);
                }
                assert forall|k: int| 0 <= k < map_slots(n.slots).len() implies (
                #[trigger] map_slots(n.slots)[k]).1 == if k < at { k } else { k + 1 } by {
                    let k0 = if k < at { k } else { k + 1 };
                    assert(map_slots(n.slots)[k] == before[k0]);
                }
            }
            let len = slots_len(&n.slots);
            let mut j: usize = at;
            while j < len
                invariant
                    at <= j <= len,
                    len == map_slots(n.slots).len(),
                    n.names() == target,
                    target.no_duplicates(),
                    forall|k: int| 0 <= k < j ==> (#[trigger] map_slots(n.slots)[k]).1 == k,
                    forall|k: int|
                        j <= k < len ==> (#[trigger] map_slots(n.slots)[k]).1 == k + 1,
                decreases len - j,
            {
                let ghost pairs = map_slots(n.slots);
                match slots_get_index(&n.slots, j) {
                    Some((key, _)) => {
                        let key = key.clone();
                        let placed = slots_insert(&mut n.slots, key, j);
                        proof {
                            assert(pairs[j as int].0 == key@);
                            assert(target[j as int] == key@);
                            if placed.1 is Some {
                                let p = placed.0 as int;
                                assert(target[p] == pairs[p].0);
                                assert(p == j);
                            }
                            assert(n.names() =~= target);
                        }
                    },
                    None => {},
                }
                j = j + 1;
            }
            Some(at)
        },
    }
}

/// What an ordered map holds: the keys in their order, and the value under
/// each key.
pub struct Entries<V> {
    pub keys: Seq<Seq<char>>,
    pub values: Map<Seq<char>, V>,
}

impl<V> Entries<V> {
    /// No key stands twice, and the keys are what the values stand under.
    pub open spec fn wf(self) -> bool {
        &&& self.keys.no_duplicates()
        &&& forall|k: Seq<char>| #[trigger] self.values.contains_key(k) <==> self.keys.contains(k)
    }

    /// No entries.
    pub open spec fn empty() -> Self {
        Entries { keys: Seq::empty(), values: Map::empty() }
    }

    /// The number of entries.
    pub open spec fn len(self) -> nat {
        self.keys.len()
    }

    /// Whether some entry has the key.
    pub open spec fn has_key(self, key: Seq<char>) -> bool {
        self.values.contains_key(key)
    }

    /// The value under the key, if any.
    pub open spec fn get(self, key: Seq<char>) -> Option<V> {
        if self.values.contains_key(key) {
            Some(self.values[key])
        } else {
            None
        }
    }

    /// The value of the entry at position `i`.
    pub open spec fn value_at(self, i: int) -> V {
        self.values[self.keys[i]]
    }

    /// The entries in order, each as its key and its value.
    pub open spec fn pairs(self) -> Seq<(Seq<char>, V)> {
        Seq::new(self.keys.len(), |i: int| (self.keys[i], self.values[self.keys[i]]))
    }

    /// The entries after storing `value` under `key`: a key that is there
    /// keeps its place and gets the new value, a new key goes last.
    pub open spec fn put(self, key: Seq<char>, value: V) -> Self {
        Entries {
            keys: if self.values.contains_key(key) {
                self.keys
            } else {
                self.keys.push(key)
            },
            values: self.values.insert(key, value),
        }
    }

    /// The entries without the one under `key`; the others keep their
    /// order.
    pub open spec fn without(self, key: Seq<char>) -> Self {
        Entries {
            keys: if self.values.contains_key(key) {
                self.keys.remove(self.keys.index_of(key))
            } else {
                self.keys
            },
            values: self.values.remove(key),
        }
    }
}

/// The entries with each value taken by its deep view.
pub open spec fn deep_entries<V: DeepView>(entries: Entries<V>) -> Entries<V::V> {
    Entries { keys: entries.keys, values: entries.values.map_values(|v: V| v.deep_view()) }
}

/// The deep views of well-formed entries are well-formed.
pub proof fn lemma_deep_wf<V: DeepView>(entries: Entries<V>)
    requires
        entries.wf(),
    ensures
        deep_entries(entries).wf(),
{
    let d = deep_entries(entries);
    assert forall|k: Seq<char>| #[trigger] d.values.contains_key(k) <==> d.keys.contains(k) by {
        assert(d.values.contains_key(k) == entries.values.contains_key(k));
    }
}

/// The entries of a well-formed map, taken in order as pairs, hold each key
/// once.
pub proof fn lemma_pairs_distinct<V>(entries: Entries<V>)
    requires
        entries.wf(),
    ensures
        forall|i: int, j: int|
            0 <= i < j < entries.pairs().len() ==> (#[trigger] entries.pairs()[i]).0 != (
            #[trigger] entries.pairs()[j]).0,
{
    assert forall|i: int, j: int| 0 <= i < j < entries.pairs().len() implies (
    #[trigger] entries.pairs()[i]).0 != (#[trigger] entries.pairs()[j]).0 by {
        assert(entries.keys[i] != entries.keys[j]);
    }
}

/// In a sequence without duplicates, an element's index is where it stands.
pub proof fn lemma_index_of(keys: Seq<Seq<char>>, i: int)
    requires
        keys.no_duplicates(),
        0 <= i < keys.len(),
    ensures
        keys.contains(keys[i]),
        keys.index_of(keys[i]) == i,
{
    let j = keys.index_of(keys[i]);
    assert(0 <= j < keys.len() && keys[j] == keys[i]);
}

/// Storing a value leaves the entries well-formed.
pub proof fn lemma_put_wf<V>(entries: Entries<V>, key: Seq<char>, value: V)
    requires
        entries.wf(),
    ensures
        entries.put(key, value).wf(),
{
    let after = entries.put(key, value);
    if entries.values.contains_key(key) {
        assert(entries.keys.contains(key));
        assert forall|k: Seq<char>| #[trigger] after.values.contains_key(k) implies after.keys.contains(
            k,
        ) by {
            if k != key {
                assert(entries.values.contains_key(k));
            }
        }
        assert forall|k: Seq<char>| after.keys.contains(k) implies #[trigger] after.values.contains_key(
            k,
        ) by {
            assert(entries.values.contains_key(k));
        }
    } else {
        assert(!entries.keys.contains(key));
        assert forall|i: int, j: int| 0 <= i < after.keys.len() && 0 <= j < after.keys.len() && i
            != j implies after.keys[i] != after.keys[j] by {
            if i < entries.keys.len() {
                assert(entries.keys.contains(after.keys[i]));
            }
            if j < entries.keys.len() {
                assert(entries.keys.contains(after.keys[j]));
            }
        }
        assert forall|k: Seq<char>| #[trigger] after.values.contains_key(k) implies after.keys.contains(
            k,
        ) by {
            if k == key {
                assert(after.keys[entries.keys.len() as int] == key);
            } else {
                assert(entries.values.contains_key(k));
                let i = entries.keys.index_of(k);
                assert(after.keys[i] == k);
            }
        }
        assert forall|k: Seq<char>| after.keys.contains(k) implies #[trigger] after.values.contains_key(
            k,
        ) by {
            let i = after.keys.index_of(k);
            if i < entries.keys.len() {
                assert(entries.keys.contains(k));
                assert(entries.values.contains_key(k));
            }
        }
    }
}

/// Taking a key out leaves the entries well-formed.
pub proof fn lemma_without_wf<V>(entries: Entries<V>, key: Seq<char>)
    requires
        entries.wf(),
    ensures
        entries.without(key).wf(),
{
    let after = entries.without(key);
    if entries.values.contains_key(key) {
        assert(entries.keys.contains(key));
        let at = entries.keys.index_of(key);
        assert forall|i: int| 0 <= i < after.keys.len() implies #[trigger] after.keys[i]
            == entries.keys[if i < at {
            i
        } else {
            i + 1
        }] by {}
        assert forall|i: int, j: int| 0 <= i < after.keys.len() && 0 <= j < after.keys.len() && i
            != j implies after.keys[i] != after.keys[j] by {
            let i0 = if i < at { i } else { i + 1 };
            let j0 = if j < at { j } else { j + 1 };
            assert(after.keys[i] == entries.keys[i0]);
            assert(after.keys[j] == entries.keys[j0]);
        }
        assert forall|k: Seq<char>| #[trigger] after.values.contains_key(k) implies after.keys.contains(
            k,
        ) by {
            assert(entries.values.contains_key(k));
            let i = entries.keys.index_of(k);
            assert(entries.keys[i] == k && i != at);
            let i1 = if i < at { i } else { i - 1 };
            assert(after.keys[i1] == k);
        }
        assert forall|k: Seq<char>| after.keys.contains(k) implies #[trigger] after.values.contains_key(
            k,
        ) by {
            let i = after.keys.index_of(k);
            let i0 = if i < at { i } else { i + 1 };
            assert(after.keys[i] == entries.keys[i0]);
            assert(entries.keys.contains(k));
            assert(entries.values.contains_key(k));
            assert(entries.keys[i0] != entries.keys[at]);
        }
    } else {
        assert(after.values =~= entries.values);
    }
}

/// An insertion-ordered map from names to values.
#[derive(Debug)]
pub struct OrderedMap<V> {
    names: NameIndex,
    values: Vec<V>,
}

impl<V> View for OrderedMap<V> {
    type V = Entries<V>;

    closed spec fn view(&self) -> Entries<V> {
        Entries {
            keys: self.names.names(),
            values: Map::new(
                |k: Seq<char>| self.names.names().contains(k),
                |k: Seq<char>| self.values@[self.names.names().index_of(k)],
            ),
        }
    }
}

impl<V: DeepView> DeepView for OrderedMap<V> {
    type V = Entries<V::V>;

    open spec fn deep_view(&self) -> Entries<V::V> {
        deep_entries(self@)
    }
}

impl<V: DeepClone> DeepClone for OrderedMap<V> {
    fn deep_clone(&self) -> (copy: Self) {
        let mut copy: OrderedMap<V> = OrderedMap::new();
        let n = self.len();
        let mut i: usize = 0;
        while i < n
            invariant
                i <= n,
                n == self@.len(),
                self@.wf(),
                copy@.wf(),
                copy@.keys == self@.keys.take(i as int),
                forall|j: int|
                    0 <= j < i ==> (#[trigger] copy@.value_at(j)).deep_view() == self@.value_at(
                        j,
                    ).deep_view(),
            decreases self@.len() - i,
        {
            let ghost before = copy@;
            match self.get_index(i) {
                Some((k, v)) => {
                    proof {
                        if before.keys.contains(k@) {
                            let j = before.keys.index_of(k@);
                            assert(self@.keys[j] == self@.keys[i as int]);
                        }
                    }
                    copy.insert(k.clone(), v.deep_clone());
                    proof {
                        assert(copy@.keys =~= self@.keys.take(i + 1));
                        assert forall|j: int| 0 <= j < i + 1 implies (#[trigger] copy@.value_at(
                            j,
                        )).deep_view() == self@.value_at(j).deep_view() by {
                            if j < i {
                                assert(before.keys[j] == self@.keys[j]);
                                assert(before.value_at(j) == copy@.value_at(j));
                            }
                        }
                    }
                },
                None => {},
            }
            i = i + 1;
        }
        proof {
            assert(copy@.keys =~= self@.keys);
            let a = deep_entries(copy@);
            let b = deep_entries(self@);
            assert forall|k: Seq<char>| #[trigger] a.values.contains_key(k) implies b.values.contains_key(
                k,
            ) && a.values[k] == b.values[k] by {
                assert(copy@.keys.contains(k));
                let j = copy@.keys.index_of(k);
                assert(copy@.value_at(j).deep_view() == self@.value_at(j).deep_view());
            }
            assert forall|k: Seq<char>| #[trigger] b.values.contains_key(k) implies a.values.contains_key(
                k,
            ) by {
                assert(self@.keys.contains(k));
            }
            assert(a.values =~= b.values);
        }
        copy
    }
}

impl<V> OrderedMap<V> {
    #[verifier::type_invariant]
    closed spec fn well_formed(&self) -> bool {
        &&& self.names.wf()
        &&& self.names.names().len() == self.values@.len()
        &&& self.names.names().no_duplicates()
    }

    proof fn lemma_wf(&self)
        requires
            self.well_formed(),
        ensures
            self@.wf(),
            self@.keys.len() == self.values@.len(),
            forall|i: int| 0 <= i < self@.keys.len() ==> #[trigger] self@.value_at(i) == self.values@[i],
    {
        assert forall|i: int| 0 <= i < self@.keys.len() implies #[trigger] self@.value_at(i)
            == self.values@[i] by {
            lemma_index_of(self@.keys, i);
        }
    }

    pub fn new() -> (m: Self)
        ensures
            m@ == Entries::<V>::empty(),
            m@.wf(),
    {
        let m = OrderedMap { names: names_new(), values: Vec::new() };
        proof {
            assert(m@.values =~= Map::<Seq<char>, V>::empty());
        }
        m
    }

    pub fn len(&self) -> (n: usize)
        ensures
            n == self@.len(),
            self@.wf(),
    {
        proof {
            use_type_invariant(self);
            self.lemma_wf();
        }
        self.values.len()
    }

    pub fn is_empty(&self) -> (b: bool)
        ensures
            b == (self@.len() == 0),
            self@.wf(),
    {
        proof {
            use_type_invariant(self);
            self.lemma_wf();
        }
        self.values.len() == 0
    }

    /// The position of `key`, if the map has it.
    pub fn get_index_of(&self, key: &str) -> (found: Option<usize>)
        ensures
            self@.wf(),
            found is Some == self@.has_key(key@),
            found is Some ==> found->0 < self@.len() && self@.keys[found->0 as int] == key@,
    {
        proof {
            use_type_invariant(self);
            self.lemma_wf();
        }
        names_index_of(&self.names, key)
    }

    pub fn contains_key(&self, key: &str) -> (b: bool)
        ensures
            self@.wf(),
            b == self@.has_key(key@),
    {
        self.get_index_of(key).is_some()
    }

    /// The value stored under `key`, if any.
    pub fn get(&self, key: &str) -> (found: Option<&V>)
        ensures
            self@.wf(),
            match found {
                Some(v) => self@.get(key@) == Some(*v),
                None => self@.get(key@) is None,
            },
    {
        proof {
            use_type_invariant(self);
            self.lemma_wf();
        }
        match self.get_index_of(key) {
            Some(i) => {
                proof {
                    lemma_index_of(self@.keys, i as int);
                }
                Some(&self.values[i])
            },
            None => None,
        }
    }

    /// The entry at position `index`, if there is one.
    pub fn get_index(&self, index: usize) -> (found: Option<(&String, &V)>)
        ensures
            self@.wf(),
            match found {
                Some((k, v)) => {
                    &&& index < self@.len()
                    &&& k@ == self@.keys[index as int]
                    &&& *v == self@.value_at(index as int)
                    &&& self@.get(k@) == Some(*v)
                },
                None => index >= self@.len(),
            },
    {
        proof {
            use_type_invariant(self);
            self.lemma_wf();
            if index < self@.len() {
                lemma_index_of(self@.keys, index as int);
            }
        }
        match names_get(&self.names, index) {
            Some(k) => Some((k, &self.values[index])),
            None => None,
        }
    }

    /// Stores `value` under `key` and gives back what was stored there
    /// before. A key that the map has keeps its position; a new key goes last.
    pub fn insert(&mut self, key: String, value: V) -> (previous: Option<V>)
        ensures
            final(self)@ == old(self)@.put(key@, value),
            previous == old(self)@.get(key@),
            old(self)@.wf(),
            final(self)@.wf(),
    {
        let mut taken = OrderedMap::new();
        std::mem::swap(self, &mut taken);
        let (after, previous) = taken.with_entry(key, value);
        *self = after;
        previous
    }

    fn with_entry(self, key: String, value: V) -> (out: (Self, Option<V>))
        ensures
            out.0@ == self@.put(key@, value),
            out.1 == self@.get(key@),
            self@.wf(),
            out.0@.wf(),
    {
        proof {
            use_type_invariant(&self);
            self.lemma_wf();
        }
        let ghost before = self@;
        let ghost key_view = key@;
        let OrderedMap { names, values } = self;
        let mut names = names;
        let mut values = values;
        let ghost names_before = names.names();
        let ghost values_before = values@;
        let (i, fresh) = names_insert(&mut names, key);
        values.push(value);
        if fresh {
            let after = OrderedMap { names, values };
            proof {
                use_type_invariant(&after);
                after.lemma_wf();
                let target = before.put(key_view, value);
                assert forall|k: Seq<char>| #[trigger]
                    target.values.contains_key(k) implies after@.values.contains_key(k)
                    && after@.values[k] == target.values[k] by {
                    if k != key_view {
                        let j = names_before.index_of(k);
                        assert(after@.keys[j] == k);
                        lemma_index_of(after@.keys, j);
                        lemma_index_of(before.keys, j);
                    } else {
                        assert(after@.keys[names_before.len() as int] == k);
                        lemma_index_of(after@.keys, names_before.len() as int);
                    }
                }
                assert forall|k: Seq<char>| #[trigger]
                    after@.values.contains_key(k) implies target.values.contains_key(k) by {
                    let j = after@.keys.index_of(k);
                    if j < names_before.len() {
                        assert(names_before[j] == k);
                    }
                }
                assert(after@.values =~= target.values);
            }
            (after, None)
        } else {
            let previous = values.swap_remove(i);
            let after = OrderedMap { names, values };
            proof {
                use_type_invariant(&after);
                after.lemma_wf();
                lemma_index_of(before.keys, i as int);
                let target = before.put(key_view, value);
                assert forall|k: Seq<char>| #[trigger]
                    after@.values.contains_key(k) implies after@.values[k]
                    == target.values[k] by {
                    let j = names_before.index_of(k);
                    assert(names_before[j] == k);
                    lemma_index_of(names_before, j);
                }
                assert(after@.values =~= target.values);
            }
            (after, Some(previous))
        }
    }

    /// Puts `value` in place of the value at position `index` and gives back
    /// what stood there. The key stays.
    pub(crate) fn replace_value(&mut self, index: usize, value: V) -> (previous: V)
        requires
            index < old(self)@.len(),
        ensures
            final(self)@ == old(self)@.put(old(self)@.keys[index as int], value),
            final(self)@.keys == old(self)@.keys,
            previous == old(self)@.value_at(index as int),
            old(self)@.wf(),
            final(self)@.wf(),
    {
        let ghost key = self@.keys[index as int];
        let ghost before = self@;
        proof {
            use_type_invariant(&*self);
            self.lemma_wf();
            lemma_index_of(before.keys, index as int);
        }
        let mut taken = OrderedMap::new();
        std::mem::swap(self, &mut taken);
        let (after, previous) = taken.with_value(index, value);
        *self = after;
        previous
    }

    fn with_value(self, index: usize, value: V) -> (out: (Self, V))
        requires
            index < self@.len(),
        ensures
            out.0@ == self@.put(self@.keys[index as int], value),
            out.1 == self@.value_at(index as int),
            out.0@.wf(),
    {
        proof {
            use_type_invariant(&self);
            self.lemma_wf();
        }
        let ghost before = self@;
        let ghost key = before.keys[index as int];
        let OrderedMap { names, values } = self;
        let mut values = values;
        values.push(value);
        let previous = values.swap_remove(index);
        let after = OrderedMap { names, values };
        proof {
            use_type_invariant(&after);
            after.lemma_wf();
            lemma_index_of(before.keys, index as int);
            let target = before.put(key, value);
            assert forall|k: Seq<char>| #[trigger]
                after@.values.contains_key(k) implies after@.values[k] == target.values[k] by {
                let j = before.keys.index_of(k);
                assert(before.keys[j] == k);
                lemma_index_of(before.keys, j);
            }
            assert(after@.values =~= target.values);
        }
        (after, previous)
    }

    /// Takes the entry under `key` out of the map and gives back its value.
    /// The entries behind it move one position down.
    pub fn shift_remove(&mut self, key: &str) -> (removed: Option<V>)
        ensures
            final(self)@ == old(self)@.without(key@),
            removed == old(self)@.get(key@),
            old(self)@.wf(),
            final(self)@.wf(),
    {
        let mut taken = OrderedMap::new();
        std::mem::swap(self, &mut taken);
        let (after, removed) = taken.without_entry(key);
        *self = after;
        removed
    }

    fn without_entry(self, key: &str) -> (out: (Self, Option<V>))
        ensures
            out.0@ == self@.without(key@),
            out.1 == self@.get(key@),
            self@.wf(),
            out.0@.wf(),
    {
        proof {
            use_type_invariant(&self);
            self.lemma_wf();
        }
        let ghost before = self@;
        let OrderedMap { names, values } = self;
        let mut names = names;
        let mut values = values;
        let ghost names_before = names.names();
        match names_shift_remove(&mut names, key) {
            Some(i) => {
                let value = values.remove(i);
                proof {
                    lemma_without_wf(before, key@);
                    lemma_index_of(names_before, i as int);
                    assert(names.names() == before.without(key@).keys);
                }
                let after = OrderedMap { names, values };
                proof {
                    use_type_invariant(&after);
                    after.lemma_wf();
                    let target = before.without(key@);
                    assert forall|k: Seq<char>| #[trigger]
                        after@.values.contains_key(k) implies target.values.contains_key(k)
                        && after@.values[k] == target.values[k] by {
                        let j = after@.keys.index_of(k);
                        assert(after@.keys[j] == k);
                        lemma_index_of(after@.keys, j);
                        let j0 = if j < i { j } else { j + 1 };
                        assert(names_before[j0] == k);
                        lemma_index_of(names_before, j0);
                    }
                    assert forall|k: Seq<char>| #[trigger]
                        target.values.contains_key(k) implies after@.values.contains_key(k) by {
                        assert(target.keys.contains(k));
                    }
                    assert(after@.values =~= target.values);
                }
                (after, Some(value))
            },
            None => {
                let after = OrderedMap { names, values };
                proof {
                    use_type_invariant(&after);
                    after.lemma_wf();
                    assert(after@.values =~= before.without(key@).values);
                }
                (after, None)
            },
        }
    }
}

} // verus!
