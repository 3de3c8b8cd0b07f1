//! A map from names to values that keeps its entries sorted by name.
//!
//! The entries live in two parallel vectors. The keys are strictly
//! increasing in the order of [`crate::names`], so no name occurs twice and
//! walking the entries visits them in name order.

use vstd::prelude::*;
use crate::names::{
    lemma_name_before_irreflexive, lemma_name_before_total, lemma_name_before_transitive, name_before,
    name_precedes, strictly_increasing,
};

verus! {

/// How many of `keys` sort strictly before `name`. In a sorted sequence this
/// is the place where `name` stands, or where it would have to be put.
pub open spec fn rank(keys: Seq<Seq<char>>, name: Seq<char>) -> int
    decreases keys.len(),
{
    if keys.len() == 0 {
        0
    } else {
        rank(keys.drop_last(), name) + if name_before(keys.last(), name) {
            1int
        } else {
            0int
        }
    }
}

/// The keys after `name` has been put in.
pub open spec fn keys_with(keys: Seq<Seq<char>>, name: Seq<char>) -> Seq<Seq<char>> {
    if keys.contains(name) {
        keys
    } else {
        keys.insert(rank(keys, name), name)
    }
}

/// The values after `value` has been put in under `name`.
pub open spec fn values_with<V>(keys: Seq<Seq<char>>, values: Seq<V>, name: Seq<char>, value: V) -> Seq<V> {
    if keys.contains(name) {
        values.update(rank(keys, name), value)
    } else {
        values.insert(rank(keys, name), value)
    }
}

/// The keys after `name` has been taken out.
pub open spec fn keys_without(keys: Seq<Seq<char>>, name: Seq<char>) -> Seq<Seq<char>> {
    if keys.contains(name) {
        keys.remove(rank(keys, name))
    } else {
        keys
    }
}

/// The values after the entry of `name` has been taken out.
pub open spec fn values_without<V>(keys: Seq<Seq<char>>, values: Seq<V>, name: Seq<char>) -> Seq<V> {
    if keys.contains(name) {
        values.remove(rank(keys, name))
    } else {
        values
    }
}

/// The items of `items` whose flag in `keep` is set, in their old order.
pub open spec fn kept<A>(items: Seq<A>, keep: Seq<bool>) -> Seq<A>
    decreases items.len(),
{
    if items.len() == 0 || keep.len() != items.len() {
        Seq::empty()
    } else if keep.last() {
        kept(items.drop_last(), keep.drop_last()).push(items.last())
    } else {
        kept(items.drop_last(), keep.drop_last())
    }
}

/// The map that the parallel sequences `keys` and `values` stand for.
pub open spec fn map_of<V>(keys: Seq<Seq<char>>, values: Seq<V>) -> Map<Seq<char>, V> {
    Map::new(|name: Seq<char>| keys.contains(name), |name: Seq<char>| values[rank(keys, name)])
}

/// In a sorted sequence the rank of a name splits the keys into those before
/// the name and the rest, and finds the name where it is present.
pub proof fn lemma_rank_sorted(keys: Seq<Seq<char>>, name: Seq<char>)
    requires
        strictly_increasing(keys),
    ensures
        0 <= rank(keys, name) <= keys.len(),
        forall|i: int| 0 <= i < rank(keys, name) ==> name_before(#[trigger] keys[i], name),
        forall|i: int| rank(keys, name) <= i < keys.len() ==> !name_before(#[trigger] keys[i], name),
        keys.contains(name) <==> (rank(keys, name) < keys.len() && keys[rank(keys, name)] == name),
    decreases keys.len(),
{
    if keys.len() > 0 {
        let front = keys.drop_last();
        let last = keys.last();
        assert(strictly_increasing(front));
        lemma_rank_sorted(front, name);
        if name_before(last, name) {
            // every key sorts before the name
            assert forall|i: int| 0 <= i < front.len() implies name_before(#[trigger] front[i], name) by {
                lemma_name_before_transitive(front[i], last, name);
            }
            assert(rank(front, name) == front.len());
            assert forall|i: int| 0 <= i < rank(keys, name) implies name_before(#[trigger] keys[i], name) by {
                if i < front.len() {
                    assert(front[i] == keys[i]);
                }
            }
            if keys.contains(name) {
                lemma_name_before_irreflexive(name);
            }
        } else {
            assert forall|i: int| 0 <= i < rank(keys, name) implies name_before(#[trigger] keys[i], name) by {
                assert(front[i] == keys[i]);
            }
            assert forall|i: int| rank(keys, name) <= i < keys.len() implies !name_before(
                #[trigger] keys[i],
                name,
            ) by {
                if i < front.len() {
                    assert(front[i] == keys[i]);
                }
            }
            if keys.contains(name) {
                let i = choose|i: int| 0 <= i < keys.len() && keys[i] == name;
                if i < front.len() {
                    assert(front[i] == name);
                }
            }
        }
    }
}

/// In a sorted sequence a key stands at its own rank, so no key occurs twice.
pub proof fn lemma_rank_of_key(keys: Seq<Seq<char>>, i: int)
    requires
        strictly_increasing(keys),
        0 <= i < keys.len(),
    ensures
        rank(keys, keys[i]) == i,
{
    lemma_rank_sorted(keys, keys[i]);
    lemma_name_before_irreflexive(keys[i]);
}

/// Putting a name into a sorted sequence leaves it sorted.
pub proof fn lemma_keys_with_sorted(keys: Seq<Seq<char>>, name: Seq<char>)
    requires
        strictly_increasing(keys),
    ensures
        strictly_increasing(keys_with(keys, name)),
        keys_with(keys, name).contains(name),
        rank(keys_with(keys, name), name) == rank(keys, name),
{
    lemma_rank_sorted(keys, name);
    let r = rank(keys, name);
    let after = keys_with(keys, name);
    if !keys.contains(name) {
        assert forall|i: int, j: int| 0 <= i < j < after.len() implies name_before(
            #[trigger] after[i],
            #[trigger] after[j],
        ) by {
            if i == r {
                // the keys behind the name do not sort before it, and are not it
                lemma_name_before_total(keys[j - 1], name);
                assert(keys.contains(keys[j - 1]));
            }
        }
    }
    assert(after[r] == name);
    lemma_rank_of_key(after, r);
}

/// Taking one entry out of a sorted sequence leaves it sorted.
pub proof fn lemma_remove_sorted(keys: Seq<Seq<char>>, i: int)
    requires
        strictly_increasing(keys),
        0 <= i < keys.len(),
    ensures
        strictly_increasing(keys.remove(i)),
        !keys.remove(i).contains(keys[i]),
{
    let after = keys.remove(i);
    if after.contains(keys[i]) {
        let k = choose|k: int| 0 <= k < after.len() && after[k] == keys[i];
        let k0 = if k < i { k } else { k + 1 };
        lemma_rank_of_key(keys, k0);
        lemma_rank_of_key(keys, i);
    }
}

/// Putting `value` in under `name` changes what the sequences stand for at
/// `name` and nowhere else.
pub proof fn lemma_map_of_with<V>(keys: Seq<Seq<char>>, values: Seq<V>, name: Seq<char>, value: V)
    requires
        strictly_increasing(keys),
        keys.len() == values.len(),
    ensures
        map_of(keys_with(keys, name), values_with(keys, values, name, value)) == map_of(keys, values).insert(
            name,
            value,
        ),
{
    lemma_rank_sorted(keys, name);
    lemma_keys_with_sorted(keys, name);
    let r = rank(keys, name);
    let keys2 = keys_with(keys, name);
    let values2 = values_with(keys, values, name, value);
    let before = map_of(keys, values).insert(name, value);
    let after = map_of(keys2, values2);
    assert forall|other: Seq<char>| #[trigger] after.contains_key(other) == before.contains_key(other) by {
        if keys.contains(other) && !keys.contains(name) {
            let k = choose|k: int| 0 <= k < keys.len() && keys[k] == other;
            if k < r {
                assert(keys2[k] == other);
            } else {
                assert(keys2[k + 1] == other);
            }
        }
    }
    assert forall|other: Seq<char>| #[trigger] after.contains_key(other) implies after[other] == before[other] by {
        let k = choose|k: int| 0 <= k < keys2.len() && keys2[k] == other;
        lemma_rank_of_key(keys2, k);
        if keys.contains(name) {
            lemma_rank_of_key(keys, k);
        } else if k < r {
            assert(keys[k] == other);
            lemma_rank_of_key(keys, k);
        } else if k > r {
            assert(keys[k - 1] == other);
            lemma_rank_of_key(keys, k - 1);
        }
    }
    assert(after =~= before);
}

/// Taking the entry at place `i` out changes what the sequences stand for at
/// that entry's name and nowhere else.
pub proof fn lemma_map_of_remove<V>(keys: Seq<Seq<char>>, values: Seq<V>, i: int)
    requires
        strictly_increasing(keys),
        keys.len() == values.len(),
        0 <= i < keys.len(),
    ensures
        map_of(keys.remove(i), values.remove(i)) == map_of(keys, values).remove(keys[i]),
{
    lemma_remove_sorted(keys, i);
    let keys2 = keys.remove(i);
    let values2 = values.remove(i);
    let before = map_of(keys, values).remove(keys[i]);
    let after = map_of(keys2, values2);
    assert forall|other: Seq<char>| #[trigger] after.contains_key(other) == before.contains_key(other) by {
        if keys.contains(other) && other != keys[i] {
            let k = choose|k: int| 0 <= k < keys.len() && keys[k] == other;
            let k2 = if k < i { k } else { k - 1 };
            assert(keys2[k2] == other);
        }
    }
    assert forall|other: Seq<char>| #[trigger] after.contains_key(other) implies after[other] == before[other] by {
        let k = choose|k: int| 0 <= k < keys2.len() && keys2[k] == other;
        let k0 = if k < i { k } else { k + 1 };
        assert(keys[k0] == other);
        lemma_rank_of_key(keys2, k);
        lemma_rank_of_key(keys, k0);
    }
    assert(after =~= before);
}

/// What is kept of a sequence is no longer than the sequence, and each kept
/// item is an item whose flag was set.
pub proof fn lemma_kept_items<A>(items: Seq<A>, keep: Seq<bool>)
    requires
        keep.len() == items.len(),
    ensures
        kept(items, keep).len() <= items.len(),
        forall|x: A|
            kept(items, keep).contains(x) <==> exists|i: int|
                0 <= i < items.len() && keep[i] && #[trigger] items[i] == x,
    decreases items.len(),
{
    let all = kept(items, keep);
    if items.len() > 0 {
        let front = items.drop_last();
        let flags = keep.drop_last();
        lemma_kept_items(front, flags);
        let rest = kept(front, flags);
        assert forall|x: A|
            all.contains(x) <==> exists|i: int|
                0 <= i < items.len() && keep[i] && #[trigger] items[i] == x by {
            if all.contains(x) {
                let k = choose|k: int| 0 <= k < all.len() && all[k] == x;
                if k < rest.len() {
                    assert(rest.contains(x));
                    let i = choose|i: int| 0 <= i < front.len() && flags[i] && #[trigger] front[i] == x;
                    assert(keep[i] && items[i] == x);
                } else {
                    assert(keep[items.len() - 1] && items[items.len() - 1] == x);
                }
            }
            if exists|i: int| 0 <= i < items.len() && keep[i] && #[trigger] items[i] == x {
                let i = choose|i: int| 0 <= i < items.len() && keep[i] && #[trigger] items[i] == x;
                if i < front.len() {
                    assert(flags[i] && front[i] == x);
                    assert(rest.contains(x));
                    let k = choose|k: int| 0 <= k < rest.len() && rest[k] == x;
                    assert(all[k] == x);
                } else {
                    assert(all[all.len() - 1] == x);
                }
            }
        }
    }
}

/// A map from names to values, sorted by name.
pub struct NameMap<V> {
    names: Vec<String>,
    values: Vec<V>,
}

impl<V> NameMap<V> {
    /// The names, in the order in which the entries are walked.
    pub closed spec fn keys(&self) -> Seq<Seq<char>> {
        self.names@.map_values(|name: String| name@)
    }

    /// The values, each at the place of its name in [`Self::keys`].
    pub closed spec fn values(&self) -> Seq<V> {
        self.values@
    }

    /// Every name has its value, and the names are strictly increasing.
    pub open spec fn wf(&self) -> bool {
        &&& self.keys().len() == self.values().len()
        &&& strictly_increasing(self.keys())
    }

    /// The map holds an entry for `name`.
    pub open spec fn has(&self, name: Seq<char>) -> bool {
        self.keys().contains(name)
    }

    /// The value held for `name`, where there is one.
    pub open spec fn at(&self, name: Seq<char>) -> V {
        self.values()[rank(self.keys(), name)]
    }

    /// The entries as a mathematical map.
    pub open spec fn as_map(&self) -> Map<Seq<char>, V> {
        map_of(self.keys(), self.values())
    }

    /// An empty map.
    pub fn new() -> (map: Self)
        ensures
            map.wf(),
            map.keys() == Seq::<Seq<char>>::empty(),
            map.values() == Seq::<V>::empty(),
    {
        NameMap { names: Vec::new(), values: Vec::new() }
    }

    /// The number of entries.
    pub fn len(&self) -> (n: usize)
        requires
            self.wf(),
        ensures
            n == self.keys().len(),
    {
        self.names.len()
    }

    /// Whether the map holds no entry.
    pub fn is_empty(&self) -> (empty: bool)
        requires
            self.wf(),
        ensures
            empty == (self.keys().len() == 0),
    {
        self.names.len() == 0
    }

    /// The name of the entry at place `i`.
    pub fn key_at(&self, i: usize) -> (name: &String)
        requires
            self.wf(),
            i < self.keys().len(),
        ensures
            name@ == self.keys()[i as int],
    {
        &self.names[i]
    }

    /// The value of the entry at place `i`.
    pub fn value_at(&self, i: usize) -> (value: &V)
        requires
            self.wf(),
            i < self.keys().len(),
        ensures
            *value == self.values()[i as int],
    {
        &self.values[i]
    }

    /// The value of the entry at place `i`, to be changed in place.
    pub fn value_at_mut(&mut self, i: usize) -> (value: &mut V)
        requires
            old(self).wf(),
            i < old(self).keys().len(),
        ensures
            *value == old(self).values()[i as int],
            final(self).keys() == old(self).keys(),
            final(self).values() == old(self).values().update(i as int, *final(value)),
            final(self).wf(),
    {
        &mut self.values[i]
    }

    /// The place where `name` stands or would have to be put: the number of
    /// names that sort before it.
    pub fn lower_bound(&self, name: &String) -> (place: usize)
        requires
            self.wf(),
        ensures
            place == rank(self.keys(), name@),
            place <= self.keys().len(),
    {
        let mut i: usize = 0;
        proof {
            lemma_rank_sorted(self.keys(), name@);
        }
        while i < self.names.len()
            invariant
                self.wf(),
                i <= self.names.len(),
                i <= rank(self.keys(), name@) <= self.keys().len(),
                forall|k: int| rank(self.keys(), name@) <= k < self.keys().len() ==> !name_before(
                    #[trigger] self.keys()[k],
                    name@,
                ),
            decreases self.names.len() - i,
        {
            if !name_precedes(&self.names[i], name) {
                assert(self.keys()[i as int] == self.names[i as int]@);
                proof {
                    lemma_rank_sorted(self.keys(), name@);
                }
                return i;
            }
            assert(self.keys()[i as int] == self.names[i as int]@);
            i = i + 1;
        }
        i
    }

    /// The place of the entry of `name`, if the map holds one.
    pub fn find(&self, name: &String) -> (place: Option<usize>)
        requires
            self.wf(),
        ensures
            match place {
                Some(i) => i < self.keys().len() && self.keys()[i as int] == name@ && i == rank(
                    self.keys(),
                    name@,
                ),
                None => !self.has(name@),
            },
    {
        let i = self.lower_bound(name);
        proof {
            lemma_rank_sorted(self.keys(), name@);
        }
        if i < self.names.len() {
            if self.names[i] == *name {
                return Some(i);
            }
        }
        None
    }

    /// Whether the map holds an entry for `name`.
    pub fn contains_key(&self, name: &String) -> (found: bool)
        requires
            self.wf(),
        ensures
            found == self.has(name@),
    {
        self.find(name).is_some()
    }

    /// The value held for `name`, if there is one.
    pub fn get(&self, name: &String) -> (value: Option<&V>)
        requires
            self.wf(),
        ensures
            match value {
                Some(v) => self.has(name@) && *v == self.at(name@),
                None => !self.has(name@),
            },
    {
        match self.find(name) {
            Some(i) => Some(&self.values[i]),
            None => None,
        }
    }

    /// Puts `value` in under `name`, in place of the value that the name had
    /// before, which is handed back.
    pub fn insert(&mut self, name: String, value: V) -> (previous: Option<V>)
        requires
            old(self).wf(),
        ensures
            final(self).wf(),
            final(self).keys() == keys_with(old(self).keys(), name@),
            final(self).values() == values_with(old(self).keys(), old(self).values(), name@, value),
            final(self).as_map() == old(self).as_map().insert(name@, value),
            previous == if old(self).has(name@) {
                Some(old(self).at(name@))
            } else {
                None
            },
    {
        let i = self.lower_bound(&name);
        proof {
            lemma_rank_sorted(self.keys(), name@);
            lemma_keys_with_sorted(self.keys(), name@);
            lemma_map_of_with(self.keys(), self.values(), name@, value);
        }
        let mut present = false;
        if i < self.names.len() {
            present = self.names[i] == name;
        }
        if present {
            let mut value = value;
            std::mem::swap(&mut self.values[i], &mut value);
            Some(value)
        } else {
            let ghost before = self.keys();
            self.names.insert(i, name);
            self.values.insert(i, value);
            assert(self.keys() =~= before.insert(i as int, name@));
            None
        }
    }

    /// Takes the entry at place `i` out and hands it back.
    pub fn remove_at(&mut self, i: usize) -> (entry: (String, V))
        requires
            old(self).wf(),
            i < old(self).keys().len(),
        ensures
            final(self).wf(),
            final(self).keys() == old(self).keys().remove(i as int),
            final(self).values() == old(self).values().remove(i as int),
            final(self).as_map() == old(self).as_map().remove(old(self).keys()[i as int]),
            entry.0@ == old(self).keys()[i as int],
            entry.1 == old(self).values()[i as int],
    {
        let ghost before = self.keys();
        proof {
            lemma_remove_sorted(before, i as int);
            lemma_map_of_remove(before, self.values(), i as int);
        }
        let name = self.names.remove(i);
        let value = self.values.remove(i);
        assert(self.keys() =~= before.remove(i as int));
        (name, value)
    }

    /// Takes the entry of `name` out and hands its value back, if there is
    /// one.
    pub fn remove(&mut self, name: &String) -> (previous: Option<V>)
        requires
            old(self).wf(),
        ensures
            final(self).wf(),
            final(self).keys() == keys_without(old(self).keys(), name@),
            final(self).values() == values_without(old(self).keys(), old(self).values(), name@),
            final(self).as_map() == old(self).as_map().remove(name@),
            !final(self).has(name@),
            previous == if old(self).has(name@) {
                Some(old(self).at(name@))
            } else {
                None
            },
    {
        match self.find(name) {
            Some(i) => {
                proof {
                    lemma_remove_sorted(self.keys(), i as int);
                }
                let entry = self.remove_at(i);
                Some(entry.1)
            },
            None => {
                None
            },
        }
    }

    /// Takes every entry out.
    pub fn clear(&mut self)
        ensures
            final(self).wf(),
            final(self).keys() == Seq::<Seq<char>>::empty(),
            final(self).values() == Seq::<V>::empty(),
    {
        self.names.clear();
        self.values.clear();
    }

    /// Keeps the entries whose flag in `keep` is set and drops the others.
    pub fn retain_flagged(&mut self, keep: &Vec<bool>)
        requires
            old(self).wf(),
            keep@.len() == old(self).keys().len(),
        ensures
            final(self).wf(),
            final(self).keys() == kept(old(self).keys(), keep@),
            final(self).values() == kept(old(self).values(), keep@),
    {
        let ghost keys0 = self.keys();
        let ghost values0 = self.values();
        let n = keep.len();
        let mut i: usize = 0;
        let mut j: usize = 0;
        while i < n
            invariant
                self.wf(),
                n == keep@.len(),
                n == keys0.len(),
                n == values0.len(),
                j <= i <= n,
                self.keys().len() == j + (n - i),
                self.keys().take(j as int) == kept(keys0.take(i as int), keep@.take(i as int)),
                self.values().take(j as int) == kept(values0.take(i as int), keep@.take(i as int)),
                self.keys().skip(j as int) == keys0.skip(i as int),
                self.values().skip(j as int) == values0.skip(i as int),
            decreases n - i,
        {
            assert(keys0.take(i + 1).drop_last() =~= keys0.take(i as int));
            assert(values0.take(i + 1).drop_last() =~= values0.take(i as int));
            assert(keep@.take(i + 1).drop_last() =~= keep@.take(i as int));
            assert(keys0[i as int] == keys0.skip(i as int)[0]);
            assert(values0[i as int] == values0.skip(i as int)[0]);
            if keep[i] {
                assert(keys0.skip(i + 1) =~= keys0.skip(i as int).drop_first());
                assert(values0.skip(i + 1) =~= values0.skip(i as int).drop_first());
                j = j + 1;
            } else {
                let _ = self.remove_at(j);
                assert(keys0.skip(i + 1) =~= keys0.skip(i as int).drop_first());
                assert(values0.skip(i + 1) =~= values0.skip(i as int).drop_first());
            }
            i = i + 1;
        }
        assert(keys0.take(n as int) =~= keys0);
        assert(values0.take(n as int) =~= values0);
        assert(keep@.take(n as int) =~= keep@);
    }
}

} // verus!
