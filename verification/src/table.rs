//! A small map from text keys to values that keeps the order of insertion.

use vstd::prelude::*;
use crate::text;

verus! {

/// A map from text to `V`, held as a list of entries. When a key occurs more
/// than once, the first entry counts.
#[derive(Debug, PartialEq, Eq)]
pub struct Table<V> {
    pub entries: Vec<(String, V)>,
}

/// The position of the first entry with key `k`, if there is one.
pub open spec fn slot_of<V>(entries: Seq<(String, V)>, k: Seq<char>) -> Option<int>
    decreases entries.len(),
{
    if entries.len() == 0 {
        None
    } else {
        match slot_of(entries.drop_last(), k) {
            Some(i) => Some(i),
            None => if entries.last().0@ == k {
                Some(entries.len() - 1)
            } else {
                None
            },
        }
    }
}

/// The map that a list of entries stands for.
pub open spec fn map_of<V>(entries: Seq<(String, V)>) -> Map<Seq<char>, V> {
    Map::new(
        |k: Seq<char>| slot_of(entries, k) is Some,
        |k: Seq<char>| entries[slot_of(entries, k)->0].1,
    )
}

/// The value under `k` in a map, if any.
pub open spec fn lookup<V>(m: Map<Seq<char>, V>, k: Seq<char>) -> Option<V> {
    if m.contains_key(k) {
        Some(m[k])
    } else {
        None
    }
}

/// The keys of a list of entries.
pub open spec fn keys_of<V>(entries: Seq<(String, V)>) -> Seq<Seq<char>> {
    entries.map_values(|e: (String, V)| e.0@)
}

impl<V> View for Table<V> {
    type V = Map<Seq<char>, V>;

    open spec fn view(&self) -> Map<Seq<char>, V> {
        map_of(self.entries@)
    }
}

/// A slot lies inside the list, holds its key, and nothing before it does;
/// without a slot no entry holds the key.
pub proof fn lemma_slot<V>(entries: Seq<(String, V)>, k: Seq<char>)
    ensures
        match slot_of(entries, k) {
            Some(i) => 0 <= i < entries.len() && entries[i].0@ == k && forall|j: int|
                0 <= j < i ==> (#[trigger] entries[j]).0@ != k,
            None => forall|j: int| 0 <= j < entries.len() ==> (#[trigger] entries[j]).0@ != k,
        },
    decreases entries.len(),
{
    if entries.len() > 0 {
        let front = entries.drop_last();
        lemma_slot(front, k);
        assert forall|j: int| 0 <= j < entries.len() - 1 implies (#[trigger] entries[j])
            == front[j] by {}
        match slot_of(front, k) {
            Some(i) => {
                assert(entries[i] == front[i]);
            },
            None => {},
        }
    }
}

/// An index that holds the key with nothing before it holding it is the slot.
pub proof fn lemma_slot_is<V>(entries: Seq<(String, V)>, k: Seq<char>, i: int)
    requires
        0 <= i < entries.len(),
        entries[i].0@ == k,
        forall|j: int| 0 <= j < i ==> (#[trigger] entries[j]).0@ != k,
    ensures
        slot_of(entries, k) == Some(i),
{
    lemma_slot(entries, k);
}

impl<V> Table<V> {
    /// The keys in order of insertion.
    pub open spec fn keys(&self) -> Seq<Seq<char>> {
        keys_of(self.entries@)
    }

    /// No key occurs twice.
    pub open spec fn distinct(&self) -> bool {
        forall|i: int, j: int|
            0 <= i < j < self.entries@.len() ==> (#[trigger] self.entries@[i]).0@ != (
            #[trigger] self.entries@[j]).0@
    }

    /// A table without entries.
    pub fn new() -> (r: Self)
        ensures
            r@ == Map::<Seq<char>, V>::empty(),
            r.entries@.len() == 0,
            r.distinct(),
    {
        let r = Table { entries: Vec::new() };
        proof {
            assert(r@ =~= Map::<Seq<char>, V>::empty());
        }
        r
    }

    /// The position of the entry for `k`.
    pub fn position(&self, k: &str) -> (r: Option<usize>)
        ensures
            match r {
                Some(i) => slot_of(self.entries@, k@) == Some(i as int) && i < self.entries@.len(),
                None => slot_of(self.entries@, k@) is None,
            },
    {
        let mut i: usize = 0;
        while i < self.entries.len()
            invariant
                i <= self.entries@.len(),
                forall|j: int| 0 <= j < i ==> (#[trigger] self.entries@[j]).0@ != k@,
            decreases self.entries@.len() - i,
        {
            if text::same(self.entries[i].0.as_str(), k) {
                proof {
                    lemma_slot_is(self.entries@, k@, i as int);
                }
                return Some(i);
            }
            i += 1;
        }
        proof {
            lemma_slot(self.entries@, k@);
        }
        None
    }

    /// Whether there is an entry for `k`.
    pub fn contains_key(&self, k: &str) -> (r: bool)
        ensures
            r == self@.contains_key(k@),
    {
        self.position(k).is_some()
    }

    /// The value for `k`.
    pub fn get(&self, k: &str) -> (r: Option<&V>)
        ensures
            match r {
                Some(v) => self@.contains_key(k@) && *v == self@[k@],
                None => !self@.contains_key(k@),
            },
    {
        match self.position(k) {
            Some(i) => Some(&self.entries[i].1),
            None => None,
        }
    }

    /// The value for `k`, to be changed in place.
    pub fn get_mut(&mut self, k: &str) -> (r: Option<&mut V>)
        ensures
            match r {
                Some(v) => {
                    &&& old(self)@.contains_key(k@)
                    &&& *v == old(self)@[k@]
                    &&& final(self)@ == old(self)@.insert(k@, *final(v))
                    &&& final(self).keys() == old(self).keys()
                },
                None => !old(self)@.contains_key(k@) && *final(self) == *old(self),
            },
    {
        match self.position(k) {
            Some(i) => {
                let ghost before = self.entries@;
                proof {
                    lemma_slot(before, k@);
                    assert forall|v: V|
                        map_of(#[trigger] before.update(i as int, (before[i as int].0, v)))
                            == map_of(before).insert(k@, v) && keys_of(
                            before.update(i as int, (before[i as int].0, v)),
                        ) == keys_of(before) by {
                        lemma_update(before, i as int, v);
                    }
                }
                Some(&mut self.entries[i].1)
            },
            None => None,
        }
    }

    /// Puts `v` under `k`, over a value that was there.
    pub fn insert(&mut self, k: String, v: V)
        ensures
            final(self)@ == old(self)@.insert(k@, v),
            old(self).distinct() ==> final(self).distinct(),
            final(self).keys() == (if old(self)@.contains_key(k@) {
                old(self).keys()
            } else {
                old(self).keys().push(k@)
            }),
    {
        let ghost before = self.entries@;
        match self.position(k.as_str()) {
            Some(i) => {
                proof {
                    lemma_slot(before, k@);
                    lemma_update(before, i as int, v);
                }
                self.entries[i].1 = v;
                proof {
                    assert(self.entries@ =~= before.update(i as int, (before[i as int].0, v)));
                }
            },
            None => {
                proof {
                    lemma_slot(before, k@);
                    lemma_push(before, k, v);
                }
                self.entries.push((k, v));
            },
        }
    }

    /// Takes every entry for `k` out.
    pub fn remove(&mut self, k: &str)
        ensures
            final(self)@ == old(self)@.remove(k@),
            old(self).distinct() ==> final(self).distinct(),
    {
        let ghost before = self.entries@;
        let mut i: usize = 0;
        let ghost mut kept: Seq<int> = Seq::new(before.len(), |j: int| j);
        proof {
            assert forall|j: int| 0 <= j < before.len() implies kept.contains(j) by {
                assert(kept[j] == j);
            }
        }
        while i < self.entries.len()
            invariant
                i <= self.entries@.len(),
                kept.len() == self.entries@.len(),
                picks(before, kept, self.entries@),
                forall|j: int| 0 <= j < i ==> (#[trigger] self.entries@[j]).0@ != k@,
                drops_only(before, kept, k@),
            decreases self.entries@.len() - i,
        {
            if text::same(self.entries[i].0.as_str(), k) {
                let ghost now = self.entries@;
                let ghost was = kept;
                let _gone = self.entries.remove(i);
                proof {
                    kept = was.remove(i as int);
                    assert(picks(before, kept, self.entries@)) by {
                        assert forall|a: int| 0 <= a < kept.len() implies 0 <= (
                        #[trigger] kept[a]) < before.len() && self.entries@[a] == before[kept[a]] by {
                            if a < i {
                                assert(kept[a] == was[a]);
                            } else {
                                assert(kept[a] == was[a + 1]);
                            }
                        }
                        assert forall|a: int, b: int| 0 <= a < b < kept.len() implies (
                        #[trigger] kept[a]) < (#[trigger] kept[b]) by {
                            let aa = if a < i { a } else { a + 1 };
                            let bb = if b < i { b } else { b + 1 };
                            assert(kept[a] == was[aa] && kept[b] == was[bb]);
                        }
                    }
                    assert(drops_only(before, kept, k@)) by {
                        assert forall|j: int| 0 <= j < before.len() && (#[trigger] before[j]).0@
                            != k@ implies kept.contains(j) by {
                            assert(was.contains(j));
                            let a = choose|a: int| 0 <= a < was.len() && was[a] == j;
                            assert(a != i);
                            if a < i {
                                assert(kept[a] == j);
                            } else {
                                assert(kept[a - 1] == j);
                            }
                        }
                    }
                }
            } else {
                i += 1;
            }
        }
        proof {
            lemma_remove(before, kept, self.entries@, k@);
        }
    }
}

/// `after` is the part of `before` at the rising positions `kept`.
pub open spec fn picks<V>(
    before: Seq<(String, V)>,
    kept: Seq<int>,
    after: Seq<(String, V)>,
) -> bool {
    &&& kept.len() == after.len()
    &&& forall|a: int|
        0 <= a < kept.len() ==> 0 <= (#[trigger] kept[a]) < before.len() && after[a]
            == before[kept[a]]
    &&& forall|a: int, b: int|
        0 <= a < b < kept.len() ==> (#[trigger] kept[a]) < (#[trigger] kept[b])
}

/// Every position of `before` with another key than `k` is among `kept`.
pub open spec fn drops_only<V>(before: Seq<(String, V)>, kept: Seq<int>, k: Seq<char>) -> bool {
    forall|j: int| 0 <= j < before.len() && (#[trigger] before[j]).0@ != k ==> kept.contains(j)
}

proof fn lemma_remove<V>(
    before: Seq<(String, V)>,
    kept: Seq<int>,
    after: Seq<(String, V)>,
    k: Seq<char>,
)
    requires
        picks(before, kept, after),
        drops_only(before, kept, k),
        forall|j: int| 0 <= j < after.len() ==> (#[trigger] after[j]).0@ != k,
    ensures
        map_of(after) == map_of(before).remove(k),
        (forall|i: int, j: int|
            0 <= i < j < before.len() ==> (#[trigger] before[i]).0@ != (#[trigger] before[j]).0@)
            ==> (forall|i: int, j: int|
            0 <= i < j < after.len() ==> (#[trigger] after[i]).0@ != (#[trigger] after[j]).0@),
{
    let ma = map_of(after);
    let mb = map_of(before);
    assert forall|q: Seq<char>| #[trigger] ma.contains_key(q) == mb.remove(k).contains_key(q)
        && (ma.contains_key(q) ==> ma[q] == mb.remove(k)[q]) by {
        lemma_slot(after, q);
        lemma_slot(before, q);
        if q == k {
            assert(!ma.contains_key(q));
        } else if slot_of(before, q) is Some {
            let j = slot_of(before, q)->0;
            assert(before[j].0@ == q);
            assert(kept.contains(j));
            let a = choose|a: int| 0 <= a < kept.len() && kept[a] == j;
            assert(after[a] == before[j]);
            assert forall|c: int| 0 <= c < a implies (#[trigger] after[c]).0@ != q by {
                assert(after[c] == before[kept[c]]);
                assert(kept[c] < kept[a]);
            }
            lemma_slot_is(after, q, a);
        } else {
            assert forall|c: int| 0 <= c < after.len() implies (#[trigger] after[c]).0@ != q by {
                assert(after[c] == before[kept[c]]);
            }
        }
    }
    assert(ma =~= mb.remove(k));
    if forall|i: int, j: int|
        0 <= i < j < before.len() ==> (#[trigger] before[i]).0@ != (#[trigger] before[j]).0@ {
        assert forall|i: int, j: int| 0 <= i < j < after.len() implies (#[trigger] after[i]).0@ != (
        #[trigger] after[j]).0@ by {
            assert(after[i] == before[kept[i]] && after[j] == before[kept[j]]);
            assert(kept[i] < kept[j]);
        }
    }
}

proof fn lemma_update<V>(before: Seq<(String, V)>, i: int, v: V)
    requires
        0 <= i < before.len(),
        slot_of(before, before[i].0@) == Some(i),
    ensures
        ({
            let after = before.update(i, (before[i].0, v));
            let k = before[i].0@;
            &&& map_of(after) == map_of(before).insert(k, v)
            &&& keys_of(after) == keys_of(before)
        }),
{
    let after = before.update(i, (before[i].0, v));
    let k = before[i].0@;
    let ma = map_of(after);
    let mb = map_of(before);
    assert forall|q: Seq<char>| slot_of(after, q) == #[trigger] slot_of(before, q) by {
        lemma_slot(before, q);
        lemma_slot(after, q);
        assert forall|j: int| 0 <= j < before.len() implies (#[trigger] before[j]).0@
            == after[j].0@ by {}
        match slot_of(before, q) {
            Some(j) => {
                assert(after[j].0@ == before[j].0@);
                assert forall|c: int| 0 <= c < j implies (#[trigger] after[c]).0@ != q by {
                    assert(before[c].0@ != q);
                }
                lemma_slot_is(after, q, j);
            },
            None => {
                match slot_of(after, q) {
                    Some(j) => {
                        assert(before[j].0@ == after[j].0@);
                    },
                    None => {},
                }
            },
        }
    }
    assert forall|q: Seq<char>| #[trigger] ma.contains_key(q) implies ma[q] == mb.insert(k, v)[q] by {
        lemma_slot(before, q);
        assert(slot_of(after, q) == slot_of(before, q));
    }
    assert(ma =~= mb.insert(k, v));
    assert(keys_of(after) =~= keys_of(before));
}

proof fn lemma_push<V>(before: Seq<(String, V)>, k: String, v: V)
    requires
        slot_of(before, k@) is None,
    ensures
        ({
            let after = before.push((k, v));
            &&& map_of(after) == map_of(before).insert(k@, v)
            &&& keys_of(after) == keys_of(before).push(k@)
        }),
{
    let after = before.push((k, v));
    let ma = map_of(after);
    let mb = map_of(before);
    assert(after.drop_last() =~= before);
    assert forall|q: Seq<char>| #[trigger] ma.contains_key(q) implies ma[q] == mb.insert(
        k@,
        v,
    )[q] by {
        lemma_slot(before, q);
    }
    assert(ma =~= mb.insert(k@, v));
    assert(keys_of(after) =~= keys_of(before).push(k@));
}

/// A value put under a key is read back, and no other key is touched.
pub proof fn law_insert_then_get<V>(before: Table<V>, after: Table<V>, k: Seq<char>, v: V)
    requires
        after@ == before@.insert(k, v),
    ensures
        after@.contains_key(k),
        after@[k] == v,
        forall|q: Seq<char>|
            q != k ==> #[trigger] after@.contains_key(q) == before@.contains_key(q) && (
            after@.contains_key(q) ==> after@[q] == before@[q]),
{
}

} // verus!
