//! A small keyed store: the map abstraction behind the registries and ledgers.

use vstd::prelude::*;

verus! {

/// A key of a [`Store`]: two keys can be compared, and are the same key iff
/// their views are equal.
pub trait StoreKey: View + Sized {
    /// Whether two keys have the same view.
    fn same_key(&self, other: &Self) -> (same: bool)
        ensures
            same == (self@ == other@),
    ;
}

impl StoreKey for String {
    fn same_key(&self, other: &Self) -> (same: bool) {
        *self == *other
    }
}

impl StoreKey for (String, String) {
    fn same_key(&self, other: &Self) -> (same: bool) {
        self.0 == other.0 && self.1 == other.1
    }
}

/// The map that a sequence of entries stands for: a later entry overrides an
/// earlier one with the same key.
pub open spec fn entries_map<K: View, V>(entries: Seq<(K, V)>) -> Map<K::V, V>
    decreases entries.len(),
{
    if entries.len() == 0 {
        Map::empty()
    } else {
        entries_map(entries.drop_last()).insert(entries.last().0@, entries.last().1)
    }
}

/// Appending an entry inserts it into the map.
proof fn lemma_entries_map_push<K: View, V>(entries: Seq<(K, V)>, key: K, value: V)
    ensures
        entries_map(entries.push((key, value))) == entries_map(entries).insert(key@, value),
{
    let pushed = entries.push((key, value));
    assert(pushed.drop_last() =~= entries);
    assert(pushed.last() == (key, value));
}

/// A key that no entry has is not in the map.
proof fn lemma_entries_map_absent<K: View, V>(entries: Seq<(K, V)>, key: K::V)
    requires
        forall|i: int| 0 <= i < entries.len() ==> (#[trigger] entries[i]).0@ != key,
    ensures
        !entries_map(entries).contains_key(key),
    decreases entries.len(),
{
    if entries.len() > 0 {
        let front = entries.drop_last();
        assert forall|i: int| 0 <= i < front.len() implies (#[trigger] front[i]).0@ != key by {
            assert(front[i] == entries[i]);
        }
        lemma_entries_map_absent(front, key);
        assert(entries.last() == entries[entries.len() - 1]);
    }
}

/// The last entry with a given key decides what the map holds for it.
proof fn lemma_entries_map_last_match<K: View, V>(entries: Seq<(K, V)>, at: int)
    requires
        0 <= at < entries.len(),
        forall|i: int| at < i < entries.len() ==> (#[trigger] entries[i]).0@ != entries[at].0@,
    ensures
        entries_map(entries).contains_key(entries[at].0@),
        entries_map(entries)[entries[at].0@] == entries[at].1,
    decreases entries.len(),
{
    let front = entries.drop_last();
    if at < entries.len() - 1 {
        assert(front[at] == entries[at]);
        assert forall|i: int| at < i < front.len() implies (#[trigger] front[i]).0@
            != front[at].0@ by {
            assert(front[i] == entries[i]);
        }
        lemma_entries_map_last_match(front, at);
        assert(entries.last() == entries[entries.len() - 1]);
    }
}

/// Dropping one entry with a given key changes nothing but what the map holds for that key.
proof fn lemma_entries_map_drop_entry<K: View, V>(entries: Seq<(K, V)>, at: int)
    requires
        0 <= at < entries.len(),
    ensures
        entries_map(entries.remove(at)).remove(entries[at].0@) == entries_map(entries).remove(
            entries[at].0@,
        ),
    decreases entries.len(),
{
    let key = entries[at].0@;
    let front = entries.drop_last();
    let last = entries.last();
    if at == entries.len() - 1 {
        assert(entries.remove(at) =~= front);
        assert(entries_map(front).insert(key, last.1).remove(key) =~= entries_map(front).remove(
            key,
        ));
    } else {
        let shorter = entries.remove(at);
        assert(shorter.drop_last() =~= front.remove(at));
        assert(shorter.last() == last);
        assert(front[at] == entries[at]);
        lemma_entries_map_drop_entry(front, at);
        let a = entries_map(front.remove(at));
        let b = entries_map(front);
        assert(a.remove(key) == b.remove(key));
        if last.0@ == key {
            assert(a.insert(last.0@, last.1).remove(key) =~= a.remove(key));
            assert(b.insert(last.0@, last.1).remove(key) =~= b.remove(key));
        } else {
            assert(a.insert(last.0@, last.1).remove(key) =~= a.remove(key).insert(
                last.0@,
                last.1,
            ));
            assert(b.insert(last.0@, last.1).remove(key) =~= b.remove(key).insert(
                last.0@,
                last.1,
            ));
        }
    }
}

/// A finite map from keys to values, held as a list of entries.
pub struct Store<K, V> {
    entries: Vec<(K, V)>,
}

impl<K: StoreKey, V> View for Store<K, V> {
    type V = Map<K::V, V>;

    closed spec fn view(&self) -> Map<K::V, V> {
        entries_map(self.entries@)
    }
}

impl<K: StoreKey, V> Store<K, V> {
    /// A store without entries.
    pub fn new() -> (store: Self)
        ensures
            store@ == Map::<K::V, V>::empty(),
    {
        Store { entries: Vec::new() }
    }

    /// The value saved under `key`, if there is one.
    pub fn may_load(&self, key: &K) -> (found: Option<&V>)
        ensures
            match found {
                Some(value) => self@.contains_key(key@) && self@[key@] == *value,
                None => !self@.contains_key(key@),
            },
    {
        let mut i: usize = self.entries.len();
        while i > 0
            invariant
                i <= self.entries.len(),
                forall|j: int| i <= j < self.entries.len() ==> (#[trigger] self.entries@[j]).0@ != key@,
            decreases i,
        {
            i = i - 1;
            if self.entries[i].0.same_key(key) {
                proof {
                    lemma_entries_map_last_match(self.entries@, i as int);
                }
                return Some(&self.entries[i].1);
            }
        }
        proof {
            lemma_entries_map_absent(self.entries@, key@);
        }
        None
    }

    /// Whether a value is saved under `key`.
    pub fn has(&self, key: &K) -> (present: bool)
        ensures
            present == self@.contains_key(key@),
    {
        self.may_load(key).is_some()
    }

    /// Saves `value` under `key`, replacing what was saved there.
    pub fn save(&mut self, key: K, value: V)
        ensures
            final(self)@ == old(self)@.insert(key@, value),
    {
        proof {
            lemma_entries_map_push(self.entries@, key, value);
        }
        self.entries.push((key, value));
    }

    /// Removes what is saved under `key`, if anything.
    pub fn remove(&mut self, key: &K)
        ensures
            final(self)@ == old(self)@.remove(key@),
    {
        let mut i: usize = 0;
        while i < self.entries.len()
            invariant
                i <= self.entries.len(),
                entries_map(self.entries@).remove(key@) == old(self)@.remove(key@),
                forall|j: int| 0 <= j < i ==> (#[trigger] self.entries@[j]).0@ != key@,
            decreases self.entries.len() - i,
        {
            if self.entries[i].0.same_key(key) {
                proof {
                    lemma_entries_map_drop_entry(self.entries@, i as int);
                }
                self.entries.remove(i);
            } else {
                i = i + 1;
            }
        }
        proof {
            lemma_entries_map_absent(self.entries@, key@);
            assert(entries_map(self.entries@).remove(key@) =~= entries_map(self.entries@));
        }
    }
}

} // verus!
