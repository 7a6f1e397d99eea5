//! A small map with text keys, kept as a list in which no key occurs
//! twice. It holds the pending requests of a session under their nonces
//! and the live isolates under their identifiers.

use vstd::prelude::*;

verus! {

/// One key with what is kept under it.
pub struct Entry<V> {
    pub key: String,
    pub value: V,
}

/// Whether no key occurs twice among `entries`.
pub open spec fn distinct_keys<V>(entries: Seq<Entry<V>>) -> bool {
    forall|i: int, j: int|
        0 <= i < entries.len() && 0 <= j < entries.len() && i != j
            ==> entries[i].key@ != entries[j].key@
}

/// Whether some entry carries `key`.
pub open spec fn has_key<V>(entries: Seq<Entry<V>>, key: Seq<char>) -> bool {
    exists|i: int| 0 <= i < entries.len() && #[trigger] entries[i].key@ == key
}

/// The place of an entry that carries `key`.
pub open spec fn place_of<V>(entries: Seq<Entry<V>>, key: Seq<char>) -> int {
    choose|i: int| 0 <= i < entries.len() && #[trigger] entries[i].key@ == key
}

/// The entries as a map from key to value.
pub open spec fn map_of<V>(entries: Seq<Entry<V>>) -> Map<Seq<char>, V> {
    Map::new(
        |key: Seq<char>| has_key(entries, key),
        |key: Seq<char>| entries[place_of(entries, key)].value,
    )
}

/// With distinct keys, the entry at place `i` is the one that its key
/// leads to.
pub proof fn lemma_place_of_entry<V>(entries: Seq<Entry<V>>, i: int)
    requires
        distinct_keys(entries),
        0 <= i < entries.len(),
    ensures
        has_key(entries, entries[i].key@),
        place_of(entries, entries[i].key@) == i,
{
    assert(entries[i].key@ == entries[i].key@);
}

/// Appending an entry with a new key adds that key to the map.
pub proof fn lemma_map_push<V>(entries: Seq<Entry<V>>, entry: Entry<V>)
    requires
        distinct_keys(entries),
        !has_key(entries, entry.key@),
    ensures
        distinct_keys(entries.push(entry)),
        map_of(entries.push(entry)) == map_of(entries).insert(entry.key@, entry.value),
{
    let longer = entries.push(entry);
    assert forall|i: int, j: int|
        0 <= i < longer.len() && 0 <= j < longer.len() && i != j implies longer[i].key@
        != longer[j].key@ by {
        if i < entries.len() && j < entries.len() {
            assert(longer[i] == entries[i] && longer[j] == entries[j]);
        } else if i < entries.len() {
            assert(entries[i].key@ == longer[i].key@);
        } else {
            assert(entries[j].key@ == longer[j].key@);
        }
    }
    let grown = map_of(entries).insert(entry.key@, entry.value);
    assert forall|key: Seq<char>| has_key(longer, key) <==> grown.dom().contains(
        key,
    ) by {
        if has_key(longer, key) {
            let i = place_of(longer, key);
            if i < entries.len() {
                assert(entries[i].key@ == key);
            }
        }
        if grown.dom().contains(key) {
            if key == entry.key@ {
                assert(longer[entries.len() as int].key@ == key);
            } else {
                let i = place_of(entries, key);
                assert(longer[i].key@ == key);
            }
        }
    }
    assert forall|key: Seq<char>| has_key(longer, key) implies map_of(longer)[key]
        == grown[key] by {
        let i = place_of(longer, key);
        if i < entries.len() {
            assert(entries[i].key@ == key);
            lemma_place_of_entry(entries, i);
        } else {
            assert(key == entry.key@);
        }
    }
    assert(map_of(longer) =~= grown);
}

/// Taking the entry at place `i` away removes its key from the map.
pub proof fn lemma_map_remove<V>(entries: Seq<Entry<V>>, i: int)
    requires
        distinct_keys(entries),
        0 <= i < entries.len(),
    ensures
        distinct_keys(entries.remove(i)),
        !has_key(entries.remove(i), entries[i].key@),
        map_of(entries.remove(i)) == map_of(entries).remove(entries[i].key@),
        map_of(entries)[entries[i].key@] == entries[i].value,
{
    let shorter = entries.remove(i);
    let gone = entries[i].key@;
    lemma_place_of_entry(entries, i);
    assert forall|a: int| 0 <= a < shorter.len() implies #[trigger] shorter[a] == entries[if a
        < i {
        a
    } else {
        a + 1
    }] by {}
    assert forall|a: int, b: int|
        0 <= a < shorter.len() && 0 <= b < shorter.len() && a != b implies shorter[a].key@
        != shorter[b].key@ by {
        let a0 = if a < i { a } else { a + 1 };
        let b0 = if b < i { b } else { b + 1 };
        assert(shorter[a] == entries[a0] && shorter[b] == entries[b0]);
    }
    if has_key(shorter, gone) {
        let a = place_of(shorter, gone);
        let a0 = if a < i { a } else { a + 1 };
        assert(shorter[a] == entries[a0]);
        assert(false);
    }
    let rest = map_of(entries).remove(gone);
    assert forall|key: Seq<char>| has_key(shorter, key) <==> rest.dom().contains(
        key,
    ) by {
        if has_key(shorter, key) {
            let a = place_of(shorter, key);
            let a0 = if a < i { a } else { a + 1 };
            assert(shorter[a] == entries[a0]);
            assert(entries[a0].key@ == key);
        }
        if rest.dom().contains(key) {
            let b = place_of(entries, key);
            assert(b != i);
            let a = if b < i { b } else { b - 1 };
            assert(shorter[a] == entries[b]);
            assert(shorter[a].key@ == key);
        }
    }
    assert forall|key: Seq<char>| has_key(shorter, key) implies map_of(shorter)[key]
        == rest[key] by {
        let a = place_of(shorter, key);
        let a0 = if a < i { a } else { a + 1 };
        assert(shorter[a] == entries[a0]);
        lemma_place_of_entry(entries, a0);
    }
    assert(map_of(shorter) =~= rest);
}

/// With distinct keys, the map holds as many keys as there are entries.
pub proof fn lemma_map_len<V>(entries: Seq<Entry<V>>)
    requires
        distinct_keys(entries),
    ensures
        map_of(entries).dom().finite(),
        map_of(entries).dom().len() == entries.len(),
    decreases entries.len(),
{
    if entries.len() == 0 {
        assert(map_of(entries).dom() =~= Set::<Seq<char>>::empty());
    } else {
        let init = entries.drop_last();
        let last = entries.last();
        assert(entries =~= init.push(last));
        assert forall|i: int, j: int|
            0 <= i < init.len() && 0 <= j < init.len() && i != j implies init[i].key@
            != init[j].key@ by {
            assert(init[i] == entries[i] && init[j] == entries[j]);
        }
        if has_key(init, last.key@) {
            let i = place_of(init, last.key@);
            assert(init[i] == entries[i]);
            assert(entries[entries.len() - 1].key@ == last.key@);
            assert(false);
        }
        lemma_map_len(init);
        lemma_map_push(init, last);
        assert(map_of(entries).dom() =~= map_of(init).dom().insert(last.key@));
    }
}

/// A map from text keys to values.
pub struct StringMap<V> {
    entries: Vec<Entry<V>>,
}

impl<V> StringMap<V> {
    /// The entries in the order in which they are kept.
    pub closed spec fn entries(&self) -> Seq<Entry<V>> {
        self.entries@
    }

    /// Whether no key is held twice. Every map that this module hands out
    /// is well formed, and its methods keep it so.
    pub open spec fn wf(&self) -> bool {
        distinct_keys(self.entries())
    }

    /// What is kept under each key.
    pub open spec fn view(&self) -> Map<Seq<char>, V> {
        map_of(self.entries())
    }

    /// How many keys are held.
    pub open spec fn count(&self) -> nat {
        self.entries().len()
    }

    /// The empty map.
    pub fn new() -> (map: Self)
        ensures
            map.wf(),
            map@ == Map::<Seq<char>, V>::empty(),
            map.count() == 0,
    {
        let map = StringMap { entries: Vec::new() };
        assert(map@ =~= Map::<Seq<char>, V>::empty());
        map
    }

    /// How many keys are held.
    pub fn len(&self) -> (n: usize)
        ensures
            n == self.count(),
    {
        self.entries.len()
    }

    /// A well-formed map holds as many keys as its view has.
    pub proof fn lemma_count_is_len(&self)
        requires
            self.wf(),
        ensures
            self@.dom().finite(),
            self@.dom().len() == self.count(),
    {
        lemma_map_len(self.entries());
    }

    /// The place of the entry under `key`, if there is one.
    fn position(&self, key: &String) -> (place: Option<usize>)
        ensures
            match place {
                Some(i) => i < self.entries@.len() && self.entries@[i as int].key@ == key@,
                None => !has_key(self.entries@, key@),
            },
    {
        let mut i: usize = 0;
        while i < self.entries.len()
            invariant
                i <= self.entries@.len(),
                forall|j: int| 0 <= j < i ==> self.entries@[j].key@ != key@,
            decreases self.entries@.len() - i,
        {
            if self.entries[i].key == *key {
                return Some(i);
            }
            i += 1;
        }
        None
    }

    /// Whether something is kept under `key`.
    pub fn contains(&self, key: &String) -> (found: bool)
        requires
            self.wf(),
        ensures
            found == self@.contains_key(key@),
    {
        self.position(key).is_some()
    }

    /// What is kept under `key`, if anything is.
    pub fn get(&self, key: &String) -> (value: Option<&V>)
        requires
            self.wf(),
        ensures
            match value {
                Some(v) => self@.contains_key(key@) && self@[key@] == *v,
                None => !self@.contains_key(key@),
            },
    {
        match self.position(key) {
            Some(i) => {
                proof {
                    lemma_place_of_entry(self.entries@, i as int);
                }
                Some(&self.entries[i].value)
            },
            None => None,
        }
    }

    /// The entry at place `i`.
    pub fn entry_at(&self, i: usize) -> (entry: &Entry<V>)
        requires
            i < self.count(),
        ensures
            *entry == self.entries()[i as int],
    {
        &self.entries[i]
    }

    /// Puts `value` under `key`. What was kept under the same key before
    /// is dropped.
    pub fn insert(&mut self, key: String, value: V)
        requires
            old(self).wf(),
        ensures
            final(self).wf(),
            final(self)@ == old(self)@.insert(key@, value),
            final(self).count() == if old(self)@.contains_key(key@) {
                old(self).count()
            } else {
                old(self).count() + 1
            },
    {
        if let Some(i) = self.position(&key) {
            proof {
                lemma_map_remove(self.entries@, i as int);
            }
            let _ = self.entries.remove(i);
        }
        let entry = Entry { key, value };
        proof {
            lemma_map_push(self.entries@, entry);
            assert(old(self)@.remove(entry.key@).insert(entry.key@, entry.value)
                =~= old(self)@.insert(entry.key@, entry.value));
        }
        self.entries.push(entry);
    }

    /// Takes out what is kept under `key`, if anything is.
    pub fn remove(&mut self, key: &String) -> (value: Option<V>)
        requires
            old(self).wf(),
        ensures
            final(self).wf(),
            final(self)@ == old(self)@.remove(key@),
            match value {
                Some(value) => old(self)@.contains_key(key@) && old(self)@[key@] == value
                    && final(self).count() + 1 == old(self).count(),
                None => !old(self)@.contains_key(key@)
                    && final(self).count() == old(self).count(),
            },
    {
        match self.position(key) {
            Some(i) => {
                proof {
                    lemma_map_remove(self.entries@, i as int);
                }
                let entry = self.entries.remove(i);
                Some(entry.value)
            },
            None => {
                assert(old(self)@.remove(key@) =~= old(self)@);
                None
            },
        }
    }
}

} // verus!
