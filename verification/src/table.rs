use vstd::prelude::*;
use crate::text::str_eq;

verus! {

/// Whether no two entries have the same key.
pub open spec fn distinct_keys<V>(entries: Seq<(String, V)>) -> bool {
    forall|i: int, j: int|
        0 <= i < j < entries.len() ==> (#[trigger] entries[i]).0@ != (#[trigger] entries[j]).0@
}

/// The value that is entered under `key`, if there is one.
pub open spec fn lookup<V>(entries: Seq<(String, V)>, key: Seq<char>) -> Option<V>
    decreases entries.len(),
{
    if entries.len() == 0 {
        None
    } else if entries.last().0@ == key {
        Some(entries.last().1)
    } else {
        lookup(entries.drop_last(), key)
    }
}

/// Where no entry has the key, nothing is entered under it.
pub proof fn lemma_lookup_absent<V>(entries: Seq<(String, V)>, key: Seq<char>)
    requires
        forall|j: int| 0 <= j < entries.len() ==> (#[trigger] entries[j]).0@ != key,
    ensures
        lookup(entries, key) is None,
    decreases entries.len(),
{
    if entries.len() > 0 {
        assert(entries[entries.len() - 1].0@ != key);
        let before = entries.drop_last();
        assert forall|j: int| 0 <= j < before.len() implies (#[trigger] before[j]).0@ != key by {
            assert(before[j] == entries[j]);
        }
        lemma_lookup_absent(before, key);
    }
}

/// Where keys are distinct, an entry's value is what is entered under its key.
pub proof fn lemma_lookup_found<V>(entries: Seq<(String, V)>, i: int)
    requires
        distinct_keys(entries),
        0 <= i < entries.len(),
    ensures
        lookup(entries, entries[i].0@) == Some(entries[i].1),
    decreases entries.len(),
{
    let last = entries.len() - 1;
    if i < last {
        assert(entries[i].0@ != entries[last].0@);
        let before = entries.drop_last();
        assert(before[i] == entries[i]);
        assert forall|a: int, b: int| 0 <= a < b < before.len() implies (#[trigger] before[a]).0@ != (
        #[trigger] before[b]).0@ by {
            assert(before[a] == entries[a]);
            assert(before[b] == entries[b]);
        }
        lemma_lookup_found(before, i);
    }
}

/// Two lists with the same keys in the same places hold the same under `key`
/// where they agree on the values of the entries with that key.
pub proof fn lemma_lookup_agrees<V>(a: Seq<(String, V)>, b: Seq<(String, V)>, key: Seq<char>)
    requires
        a.len() == b.len(),
        forall|j: int| 0 <= j < a.len() ==> (#[trigger] a[j]).0@ == b[j].0@,
        forall|j: int| 0 <= j < a.len() && (#[trigger] a[j]).0@ == key ==> a[j].1 == b[j].1,
    ensures
        lookup(a, key) == lookup(b, key),
    decreases a.len(),
{
    if a.len() > 0 {
        let last = a.len() - 1;
        assert(a[last].0@ == b[last].0@);
        if a[last].0@ != key {
            let a0 = a.drop_last();
            let b0 = b.drop_last();
            assert forall|j: int| 0 <= j < a0.len() implies (#[trigger] a0[j]).0@ == b0[j].0@ by {
                assert(a0[j] == a[j]);
                assert(b0[j] == b[j]);
            }
            assert forall|j: int| 0 <= j < a0.len() && (#[trigger] a0[j]).0@ == key implies a0[j].1
                == b0[j].1 by {
                assert(a0[j] == a[j]);
                assert(b0[j] == b[j]);
            }
            lemma_lookup_agrees(a0, b0, key);
        }
    }
}

/// A table of values under text keys, each key entered at most once.
pub struct Table<V> {
    entries: Vec<(String, V)>,
}

impl<V> Table<V> {
    /// No key is entered twice.
    pub closed spec fn wf(&self) -> bool {
        distinct_keys(self.entries@)
    }

    /// The value entered under `key`, if there is one.
    pub closed spec fn value_at(&self, key: Seq<char>) -> Option<V> {
        lookup(self.entries@, key)
    }

    /// A table without entries.
    pub fn new() -> (table: Table<V>)
        ensures
            table.wf(),
            forall|key: Seq<char>| table.value_at(key) is None,
    {
        Table { entries: Vec::new() }
    }

    /// The place of the entry with the key, if there is one.
    fn place_of(&self, key: &str) -> (place: Option<usize>)
        requires
            self.wf(),
        ensures
            match place {
                Some(i) => i < self.entries@.len() && self.entries@[i as int].0@ == key@
                    && lookup(self.entries@, key@) == Some(self.entries@[i as int].1),
                None => lookup(self.entries@, key@) is None,
            },
    {
        let mut i: usize = 0;
        while i < self.entries.len()
            invariant
                i <= self.entries@.len(),
                distinct_keys(self.entries@),
                forall|j: int| 0 <= j < i ==> (#[trigger] self.entries@[j]).0@ != key@,
            decreases self.entries.len() - i,
        {
            if str_eq(self.entries[i].0.as_str(), key) {
                proof {
                    lemma_lookup_found(self.entries@, i as int);
                }
                return Some(i);
            }
            i = i + 1;
        }
        proof {
            lemma_lookup_absent(self.entries@, key@);
        }
        None
    }

    /// The value entered under `key`, if there is one.
    pub fn get(&self, key: &str) -> (value: Option<&V>)
        requires
            self.wf(),
        ensures
            match value {
                Some(found) => self.value_at(key@) == Some(*found),
                None => self.value_at(key@) is None,
            },
    {
        match self.place_of(key) {
            Some(i) => Some(&self.entries[i].1),
            None => None,
        }
    }

    /// Enters `value` under `key`, in place of what was entered there before.
    pub fn insert(&mut self, key: String, value: V)
        requires
            old(self).wf(),
        ensures
            final(self).wf(),
            final(self).value_at(key@) == Some(value),
            forall|other: Seq<char>| other != key@ ==> final(self).value_at(other) == old(
                self,
            ).value_at(other),
    {
        let ghost before = self.entries@;
        match self.place_of(key.as_str()) {
            Some(i) => {
                self.entries[i] = (key, value);
                proof {
                    let after = self.entries@;
                    assert(after == before.update(i as int, (key, value)));
                    assert forall|a: int, b: int| 0 <= a < b < after.len() implies (
                    #[trigger] after[a]).0@ != (#[trigger] after[b]).0@ by {
                        assert(after[a].0@ == before[a].0@);
                        assert(after[b].0@ == before[b].0@);
                    }
                    lemma_lookup_found(after, i as int);
                    assert forall|other: Seq<char>| other != key@ implies lookup(after, other)
                        == lookup(before, other) by {
                        lemma_lookup_agrees(after, before, other);
                    }
                }
            },
            None => {
                self.entries.push((key, value));
                proof {
                    let after = self.entries@;
                    assert(after.drop_last() =~= before);
                    assert forall|a: int, b: int| 0 <= a < b < after.len() implies (
                    #[trigger] after[a]).0@ != (#[trigger] after[b]).0@ by {
                        if b == before.len() {
                            assert(after[a] == before[a]);
                            if before[a].0@ == key@ {
                                lemma_lookup_found(before, a);
                            }
                        } else {
                            assert(after[a] == before[a]);
                            assert(after[b] == before[b]);
                        }
                    }
                }
            },
        }
    }
}

} // verus!
