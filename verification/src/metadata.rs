//! Metadata of a context item: JSON values under distinct string keys.
//!
//! The entries keep the order in which their keys were first inserted, so
//! that everything done key by key has one outcome.

use vstd::prelude::*;
use crate::text::same_text;

verus! {

/// One key with its value.
#[derive(Debug, Clone)]
pub struct MetadataEntry {
    pub key: String,
    pub value: serde_json::Value,
}

/// Position of the first entry of `entries` under `key`, or `-1`.
pub open spec fn position_of(entries: Seq<MetadataEntry>, key: Seq<char>) -> int
    decreases entries.len(),
{
    if entries.len() == 0 {
        -1
    } else if entries[0].key@ == key {
        0
    } else {
        let rest = position_of(entries.drop_first(), key);
        if rest < 0 {
            -1
        } else {
            rest + 1
        }
    }
}

/// No two entries share a key.
pub open spec fn distinct_keys(entries: Seq<MetadataEntry>) -> bool {
    forall|i: int, j: int|
        0 <= i < j < entries.len() ==> (#[trigger] entries[i]).key@ != (#[trigger] entries[j]).key@
}

/// The value that `entries` holds under `key`.
pub open spec fn lookup(entries: Seq<MetadataEntry>, key: Seq<char>) -> Option<serde_json::Value> {
    let at = position_of(entries, key);
    if at < 0 {
        None
    } else {
        Some(entries[at].value)
    }
}

/// `entries` with `value` under `key`: in the place of the entry that had
/// the key, or at the end.
pub open spec fn with_entry(
    entries: Seq<MetadataEntry>,
    key: String,
    value: serde_json::Value,
) -> Seq<MetadataEntry> {
    let at = position_of(entries, key@);
    if at < 0 {
        entries.push(MetadataEntry { key, value })
    } else {
        entries.update(at, MetadataEntry { key: entries[at].key, value })
    }
}

/// `base` with every entry of `newer` written over it, in order.
pub open spec fn merged(base: Seq<MetadataEntry>, newer: Seq<MetadataEntry>) -> Seq<MetadataEntry>
    decreases newer.len(),
{
    if newer.len() == 0 {
        base
    } else {
        with_entry(merged(base, newer.drop_last()), newer.last().key, newer.last().value)
    }
}

/// The position of a key is that of the first entry under it, and is
/// negative where no entry is under it.
pub proof fn lemma_position_of(entries: Seq<MetadataEntry>, key: Seq<char>)
    ensures
        -1 <= position_of(entries, key) < entries.len(),
        position_of(entries, key) >= 0 ==> entries[position_of(entries, key)].key@ == key,
        forall|i: int|
            0 <= i < entries.len() && (position_of(entries, key) < 0 || i < position_of(
                entries,
                key,
            )) ==> (#[trigger] entries[i]).key@ != key,
    decreases entries.len(),
{
    if entries.len() > 0 && entries[0].key@ != key {
        let rest = entries.drop_first();
        lemma_position_of(rest, key);
        assert forall|i: int|
            0 <= i < entries.len() && (position_of(entries, key) < 0 || i < position_of(
                entries,
                key,
            )) implies (#[trigger] entries[i]).key@ != key by {
            if i > 0 {
                assert(entries[i] == rest[i - 1]);
            }
        }
    }
}

/// The first entry under a key is found at the place where it stands.
pub proof fn lemma_position_found(entries: Seq<MetadataEntry>, key: Seq<char>, at: int)
    requires
        0 <= at < entries.len(),
        entries[at].key@ == key,
        forall|i: int| 0 <= i < at ==> (#[trigger] entries[i]).key@ != key,
    ensures
        position_of(entries, key) == at,
{
    lemma_position_of(entries, key);
}

/// Writing an entry keeps the keys distinct, puts the value under its key
/// and leaves every other key as it was.
pub proof fn lemma_with_entry(entries: Seq<MetadataEntry>, key: String, value: serde_json::Value)
    requires
        distinct_keys(entries),
    ensures
        distinct_keys(with_entry(entries, key, value)),
        lookup(with_entry(entries, key, value), key@) == Some(value),
        forall|other: Seq<char>|
            other != key@ ==> lookup(with_entry(entries, key, value), other) == lookup(
                entries,
                other,
            ),
{
    let after = with_entry(entries, key, value);
    let at = position_of(entries, key@);
    lemma_position_of(entries, key@);
    if at < 0 {
        lemma_position_found(after, key@, entries.len() as int);
    } else {
        lemma_position_found(after, key@, at);
    }
    assert forall|other: Seq<char>| other != key@ implies lookup(after, other) == lookup(
        entries,
        other,
    ) by {
        lemma_position_of(entries, other);
        let p = position_of(entries, other);
        if p >= 0 {
            assert forall|i: int| 0 <= i < p implies (#[trigger] after[i]).key@ != other by {
                assert(after[i].key@ == entries[i].key@);
            }
            lemma_position_found(after, other, p);
        } else {
            lemma_position_of(after, other);
            let q = position_of(after, other);
            if q >= 0 {
                if q < entries.len() {
                    assert(after[q].key@ == entries[q].key@);
                }
            }
        }
    }
}

/// Merging keeps the keys distinct.
pub proof fn lemma_merged_distinct(base: Seq<MetadataEntry>, newer: Seq<MetadataEntry>)
    requires
        distinct_keys(base),
    ensures
        distinct_keys(merged(base, newer)),
    decreases newer.len(),
{
    if newer.len() > 0 {
        lemma_merged_distinct(base, newer.drop_last());
        lemma_with_entry(merged(base, newer.drop_last()), newer.last().key, newer.last().value);
    }
}

/// After a merge a key holds the newer value where there is one, else the
/// value it had.
pub proof fn lemma_merged_lookup(
    base: Seq<MetadataEntry>,
    newer: Seq<MetadataEntry>,
    key: Seq<char>,
)
    requires
        distinct_keys(base),
        distinct_keys(newer),
    ensures
        lookup(merged(base, newer), key) == if lookup(newer, key) is Some {
            lookup(newer, key)
        } else {
            lookup(base, key)
        },
    decreases newer.len(),
{
    if newer.len() > 0 {
        let front = newer.drop_last();
        let last = newer.last();
        assert(distinct_keys(front)) by {
            assert forall|i: int, j: int| 0 <= i < j < front.len() implies (#[trigger] front[i]).key@
                != (#[trigger] front[j]).key@ by {
                assert(front[i] == newer[i] && front[j] == newer[j]);
            }
        }
        lemma_merged_lookup(base, front, key);
        lemma_merged_distinct(base, front);
        lemma_with_entry(merged(base, front), last.key, last.value);
        lemma_position_of(newer, key);
        lemma_position_of(front, key);
        if last.key@ == key {
            lemma_position_found(newer, key, newer.len() - 1);
        } else {
            let p = position_of(front, key);
            if p >= 0 {
                assert(newer[p] == front[p]);
                assert forall|i: int| 0 <= i < p implies (#[trigger] newer[i]).key@ != key by {
                    assert(newer[i] == front[i]);
                }
                lemma_position_found(newer, key, p);
            } else {
                let q = position_of(newer, key);
                if q >= 0 {
                    assert(newer[q] == front[q]);
                }
            }
        }
    }
}

/// Metadata of a context item.
#[derive(Debug)]
pub struct Metadata {
    entries: Vec<MetadataEntry>,
}

impl Metadata {
    #[verifier::type_invariant]
    spec fn keys_are_distinct(self) -> bool {
        distinct_keys(self.entries@)
    }

    /// The entries, in the order in which their keys came.
    pub closed spec fn entries(self) -> Seq<MetadataEntry> {
        self.entries@
    }

    /// The value under `key`.
    pub open spec fn value_of(self, key: Seq<char>) -> Option<serde_json::Value> {
        lookup(self.entries(), key)
    }

    /// Metadata without entries.
    pub fn new() -> (metadata: Metadata)
        ensures
            metadata.entries() == Seq::<MetadataEntry>::empty(),
    {
        Metadata { entries: Vec::new() }
    }

    /// Number of entries.
    pub fn len(&self) -> (n: usize)
        ensures
            n == self.entries().len(),
    {
        self.entries.len()
    }

    /// The entry at position `i`.
    pub fn entry(&self, i: usize) -> (entry: &MetadataEntry)
        requires
            i < self.entries().len(),
        ensures
            *entry == self.entries()[i as int],
    {
        &self.entries[i]
    }

    fn find(&self, key: &str) -> (at: Option<usize>)
        ensures
            match at {
                Some(i) => i < self.entries().len() && position_of(self.entries(), key@) == i,
                None => position_of(self.entries(), key@) < 0,
            },
    {
        let mut i: usize = 0;
        while i < self.entries.len()
            invariant
                i <= self.entries.len(),
                forall|j: int| 0 <= j < i ==> (#[trigger] self.entries@[j]).key@ != key@,
            decreases self.entries.len() - i,
        {
            if same_text(self.entries[i].key.as_str(), key) {
                proof {
                    lemma_position_found(self.entries@, key@, i as int);
                }
                return Some(i);
            }
            i = i + 1;
        }
        proof {
            lemma_position_of(self.entries@, key@);
        }
        None
    }

    /// The value under `key`, if there is one.
    pub fn get(&self, key: &str) -> (found: Option<&serde_json::Value>)
        ensures
            match found {
                Some(value) => self.value_of(key@) == Some(*value),
                None => self.value_of(key@) is None,
            },
    {
        match self.find(key) {
            Some(i) => Some(&self.entries[i].value),
            None => None,
        }
    }

    /// Puts `value` under `key`, in the place of what the key held.
    pub fn insert(&mut self, key: String, value: serde_json::Value)
        ensures
            final(self).entries() == with_entry(old(self).entries(), key, value),
    {
        proof {
            use_type_invariant(&*self);
            lemma_with_entry(self.entries@, key, value);
        }
        let found = self.find(key.as_str());
        let mut entries: Vec<MetadataEntry> = Vec::new();
        core::mem::swap(&mut self.entries, &mut entries);
        match found {
            Some(i) => {
                let previous = entries.remove(i);
                entries.insert(i, MetadataEntry { key: previous.key, value });
                assert(entries@ =~= with_entry(old(self).entries@, key, value));
            },
            None => {
                entries.push(MetadataEntry { key, value });
            },
        }
        core::mem::swap(&mut self.entries, &mut entries);
    }

    /// Writes every entry of `newer` over this metadata: a key of `newer`
    /// takes its value, every other key keeps its own.
    pub fn merge(&mut self, newer: &Metadata)
        ensures
            final(self).entries() == merged(old(self).entries(), newer.entries()),
    {
        let mut i: usize = 0;
        while i < newer.entries.len()
            invariant
                i <= newer.entries.len(),
                self.entries() == merged(old(self).entries(), newer.entries@.take(i as int)),
            decreases newer.entries.len() - i,
        {
            let entry = &newer.entries[i];
            proof {
                assert(newer.entries@.take(i + 1).drop_last() =~= newer.entries@.take(i as int));
            }
            self.insert(entry.key.clone(), entry.value.clone());
            i = i + 1;
        }
        assert(newer.entries@.take(newer.entries@.len() as int) =~= newer.entries@);
    }
}

impl Clone for Metadata {
    fn clone(&self) -> (copy: Self)
        ensures
            copy.entries() == self.entries(),
    {
        proof {
            use_type_invariant(self);
        }
        let mut entries: Vec<MetadataEntry> = Vec::new();
        let mut i: usize = 0;
        while i < self.entries.len()
            invariant
                i <= self.entries.len(),
                entries@ == self.entries@.take(i as int),
            decreases self.entries.len() - i,
        {
            let entry = &self.entries[i];
            entries.push(MetadataEntry { key: entry.key.clone(), value: entry.value.clone() });
            assert(entries@ =~= self.entries@.take(i + 1));
            i = i + 1;
        }
        assert(self.entries@.take(self.entries@.len() as int) =~= self.entries@);
        Metadata { entries }
    }
}

} // verus!
