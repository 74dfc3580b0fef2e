//! The usage ledger: calls counted per calendar-date key.

use vstd::prelude::*;

verus! {

/// The counts that a list of (date key, count) entries gives; a later entry
/// for a key replaces an earlier one.
pub open spec fn entries_map(entries: Seq<(String, u64)>) -> Map<Seq<char>, u64>
    decreases entries.len(),
{
    if entries.len() == 0 {
        Map::empty()
    } else {
        entries_map(entries.drop_last()).insert(entries.last().0@, entries.last().1)
    }
}

/// Whether no two entries share a date key.
pub open spec fn keys_distinct(entries: Seq<(String, u64)>) -> bool {
    forall|i: int, j: int| 0 <= i < j < entries.len() ==> entries[i].0@ != entries[j].0@
}

/// The count that `usage` holds for `day`, 0 where it holds none.
pub open spec fn usage_at(usage: Map<Seq<char>, u64>, day: Seq<char>) -> u64 {
    if usage.contains_key(day) {
        usage[day]
    } else {
        0
    }
}

proof fn lemma_entries_map_lookup(entries: Seq<(String, u64)>, i: int)
    requires
        keys_distinct(entries),
        0 <= i < entries.len(),
    ensures
        entries_map(entries).contains_key(entries[i].0@),
        entries_map(entries)[entries[i].0@] == entries[i].1,
    decreases entries.len(),
{
    if i < entries.len() - 1 {
        lemma_entries_map_lookup(entries.drop_last(), i);
    }
}

proof fn lemma_entries_map_absent(entries: Seq<(String, u64)>, key: Seq<char>)
    requires
        forall|i: int| 0 <= i < entries.len() ==> entries[i].0@ != key,
    ensures
        !entries_map(entries).contains_key(key),
    decreases entries.len(),
{
    if entries.len() > 0 {
        lemma_entries_map_absent(entries.drop_last(), key);
    }
}

proof fn lemma_entries_map_update(entries: Seq<(String, u64)>, i: int, entry: (String, u64))
    requires
        keys_distinct(entries),
        0 <= i < entries.len(),
        entry.0@ == entries[i].0@,
    ensures
        entries_map(entries.update(i, entry)) == entries_map(entries).insert(entry.0@, entry.1),
    decreases entries.len(),
{
    let updated = entries.update(i, entry);
    if i == entries.len() - 1 {
        assert(updated.drop_last() =~= entries.drop_last());
        assert(entries_map(updated) =~= entries_map(entries).insert(entry.0@, entry.1));
    } else {
        assert(updated.drop_last() =~= entries.drop_last().update(i, entry));
        lemma_entries_map_update(entries.drop_last(), i, entry);
        assert(entries_map(updated) =~= entries_map(entries).insert(entry.0@, entry.1));
    }
}

proof fn lemma_entries_map_push(entries: Seq<(String, u64)>, entry: (String, u64))
    ensures
        entries_map(entries.push(entry)) == entries_map(entries).insert(entry.0@, entry.1),
{
    assert(entries.push(entry).drop_last() =~= entries);
}

/// Calls counted per date key. A key is added lazily on its first count.
#[derive(Debug)]
pub struct UsageLedger {
    entries: Vec<(String, u64)>,
}

impl View for UsageLedger {
    type V = Map<Seq<char>, u64>;

    closed spec fn view(&self) -> Map<Seq<char>, u64> {
        entries_map(self.entries@)
    }
}

impl UsageLedger {
    #[verifier::type_invariant]
    spec fn distinct_keys(self) -> bool {
        keys_distinct(self.entries@)
    }

    /// A ledger with no counts.
    pub fn new() -> (r: UsageLedger)
        ensures
            r@ == Map::<Seq<char>, u64>::empty(),
    {
        UsageLedger { entries: Vec::new() }
    }

    fn position(&self, day: &str) -> (r: Option<usize>)
        ensures
            r matches Some(i) ==> i < self.entries@.len() && self.entries@[i as int].0@ == day@,
            r is None ==> forall|i: int|
                0 <= i < self.entries@.len() ==> self.entries@[i].0@ != day@,
    {
        let key = day.to_owned();
        let mut i: usize = 0;
        while i < self.entries.len()
            invariant
                i <= self.entries@.len(),
                key@ == day@,
                forall|j: int| 0 <= j < i ==> self.entries@[j].0@ != day@,
            decreases self.entries@.len() - i,
        {
            if self.entries[i].0 == key {
                return Some(i);
            }
            i = i + 1;
        }
        None
    }

    /// The count for `day`, 0 where none was recorded.
    pub fn get_usage(&self, day: &str) -> (r: u64)
        ensures
            r == usage_at(self@, day@),
    {
        proof {
            use_type_invariant(self);
        }
        match self.position(day) {
            Some(i) => {
                proof {
                    lemma_entries_map_lookup(self.entries@, i as int);
                }
                self.entries[i].1
            },
            None => {
                proof {
                    lemma_entries_map_absent(self.entries@, day@);
                }
                0
            },
        }
    }

    /// Records `count` for `day`, replacing any earlier count for it.
    pub fn set_usage(&mut self, day: &str, count: u64)
        ensures
            final(self)@ == old(self)@.insert(day@, count),
    {
        proof {
            use_type_invariant(&*self);
        }
        let entry = (day.to_owned(), count);
        let found = self.position(day);
        let mut entries: Vec<(String, u64)> = Vec::new();
        std::mem::swap(&mut self.entries, &mut entries);
        match found {
            Some(i) => {
                proof {
                    lemma_entries_map_update(entries@, i as int, entry);
                }
                entries.set(i, entry);
            },
            None => {
                proof {
                    lemma_entries_map_push(entries@, entry);
                }
                entries.push(entry);
            },
        }
        self.entries = entries;
    }

    /// The ledger that a list of (date key, count) entries describes; a later
    /// entry for a key wins.
    pub fn from_entries(entries: &Vec<(String, u64)>) -> (r: UsageLedger)
        ensures
            r@ == entries_map(entries@),
    {
        let mut ledger = UsageLedger::new();
        let mut i: usize = 0;
        while i < entries.len()
            invariant
                i <= entries@.len(),
                ledger@ == entries_map(entries@.subrange(0, i as int)),
            decreases entries@.len() - i,
        {
            ledger.set_usage(entries[i].0.as_str(), entries[i].1);
            proof {
                assert(entries@.subrange(0, i + 1).drop_last() =~= entries@.subrange(0, i as int));
            }
            i = i + 1;
        }
        assert(entries@.subrange(0, entries@.len() as int) =~= entries@);
        ledger
    }

    /// The ledger's counts as (date key, count) entries, one per key.
    pub fn to_entries(&self) -> (r: Vec<(String, u64)>)
        ensures
            entries_map(r@) == self@,
            keys_distinct(r@),
    {
        proof {
            use_type_invariant(self);
        }
        let mut out: Vec<(String, u64)> = Vec::new();
        let mut i: usize = 0;
        while i < self.entries.len()
            invariant
                i <= self.entries@.len(),
                out@ =~= self.entries@.subrange(0, i as int),
            decreases self.entries@.len() - i,
        {
            let day = self.entries[i].0.clone();
            out.push((day, self.entries[i].1));
            i = i + 1;
        }
        assert(self.entries@.subrange(0, self.entries@.len() as int) =~= self.entries@);
        out
    }
}

} // verus!
