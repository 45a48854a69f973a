//! The record of reviewed series: for each series that was replied to, the
//! indexes of its messages whose reply went out.

use vstd::prelude::*;

verus! {

/// One series and the indexes of its messages that were replied to.
pub struct ReviewedEntry {
    pub message_id: String,
    pub indexes: Vec<usize>,
}

/// The map that a sequence of entries stands for: each message identifier
/// with its indexes, a later entry taking the place of an earlier one.
pub open spec fn entries_map(entries: Seq<ReviewedEntry>) -> Map<Seq<char>, Seq<usize>>
    decreases entries.len(),
{
    if entries.len() == 0 {
        Map::empty()
    } else {
        entries_map(entries.drop_last()).insert(
            entries.last().message_id@,
            entries.last().indexes@,
        )
    }
}

/// No message identifier occurs in two entries.
pub open spec fn keys_unique(entries: Seq<ReviewedEntry>) -> bool {
    forall|i: int, j: int|
        0 <= i < j < entries.len() ==> entries[i].message_id@ != entries[j].message_id@
}

/// The map holds a message identifier exactly when an entry has it.
pub proof fn lemma_entries_map_dom(entries: Seq<ReviewedEntry>, key: Seq<char>)
    ensures
        entries_map(entries).dom().contains(key) <==> exists|i: int|
            0 <= i < entries.len() && entries[i].message_id@ == key,
    decreases entries.len(),
{
    if entries.len() > 0 {
        let front = entries.drop_last();
        lemma_entries_map_dom(front, key);
        if exists|i: int| 0 <= i < entries.len() && entries[i].message_id@ == key {
            let i = choose|i: int| 0 <= i < entries.len() && entries[i].message_id@ == key;
            if i < front.len() {
                assert(front[i].message_id@ == key);
            }
        }
    }
}

/// With unique keys, the map holds for each entry what the entry holds.
pub proof fn lemma_entries_map_at(entries: Seq<ReviewedEntry>, at: int)
    requires
        keys_unique(entries),
        0 <= at < entries.len(),
    ensures
        entries_map(entries).dom().contains(entries[at].message_id@),
        entries_map(entries)[entries[at].message_id@] == entries[at].indexes@,
    decreases entries.len(),
{
    if at < entries.len() - 1 {
        let front = entries.drop_last();
        lemma_entries_map_at(front, at);
    }
}

/// With unique keys, giving an entry new indexes is an insertion into the
/// map under the entry's key.
pub proof fn lemma_entries_map_update(
    entries: Seq<ReviewedEntry>,
    at: int,
    entry: ReviewedEntry,
)
    requires
        keys_unique(entries),
        0 <= at < entries.len(),
        entry.message_id@ == entries[at].message_id@,
    ensures
        keys_unique(entries.update(at, entry)),
        entries_map(entries.update(at, entry)) == entries_map(entries).insert(
            entry.message_id@,
            entry.indexes@,
        ),
    decreases entries.len(),
{
    let updated = entries.update(at, entry);
    let front = entries.drop_last();
    if at == entries.len() - 1 {
        assert(updated.drop_last() == front);
    } else {
        lemma_entries_map_update(front, at, entry);
        assert(updated.drop_last() == front.update(at, entry));
    }
}

/// `held` followed by the indexes of `returned` that it does not hold yet,
/// each of them once, in the order in which they are returned.
pub open spec fn merged_indexes(held: Seq<usize>, returned: Seq<usize>) -> Seq<usize>
    decreases returned.len(),
{
    if returned.len() == 0 {
        held
    } else {
        let before = merged_indexes(held, returned.drop_last());
        if before.contains(returned.last()) {
            before
        } else {
            before.push(returned.last())
        }
    }
}

/// The indexes kept under `key`; none where nothing is kept under it.
pub open spec fn indexes_under(reviewed: Map<Seq<char>, Seq<usize>>, key: Seq<char>) -> Seq<
    usize,
> {
    if reviewed.dom().contains(key) {
        reviewed[key]
    } else {
        Seq::empty()
    }
}

/// The record after `returned` was merged into what is kept under `key`:
/// nothing kept under `key` is lost, every returned index is kept under it,
/// and every other key is left alone.
pub open spec fn merged_under(
    reviewed: Map<Seq<char>, Seq<usize>>,
    key: Seq<char>,
    returned: Seq<usize>,
) -> Map<Seq<char>, Seq<usize>> {
    reviewed.insert(key, merged_indexes(indexes_under(reviewed, key), returned))
}

/// Merging keeps what was held where it was, holds an index exactly when it
/// was held or is returned, and repeats none that was not repeated before.
/// Merged into nothing, returned indexes without repeats are kept as they
/// come.
pub proof fn lemma_merged_indexes(held: Seq<usize>, returned: Seq<usize>, index: usize)
    ensures
        held.len() <= merged_indexes(held, returned).len(),
        merged_indexes(held, returned).take(held.len() as int) == held,
        merged_indexes(held, returned).contains(index) <==> held.contains(index)
            || returned.contains(index),
        held.no_duplicates() ==> merged_indexes(held, returned).no_duplicates(),
        held.len() == 0 && returned.no_duplicates() ==> merged_indexes(held, returned)
            == returned,
    decreases returned.len(),
{
    if returned.len() > 0 {
        let front = returned.drop_last();
        let before = merged_indexes(held, front);
        let all = merged_indexes(held, returned);
        lemma_merged_indexes(held, front, index);
        lemma_merged_indexes(held, front, returned.last());
        assert(all.take(held.len() as int) == before.take(held.len() as int));
        if all.contains(index) {
            let at = choose|at: int| 0 <= at < all.len() && all[at] == index;
            if at < before.len() {
                assert(before[at] == index);
            } else {
                assert(returned[returned.len() - 1] == index);
            }
        }
        if held.contains(index) || returned.contains(index) {
            if before.contains(index) {
                let at = choose|at: int| 0 <= at < before.len() && before[at] == index;
                assert(all[at] == index);
            } else {
                let at = choose|at: int| 0 <= at < returned.len() && returned[at] == index;
                if at < front.len() {
                    assert(front[at] == index);
                }
                assert(all[before.len() as int] == index);
            }
        }
        if held.len() == 0 && returned.no_duplicates() {
            if front.contains(returned.last()) {
                let at = choose|at: int| 0 <= at < front.len() && front[at] == returned.last();
                assert(returned[at] == returned[returned.len() - 1]);
            }
            assert(front.push(returned.last()) == returned);
        }
    } else {
        assert(held.take(held.len() as int) == held);
    }
}

/// Whether `indexes` holds `index`.
pub fn holds_index(indexes: &Vec<usize>, index: usize) -> (found: bool)
    ensures
        found == indexes@.contains(index),
{
    let mut i: usize = 0;
    while i < indexes.len()
        invariant
            i <= indexes.len(),
            forall|j: int| 0 <= j < i ==> indexes[j] != index,
        decreases indexes.len() - i,
    {
        if indexes[i] == index {
            return true;
        }
        i = i + 1;
    }
    false
}

/// The reviewed series, each under its message identifier.
pub struct ReviewedPatchsets {
    entries: Vec<ReviewedEntry>,
}

impl View for ReviewedPatchsets {
    type V = Map<Seq<char>, Seq<usize>>;

    closed spec fn view(&self) -> Map<Seq<char>, Seq<usize>> {
        entries_map(self.entries@)
    }
}

impl ReviewedPatchsets {
    /// No message identifier is held twice.
    pub closed spec fn wf(&self) -> bool {
        keys_unique(self.entries@)
    }

    /// What the entries hold, in the order in which they are kept.
    pub closed spec fn spec_entries(&self) -> Seq<ReviewedEntry> {
        self.entries@
    }

    pub fn new() -> (reviewed: ReviewedPatchsets)
        ensures
            reviewed.wf(),
            reviewed@ == Map::<Seq<char>, Seq<usize>>::empty(),
    {
        ReviewedPatchsets { entries: Vec::new() }
    }

    /// The entries, one for each message identifier, for a caller that
    /// writes the whole record down.
    pub fn entries(&self) -> (entries: &Vec<ReviewedEntry>)
        ensures
            entries@ == self.spec_entries(),
            entries_map(entries@) == self@,
            self.wf() ==> keys_unique(entries@),
    {
        &self.entries
    }

    fn position(&self, message_id: &String) -> (position: Option<usize>)
        ensures
            position is None <==> !self@.dom().contains(message_id@),
            position matches Some(at) ==> at < self.entries.len()
                && self.entries[at as int].message_id@ == message_id@,
    {
        let mut i: usize = 0;
        while i < self.entries.len()
            invariant
                i <= self.entries.len(),
                forall|j: int| 0 <= j < i ==> self.entries[j].message_id@ != message_id@,
            decreases self.entries.len() - i,
        {
            if self.entries[i].message_id == *message_id {
                proof {
                    lemma_entries_map_dom(self.entries@, message_id@);
                }
                return Some(i);
            }
            i = i + 1;
        }
        proof {
            lemma_entries_map_dom(self.entries@, message_id@);
        }
        None
    }

    /// The indexes kept under `message_id`, if any are.
    pub fn get(&self, message_id: &String) -> (indexes: Option<&Vec<usize>>)
        requires
            self.wf(),
        ensures
            indexes is Some <==> self@.dom().contains(message_id@),
            indexes matches Some(found) ==> found@ == self@[message_id@],
    {
        match self.position(message_id) {
            Some(at) => {
                proof {
                    lemma_entries_map_at(self.entries@, at as int);
                }
                Some(&self.entries[at].indexes)
            },
            None => None,
        }
    }

    /// Merges `indexes` into what is kept under `message_id`: what was kept
    /// stays, and each index that was not kept yet is added behind it.
    pub fn merge(&mut self, message_id: String, indexes: Vec<usize>)
        requires
            old(self).wf(),
        ensures
            final(self).wf(),
            final(self)@ == merged_under(old(self)@, message_id@, indexes@),
    {
        let mut merged: Vec<usize> = match self.get(&message_id) {
            Some(held) => held.clone(),
            None => Vec::new(),
        };
        let ghost held = merged@;
        let mut i: usize = 0;
        while i < indexes.len()
            invariant
                i <= indexes.len(),
                merged@ == merged_indexes(held, indexes@.take(i as int)),
            decreases indexes.len() - i,
        {
            proof {
                assert(indexes@.take(i + 1).drop_last() == indexes@.take(i as int));
            }
            if !holds_index(&merged, indexes[i]) {
                merged.push(indexes[i]);
            }
            i = i + 1;
        }
        proof {
            assert(indexes@.take(i as int) == indexes@);
        }
        self.insert(message_id, merged);
    }

    /// Keeps `indexes` under `message_id`, in place of what was kept under
    /// it before.
    pub fn insert(&mut self, message_id: String, indexes: Vec<usize>)
        requires
            old(self).wf(),
        ensures
            final(self).wf(),
            final(self)@ == old(self)@.insert(message_id@, indexes@),
    {
        let entry = ReviewedEntry { message_id, indexes };
        match self.position(&entry.message_id) {
            Some(at) => {
                proof {
                    lemma_entries_map_update(self.entries@, at as int, entry);
                }
                self.entries.set(at, entry);
            },
            None => {
                proof {
                    lemma_entries_map_dom(self.entries@, entry.message_id@);
                    assert(self.entries@.push(entry).drop_last() == self.entries@);
                }
                self.entries.push(entry);
            },
        }
    }
}

} // verus!
