//! The bookmarked series: an ordered collection in which no series occurs
//! twice, and a cursor over it.

use crate::cursor::{
    cursor_above, cursor_below, cursor_in_bounds, cursor_kept, step_above, step_below, step_kept,
};
use crate::patch::{patch_ids, Patch};
use vstd::prelude::*;

verus! {

/// What the bookmarked collection holds: the message identifiers of the
/// series, in order, and the index that the cursor stands on.
pub struct BookmarkedView {
    pub ids: Seq<Seq<char>>,
    pub index: int,
}

impl BookmarkedView {
    /// No series occurs twice, and the cursor stands within the collection.
    pub open spec fn wf(self) -> bool {
        &&& self.ids.no_duplicates()
        &&& cursor_in_bounds(self.index, self.ids.len() as int)
    }

    /// The collection with the series `id` bookmarked: added at the end,
    /// unless it is there already. The cursor stays.
    pub open spec fn bookmarked(self, id: Seq<char>) -> BookmarkedView {
        BookmarkedView { ids: with_bookmark(self.ids, id), ..self }
    }

    /// The collection with the series `id` unbookmarked: removed, if it is
    /// there. The cursor stays where it still stands on a series; else it
    /// goes to the last series, and to index 0 of an empty collection.
    pub open spec fn unbookmarked(self, id: Seq<char>) -> BookmarkedView {
        let ids = without_bookmark(self.ids, id);
        BookmarkedView { ids, index: cursor_kept(self.index, ids.len() as int) }
    }

    /// Whether the cursor stands on a series.
    pub open spec fn has_selection(self) -> bool {
        0 <= self.index < self.ids.len()
    }

    /// Message identifier of the series that the cursor stands on.
    pub open spec fn selected(self) -> Seq<char> {
        self.ids[self.index]
    }
}

/// The series that were bookmarked for later, and the cursor over them.
pub struct BookmarkedPatchsetsState {
    bookmarked_patchsets: Vec<Patch>,
    patchset_index: usize,
}

/// `ids` without the entries that repeat an earlier one.
pub open spec fn without_repeats(ids: Seq<Seq<char>>) -> Seq<Seq<char>>
    decreases ids.len(),
{
    if ids.len() == 0 {
        ids
    } else {
        let kept = without_repeats(ids.drop_last());
        if kept.contains(ids.last()) {
            kept
        } else {
            kept.push(ids.last())
        }
    }
}

/// `ids` with `id` added at the end, unless it is there already.
pub open spec fn with_bookmark(ids: Seq<Seq<char>>, id: Seq<char>) -> Seq<Seq<char>> {
    if ids.contains(id) {
        ids
    } else {
        ids.push(id)
    }
}

/// `ids` without the first entry equal to `id`.
pub open spec fn without_bookmark(ids: Seq<Seq<char>>, id: Seq<char>) -> Seq<Seq<char>> {
    match ids.index_of_first(id) {
        Some(at) => ids.remove(at),
        None => ids,
    }
}

impl View for BookmarkedPatchsetsState {
    type V = BookmarkedView;

    closed spec fn view(&self) -> BookmarkedView {
        BookmarkedView {
            ids: patch_ids(self.bookmarked_patchsets@),
            index: self.patchset_index as int,
        }
    }
}

impl BookmarkedPatchsetsState {
    /// No series occurs twice, and the cursor stands within the collection.
    pub open spec fn wf(&self) -> bool {
        self@.wf()
    }

    /// Whether the cursor stands on a series.
    pub open spec fn has_selection(&self) -> bool {
        self@.has_selection()
    }

    /// A collection of `patches` in their order, each series kept where it
    /// first occurs, with the cursor on index 0.
    pub fn new(patches: Vec<Patch>) -> (state: BookmarkedPatchsetsState)
        ensures
            state.wf(),
            state@.ids == without_repeats(patch_ids(patches@)),
            state@.index == 0,
    {
        let mut kept: Vec<Patch> = Vec::new();
        let mut i: usize = 0;
        while i < patches.len()
            invariant
                i <= patches.len(),
                patch_ids(kept@) == without_repeats(patch_ids(patches@.take(i as int))),
                patch_ids(kept@).no_duplicates(),
            decreases patches.len() - i,
        {
            proof {
                assert(patch_ids(patches@.take(i + 1)).drop_last() == patch_ids(
                    patches@.take(i as int),
                ));
            }
            if !contains_series(&kept, &patches[i]) {
                let ghost before = kept@;
                kept.push(patches[i].clone());
                proof {
                    assert(patch_ids(kept@) == patch_ids(before).push(patches[i as int]@));
                }
            }
            i = i + 1;
        }
        proof {
            assert(patches@.take(i as int) == patches@);
        }
        BookmarkedPatchsetsState { bookmarked_patchsets: kept, patchset_index: 0 }
    }

    /// The bookmarked series, in order.
    pub fn bookmarked_patchsets(&self) -> (patches: &Vec<Patch>)
        ensures
            patch_ids(patches@) == self@.ids,
    {
        &self.bookmarked_patchsets
    }

    /// The index that the cursor stands on.
    pub fn patchset_index(&self) -> (index: usize)
        ensures
            index == self@.index,
    {
        self.patchset_index
    }

    /// Whether the collection holds the series of `patch`.
    pub fn is_bookmarked(&self, patch: &Patch) -> (found: bool)
        ensures
            found == self@.ids.contains(patch@),
    {
        contains_series(&self.bookmarked_patchsets, patch)
    }

    /// Whether the cursor stands on a series, so that one can be selected.
    pub fn has_selected_patchset(&self) -> (selected: bool)
        ensures
            selected == self.has_selection(),
    {
        self.patchset_index < self.bookmarked_patchsets.len()
    }

    pub fn select_below_patchset(&mut self)
        ensures
            old(self).wf() ==> final(self).wf(),
            final(self)@.ids == old(self)@.ids,
            final(self)@.index == cursor_below(old(self)@.index, old(self)@.ids.len() as int),
    {
        self.patchset_index = step_below(self.patchset_index, self.bookmarked_patchsets.len());
    }

    pub fn select_above_patchset(&mut self)
        ensures
            old(self).wf() ==> final(self).wf(),
            final(self)@.ids == old(self)@.ids,
            final(self)@.index == cursor_above(old(self)@.index, 0),
    {
        self.patchset_index = step_above(self.patchset_index, 0);
    }

    /// The series that the cursor stands on.
    pub fn get_selected_patchset(&self) -> (patch: Patch)
        requires
            self.has_selection(),
        ensures
            patch@ == self@.selected(),
    {
        self.bookmarked_patchsets[self.patchset_index].clone()
    }

    /// Adds the series of `patch_to_bookmark` at the end, unless the
    /// collection holds it already. The cursor stays.
    pub fn bookmark_selected_patch(&mut self, patch_to_bookmark: &Patch)
        ensures
            old(self).wf() ==> final(self).wf(),
            final(self)@ == old(self)@.bookmarked(patch_to_bookmark@),
    {
        if !contains_series(&self.bookmarked_patchsets, patch_to_bookmark) {
            let ghost before = self.bookmarked_patchsets@;
            self.bookmarked_patchsets.push(patch_to_bookmark.clone());
            proof {
                assert(patch_ids(self.bookmarked_patchsets@) == patch_ids(before).push(
                    patch_to_bookmark@,
                ));
            }
        }
    }

    /// Removes the series of `patch_to_unbookmark`, if the collection holds
    /// it. The cursor stays where it still stands on a series; where the
    /// collection has become too short for it, it goes to the last series.
    pub fn unbookmark_selected_patch(&mut self, patch_to_unbookmark: &Patch)
        ensures
            old(self).wf() ==> final(self).wf(),
            final(self)@ == old(self)@.unbookmarked(patch_to_unbookmark@),
            cursor_in_bounds(final(self)@.index, final(self)@.ids.len() as int),
    {
        if let Some(index) = position_of_series(&self.bookmarked_patchsets, patch_to_unbookmark) {
            let ghost before = self.bookmarked_patchsets@;
            self.bookmarked_patchsets.remove(index);
            proof {
                let ids = patch_ids(before);
                assert(ids[index as int] == patch_to_unbookmark@);
                ids.index_of_first_ensures(patch_to_unbookmark@);
                assert(patch_ids(self.bookmarked_patchsets@) == ids.remove(index as int));
                lemma_unbookmark_is_idempotent(ids, patch_to_unbookmark@);
            }
        } else {
            proof {
                patch_ids(self.bookmarked_patchsets@).index_of_first_ensures(
                    patch_to_unbookmark@,
                );
            }
        }
        self.patchset_index = step_kept(self.patchset_index, self.bookmarked_patchsets.len());
    }
}

/// Whether `patches` holds the series of `patch`.
pub fn contains_series(patches: &Vec<Patch>, patch: &Patch) -> (found: bool)
    ensures
        found == patch_ids(patches@).contains(patch@),
{
    position_of_series(patches, patch).is_some()
}

/// The first index at which `patches` holds the series of `patch`.
pub fn position_of_series(patches: &Vec<Patch>, patch: &Patch) -> (position: Option<usize>)
    ensures
        position is None <==> !patch_ids(patches@).contains(patch@),
        position matches Some(at) ==> at < patches.len() && patches[at as int]@ == patch@
            && forall|j: int| 0 <= j < at ==> patches[j]@ != patch@,
{
    let mut i: usize = 0;
    while i < patches.len()
        invariant
            i <= patches.len(),
            forall|j: int| 0 <= j < i ==> patches[j]@ != patch@,
        decreases patches.len() - i,
    {
        if patches[i].same_series(patch) {
            proof {
                assert(patch_ids(patches@)[i as int] == patch@);
            }
            return Some(i);
        }
        i = i + 1;
    }
    None
}

/// Dropping repeats leaves a collection in which no series occurs twice and
/// which holds a series exactly when it was there before; a collection in
/// which none occurred twice is left as it is.
pub proof fn lemma_without_repeats(ids: Seq<Seq<char>>, id: Seq<char>)
    ensures
        without_repeats(ids).no_duplicates(),
        without_repeats(ids).contains(id) <==> ids.contains(id),
        ids.no_duplicates() ==> without_repeats(ids) == ids,
    decreases ids.len(),
{
    if ids.len() > 0 {
        let front = ids.drop_last();
        let kept = without_repeats(front);
        let all = without_repeats(ids);
        lemma_without_repeats(front, id);
        lemma_without_repeats(front, ids.last());
        if ids.contains(id) {
            let at = choose|at: int| 0 <= at < ids.len() && ids[at] == id;
            if at < front.len() {
                assert(front[at] == id);
                let into = choose|into: int| 0 <= into < kept.len() && kept[into] == id;
                assert(all[into] == id);
            } else if !kept.contains(id) {
                assert(all[kept.len() as int] == id);
            }
        }
    }
}

/// Bookmarking a series that is bookmarked already changes nothing, so the
/// collection keeps its size; bookmarking twice is bookmarking once.
pub proof fn lemma_bookmark_is_idempotent(ids: Seq<Seq<char>>, id: Seq<char>)
    ensures
        ids.contains(id) ==> with_bookmark(ids, id) == ids,
        with_bookmark(ids, id).contains(id),
        with_bookmark(with_bookmark(ids, id), id) == with_bookmark(ids, id),
        with_bookmark(ids, id).len() == if ids.contains(id) {
            ids.len()
        } else {
            ids.len() + 1
        },
        ids.no_duplicates() ==> with_bookmark(ids, id).no_duplicates(),
{
    if !ids.contains(id) {
        assert(ids.push(id)[ids.len() as int] == id);
    }
}

/// Unbookmarking a series that is not bookmarked changes nothing; where no
/// series occurs twice, an unbookmarked series is gone, and unbookmarking
/// twice is unbookmarking once.
pub proof fn lemma_unbookmark_is_idempotent(ids: Seq<Seq<char>>, id: Seq<char>)
    ensures
        !ids.contains(id) ==> without_bookmark(ids, id) == ids,
        without_bookmark(ids, id).len() == if ids.contains(id) {
            ids.len() - 1
        } else {
            ids.len() as int
        },
        ids.no_duplicates() ==> without_bookmark(ids, id).no_duplicates(),
        ids.no_duplicates() ==> !without_bookmark(ids, id).contains(id),
        ids.no_duplicates() ==> without_bookmark(without_bookmark(ids, id), id)
            == without_bookmark(ids, id),
{
    ids.index_of_first_ensures(id);
    if ids.contains(id) {
        let at = ids.index_of_first(id).unwrap();
        let rest = ids.remove(at);
        if ids.no_duplicates() {
            rest.index_of_first_ensures(id);
        }
    }
}

/// Bookmarking and unbookmarking leave a well-formed collection well-formed;
/// after an unbookmark the cursor stands within the collection wherever it
/// stood before.
pub proof fn lemma_bookmarks_stay_well_formed(bookmarked: BookmarkedView, id: Seq<char>)
    requires
        0 <= bookmarked.index,
    ensures
        bookmarked.wf() ==> bookmarked.bookmarked(id).wf(),
        bookmarked.wf() ==> bookmarked.unbookmarked(id).wf(),
        cursor_in_bounds(
            bookmarked.unbookmarked(id).index,
            bookmarked.unbookmarked(id).ids.len() as int,
        ),
        bookmarked.index < bookmarked.unbookmarked(id).ids.len() ==> bookmarked.unbookmarked(
            id,
        ).index == bookmarked.index,
{
    lemma_bookmark_is_idempotent(bookmarked.ids, id);
    lemma_unbookmark_is_idempotent(bookmarked.ids, id);
}

/// Bookmarking a series and unbookmarking it again gives back a collection
/// that did not hold it.
pub proof fn lemma_bookmark_then_unbookmark(ids: Seq<Seq<char>>, id: Seq<char>)
    requires
        !ids.contains(id),
    ensures
        without_bookmark(with_bookmark(ids, id), id) == ids,
{
    let added = ids.push(id);
    assert(added[ids.len() as int] == id);
    added.index_of_first_ensures(id);
    let at = added.index_of_first(id).unwrap();
}

} // verus!
