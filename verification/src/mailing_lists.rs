//! Choosing a mailing list: every list that is known, a filter text, the
//! lists whose name begins with it, and a highlight over those.

use crate::cursor::{cursor_above, cursor_below, cursor_in_bounds, step_above, step_below};
use crate::error::AppError;
use crate::patch::{list_views, MailingList, MailingListView};
use crate::text::{pop_char, push_char, starts_with};
use vstd::prelude::*;

verus! {

/// The lists of `lists` whose name begins with `prefix`, in their order.
/// Letter case counts.
pub open spec fn lists_matching(lists: Seq<MailingListView>, prefix: Seq<char>) -> Seq<
    MailingListView,
> {
    lists.filter(|list: MailingListView| prefix.is_prefix_of(list.name))
}

/// Filtering goes list by list: the last list is kept or dropped, and the
/// lists before it are filtered the same way.
pub proof fn lemma_lists_matching_step(lists: Seq<MailingListView>, prefix: Seq<char>)
    ensures
        lists.len() == 0 ==> lists_matching(lists, prefix) == lists,
        lists.len() > 0 ==> lists_matching(lists, prefix) == if prefix.is_prefix_of(
            lists.last().name,
        ) {
            lists_matching(lists.drop_last(), prefix).push(lists.last())
        } else {
            lists_matching(lists.drop_last(), prefix)
        },
{
    reveal(Seq::filter);
}

/// The empty filter text lets every list through.
pub proof fn lemma_empty_filter_matches_all(lists: Seq<MailingListView>)
    ensures
        lists_matching(lists, Seq::empty()) == lists,
    decreases lists.len(),
{
    lemma_lists_matching_step(lists, Seq::empty());
    if lists.len() > 0 {
        lemma_empty_filter_matches_all(lists.drop_last());
    }
}

/// What the selection holds.
pub struct SelectionView {
    /// Every mailing list that is known.
    pub mailing_lists: Seq<MailingListView>,
    /// The filter text.
    pub target_list: Seq<char>,
    /// The lists that the filter text lets through.
    pub possible_mailing_lists: Seq<MailingListView>,
    /// Index of the highlighted list among those.
    pub highlighted_list_index: int,
    /// Where the known lists are written down.
    pub mailing_lists_path: Seq<char>,
}

impl SelectionView {
    /// The lists let through are those whose name begins with the filter
    /// text, and the highlight stands among them.
    pub open spec fn wf(self) -> bool {
        &&& self.possible_mailing_lists == lists_matching(self.mailing_lists, self.target_list)
        &&& cursor_in_bounds(
            self.highlighted_list_index,
            self.possible_mailing_lists.len() as int,
        )
    }

    /// The selection with `text` as its filter text: the lists let through
    /// are worked out anew and the first of them is highlighted.
    pub open spec fn filtered_by(self, text: Seq<char>) -> SelectionView {
        SelectionView {
            target_list: text,
            possible_mailing_lists: lists_matching(self.mailing_lists, text),
            highlighted_list_index: 0,
            ..self
        }
    }

    /// The selection over `lists` as the known lists, with an empty filter
    /// text.
    pub open spec fn refreshed(self, lists: Seq<MailingListView>) -> SelectionView {
        SelectionView {
            mailing_lists: lists,
            target_list: Seq::empty(),
            possible_mailing_lists: lists,
            highlighted_list_index: 0,
            ..self
        }
    }

    /// Whether the highlight stands on a list.
    pub open spec fn has_valid_target(self) -> bool {
        0 <= self.highlighted_list_index < self.possible_mailing_lists.len()
    }
}

/// The selection of a mailing list by a filter text.
pub struct MailingListSelectionState {
    mailing_lists: Vec<MailingList>,
    target_list: String,
    possible_mailing_lists: Vec<MailingList>,
    highlighted_list_index: usize,
    mailing_lists_path: String,
}

impl View for MailingListSelectionState {
    type V = SelectionView;

    closed spec fn view(&self) -> SelectionView {
        SelectionView {
            mailing_lists: list_views(self.mailing_lists@),
            target_list: self.target_list@,
            possible_mailing_lists: list_views(self.possible_mailing_lists@),
            highlighted_list_index: self.highlighted_list_index as int,
            mailing_lists_path: self.mailing_lists_path@,
        }
    }
}

impl MailingListSelectionState {
    pub open spec fn wf(&self) -> bool {
        self@.wf()
    }

    /// A selection over `mailing_lists` with an empty filter text, so that
    /// every list is let through, and the first one highlighted.
    pub fn new(mailing_lists: Vec<MailingList>, mailing_lists_path: String) -> (state:
        MailingListSelectionState)
        ensures
            state.wf(),
            state@ == (SelectionView {
                mailing_lists: list_views(mailing_lists@),
                target_list: Seq::empty(),
                possible_mailing_lists: list_views(mailing_lists@),
                highlighted_list_index: 0,
                mailing_lists_path: mailing_lists_path@,
            }),
    {
        let mut state = MailingListSelectionState {
            mailing_lists,
            target_list: String::new(),
            possible_mailing_lists: Vec::new(),
            highlighted_list_index: 0,
            mailing_lists_path,
        };
        state.process_possible_mailing_lists();
        proof {
            lemma_empty_filter_matches_all(list_views(state.mailing_lists@));
        }
        state
    }

    /// Takes in what fetching the mailing lists gave. Lists that arrived
    /// become the known lists and the filter text is cleared; a failed
    /// fetch changes nothing and is handed on.
    pub fn refresh_available_mailing_lists(
        &mut self,
        fetched: Result<Vec<MailingList>, String>,
    ) -> (result: Result<(), AppError>)
        ensures
            match fetched {
                Ok(lists) => {
                    &&& result is Ok
                    &&& final(self).wf()
                    &&& final(self)@ == old(self)@.refreshed(list_views(lists@))
                },
                Err(message) => {
                    &&& result matches Err(AppError::MailingListsFetch(text))
                    &&& text@ == message@
                    &&& final(self)@ == old(self)@
                },
            },
    {
        match fetched {
            Ok(available_mailing_lists) => {
                self.mailing_lists = available_mailing_lists;
            },
            Err(message) => {
                return Err(AppError::MailingListsFetch(message));
            },
        }
        self.clear_target_list();
        proof {
            lemma_empty_filter_matches_all(list_views(self.mailing_lists@));
        }
        Ok(())
    }

    /// Takes the last character off the filter text. An empty filter text
    /// stays, and the highlight with it.
    pub fn remove_last_target_list_char(&mut self)
        ensures
            old(self).wf() ==> final(self).wf(),
            final(self)@ == if old(self)@.target_list.len() > 0 {
                old(self)@.filtered_by(old(self)@.target_list.drop_last())
            } else {
                old(self)@
            },
    {
        let removed = pop_char(&mut self.target_list);
        if removed.is_some() {
            self.process_possible_mailing_lists();
        }
    }

    /// Puts `ch` at the end of the filter text.
    pub fn push_char_to_target_list(&mut self, ch: char)
        ensures
            final(self).wf(),
            final(self)@ == old(self)@.filtered_by(old(self)@.target_list.push(ch)),
    {
        push_char(&mut self.target_list, ch);
        self.process_possible_mailing_lists();
    }

    /// Empties the filter text.
    pub fn clear_target_list(&mut self)
        ensures
            final(self).wf(),
            final(self)@ == old(self)@.filtered_by(Seq::empty()),
    {
        self.target_list = String::new();
        self.process_possible_mailing_lists();
    }

    /// Works out the lists that the filter text lets through and
    /// highlights the first of them.
    fn process_possible_mailing_lists(&mut self)
        ensures
            final(self).wf(),
            final(self)@ == old(self)@.filtered_by(old(self)@.target_list),
    {
        let mut possible_mailing_lists: Vec<MailingList> = Vec::new();
        let mut i: usize = 0;
        proof {
            lemma_lists_matching_step(list_views(self.mailing_lists@.take(0)), self.target_list@);
        }
        while i < self.mailing_lists.len()
            invariant
                i <= self.mailing_lists.len(),
                list_views(possible_mailing_lists@) == lists_matching(
                    list_views(self.mailing_lists@.take(i as int)),
                    self.target_list@,
                ),
            decreases self.mailing_lists.len() - i,
        {
            proof {
                let seen = list_views(self.mailing_lists@.take(i + 1));
                assert(seen.drop_last() == list_views(self.mailing_lists@.take(i as int)));
                lemma_lists_matching_step(seen, self.target_list@);
            }
            if starts_with(self.mailing_lists[i].get_name(), self.target_list.as_str()) {
                possible_mailing_lists.push(self.mailing_lists[i].clone());
            }
            i = i + 1;
        }
        proof {
            assert(self.mailing_lists@.take(i as int) == self.mailing_lists@);
        }
        self.possible_mailing_lists = possible_mailing_lists;
        self.highlighted_list_index = 0;
    }

    /// Moves the highlight one list down; stays on the last.
    pub fn highlight_below_list(&mut self)
        ensures
            old(self).wf() ==> final(self).wf(),
            final(self)@ == (SelectionView {
                highlighted_list_index: cursor_below(
                    old(self)@.highlighted_list_index,
                    old(self)@.possible_mailing_lists.len() as int,
                ),
                ..old(self)@
            }),
    {
        self.highlighted_list_index = step_below(
            self.highlighted_list_index,
            self.possible_mailing_lists.len(),
        );
    }

    /// Moves the highlight one list up; stays on the first.
    pub fn highlight_above_list(&mut self)
        ensures
            old(self).wf() ==> final(self).wf(),
            final(self)@ == (SelectionView {
                highlighted_list_index: cursor_above(old(self)@.highlighted_list_index, 0),
                ..old(self)@
            }),
    {
        self.highlighted_list_index = step_above(self.highlighted_list_index, 0);
    }

    /// Whether the highlight stands on a list. It does not where the filter
    /// text lets no list through.
    pub fn has_valid_target_list(&self) -> (valid: bool)
        ensures
            valid == self@.has_valid_target(),
    {
        self.highlighted_list_index < self.possible_mailing_lists.len()
    }

    /// The highlighted list.
    pub fn highlighted_list(&self) -> (list: &MailingList)
        requires
            self@.has_valid_target(),
        ensures
            list@ == self@.possible_mailing_lists[self@.highlighted_list_index],
    {
        &self.possible_mailing_lists[self.highlighted_list_index]
    }

    pub fn mailing_lists(&self) -> (lists: &Vec<MailingList>)
        ensures
            list_views(lists@) == self@.mailing_lists,
    {
        &self.mailing_lists
    }

    pub fn target_list(&self) -> (text: &str)
        ensures
            text@ == self@.target_list,
    {
        self.target_list.as_str()
    }

    pub fn possible_mailing_lists(&self) -> (lists: &Vec<MailingList>)
        ensures
            list_views(lists@) == self@.possible_mailing_lists,
    {
        &self.possible_mailing_lists
    }

    pub fn highlighted_list_index(&self) -> (index: usize)
        ensures
            index == self@.highlighted_list_index,
    {
        self.highlighted_list_index
    }

    pub fn mailing_lists_path(&self) -> (path: &str)
        ensures
            path@ == self@.mailing_lists_path,
    {
        self.mailing_lists_path.as_str()
    }
}

} // verus!
