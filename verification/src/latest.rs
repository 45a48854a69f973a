//! The latest series of one mailing list: a feed that only grows, a window
//! of one page over it, and a cursor.

use crate::cursor::{cursor_above, cursor_below, cursor_in_bounds, step_above, step_below};
use crate::error::AppError;
use crate::patch::{patch_ids, Patch};
use vstd::prelude::*;
use vstd::string::*;

verus! {

/// What a browsing session holds.
pub struct LatestView {
    /// Name of the mailing list.
    pub target_list: Seq<char>,
    /// Number of the page shown, from 1.
    pub page_number: int,
    /// Number of series on a page.
    pub page_size: int,
    /// Index of the series that the cursor stands on, counted over the
    /// whole feed.
    pub index: int,
    /// Message identifiers of every series fetched so far, in feed order.
    pub feed: Seq<Seq<char>>,
}

impl LatestView {
    /// Index of the first series of the page shown.
    pub open spec fn page_start(self) -> int {
        self.page_size * (self.page_number - 1)
    }

    /// Index of the first series of the next page: as many series as must
    /// be held for the page shown to be complete.
    pub open spec fn page_end(self) -> int {
        self.page_size * self.page_number
    }

    /// The page number counts from 1 and the cursor stands within the feed,
    /// not before the page shown.
    pub open spec fn wf(self) -> bool {
        &&& 1 <= self.page_number <= usize::MAX
        &&& 0 <= self.page_size <= usize::MAX
        &&& self.feed.len() <= usize::MAX
        &&& cursor_in_bounds(self.index, self.feed.len() as int)
        &&& self.page_start() <= self.index
    }

    /// Whether the cursor stands on a series.
    pub open spec fn has_selection(self) -> bool {
        0 <= self.index < self.feed.len()
    }

    /// Message identifier of the series that the cursor stands on.
    pub open spec fn selected(self) -> Seq<char> {
        self.feed[self.index]
    }

    /// How many series the page shown still lacks.
    pub open spec fn missing(self) -> int {
        if self.page_end() > self.feed.len() {
            self.page_end() - self.feed.len()
        } else {
            0
        }
    }

    /// The session after `items` arrived from the feed: they follow what
    /// was held, and nothing else changes.
    pub open spec fn fetched(self, items: Seq<Seq<char>>) -> LatestView {
        LatestView { feed: self.feed + items, ..self }
    }

    /// Whether the first series of the next page is held, so that the page
    /// can be turned forward.
    pub open spec fn has_next_page(self) -> bool {
        self.page_end() < self.feed.len() && self.page_number < usize::MAX
    }

    /// The session after turning one page forward.
    pub open spec fn next_page(self) -> LatestView {
        if self.has_next_page() {
            LatestView { page_number: self.page_number + 1, index: self.page_end(), ..self }
        } else {
            self
        }
    }

    /// The session after turning one page back.
    pub open spec fn previous_page(self) -> LatestView {
        if self.page_number > 1 {
            LatestView {
                page_number: self.page_number - 1,
                index: self.page_size * (self.page_number - 2),
                ..self
            }
        } else {
            self
        }
    }

    /// The series of the page shown, as far as they are held; `None` while
    /// not even the first of them is.
    pub open spec fn current_page(self) -> Option<Seq<Seq<char>>> {
        if self.page_start() < self.feed.len() {
            Some(
                self.feed.subrange(
                    self.page_start(),
                    if self.page_end() < self.feed.len() {
                        self.page_end()
                    } else {
                        self.feed.len() as int
                    },
                ),
            )
        } else {
            None
        }
    }
}

proof fn lemma_page_bounds(page_size: int, page_number: int)
    by (nonlinear_arith)
    requires
        0 <= page_size,
        1 <= page_number,
    ensures
        page_size * page_number == page_size * (page_number - 1) + page_size,
        0 <= page_size * (page_number - 1),
        page_number > 1 ==> page_size * (page_number - 2) + page_size == page_size * (
        page_number - 1),
        page_number > 1 ==> 0 <= page_size * (page_number - 2),
        page_size >= 1 ==> page_number <= page_size * page_number,
        page_size * (page_number + 1) == page_size * page_number + page_size,
{
}

/// The message identifiers of a sequence of borrowed series, in order.
pub open spec fn borrowed_patch_ids(patches: Seq<&Patch>) -> Seq<Seq<char>> {
    patches.map_values(|patch: &Patch| patch@)
}

/// What to ask of the feed so that the page shown becomes complete.
pub struct FeedRequest {
    /// Name of the mailing list.
    pub target_list: String,
    /// How many series must be held in all; at the top of the integer
    /// range where the true count lies beyond it.
    pub min_count: usize,
    /// How many series are held already and need not be fetched again.
    pub held: usize,
}

/// What came back from the feed.
pub enum FeedResponse {
    /// The series that follow those held, in feed order.
    Fetched(Vec<Patch>),
    /// The same, and the feed has no more.
    EndOfFeed(Vec<Patch>),
    /// The request could not be made.
    TransportError(String),
    /// The feed answered with a status other than success.
    StatusNotOk(String),
}

/// A browsing session over the latest series of one mailing list.
pub struct LatestPatchsetsState {
    feed: Vec<Patch>,
    target_list: String,
    page_number: usize,
    patchset_index: usize,
    page_size: usize,
}

impl View for LatestPatchsetsState {
    type V = LatestView;

    closed spec fn view(&self) -> LatestView {
        LatestView {
            target_list: self.target_list@,
            page_number: self.page_number as int,
            page_size: self.page_size as int,
            index: self.patchset_index as int,
            feed: patch_ids(self.feed@),
        }
    }
}

impl LatestPatchsetsState {
    pub open spec fn wf(&self) -> bool {
        self@.wf()
    }

    /// A session on `target_list` that shows page 1 and holds nothing yet.
    pub fn new(target_list: String, page_size: usize) -> (state: LatestPatchsetsState)
        ensures
            state.wf(),
            state@ == (LatestView {
                target_list: target_list@,
                page_number: 1,
                page_size: page_size as int,
                index: 0,
                feed: Seq::empty(),
            }),
    {
        let state = LatestPatchsetsState {
            feed: Vec::new(),
            target_list,
            page_number: 1,
            patchset_index: 0,
            page_size,
        };
        proof {
            lemma_page_bounds(page_size as int, 1);
            assert(patch_ids(state.feed@) == Seq::<Seq<char>>::empty());
        }
        state
    }

    fn page_start(&self) -> (start: usize)
        requires
            self.wf(),
        ensures
            start == self@.page_start(),
    {
        proof {
            lemma_page_bounds(self.page_size as int, self.page_number as int);
        }
        self.page_size * (self.page_number - 1)
    }

    /// What to ask of the feed for the page shown: that as many series be
    /// there as the page reaches to, of which those held are not asked for
    /// again. `None` where the page lacks nothing.
    pub fn feed_request(&self) -> (request: Option<FeedRequest>)
        requires
            self.wf(),
        ensures
            request is Some <==> self@.missing() > 0,
            request matches Some(asked) ==> {
                &&& asked.target_list@ == self@.target_list
                &&& asked.held == self@.feed.len()
                &&& asked.min_count == if self@.page_end() <= usize::MAX {
                    self@.page_end()
                } else {
                    usize::MAX as int
                }
            },
    {
        let start = self.page_start();
        proof {
            lemma_page_bounds(self.page_size as int, self.page_number as int);
        }
        let held = self.feed.len();
        if self.page_size <= held - start {
            return None;
        }
        let min_count = if self.page_size <= usize::MAX - start {
            start + self.page_size
        } else {
            usize::MAX
        };
        Some(FeedRequest { target_list: self.target_list.clone(), min_count, held })
    }

    /// Takes in what came back from the feed. Series that arrived follow
    /// those held, whether or not the feed has ended; a failed request
    /// changes nothing and is handed on.
    pub fn fetch_current_page(&mut self, response: FeedResponse) -> (result: Result<(), AppError>)
        requires
            old(self).wf(),
        ensures
            final(self).wf(),
            match response {
                FeedResponse::Fetched(items) | FeedResponse::EndOfFeed(items) => {
                    &&& result is Ok
                    &&& final(self)@ == old(self)@.fetched(patch_ids(items@))
                },
                FeedResponse::TransportError(message) => {
                    &&& result matches Err(AppError::FeedTransport(text))
                    &&& text@ == message@
                    &&& final(self)@ == old(self)@
                },
                FeedResponse::StatusNotOk(message) => {
                    &&& result matches Err(AppError::FeedStatusNotOk(text))
                    &&& text@ == message@
                    &&& final(self)@ == old(self)@
                },
            },
    {
        match response {
            FeedResponse::Fetched(items) | FeedResponse::EndOfFeed(items) => {
                let mut items = items;
                let ghost before = self.feed@;
                let ghost arrived = items@;
                self.feed.append(&mut items);
                proof {
                    assert(patch_ids(self.feed@).len() == self.feed.len());
                    assert(patch_ids(before + arrived) =~= patch_ids(before) + patch_ids(
                        arrived,
                    ));
                }
                Ok(())
            },
            FeedResponse::TransportError(message) => Err(AppError::FeedTransport(message)),
            FeedResponse::StatusNotOk(message) => Err(AppError::FeedStatusNotOk(message)),
        }
    }

    /// Moves the cursor one series down, over the whole feed.
    pub fn select_below_patchset(&mut self)
        requires
            old(self).wf(),
        ensures
            final(self).wf(),
            final(self)@ == (LatestView {
                index: cursor_below(old(self)@.index, old(self)@.feed.len() as int),
                ..old(self)@
            }),
    {
        self.patchset_index = step_below(self.patchset_index, self.feed.len());
    }

    /// Moves the cursor one series up, not past the first of the page
    /// shown.
    pub fn select_above_patchset(&mut self)
        requires
            old(self).wf(),
        ensures
            final(self).wf(),
            final(self)@ == (LatestView {
                index: cursor_above(old(self)@.index, old(self)@.page_start()),
                ..old(self)@
            }),
    {
        let start = self.page_start();
        self.patchset_index = step_above(self.patchset_index, start);
    }

    /// Turns one page forward and puts the cursor on its first series;
    /// does nothing unless that series is held.
    pub fn increment_page(&mut self)
        requires
            old(self).wf(),
        ensures
            final(self).wf(),
            final(self)@ == old(self)@.next_page(),
    {
        let start = self.page_start();
        proof {
            lemma_page_bounds(self.page_size as int, self.page_number as int);
            lemma_page_bounds(self.page_size as int, self.page_number as int + 1);
        }
        if self.page_size < self.feed.len() - start && self.page_number < usize::MAX {
            self.patchset_index = start + self.page_size;
            self.page_number = self.page_number + 1;
        }
    }

    /// Turns one page back and puts the cursor on its first series; does
    /// nothing on page 1.
    pub fn decrement_page(&mut self)
        requires
            old(self).wf(),
        ensures
            final(self).wf(),
            final(self)@ == old(self)@.previous_page(),
    {
        if self.page_number == 1 {
            return ;
        }
        proof {
            lemma_page_bounds(self.page_size as int, self.page_number as int);
            lemma_page_bounds(self.page_size as int, self.page_number as int - 1);
        }
        self.page_number = self.page_number - 1;
        self.patchset_index = self.page_size * (self.page_number - 1);
    }

    pub fn get_target_list(&self) -> (name: &str)
        ensures
            name@ == self@.target_list,
    {
        self.target_list.as_str()
    }

    pub fn get_page_number(&self) -> (number: usize)
        ensures
            number == self@.page_number,
    {
        self.page_number
    }

    pub fn get_page_size(&self) -> (size: usize)
        ensures
            size == self@.page_size,
    {
        self.page_size
    }

    pub fn get_patchset_index(&self) -> (index: usize)
        ensures
            index == self@.index,
    {
        self.patchset_index
    }

    /// Every series fetched so far, in feed order.
    pub fn fetched_patchsets(&self) -> (patches: &Vec<Patch>)
        ensures
            patch_ids(patches@) == self@.feed,
    {
        &self.feed
    }

    /// Whether the cursor stands on a series, so that one can be selected.
    pub fn has_selected_patchset(&self) -> (selected: bool)
        ensures
            selected == self@.has_selection(),
    {
        self.patchset_index < self.feed.len()
    }

    /// The series that the cursor stands on.
    pub fn get_selected_patchset(&self) -> (patch: Patch)
        requires
            self@.has_selection(),
        ensures
            patch@ == self@.selected(),
    {
        self.feed[self.patchset_index].clone()
    }

    /// The series of the page shown, as far as they are held; `None` while
    /// not even the first of them is.
    pub fn get_current_patch_feed_page(&self) -> (page: Option<Vec<&Patch>>)
        requires
            self.wf(),
        ensures
            page is Some <==> self@.current_page() is Some,
            page matches Some(patches) ==> Some(borrowed_patch_ids(patches@))
                == self@.current_page(),
    {
        let start = self.page_start();
        proof {
            lemma_page_bounds(self.page_size as int, self.page_number as int);
        }
        let held = self.feed.len();
        if start >= held {
            return None;
        }
        let end = if self.page_size < held - start {
            start + self.page_size
        } else {
            held
        };
        let mut patches: Vec<&Patch> = Vec::new();
        let mut i: usize = start;
        while i < end
            invariant
                start <= i <= end <= self.feed.len(),
                borrowed_patch_ids(patches@) == patch_ids(self.feed@).subrange(
                    start as int,
                    i as int,
                ),
            decreases end - i,
        {
            patches.push(&self.feed[i]);
            proof {
                assert(patch_ids(self.feed@).subrange(start as int, i + 1) == patch_ids(
                    self.feed@,
                ).subrange(start as int, i as int).push(self.feed[i as int]@));
            }
            i = i + 1;
        }
        Some(patches)
    }
}

/// One move in a browsing session.
pub enum SessionMove {
    Below,
    Above,
    NextPage,
    PreviousPage,
}

impl LatestView {
    /// The session after one move.
    pub open spec fn moved(self, step: SessionMove) -> LatestView {
        match step {
            SessionMove::Below => LatestView {
                index: cursor_below(self.index, self.feed.len() as int),
                ..self
            },
            SessionMove::Above => LatestView {
                index: cursor_above(self.index, self.page_start()),
                ..self
            },
            SessionMove::NextPage => self.next_page(),
            SessionMove::PreviousPage => self.previous_page(),
        }
    }

    /// The session after `moves`, made in order.
    pub open spec fn moved_all(self, moves: Seq<SessionMove>) -> LatestView
        decreases moves.len(),
    {
        if moves.len() == 0 {
            self
        } else {
            self.moved_all(moves.drop_last()).moved(moves.last())
        }
    }
}

/// Whatever moves are made in a session, of the cursor or of the page, the
/// cursor stays within the feed and never comes to stand before the page
/// shown; the feed itself is left as it is.
pub proof fn lemma_session_moves_stay_in_bounds(session: LatestView, moves: Seq<SessionMove>)
    requires
        session.wf(),
    ensures
        session.moved_all(moves).wf(),
        session.moved_all(moves).feed == session.feed,
        cursor_in_bounds(session.moved_all(moves).index, session.feed.len() as int),
    decreases moves.len(),
{
    if moves.len() > 0 {
        lemma_session_moves_stay_in_bounds(session, moves.drop_last());
        let before = session.moved_all(moves.drop_last());
        lemma_page_bounds(before.page_size, before.page_number);
        lemma_page_bounds(before.page_size, before.page_number + 1);
        if before.page_number > 1 {
            lemma_page_bounds(before.page_size, before.page_number - 1);
        }
    }
}

/// Series that arrive from the feed leave a session well-formed, with the
/// cursor and the page where they were.
pub proof fn lemma_fetch_keeps_session(session: LatestView, items: Seq<Seq<char>>)
    requires
        session.wf(),
        session.feed.len() + items.len() <= usize::MAX,
    ensures
        session.fetched(items).wf(),
        session.fetched(items).index == session.index,
        session.fetched(items).page_number == session.page_number,
        session.fetched(items).feed.take(session.feed.len() as int) == session.feed,
{
}

/// After the series of the page shown were fetched, turning the page
/// forward puts the cursor exactly on the product of the page size and the
/// number of the page left, and that index lies within the feed. This is
/// so wherever the first series of the next page arrived.
pub proof fn lemma_fetch_then_increment(session: LatestView, items: Seq<Seq<char>>)
    requires
        session.wf(),
        session.feed.len() + items.len() <= usize::MAX,
        session.fetched(items).has_next_page(),
    ensures
        session.fetched(items).next_page().wf(),
        session.fetched(items).next_page().index == session.page_size * session.page_number,
        session.fetched(items).next_page().index < session.fetched(items).next_page().feed.len(),
        session.fetched(items).next_page().page_number == session.page_number + 1,
{
    lemma_page_bounds(session.page_size, session.page_number);
    lemma_page_bounds(session.page_size, session.page_number + 1);
}

/// Unless the first series of the next page is held, turning the page
/// forward changes nothing. With a page size of 1 or more, that series is
/// held exactly when the feed reaches beyond the page shown.
pub proof fn lemma_increment_needs_next_page(session: LatestView)
    requires
        session.wf(),
    ensures
        !session.has_next_page() ==> session.next_page() == session,
        session.page_size >= 1 ==> session.has_next_page() == (session.page_end()
            < session.feed.len()),
{
    lemma_page_bounds(session.page_size, session.page_number);
}

} // verus!
