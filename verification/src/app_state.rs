//! The state machine of the tool: which screen is shown, the state behind
//! each screen, and the protocol by which the actions that wait on a
//! previewed series are carried out when the preview is left.

use crate::bookmarked::{without_repeats, BookmarkedPatchsetsState, BookmarkedView};
use crate::config::Config;
use crate::details::{
    identity_is_set, indexes_of_successes, lemma_indexes_of_successes, reply_result,
    signature_of, texts_of, DetailsView, PatchsetAction, PatchsetDetailsAndActionsState,
    ReplyExecution, ReplyRequest,
};
use crate::error::AppError;
use crate::latest::{LatestPatchsetsState, LatestView};
use crate::mailing_lists::{MailingListSelectionState, SelectionView};
use crate::patch::{list_views, patch_ids, MailingList, MailingListView, Patch};
use crate::reviewed::{
    indexes_under, lemma_merged_indexes, merged_indexes, merged_under, ReviewedPatchsets,
};
use crate::screen::CurrentScreen;
use vstd::prelude::*;
use vstd::string::*;

verus! {

/// How far the consolidation of the waiting actions has come.
#[derive(Debug, Clone, Copy, PartialEq, Eq, Structural)]
pub enum ConsolidationPhase {
    /// No consolidation is under way.
    Idle,
    /// The bookmarked series are being written down.
    SavingBookmarks,
    /// The replies are being prepared and sent.
    Replying,
    /// The reviewed series are being written down.
    SavingReviewed,
}

/// What happened outside since the last step of the consolidation.
pub enum ConsolidationEvent {
    /// The preview is being left.
    Begin,
    /// Writing the bookmarked series down ended, in success or with the
    /// failure reported.
    BookmarksSaved(Result<(), String>),
    /// The reply workflow ran, for the local identity given.
    Replied { git_user_name: String, git_user_email: String, execution: ReplyExecution },
    /// Writing the reviewed series down ended, in success or with the
    /// failure reported.
    ReviewedSaved(Result<(), String>),
}

/// What is to happen outside next.
#[derive(Debug, Clone, Copy, PartialEq, Eq, Structural)]
pub enum ConsolidationStep {
    /// Write the whole collection of bookmarked series down.
    SaveBookmarks,
    /// Run the reply workflow over the messages of the series.
    Reply,
    /// Write the whole record of reviewed series down.
    SaveReviewed,
    /// Nothing: the consolidation is complete.
    Finished,
}

/// How loading a series for preview went.
pub enum PatchsetLoad {
    /// The series could not be downloaded.
    DownloadFailed(String),
    /// The downloaded series could not be split into its messages.
    SplitFailed(String),
    /// The messages of the series, in order.
    Loaded(Vec<String>),
}

/// The part of the state that a consolidation reads and changes.
pub struct ConsolidationModel {
    pub phase: ConsolidationPhase,
    /// The bookmarked series and the cursor over them.
    pub bookmarked: BookmarkedView,
    /// The reviewed series.
    pub reviewed: Map<Seq<char>, Seq<usize>>,
    /// The preview, if a series is under preview.
    pub details: Option<DetailsView>,
}

/// The bookmarked series after the bookmark flag of a preview was carried
/// out: with the series where the flag is set, without it where not.
pub open spec fn bookmarks_after(
    bookmarked: BookmarkedView,
    details: DetailsView,
) -> BookmarkedView {
    if details.bookmark {
        bookmarked.bookmarked(details.representative)
    } else {
        bookmarked.unbookmarked(details.representative)
    }
}

/// One step of the consolidation: the state after `event`, and what is to
/// happen next or what went wrong. The bookmark is carried out first and
/// written down; only when that went well is a waiting reply run; the
/// successes of the reply are merged into what is recorded under the
/// series, and the record is written down; and only then,
/// or when there was no success to record, is the wish to reply taken
/// back. Every failure ends the consolidation, and so does an event that
/// comes out of turn or without a series under preview.
pub open spec fn consolidation_step(
    model: ConsolidationModel,
    event: ConsolidationEvent,
) -> (ConsolidationModel, Result<ConsolidationStep, AppError>) {
    let ended = ConsolidationModel { phase: ConsolidationPhase::Idle, ..model };
    match model.details {
        None => (ended, Err(AppError::OutOfTurn)),
        Some(details) => match (model.phase, event) {
            (ConsolidationPhase::Idle, ConsolidationEvent::Begin) => (
                ConsolidationModel {
                    phase: ConsolidationPhase::SavingBookmarks,
                    bookmarked: bookmarks_after(model.bookmarked, details),
                    ..model
                },
                Ok(ConsolidationStep::SaveBookmarks),
            ),
            (ConsolidationPhase::SavingBookmarks, ConsolidationEvent::BookmarksSaved(Ok(_))) => {
                if details.reply_with_reviewed_by {
                    (
                        ConsolidationModel { phase: ConsolidationPhase::Replying, ..model },
                        Ok(ConsolidationStep::Reply),
                    )
                } else {
                    (ended, Ok(ConsolidationStep::Finished))
                }
            },
            (
                ConsolidationPhase::SavingBookmarks,
                ConsolidationEvent::BookmarksSaved(Err(message)),
            ) => (ended, Err(AppError::Persistence(message))),
            (
                ConsolidationPhase::Replying,
                ConsolidationEvent::Replied { git_user_name, git_user_email, execution },
            ) => match reply_result(git_user_name@, git_user_email@, execution) {
                Err(error) => (ended, Err(error)),
                Ok(indexes) => if indexes.len() > 0 {
                    (
                        ConsolidationModel {
                            phase: ConsolidationPhase::SavingReviewed,
                            reviewed: merged_under(
                                model.reviewed,
                                details.representative,
                                indexes,
                            ),
                            ..model
                        },
                        Ok(ConsolidationStep::SaveReviewed),
                    )
                } else {
                    (
                        ConsolidationModel { details: Some(details.reply_cleared()), ..ended },
                        Ok(ConsolidationStep::Finished),
                    )
                },
            },
            (ConsolidationPhase::SavingReviewed, ConsolidationEvent::ReviewedSaved(Ok(_))) => (
                ConsolidationModel { details: Some(details.reply_cleared()), ..ended },
                Ok(ConsolidationStep::Finished),
            ),
            (
                ConsolidationPhase::SavingReviewed,
                ConsolidationEvent::ReviewedSaved(Err(message)),
            ) => (ended, Err(AppError::Persistence(message))),
            _ => (ended, Err(AppError::OutOfTurn)),
        },
    }
}

/// The whole state of the tool. The state of a browsing session and of a
/// preview is there only while there is a session or a preview.
pub struct App {
    pub current_screen: CurrentScreen,
    pub mailing_list_selection_state: MailingListSelectionState,
    pub bookmarked_patchsets_state: BookmarkedPatchsetsState,
    pub latest_patchsets_state: Option<LatestPatchsetsState>,
    pub patchset_details_and_actions_state: Option<PatchsetDetailsAndActionsState>,
    pub reviewed_patchsets: ReviewedPatchsets,
    pub config: Config,
    pub consolidation: ConsolidationPhase,
}

/// The view of a preview, where there is one.
pub open spec fn details_view(state: Option<PatchsetDetailsAndActionsState>) -> Option<
    DetailsView,
> {
    match state {
        Some(details) => Some(details@),
        None => None,
    }
}

impl App {
    /// Every part of the state is well-formed.
    pub open spec fn wf(&self) -> bool {
        &&& self.mailing_list_selection_state.wf()
        &&& self.bookmarked_patchsets_state.wf()
        &&& self.reviewed_patchsets.wf()
        &&& match self.latest_patchsets_state {
            Some(latest) => latest.wf(),
            None => true,
        }
        &&& match self.patchset_details_and_actions_state {
            Some(details) => details.wf(),
            None => true,
        }
    }

    /// The part of the state that a consolidation reads and changes.
    pub open spec fn consolidation_model(&self) -> ConsolidationModel {
        ConsolidationModel {
            phase: self.consolidation,
            bookmarked: self.bookmarked_patchsets_state@,
            reviewed: self.reviewed_patchsets@,
            details: details_view(self.patchset_details_and_actions_state),
        }
    }

    /// Whether a series can be opened from `screen`: the screen lists
    /// series and its cursor stands on one.
    pub open spec fn has_selection_on(&self, screen: CurrentScreen) -> bool {
        match screen {
            CurrentScreen::BookmarkedPatchsets => self.bookmarked_patchsets_state.has_selection(),
            CurrentScreen::LatestPatchsets => match self.latest_patchsets_state {
                Some(latest) => latest@.has_selection(),
                None => false,
            },
            _ => false,
        }
    }

    /// Message identifier of the series that the cursor of `screen` stands
    /// on.
    pub open spec fn selection_on(&self, screen: CurrentScreen) -> Seq<char> {
        match screen {
            CurrentScreen::BookmarkedPatchsets => self.bookmarked_patchsets_state@.selected(),
            _ => self.latest_patchsets_state.unwrap()@.selected(),
        }
    }

    /// Whether the series opened from `screen` starts out as bookmarked:
    /// one opened from the bookmarked series does, another one does where
    /// the bookmarked series hold it.
    pub open spec fn opens_bookmarked(&self, screen: CurrentScreen) -> bool {
        screen == CurrentScreen::BookmarkedPatchsets
            || self.bookmarked_patchsets_state@.ids.contains(self.selection_on(screen))
    }

    /// The state at start. What could not be read from where it is written
    /// down starts out empty. The tool starts on the selection of a mailing
    /// list, with every known list let through.
    pub fn new(
        config: Config,
        mailing_lists: Option<Vec<MailingList>>,
        bookmarked_patchsets: Option<Vec<Patch>>,
        reviewed_patchsets: Option<ReviewedPatchsets>,
    ) -> (app: App)
        requires
            reviewed_patchsets matches Some(reviewed) ==> reviewed.wf(),
        ensures
            app.wf(),
            app.current_screen == CurrentScreen::MailingListSelection,
            app.consolidation == ConsolidationPhase::Idle,
            app.config == config,
            app.latest_patchsets_state is None,
            app.patchset_details_and_actions_state is None,
            app.mailing_list_selection_state@ == (SelectionView {
                mailing_lists: match mailing_lists {
                    Some(lists) => list_views(lists@),
                    None => Seq::empty(),
                },
                target_list: Seq::empty(),
                possible_mailing_lists: match mailing_lists {
                    Some(lists) => list_views(lists@),
                    None => Seq::empty(),
                },
                highlighted_list_index: 0,
                mailing_lists_path: config@.mailing_lists_path,
            }),
            app.bookmarked_patchsets_state@.index == 0,
            app.bookmarked_patchsets_state@.ids == match bookmarked_patchsets {
                Some(patches) => without_repeats(patch_ids(patches@)),
                None => Seq::empty(),
            },
            app.reviewed_patchsets@ == match reviewed_patchsets {
                Some(reviewed) => reviewed@,
                None => Map::empty(),
            },
    {
        let mailing_lists = match mailing_lists {
            Some(lists) => lists,
            None => Vec::new(),
        };
        let bookmarked_patchsets = match bookmarked_patchsets {
            Some(patches) => patches,
            None => Vec::new(),
        };
        let reviewed_patchsets = match reviewed_patchsets {
            Some(reviewed) => reviewed,
            None => ReviewedPatchsets::new(),
        };
        proof {
            assert(list_views(Seq::<MailingList>::empty()) == Seq::<MailingListView>::empty());
        }
        let mailing_lists_path = config.mailing_lists_path().clone();
        App {
            current_screen: CurrentScreen::MailingListSelection,
            mailing_list_selection_state: MailingListSelectionState::new(
                mailing_lists,
                mailing_lists_path,
            ),
            bookmarked_patchsets_state: BookmarkedPatchsetsState::new(bookmarked_patchsets),
            latest_patchsets_state: None,
            patchset_details_and_actions_state: None,
            reviewed_patchsets,
            config,
            consolidation: ConsolidationPhase::Idle,
        }
    }

    /// Starts a browsing session on the highlighted mailing list, with the
    /// configured page size and nothing fetched yet.
    pub fn init_latest_patchsets_state(&mut self)
        requires
            old(self).mailing_list_selection_state@.has_valid_target(),
        ensures
            final(self).latest_patchsets_state matches Some(latest) && latest.wf() && latest@ == (
            LatestView {
                target_list: old(self).mailing_list_selection_state@.possible_mailing_lists[old(
                    self,
                ).mailing_list_selection_state@.highlighted_list_index].name,
                page_number: 1,
                page_size: old(self).config@.page_size as int,
                index: 0,
                feed: Seq::empty(),
            }),
            final(self).current_screen == old(self).current_screen,
            final(self).mailing_list_selection_state == old(self).mailing_list_selection_state,
            final(self).bookmarked_patchsets_state == old(self).bookmarked_patchsets_state,
            final(self).patchset_details_and_actions_state == old(
                self,
            ).patchset_details_and_actions_state,
            final(self).reviewed_patchsets == old(self).reviewed_patchsets,
            final(self).config == old(self).config,
            final(self).consolidation == old(self).consolidation,
    {
        let target_list = String::from_str(
            self.mailing_list_selection_state.highlighted_list().get_name(),
        );
        self.latest_patchsets_state = Some(
            LatestPatchsetsState::new(target_list, self.config.page_size()),
        );
    }

    /// Ends the browsing session.
    pub fn reset_latest_patchsets_state(&mut self)
        ensures
            final(self).latest_patchsets_state is None,
            final(self).current_screen == old(self).current_screen,
            final(self).mailing_list_selection_state == old(self).mailing_list_selection_state,
            final(self).bookmarked_patchsets_state == old(self).bookmarked_patchsets_state,
            final(self).patchset_details_and_actions_state == old(
                self,
            ).patchset_details_and_actions_state,
            final(self).reviewed_patchsets == old(self).reviewed_patchsets,
            final(self).config == old(self).config,
            final(self).consolidation == old(self).consolidation,
    {
        self.latest_patchsets_state = None;
    }

    /// Whether a series can be opened from `screen`.
    pub fn has_selected_patchset(&self, screen: CurrentScreen) -> (selected: bool)
        ensures
            selected == self.has_selection_on(screen),
    {
        match screen {
            CurrentScreen::BookmarkedPatchsets => {
                self.bookmarked_patchsets_state.has_selected_patchset()
            },
            CurrentScreen::LatestPatchsets => match &self.latest_patchsets_state {
                Some(latest) => latest.has_selected_patchset(),
                None => false,
            },
            _ => false,
        }
    }

    /// The series that would be opened from `current_screen`: the one to
    /// download before the preview can start.
    pub fn patchset_to_open(&self, current_screen: CurrentScreen) -> (result: Result<
        Patch,
        AppError,
    >)
        requires
            current_screen.lists_series() ==> self.has_selection_on(current_screen),
        ensures
            current_screen.lists_series() ==> (result matches Ok(patch) && patch@
                == self.selection_on(current_screen)),
            !current_screen.lists_series() ==> result == Err::<Patch, AppError>(
                AppError::InvalidScreen(current_screen),
            ),
    {
        match current_screen {
            CurrentScreen::BookmarkedPatchsets => Ok(
                self.bookmarked_patchsets_state.get_selected_patchset(),
            ),
            CurrentScreen::LatestPatchsets => match &self.latest_patchsets_state {
                Some(latest) => Ok(latest.get_selected_patchset()),
                None => vstd::pervasive::unreached(),
            },
            screen => Err(AppError::InvalidScreen(screen)),
        }
    }

    /// Starts the preview of the series that the cursor of `current_screen`
    /// stands on, from what loading it gave. A screen that lists no series
    /// is refused before anything else is looked at; then a failed
    /// download, then a failed split. A refusal or failure changes nothing.
    pub fn init_patchset_details_and_actions_state(
        &mut self,
        current_screen: CurrentScreen,
        loaded: PatchsetLoad,
    ) -> (result: Result<(), AppError>)
        requires
            current_screen.lists_series() ==> old(self).has_selection_on(current_screen),
        ensures
            final(self).current_screen == old(self).current_screen,
            final(self).mailing_list_selection_state == old(self).mailing_list_selection_state,
            final(self).bookmarked_patchsets_state == old(self).bookmarked_patchsets_state,
            final(self).latest_patchsets_state == old(self).latest_patchsets_state,
            final(self).reviewed_patchsets == old(self).reviewed_patchsets,
            final(self).config == old(self).config,
            final(self).consolidation == old(self).consolidation,
            result is Err ==> final(self).patchset_details_and_actions_state == old(
                self,
            ).patchset_details_and_actions_state,
            !current_screen.lists_series() ==> result == Err::<(), AppError>(
                AppError::InvalidScreen(current_screen),
            ),
            current_screen.lists_series() ==> match loaded {
                PatchsetLoad::DownloadFailed(message) => result == Err::<(), AppError>(
                    AppError::Download(message),
                ),
                PatchsetLoad::SplitFailed(message) => result == Err::<(), AppError>(
                    AppError::Split(message),
                ),
                PatchsetLoad::Loaded(patches) => {
                    &&& result is Ok
                    &&& final(self).patchset_details_and_actions_state matches Some(details)
                    &&& details.wf()
                    &&& details@ == (DetailsView {
                        representative: old(self).selection_on(current_screen),
                        patches: texts_of(patches@),
                        preview_index: 0,
                        preview_scroll_offset: 0,
                        bookmark: old(self).opens_bookmarked(current_screen),
                        reply_with_reviewed_by: false,
                        last_screen: current_screen,
                    })
                },
            },
    {
        let representative_patch = match self.patchset_to_open(current_screen) {
            Ok(patch) => patch,
            Err(error) => {
                return Err(error);
            },
        };
        let is_patchset_bookmarked = match current_screen {
            CurrentScreen::BookmarkedPatchsets => true,
            _ => self.bookmarked_patchsets_state.is_bookmarked(&representative_patch),
        };
        match loaded {
            PatchsetLoad::DownloadFailed(message) => Err(AppError::Download(message)),
            PatchsetLoad::SplitFailed(message) => Err(AppError::Split(message)),
            PatchsetLoad::Loaded(patches) => {
                self.patchset_details_and_actions_state = Some(
                    PatchsetDetailsAndActionsState::new(
                        representative_patch,
                        patches,
                        is_patchset_bookmarked,
                        current_screen,
                    ),
                );
                Ok(())
            },
        }
    }

    /// Ends the preview, and with it a consolidation that is under way.
    pub fn reset_patchset_details_and_actions_state(&mut self)
        ensures
            final(self).patchset_details_and_actions_state is None,
            final(self).consolidation == ConsolidationPhase::Idle,
            final(self).current_screen == old(self).current_screen,
            final(self).mailing_list_selection_state == old(self).mailing_list_selection_state,
            final(self).bookmarked_patchsets_state == old(self).bookmarked_patchsets_state,
            final(self).latest_patchsets_state == old(self).latest_patchsets_state,
            final(self).reviewed_patchsets == old(self).reviewed_patchsets,
            final(self).config == old(self).config,
    {
        self.patchset_details_and_actions_state = None;
        self.consolidation = ConsolidationPhase::Idle;
    }

    /// Shows `new_current_screen`. Nothing else changes.
    pub fn set_current_screen(&mut self, new_current_screen: CurrentScreen)
        ensures
            final(self).current_screen == new_current_screen,
            final(self).mailing_list_selection_state == old(self).mailing_list_selection_state,
            final(self).bookmarked_patchsets_state == old(self).bookmarked_patchsets_state,
            final(self).latest_patchsets_state == old(self).latest_patchsets_state,
            final(self).patchset_details_and_actions_state == old(
                self,
            ).patchset_details_and_actions_state,
            final(self).reviewed_patchsets == old(self).reviewed_patchsets,
            final(self).config == old(self).config,
            final(self).consolidation == old(self).consolidation,
    {
        self.current_screen = new_current_screen;
    }
    /// What the replies to the series under preview are to be prepared
    /// from. They are addressed to the list `all`. `None` where no series
    /// is under preview or no local identity is set: then nothing is to be
    /// prepared or sent.
    pub fn reply_request(&self, git_user_name: &str, git_user_email: &str) -> (request: Option<
        ReplyRequest,
    >)
        ensures
            request is Some <==> self.patchset_details_and_actions_state is Some
                && identity_is_set(git_user_name@, git_user_email@),
            request matches Some(prepared) ==> {
                &&& prepared.target_list@ == "all"@
                &&& texts_of(prepared.patches@)
                    == self.patchset_details_and_actions_state.unwrap()@.patches
                &&& prepared.signature@ == signature_of(git_user_name@, git_user_email@)
            },
    {
        match &self.patchset_details_and_actions_state {
            Some(details) => details.reply_request("all", git_user_name, git_user_email),
            None => None,
        }
    }

    /// Makes one step of carrying out the actions that wait on the series
    /// under preview: takes in what happened outside and says what is to
    /// happen next. The steps and their order are those of
    /// [`consolidation_step`]. Nothing but the bookmarked series, the
    /// reviewed series, the wish to reply and the phase ever changes.
    pub fn consolidate_patchset_actions(&mut self, event: ConsolidationEvent) -> (result: Result<
        ConsolidationStep,
        AppError,
    >)
        requires
            old(self).wf(),
        ensures
            final(self).wf(),
            (final(self).consolidation_model(), result) == consolidation_step(
                old(self).consolidation_model(),
                event,
            ),
            final(self).current_screen == old(self).current_screen,
            final(self).mailing_list_selection_state == old(self).mailing_list_selection_state,
            final(self).latest_patchsets_state == old(self).latest_patchsets_state,
            final(self).config == old(self).config,
    {
        let mut details = match self.patchset_details_and_actions_state.take() {
            Some(details) => details,
            None => {
                self.consolidation = ConsolidationPhase::Idle;
                return Err(AppError::OutOfTurn);
            },
        };
        let phase = self.consolidation;
        self.consolidation = ConsolidationPhase::Idle;
        let result = match (phase, event) {
            (ConsolidationPhase::Idle, ConsolidationEvent::Begin) => {
                if details.action_is_set(PatchsetAction::Bookmark) {
                    self.bookmarked_patchsets_state.bookmark_selected_patch(
                        details.representative_patch(),
                    );
                } else {
                    self.bookmarked_patchsets_state.unbookmark_selected_patch(
                        details.representative_patch(),
                    );
                }
                self.consolidation = ConsolidationPhase::SavingBookmarks;
                Ok(ConsolidationStep::SaveBookmarks)
            },
            (ConsolidationPhase::SavingBookmarks, ConsolidationEvent::BookmarksSaved(Ok(_))) => {
                if details.actions_require_user_io() {
                    self.consolidation = ConsolidationPhase::Replying;
                    Ok(ConsolidationStep::Reply)
                } else {
                    Ok(ConsolidationStep::Finished)
                }
            },
            (
                ConsolidationPhase::SavingBookmarks,
                ConsolidationEvent::BookmarksSaved(Err(message)),
            ) => Err(AppError::Persistence(message)),
            (
                ConsolidationPhase::Replying,
                ConsolidationEvent::Replied { git_user_name, git_user_email, execution },
            ) => match details.reply_patchset_with_reviewed_by(
                git_user_name.as_str(),
                git_user_email.as_str(),
                execution,
            ) {
                Err(error) => Err(error),
                Ok(successful_indexes) => {
                    if !successful_indexes.is_empty() {
                        self.reviewed_patchsets.merge(
                            details.representative_patch().get_message_id().clone(),
                            successful_indexes,
                        );
                        self.consolidation = ConsolidationPhase::SavingReviewed;
                        Ok(ConsolidationStep::SaveReviewed)
                    } else {
                        details.clear_reply_action();
                        Ok(ConsolidationStep::Finished)
                    }
                },
            },
            (ConsolidationPhase::SavingReviewed, ConsolidationEvent::ReviewedSaved(Ok(_))) => {
                details.clear_reply_action();
                Ok(ConsolidationStep::Finished)
            },
            (
                ConsolidationPhase::SavingReviewed,
                ConsolidationEvent::ReviewedSaved(Err(message)),
            ) => Err(AppError::Persistence(message)),
            _ => Err(AppError::OutOfTurn),
        };
        self.patchset_details_and_actions_state = Some(details);
        result
    }
}

/// A reply is only ever asked for right after the bookmarked series were
/// written down, and only where a reply waits; and the bookmarked series
/// are only ever asked to be written down at the start.
pub proof fn lemma_reply_waits_for_bookmarks(model: ConsolidationModel, event: ConsolidationEvent)
    ensures
        consolidation_step(model, event).1 == Ok::<ConsolidationStep, AppError>(
            ConsolidationStep::Reply,
        ) ==> {
            &&& model.phase == ConsolidationPhase::SavingBookmarks
            &&& event matches ConsolidationEvent::BookmarksSaved(Ok(_))
            &&& model.details matches Some(details)
            &&& details.reply_with_reviewed_by
        },
        consolidation_step(model, event).1 == Ok::<ConsolidationStep, AppError>(
            ConsolidationStep::SaveBookmarks,
        ) ==> model.phase == ConsolidationPhase::Idle && event is Begin,
        consolidation_step(model, event).0.phase == ConsolidationPhase::Replying ==> {
            &&& model.phase == ConsolidationPhase::SavingBookmarks
            &&& event matches ConsolidationEvent::BookmarksSaved(Ok(_))
        },
{
}

/// No step changes the preview but to take the wish to reply back, and that
/// happens only when the reply workflow has run and left nothing to write
/// down, or when what it left was written down.
pub proof fn lemma_reply_cleared_after_reply(model: ConsolidationModel, event: ConsolidationEvent)
    ensures
        consolidation_step(model, event).0.details == model.details || {
            &&& model.details matches Some(details)
            &&& consolidation_step(model, event).0.details == Some(details.reply_cleared())
            &&& consolidation_step(model, event).1 == Ok::<ConsolidationStep, AppError>(
                ConsolidationStep::Finished,
            )
            &&& model.phase == ConsolidationPhase::Replying || model.phase
                == ConsolidationPhase::SavingReviewed
        },
{
}

/// A step that fails ends the consolidation and changes nothing else; in
/// particular, where the bookmarked series could not be written down, no
/// reply is run, and where the reviewed series could not be, the wish to
/// reply stands.
pub proof fn lemma_failure_ends_consolidation(model: ConsolidationModel, event: ConsolidationEvent)
    ensures
        consolidation_step(model, event).1 is Err ==> consolidation_step(model, event).0 == (
        ConsolidationModel { phase: ConsolidationPhase::Idle, ..model }),
        consolidation_step(model, event).1 == Ok::<ConsolidationStep, AppError>(
            ConsolidationStep::Finished,
        ) ==> consolidation_step(model, event).0.phase == ConsolidationPhase::Idle,
{
}

/// A whole consolidation in which every write succeeds: the bookmark flag
/// is carried out; where a reply waits and a local identity is set, the
/// indexes of the replies that succeeded are merged into what is recorded
/// under the series, so that the record holds under it exactly what it
/// held before and what succeeded now; what is recorded under any other
/// series stays; and in the end no reply waits any more.
pub proof fn lemma_consolidation_records_successes(
    model: ConsolidationModel,
    git_user_name: String,
    git_user_email: String,
    outcomes: Vec<bool>,
)
    requires
        model.phase == ConsolidationPhase::Idle,
        model.details matches Some(details) && details.reply_with_reviewed_by,
        identity_is_set(git_user_name@, git_user_email@),
    ensures
        ({
            let details = model.details.unwrap();
            let successes = indexes_of_successes(outcomes@);
            let begun = consolidation_step(model, ConsolidationEvent::Begin);
            let saved = consolidation_step(begun.0, ConsolidationEvent::BookmarksSaved(Ok(())));
            let replied = consolidation_step(
                saved.0,
                ConsolidationEvent::Replied {
                    git_user_name,
                    git_user_email,
                    execution: ReplyExecution::Executed(outcomes),
                },
            );
            let ended = if successes.len() > 0 {
                consolidation_step(replied.0, ConsolidationEvent::ReviewedSaved(Ok(())))
            } else {
                replied
            };
            &&& begun.1 == Ok::<ConsolidationStep, AppError>(ConsolidationStep::SaveBookmarks)
            &&& saved.1 == Ok::<ConsolidationStep, AppError>(ConsolidationStep::Reply)
            &&& replied.1 == Ok::<ConsolidationStep, AppError>(
                if successes.len() > 0 {
                    ConsolidationStep::SaveReviewed
                } else {
                    ConsolidationStep::Finished
                },
            )
            &&& ended.1 == Ok::<ConsolidationStep, AppError>(ConsolidationStep::Finished)
            &&& ended.0 == (ConsolidationModel {
                phase: ConsolidationPhase::Idle,
                bookmarked: bookmarks_after(model.bookmarked, details),
                reviewed: if successes.len() > 0 {
                    merged_under(model.reviewed, details.representative, successes)
                } else {
                    model.reviewed
                },
                details: Some(details.reply_cleared()),
            })
            &&& forall|index: usize|
                indexes_under(ended.0.reviewed, details.representative).contains(index)
                    <==> indexes_under(model.reviewed, details.representative).contains(index)
                    || successes.contains(index)
            &&& forall|key: Seq<char>|
                key != details.representative ==> {
                    &&& ended.0.reviewed.dom().contains(key) == model.reviewed.dom().contains(key)
                    &&& indexes_under(ended.0.reviewed, key) == indexes_under(model.reviewed, key)
                }
            &&& indexes_under(model.reviewed, details.representative).len() == 0 ==> indexes_under(
                ended.0.reviewed,
                details.representative,
            ) == successes
        }),
{
    let details = model.details.unwrap();
    let successes = indexes_of_successes(outcomes@);
    let held = indexes_under(model.reviewed, details.representative);
    assert(outcomes@.len() == outcomes.len());
    lemma_indexes_of_successes(outcomes@);
    assert forall|index: usize|
        merged_indexes(held, successes).contains(index) <==> held.contains(index)
            || successes.contains(index) by {
        lemma_merged_indexes(held, successes, index);
    }
    lemma_merged_indexes(held, successes, 0);
}

} // verus!
