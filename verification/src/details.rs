//! One series under preview: its messages, the preview position, and the
//! actions that wait to be carried out when the preview is left.

use crate::cursor::{cursor_above, cursor_below, cursor_in_bounds, step_above, step_below};
use crate::error::AppError;
use crate::patch::Patch;
use crate::screen::CurrentScreen;
use crate::text::{line_count, line_count_of, push_char};
use vstd::prelude::*;
use vstd::string::*;

verus! {

/// An action that can wait on the previewed series.
#[derive(Debug, Clone, Copy, Hash, PartialEq, Eq, Structural)]
pub enum PatchsetAction {
    Bookmark,
    ReplyWithReviewedBy,
}

/// What a preview holds.
pub struct DetailsView {
    /// Message identifier of the series.
    pub representative: Seq<char>,
    /// The messages of the series, in order.
    pub patches: Seq<Seq<char>>,
    /// Index of the message under preview.
    pub preview_index: int,
    /// Number of lines scrolled past in that message.
    pub preview_scroll_offset: int,
    /// Whether the series is to be bookmarked when the preview is left.
    pub bookmark: bool,
    /// Whether the series is to be replied to when the preview is left.
    pub reply_with_reviewed_by: bool,
    /// The screen to go back to.
    pub last_screen: CurrentScreen,
}

impl DetailsView {
    /// The preview position lies within the series, and no further down in
    /// the message than its lines reach.
    pub open spec fn wf(self) -> bool {
        &&& cursor_in_bounds(self.preview_index, self.patches.len() as int)
        &&& 0 <= self.preview_scroll_offset <= self.lines_under_preview()
    }

    /// Number of lines of the message under preview; 0 without a message.
    pub open spec fn lines_under_preview(self) -> nat {
        if 0 <= self.preview_index < self.patches.len() {
            line_count_of(self.patches[self.preview_index])
        } else {
            0
        }
    }

    /// The flag of `action`.
    pub open spec fn flag(self, action: PatchsetAction) -> bool {
        match action {
            PatchsetAction::Bookmark => self.bookmark,
            PatchsetAction::ReplyWithReviewedBy => self.reply_with_reviewed_by,
        }
    }

    /// The preview with the flag of `action` inverted.
    pub open spec fn toggled(self, action: PatchsetAction) -> DetailsView {
        match action {
            PatchsetAction::Bookmark => DetailsView { bookmark: !self.bookmark, ..self },
            PatchsetAction::ReplyWithReviewedBy => DetailsView {
                reply_with_reviewed_by: !self.reply_with_reviewed_by,
                ..self
            },
        }
    }

    /// The preview with no reply waiting.
    pub open spec fn reply_cleared(self) -> DetailsView {
        DetailsView { reply_with_reviewed_by: false, ..self }
    }

    /// The preview on the message at `index`, scrolled to its top.
    pub open spec fn previewing(self, index: int) -> DetailsView {
        if index == self.preview_index {
            self
        } else {
            DetailsView { preview_index: index, preview_scroll_offset: 0, ..self }
        }
    }
}

/// The texts of a sequence of messages, in order.
pub open spec fn texts_of(patches: Seq<String>) -> Seq<Seq<char>> {
    patches.map_values(|patch: String| patch@)
}

/// The preview of one series and the actions that wait on it.
pub struct PatchsetDetailsAndActionsState {
    representative_patch: Patch,
    patches: Vec<String>,
    preview_index: usize,
    preview_scroll_offset: usize,
    bookmark: bool,
    reply_with_reviewed_by: bool,
    last_screen: CurrentScreen,
}

impl View for PatchsetDetailsAndActionsState {
    type V = DetailsView;

    closed spec fn view(&self) -> DetailsView {
        DetailsView {
            representative: self.representative_patch@,
            patches: texts_of(self.patches@),
            preview_index: self.preview_index as int,
            preview_scroll_offset: self.preview_scroll_offset as int,
            bookmark: self.bookmark,
            reply_with_reviewed_by: self.reply_with_reviewed_by,
            last_screen: self.last_screen,
        }
    }
}

impl PatchsetDetailsAndActionsState {
    pub open spec fn wf(&self) -> bool {
        self@.wf()
    }

    /// A preview of the series of `representative_patch`, on its first
    /// message and at its top, with no reply waiting.
    pub fn new(
        representative_patch: Patch,
        patches: Vec<String>,
        is_bookmarked: bool,
        last_screen: CurrentScreen,
    ) -> (state: PatchsetDetailsAndActionsState)
        ensures
            state.wf(),
            state@ == (DetailsView {
                representative: representative_patch@,
                patches: texts_of(patches@),
                preview_index: 0,
                preview_scroll_offset: 0,
                bookmark: is_bookmarked,
                reply_with_reviewed_by: false,
                last_screen,
            }),
    {
        PatchsetDetailsAndActionsState {
            representative_patch,
            patches,
            preview_index: 0,
            preview_scroll_offset: 0,
            bookmark: is_bookmarked,
            reply_with_reviewed_by: false,
            last_screen,
        }
    }

    pub fn representative_patch(&self) -> (patch: &Patch)
        ensures
            patch@ == self@.representative,
    {
        &self.representative_patch
    }

    pub fn patches(&self) -> (patches: &Vec<String>)
        ensures
            texts_of(patches@) == self@.patches,
    {
        &self.patches
    }

    pub fn preview_index(&self) -> (index: usize)
        ensures
            index == self@.preview_index,
    {
        self.preview_index
    }

    pub fn preview_scroll_offset(&self) -> (offset: usize)
        ensures
            offset == self@.preview_scroll_offset,
    {
        self.preview_scroll_offset
    }

    pub fn last_screen(&self) -> (screen: CurrentScreen)
        ensures
            screen == self@.last_screen,
    {
        self.last_screen
    }

    /// The flag of `action`.
    pub fn action_is_set(&self, action: PatchsetAction) -> (set: bool)
        ensures
            set == self@.flag(action),
    {
        match action {
            PatchsetAction::Bookmark => self.bookmark,
            PatchsetAction::ReplyWithReviewedBy => self.reply_with_reviewed_by,
        }
    }

    /// Goes to the next message, scrolled to its top; stays on the last.
    pub fn preview_next_patch(&mut self)
        ensures
            old(self).wf() ==> final(self).wf(),
            final(self)@ == old(self)@.previewing(
                cursor_below(old(self)@.preview_index, old(self)@.patches.len() as int),
            ),
    {
        let next = step_below(self.preview_index, self.patches.len());
        if next != self.preview_index {
            self.preview_index = next;
            self.preview_scroll_offset = 0;
        }
    }

    /// Goes to the previous message, scrolled to its top; stays on the
    /// first.
    pub fn preview_previous_patch(&mut self)
        ensures
            old(self).wf() ==> final(self).wf(),
            final(self)@ == old(self)@.previewing(cursor_above(old(self)@.preview_index, 0)),
    {
        let previous = step_above(self.preview_index, 0);
        if previous != self.preview_index {
            self.preview_index = previous;
            self.preview_scroll_offset = 0;
        }
    }

    /// Scrolls one line down, as long as the message has a line left.
    pub fn preview_scroll_down(&mut self)
        ensures
            old(self).wf() ==> final(self).wf(),
            final(self)@ == (DetailsView {
                preview_scroll_offset: if old(self)@.preview_scroll_offset < old(
                    self,
                )@.lines_under_preview() {
                    old(self)@.preview_scroll_offset + 1
                } else {
                    old(self)@.preview_scroll_offset
                },
                ..old(self)@
            }),
    {
        if self.preview_index < self.patches.len() {
            let number_of_lines = line_count(self.patches[self.preview_index].as_str());
            if self.preview_scroll_offset < number_of_lines {
                self.preview_scroll_offset = self.preview_scroll_offset + 1;
            }
        }
    }

    /// Scrolls one line up, unless the top is shown.
    pub fn preview_scroll_up(&mut self)
        ensures
            old(self).wf() ==> final(self).wf(),
            final(self)@ == (DetailsView {
                preview_scroll_offset: cursor_above(old(self)@.preview_scroll_offset, 0),
                ..old(self)@
            }),
    {
        self.preview_scroll_offset = step_above(self.preview_scroll_offset, 0);
    }

    pub fn toggle_bookmark_action(&mut self)
        ensures
            final(self)@ == old(self)@.toggled(PatchsetAction::Bookmark),
    {
        self.toggle_action(PatchsetAction::Bookmark);
    }

    pub fn toggle_reply_with_reviewed_by_action(&mut self)
        ensures
            final(self)@ == old(self)@.toggled(PatchsetAction::ReplyWithReviewedBy),
    {
        self.toggle_action(PatchsetAction::ReplyWithReviewedBy);
    }

    /// Inverts the flag of `patchset_action`.
    pub fn toggle_action(&mut self, patchset_action: PatchsetAction)
        ensures
            final(self)@ == old(self)@.toggled(patchset_action),
    {
        match patchset_action {
            PatchsetAction::Bookmark => {
                self.bookmark = !self.bookmark;
            },
            PatchsetAction::ReplyWithReviewedBy => {
                self.reply_with_reviewed_by = !self.reply_with_reviewed_by;
            },
        }
    }

    /// Takes back the wish to reply, if there is one.
    pub fn clear_reply_action(&mut self)
        ensures
            final(self)@ == old(self)@.reply_cleared(),
    {
        if self.reply_with_reviewed_by {
            self.toggle_action(PatchsetAction::ReplyWithReviewedBy);
        }
    }

    /// Whether carrying out the waiting actions will need the terminal: a
    /// reply does.
    pub fn actions_require_user_io(&self) -> (required: bool)
        ensures
            required == self@.reply_with_reviewed_by,
    {
        self.reply_with_reviewed_by
    }
}

/// The signature under which replies go out: the name, a space, and the
/// address in angle brackets.
pub open spec fn signature_of(name: Seq<char>, email: Seq<char>) -> Seq<char> {
    name + seq![' ', '<'] + email + seq!['>']
}

/// Whether a local identity is set: neither the name nor the address is
/// empty.
pub open spec fn identity_is_set(name: Seq<char>, email: Seq<char>) -> bool {
    name.len() > 0 && email.len() > 0
}

/// The indexes at which `outcomes` holds `true`, in rising order.
pub open spec fn indexes_of_successes(outcomes: Seq<bool>) -> Seq<usize>
    decreases outcomes.len(),
{
    if outcomes.len() == 0 {
        Seq::empty()
    } else {
        let before = indexes_of_successes(outcomes.drop_last());
        if outcomes.last() {
            before.push((outcomes.len() - 1) as usize)
        } else {
            before
        }
    }
}

/// What the replies of one series are prepared from.
pub struct ReplyRequest {
    /// The list that the replies are addressed to.
    pub target_list: String,
    /// The messages to reply to, in order.
    pub patches: Vec<String>,
    /// The signature that the review trailer carries.
    pub signature: String,
}

/// How preparing and sending the replies went.
pub enum ReplyExecution {
    /// The replies could not be prepared; none was sent.
    PreparationFailed(String),
    /// Every prepared reply was run to its end: for each, in order,
    /// whether it ended in success.
    Executed(Vec<bool>),
}

/// What a run of the reply workflow returns for a local identity and the
/// way the execution went: without an identity nothing was sent, so
/// nothing succeeded; replies that could not be prepared fail as a whole;
/// else the indexes of the replies that succeeded.
pub open spec fn reply_result(
    name: Seq<char>,
    email: Seq<char>,
    execution: ReplyExecution,
) -> Result<Seq<usize>, AppError> {
    if !identity_is_set(name, email) {
        Ok(Seq::empty())
    } else {
        match execution {
            ReplyExecution::PreparationFailed(message) => Err(AppError::ReplyPreparation(message)),
            ReplyExecution::Executed(outcomes) => Ok(indexes_of_successes(outcomes@)),
        }
    }
}

/// The recorded indexes rise strictly, each one is the index of a reply
/// that succeeded, and none of those is left out.
pub proof fn lemma_indexes_of_successes(outcomes: Seq<bool>)
    requires
        outcomes.len() <= usize::MAX,
    ensures
        indexes_of_successes(outcomes).len() <= outcomes.len(),
        forall|k: int|
            0 <= k < indexes_of_successes(outcomes).len() ==> {
                &&& (#[trigger] indexes_of_successes(outcomes)[k]) < outcomes.len()
                &&& outcomes[indexes_of_successes(outcomes)[k] as int]
            },
        forall|j: int, k: int|
            0 <= j < k < indexes_of_successes(outcomes).len() ==> indexes_of_successes(
                outcomes,
            )[j] < indexes_of_successes(outcomes)[k],
        forall|i: int|
            0 <= i < outcomes.len() && outcomes[i] ==> indexes_of_successes(outcomes).contains(
                i as usize,
            ),
    decreases outcomes.len(),
{
    if outcomes.len() > 0 {
        let front = outcomes.drop_last();
        lemma_indexes_of_successes(front);
        let before = indexes_of_successes(front);
        let all = indexes_of_successes(outcomes);
        let last = (outcomes.len() - 1) as usize;
        assert forall|i: int| 0 <= i < outcomes.len() && outcomes[i] implies all.contains(
            i as usize,
        ) by {
            if i < front.len() {
                assert(front[i]);
                let k = choose|k: int| 0 <= k < before.len() && before[k] == i as usize;
                assert(all[k] == i as usize);
            } else {
                assert(all[all.len() - 1] == last);
            }
        }
    }
}

/// The indexes of the replies that succeeded, in rising order.
pub fn successful_indexes(exit_successes: &Vec<bool>) -> (indexes: Vec<usize>)
    ensures
        indexes@ == indexes_of_successes(exit_successes@),
{
    let mut indexes: Vec<usize> = Vec::new();
    let mut i: usize = 0;
    while i < exit_successes.len()
        invariant
            i <= exit_successes.len(),
            indexes@ == indexes_of_successes(exit_successes@.take(i as int)),
        decreases exit_successes.len() - i,
    {
        proof {
            assert(exit_successes@.take(i + 1).drop_last() == exit_successes@.take(i as int));
        }
        if exit_successes[i] {
            indexes.push(i);
        }
        i = i + 1;
    }
    proof {
        assert(exit_successes@.take(i as int) == exit_successes@);
    }
    indexes
}

/// The signature for replies, where a local identity is set.
pub fn reply_signature(git_user_name: &str, git_user_email: &str) -> (signature: Option<String>)
    ensures
        signature is Some <==> identity_is_set(git_user_name@, git_user_email@),
        signature matches Some(text) ==> text@ == signature_of(git_user_name@, git_user_email@),
{
    if git_user_name.is_empty() || git_user_email.is_empty() {
        return None;
    }
    let mut text = String::from_str(git_user_name);
    push_char(&mut text, ' ');
    push_char(&mut text, '<');
    text.append(git_user_email);
    push_char(&mut text, '>');
    Some(text)
}

impl PatchsetDetailsAndActionsState {
    /// What the replies to this series are to be prepared from, addressed
    /// to `target_list`; `None` where no local identity is set, in which
    /// case nothing is to be prepared or sent.
    pub fn reply_request(
        &self,
        target_list: &str,
        git_user_name: &str,
        git_user_email: &str,
    ) -> (request: Option<ReplyRequest>)
        ensures
            request is Some <==> identity_is_set(git_user_name@, git_user_email@),
            request matches Some(prepared) ==> {
                &&& prepared.target_list@ == target_list@
                &&& texts_of(prepared.patches@) == self@.patches
                &&& prepared.signature@ == signature_of(git_user_name@, git_user_email@)
            },
    {
        match reply_signature(git_user_name, git_user_email) {
            None => None,
            Some(signature) => {
                let patches = self.patches.clone();
                Some(
                    ReplyRequest { target_list: String::from_str(target_list), patches, signature },
                )
            },
        }
    }

    /// The outcome of replying to every message of the series: the indexes
    /// of the messages whose reply succeeded. Without a local identity
    /// nothing was sent and nothing succeeded; replies that could not be
    /// prepared fail as a whole; one reply that failed does not take the
    /// others with it.
    pub fn reply_patchset_with_reviewed_by(
        &self,
        git_user_name: &str,
        git_user_email: &str,
        execution: ReplyExecution,
    ) -> (result: Result<Vec<usize>, AppError>)
        ensures
            match reply_result(git_user_name@, git_user_email@, execution) {
                Ok(indexes) => result matches Ok(found) && found@ == indexes,
                Err(error) => result == Err::<Vec<usize>, AppError>(error),
            },
    {
        if git_user_name.is_empty() || git_user_email.is_empty() {
            return Ok(Vec::new());
        }
        match execution {
            ReplyExecution::PreparationFailed(message) => Err(AppError::ReplyPreparation(message)),
            ReplyExecution::Executed(exit_successes) => Ok(successful_indexes(&exit_successes)),
        }
    }
}

} // verus!
