use patch_hub_core::details::{
    reply_signature, successful_indexes, PatchsetAction, PatchsetDetailsAndActionsState,
    ReplyExecution,
};
use patch_hub_core::error::AppError;
use patch_hub_core::patch::Patch;
use patch_hub_core::screen::CurrentScreen;
use patch_hub_core::text::line_count;

fn preview(texts: &[&str]) -> PatchsetDetailsAndActionsState {
    PatchsetDetailsAndActionsState::new(
        Patch::new("series@example".to_string()),
        texts.iter().map(|t| t.to_string()).collect(),
        false,
        CurrentScreen::LatestPatchsets,
    )
}

#[test]
fn line_count_counts_lines_as_the_standard_library_does() {
    let texts =
        ["", "a", "a\n", "a\nb", "a\nb\n", "\n", "\n\n", "a\r\nb", "a\r", "a\n\nb", "é\nü"];
    for text in texts {
        assert_eq!(line_count(text), text.lines().count(), "{text:?}");
    }
}

#[test]
fn line_count_has_the_expected_values() {
    assert_eq!(line_count(""), 0);
    assert_eq!(line_count("one"), 1);
    assert_eq!(line_count("one\n"), 1);
    assert_eq!(line_count("one\ntwo"), 2);
    assert_eq!(line_count("\n\n\n"), 3);
}

#[test]
fn new_preview_starts_at_the_top_of_the_first_message() {
    let state = PatchsetDetailsAndActionsState::new(
        Patch::new("series@example".to_string()),
        vec!["first".to_string(), "second".to_string()],
        true,
        CurrentScreen::BookmarkedPatchsets,
    );
    assert_eq!(state.representative_patch().get_message_id(), "series@example");
    assert_eq!(state.patches().len(), 2);
    assert_eq!(state.preview_index(), 0);
    assert_eq!(state.preview_scroll_offset(), 0);
    assert!(state.action_is_set(PatchsetAction::Bookmark));
    assert!(!state.action_is_set(PatchsetAction::ReplyWithReviewedBy));
    assert!(!state.actions_require_user_io());
    assert_eq!(state.last_screen(), CurrentScreen::BookmarkedPatchsets);
}

#[test]
fn preview_moves_stay_within_the_series() {
    let mut state = preview(&["a", "b", "c"]);
    for expected in [1, 2, 2, 2] {
        state.preview_next_patch();
        assert_eq!(state.preview_index(), expected);
    }
    for expected in [1, 0, 0] {
        state.preview_previous_patch();
        assert_eq!(state.preview_index(), expected);
    }
}

#[test]
fn changing_the_message_scrolls_to_its_top() {
    let mut state = preview(&["a\nb\nc", "d\ne"]);
    state.preview_scroll_down();
    state.preview_scroll_down();
    assert_eq!(state.preview_scroll_offset(), 2);
    state.preview_next_patch();
    assert_eq!(state.preview_scroll_offset(), 0);
    state.preview_scroll_down();
    state.preview_next_patch();
    assert_eq!(state.preview_index(), 1);
    assert_eq!(state.preview_scroll_offset(), 1);
    state.preview_previous_patch();
    assert_eq!(state.preview_scroll_offset(), 0);
}

#[test]
fn scrolling_stops_at_the_number_of_lines() {
    let mut state = preview(&["a\nb\nc"]);
    for expected in [1, 2, 3, 3, 3] {
        state.preview_scroll_down();
        assert_eq!(state.preview_scroll_offset(), expected);
    }
    for expected in [2, 1, 0, 0] {
        state.preview_scroll_up();
        assert_eq!(state.preview_scroll_offset(), expected);
    }
}

#[test]
fn scrolling_an_empty_series_does_nothing() {
    let mut state = preview(&[]);
    state.preview_scroll_down();
    assert_eq!(state.preview_scroll_offset(), 0);
    state.preview_next_patch();
    state.preview_previous_patch();
    assert_eq!(state.preview_index(), 0);
}

#[test]
fn toggling_inverts_one_flag_only() {
    let mut state = preview(&["a"]);
    state.toggle_bookmark_action();
    assert!(state.action_is_set(PatchsetAction::Bookmark));
    assert!(!state.action_is_set(PatchsetAction::ReplyWithReviewedBy));
    state.toggle_reply_with_reviewed_by_action();
    assert!(state.actions_require_user_io());
    assert!(state.action_is_set(PatchsetAction::Bookmark));
    state.toggle_action(PatchsetAction::Bookmark);
    assert!(!state.action_is_set(PatchsetAction::Bookmark));
    assert!(state.action_is_set(PatchsetAction::ReplyWithReviewedBy));
    state.clear_reply_action();
    assert!(!state.actions_require_user_io());
    state.clear_reply_action();
    assert!(!state.actions_require_user_io());
}

#[test]
fn signature_is_name_and_address_in_angle_brackets() {
    assert_eq!(
        reply_signature("Ada Lovelace", "ada@example.org"),
        Some("Ada Lovelace <ada@example.org>".to_string())
    );
}

#[test]
fn signature_needs_both_name_and_address() {
    assert_eq!(reply_signature("", "ada@example.org"), None);
    assert_eq!(reply_signature("Ada", ""), None);
    assert_eq!(reply_signature("", ""), None);
}

#[test]
fn reply_request_carries_list_messages_and_signature() {
    let state = preview(&["one", "two"]);
    let request = state.reply_request("all", "Ada", "ada@example.org").unwrap();
    assert_eq!(request.target_list, "all");
    assert_eq!(request.patches, vec!["one", "two"]);
    assert_eq!(request.signature, "Ada <ada@example.org>");
    assert!(state.reply_request("all", "", "ada@example.org").is_none());
}

#[test]
fn successful_indexes_are_those_of_the_replies_that_went_out() {
    assert_eq!(successful_indexes(&vec![true, false, true]), vec![0, 2]);
    assert_eq!(successful_indexes(&vec![false, false]), Vec::<usize>::new());
    assert_eq!(successful_indexes(&Vec::new()), Vec::<usize>::new());
    assert_eq!(successful_indexes(&vec![true, true, true, true]), vec![0, 1, 2, 3]);
}

#[test]
fn reply_without_identity_succeeds_with_nothing_sent() {
    let state = preview(&["one"]);
    let result = state.reply_patchset_with_reviewed_by(
        "",
        "ada@example.org",
        ReplyExecution::Executed(vec![true]),
    );
    assert_eq!(result.unwrap(), Vec::<usize>::new());
    let result = state.reply_patchset_with_reviewed_by(
        "Ada",
        "",
        ReplyExecution::PreparationFailed("no route".to_string()),
    );
    assert_eq!(result.unwrap(), Vec::<usize>::new());
}

#[test]
fn reply_that_cannot_be_prepared_fails_as_a_whole() {
    let state = preview(&["one", "two"]);
    let error = state
        .reply_patchset_with_reviewed_by(
            "Ada",
            "ada@example.org",
            ReplyExecution::PreparationFailed("no route".to_string()),
        )
        .unwrap_err();
    assert!(matches!(error, AppError::ReplyPreparation(ref m) if m == "no route"));
}

#[test]
fn one_failed_reply_does_not_stop_the_others() {
    let state = preview(&["one", "two", "three"]);
    let result = state.reply_patchset_with_reviewed_by(
        "Ada",
        "ada@example.org",
        ReplyExecution::Executed(vec![true, false, true]),
    );
    assert_eq!(result.unwrap(), vec![0, 2]);
}
