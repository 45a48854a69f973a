use patch_hub_core::bookmarked::{contains_series, position_of_series, BookmarkedPatchsetsState};
use patch_hub_core::cursor::{step_above, step_below, step_kept};
use patch_hub_core::patch::Patch;

fn patch(id: &str) -> Patch {
    Patch::new(id.to_string())
}

fn ids(state: &BookmarkedPatchsetsState) -> Vec<String> {
    state.bookmarked_patchsets().iter().map(|p| p.get_message_id().clone()).collect()
}

#[test]
fn step_below_moves_until_the_last_entry() {
    assert_eq!(step_below(0, 3), 1);
    assert_eq!(step_below(1, 3), 2);
    assert_eq!(step_below(2, 3), 2);
}

#[test]
fn step_below_stays_on_an_empty_list() {
    assert_eq!(step_below(0, 0), 0);
    assert_eq!(step_below(0, 1), 0);
}

#[test]
fn step_below_stays_at_the_top_of_the_integer_range() {
    assert_eq!(step_below(usize::MAX, usize::MAX), usize::MAX);
    assert_eq!(step_below(usize::MAX - 1, usize::MAX), usize::MAX - 1);
}

#[test]
fn step_above_stops_at_the_floor() {
    assert_eq!(step_above(5, 0), 4);
    assert_eq!(step_above(0, 0), 0);
    assert_eq!(step_above(4, 4), 4);
    assert_eq!(step_above(5, 4), 4);
    assert_eq!(step_above(3, 4), 3);
}

#[test]
fn cursor_stays_within_the_bookmarked_series_under_any_moves() {
    let mut state = BookmarkedPatchsetsState::new(vec![patch("a"), patch("b"), patch("c")]);
    let moves = [1, 1, 1, 1, 0, 1, 0, 0, 0, 0, 0, 1, 1, 0, 1, 1, 1];
    for m in moves {
        if m == 1 {
            state.select_below_patchset();
        } else {
            state.select_above_patchset();
        }
        assert!(state.patchset_index() < 3);
    }
    assert_eq!(state.patchset_index(), 2);
}

#[test]
fn cursor_stays_on_zero_in_an_empty_collection() {
    let mut state = BookmarkedPatchsetsState::new(Vec::new());
    state.select_below_patchset();
    assert_eq!(state.patchset_index(), 0);
    state.select_above_patchset();
    assert_eq!(state.patchset_index(), 0);
    assert!(!state.has_selected_patchset());
}

#[test]
fn new_collection_keeps_each_series_where_it_first_occurs() {
    let state = BookmarkedPatchsetsState::new(vec![
        patch("a"),
        patch("b"),
        patch("a"),
        patch("c"),
        patch("b"),
    ]);
    assert_eq!(ids(&state), vec!["a", "b", "c"]);
    assert_eq!(state.patchset_index(), 0);
}

#[test]
fn bookmarking_a_bookmarked_series_changes_nothing() {
    let mut state = BookmarkedPatchsetsState::new(vec![patch("a"), patch("b")]);
    state.bookmark_selected_patch(&patch("a"));
    assert_eq!(ids(&state), vec!["a", "b"]);
    state.bookmark_selected_patch(&patch("c"));
    assert_eq!(ids(&state), vec!["a", "b", "c"]);
    state.bookmark_selected_patch(&patch("c"));
    assert_eq!(state.bookmarked_patchsets().len(), 3);
}

#[test]
fn unbookmarking_an_absent_series_changes_nothing() {
    let mut state = BookmarkedPatchsetsState::new(vec![patch("a"), patch("b")]);
    state.unbookmark_selected_patch(&patch("z"));
    assert_eq!(ids(&state), vec!["a", "b"]);
}

#[test]
fn unbookmarking_removes_the_series_and_keeps_the_order() {
    let mut state = BookmarkedPatchsetsState::new(vec![patch("a"), patch("b"), patch("c")]);
    state.unbookmark_selected_patch(&patch("b"));
    assert_eq!(ids(&state), vec!["a", "c"]);
    assert!(!state.is_bookmarked(&patch("b")));
    assert!(state.is_bookmarked(&patch("c")));
    state.unbookmark_selected_patch(&patch("b"));
    assert_eq!(ids(&state), vec!["a", "c"]);
}

#[test]
fn bookmarking_leaves_the_cursor_where_it_is() {
    let mut state = BookmarkedPatchsetsState::new(vec![patch("a"), patch("b")]);
    state.select_below_patchset();
    state.bookmark_selected_patch(&patch("c"));
    assert_eq!(state.patchset_index(), 1);
    state.unbookmark_selected_patch(&patch("a"));
    assert_eq!(state.patchset_index(), 1);
}

#[test]
fn selected_series_is_the_one_under_the_cursor() {
    let mut state = BookmarkedPatchsetsState::new(vec![patch("a"), patch("b")]);
    assert!(state.has_selected_patchset());
    assert_eq!(state.get_selected_patchset().get_message_id(), "a");
    state.select_below_patchset();
    assert_eq!(state.get_selected_patchset().get_message_id(), "b");
}

#[test]
fn series_are_found_by_message_identifier() {
    let patches = vec![patch("a"), patch("b"), patch("a")];
    assert!(contains_series(&patches, &patch("b")));
    assert!(!contains_series(&patches, &patch("c")));
    assert_eq!(position_of_series(&patches, &patch("a")), Some(0));
    assert_eq!(position_of_series(&patches, &patch("b")), Some(1));
    assert_eq!(position_of_series(&patches, &patch("c")), None);
    assert!(patch("a").same_series(&patch("a")));
    assert!(!patch("a").same_series(&patch("A")));
}

#[test]
fn unbookmarking_the_last_series_under_the_cursor_moves_the_cursor_onto_the_list() {
    let mut state = BookmarkedPatchsetsState::new(vec![patch("a"), patch("b")]);
    state.select_below_patchset();
    assert_eq!(state.patchset_index(), 1);
    state.unbookmark_selected_patch(&patch("b"));
    assert_eq!(ids(&state), vec!["a"]);
    assert_eq!(state.patchset_index(), 0);
    assert!(state.has_selected_patchset());
    assert_eq!(state.get_selected_patchset().get_message_id(), "a");
    state.unbookmark_selected_patch(&patch("a"));
    assert_eq!(state.patchset_index(), 0);
    assert!(!state.has_selected_patchset());
}

#[test]
fn unbookmarking_keeps_a_cursor_that_still_stands_on_a_series() {
    let mut state =
        BookmarkedPatchsetsState::new(vec![patch("a"), patch("b"), patch("c"), patch("d")]);
    state.select_below_patchset();
    state.select_below_patchset();
    state.unbookmark_selected_patch(&patch("a"));
    assert_eq!(state.patchset_index(), 2);
    assert_eq!(state.get_selected_patchset().get_message_id(), "d");
    state.unbookmark_selected_patch(&patch("z"));
    assert_eq!(state.patchset_index(), 2);
    state.unbookmark_selected_patch(&patch("d"));
    assert_eq!(state.patchset_index(), 1);
    assert_eq!(state.get_selected_patchset().get_message_id(), "c");
}

#[test]
fn cursor_stays_within_the_bookmarked_series_under_moves_and_removals() {
    let mut state = BookmarkedPatchsetsState::new(vec![patch("a"), patch("b"), patch("c")]);
    let steps =
        ["below", "below", "-c", "below", "-a", "above", "-b", "below", "+x", "+y", "below"];
    for step in steps {
        match step {
            "below" => state.select_below_patchset(),
            "above" => state.select_above_patchset(),
            other if other.starts_with('-') => state.unbookmark_selected_patch(&patch(&other[1..])),
            other => state.bookmark_selected_patch(&patch(&other[1..])),
        }
        let len = state.bookmarked_patchsets().len();
        assert!(state.patchset_index() < len || (len == 0 && state.patchset_index() == 0));
    }
    assert_eq!(ids(&state), vec!["x", "y"]);
    assert_eq!(state.patchset_index(), 1);
}

#[test]
fn step_kept_keeps_a_cursor_within_the_list() {
    assert_eq!(step_kept(1, 3), 1);
    assert_eq!(step_kept(2, 3), 2);
    assert_eq!(step_kept(3, 3), 2);
    assert_eq!(step_kept(9, 3), 2);
    assert_eq!(step_kept(1, 1), 0);
    assert_eq!(step_kept(0, 0), 0);
    assert_eq!(step_kept(5, 0), 0);
}
