use patch_hub_core::error::AppError;
use patch_hub_core::mailing_lists::MailingListSelectionState;
use patch_hub_core::patch::MailingList;

fn lists(names: &[&str]) -> Vec<MailingList> {
    names.iter().map(|n| MailingList::new(n.to_string(), format!("about {n}"))).collect()
}

fn possible(state: &MailingListSelectionState) -> Vec<String> {
    state.possible_mailing_lists().iter().map(|l| l.get_name().to_string()).collect()
}

fn typed(state: &mut MailingListSelectionState, text: &str) {
    for ch in text.chars() {
        state.push_char_to_target_list(ch);
    }
}

#[test]
fn filter_text_linux_lets_the_two_linux_lists_through() {
    let mut state = MailingListSelectionState::new(
        lists(&["amd-gfx", "linux-kernel", "linux-mm"]),
        "lists.json".to_string(),
    );
    state.highlight_below_list();
    typed(&mut state, "linux");
    assert_eq!(state.target_list(), "linux");
    assert_eq!(possible(&state), vec!["linux-kernel", "linux-mm"]);
    assert_eq!(state.highlighted_list_index(), 0);
}

#[test]
fn new_selection_lets_every_list_through() {
    let state = MailingListSelectionState::new(lists(&["b", "a", "c"]), "p.json".to_string());
    assert_eq!(possible(&state), vec!["b", "a", "c"]);
    assert_eq!(state.mailing_lists().len(), 3);
    assert_eq!(state.target_list(), "");
    assert_eq!(state.highlighted_list_index(), 0);
    assert_eq!(state.mailing_lists_path(), "p.json");
    assert_eq!(state.mailing_lists()[0].get_description(), "about b");
}

#[test]
fn filter_is_a_prefix_match_that_minds_letter_case() {
    let mut state = MailingListSelectionState::new(
        lists(&["Linux-mm", "linux-mm", "alinux", "lin", "linux"]),
        "p.json".to_string(),
    );
    typed(&mut state, "linux");
    assert_eq!(possible(&state), vec!["linux-mm", "linux"]);
}

#[test]
fn every_edit_of_the_filter_text_highlights_the_first_match() {
    let mut state = MailingListSelectionState::new(
        lists(&["amd-gfx", "linux-kernel", "linux-mm"]),
        "p.json".to_string(),
    );
    typed(&mut state, "linux");
    state.highlight_below_list();
    assert_eq!(state.highlighted_list_index(), 1);
    state.push_char_to_target_list('-');
    assert_eq!(state.highlighted_list_index(), 0);
    state.highlight_below_list();
    state.remove_last_target_list_char();
    assert_eq!(state.target_list(), "linux");
    assert_eq!(state.highlighted_list_index(), 0);
    state.highlight_below_list();
    state.clear_target_list();
    assert_eq!(state.target_list(), "");
    assert_eq!(state.highlighted_list_index(), 0);
    assert_eq!(possible(&state), vec!["amd-gfx", "linux-kernel", "linux-mm"]);
}

#[test]
fn removing_from_an_empty_filter_text_keeps_the_highlight() {
    let mut state = MailingListSelectionState::new(lists(&["a", "b"]), "p.json".to_string());
    state.highlight_below_list();
    state.remove_last_target_list_char();
    assert_eq!(state.target_list(), "");
    assert_eq!(state.highlighted_list_index(), 1);
}

#[test]
fn removing_takes_the_last_character_off() {
    let mut state = MailingListSelectionState::new(lists(&["ab", "ac"]), "p.json".to_string());
    typed(&mut state, "abé");
    assert_eq!(possible(&state), Vec::<String>::new());
    state.remove_last_target_list_char();
    assert_eq!(state.target_list(), "ab");
    assert_eq!(possible(&state), vec!["ab"]);
    state.remove_last_target_list_char();
    assert_eq!(state.target_list(), "a");
    assert_eq!(possible(&state), vec!["ab", "ac"]);
}

#[test]
fn highlight_stays_among_the_matches() {
    let mut state = MailingListSelectionState::new(
        lists(&["amd-gfx", "linux-kernel", "linux-mm"]),
        "p.json".to_string(),
    );
    for expected in [1, 2, 2] {
        state.highlight_below_list();
        assert_eq!(state.highlighted_list_index(), expected);
    }
    for expected in [1, 0, 0] {
        state.highlight_above_list();
        assert_eq!(state.highlighted_list_index(), expected);
    }
    assert_eq!(state.highlighted_list().get_name(), "amd-gfx");
}

#[test]
fn no_target_is_valid_when_nothing_matches() {
    let mut state = MailingListSelectionState::new(lists(&["amd-gfx"]), "p.json".to_string());
    assert!(state.has_valid_target_list());
    typed(&mut state, "x");
    assert!(!state.has_valid_target_list());
    state.highlight_below_list();
    state.highlight_above_list();
    assert_eq!(state.highlighted_list_index(), 0);
    let empty = MailingListSelectionState::new(Vec::new(), "p.json".to_string());
    assert!(!empty.has_valid_target_list());
}

#[test]
fn refresh_replaces_the_lists_and_clears_the_filter_text() {
    let mut state = MailingListSelectionState::new(lists(&["old"]), "p.json".to_string());
    typed(&mut state, "o");
    assert!(state.refresh_available_mailing_lists(Ok(lists(&["new-a", "new-b"]))).is_ok());
    assert_eq!(state.target_list(), "");
    assert_eq!(possible(&state), vec!["new-a", "new-b"]);
    assert_eq!(state.mailing_lists().len(), 2);
    assert_eq!(state.highlighted_list_index(), 0);
    assert_eq!(state.mailing_lists_path(), "p.json");
}

#[test]
fn failed_refresh_changes_nothing() {
    let mut state = MailingListSelectionState::new(lists(&["ab", "ac"]), "p.json".to_string());
    typed(&mut state, "a");
    state.highlight_below_list();
    let error = state.refresh_available_mailing_lists(Err("timed out".to_string())).unwrap_err();
    assert!(matches!(error, AppError::MailingListsFetch(ref m) if m == "timed out"));
    assert_eq!(state.target_list(), "a");
    assert_eq!(possible(&state), vec!["ab", "ac"]);
    assert_eq!(state.highlighted_list_index(), 1);
}
