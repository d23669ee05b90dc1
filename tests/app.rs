use scooter::app::first_visible_result;
use scooter::replace::calculate_statistics;
use scooter::{
    App, AppEvent, BackgroundProcessingEvent, Effect, KeyCode, KeyEvent, KeyEventKind,
    KeyModifiers, ReplaceResult, ReplaceState, Screen, SearchFields, SearchInProgressState,
    SearchResult, SearchState,
};

fn search_result(included: bool, line_number: usize) -> SearchResult {
    SearchResult {
        path: "random/file".to_string(),
        line_number,
        line: "foo".to_owned(),
        replacement: "bar".to_owned(),
        included,
        replace_result: None,
    }
}

fn inclusions(state: &SearchState) -> Vec<bool> {
    state.results.iter().map(|res| res.included).collect::<Vec<_>>()
}

#[test]
fn test_toggle_all_selected_when_all_selected() {
    let mut search_state = SearchState {
        results: vec![
            search_result(true, 11),
            search_result(true, 12),
            search_result(true, 13),
        ],
        selected: 0,
    };
    search_state.toggle_all_selected();
    assert_eq!(inclusions(&search_state), vec![false, false, false]);
}

#[test]
fn test_toggle_all_selected_when_none_selected() {
    let mut search_state = SearchState {
        results: vec![
            search_result(false, 21),
            search_result(false, 22),
            search_result(false, 23),
        ],
        selected: 0,
    };
    search_state.toggle_all_selected();
    assert_eq!(inclusions(&search_state), vec![true, true, true]);
}

#[test]
fn test_toggle_all_selected_when_some_selected() {
    let mut search_state = SearchState {
        results: vec![
            search_result(true, 31),
            search_result(false, 32),
            search_result(true, 33),
        ],
        selected: 0,
    };
    search_state.toggle_all_selected();
    assert_eq!(inclusions(&search_state), vec![true, true, true]);
}

#[test]
fn test_toggle_all_selected_when_no_results() {
    let mut search_state = SearchState {
        results: vec![],
        selected: 0,
    };
    search_state.toggle_all_selected();
    assert_eq!(inclusions(&search_state), vec![] as Vec<bool>);
}

fn success_result(line_number: usize) -> SearchResult {
    SearchResult {
        replace_result: Some(ReplaceResult::Success),
        ..search_result(true, line_number)
    }
}

fn ignored_result(line_number: usize) -> SearchResult {
    search_result(false, line_number)
}

fn error_result(line_number: usize) -> SearchResult {
    SearchResult {
        replace_result: Some(ReplaceResult::Error("error".to_owned())),
        ..search_result(true, line_number)
    }
}

#[test]
fn test_calculate_statistics_all_success() {
    let stats = calculate_statistics(&vec![success_result(1), success_result(2), success_result(3)]);
    assert_eq!(
        stats,
        ReplaceState {
            num_successes: 3,
            num_ignored: 0,
            errors: vec![],
            replacement_errors_pos: 0,
        }
    );
}

#[test]
fn test_calculate_statistics_with_ignores_and_errors() {
    let error_result = error_result(4);
    let stats = calculate_statistics(&vec![
        success_result(1),
        ignored_result(2),
        success_result(3),
        error_result.clone(),
        ignored_result(5),
    ]);
    assert_eq!(
        stats,
        ReplaceState {
            num_successes: 2,
            num_ignored: 2,
            errors: vec![error_result],
            replacement_errors_pos: 0,
        }
    );
}

#[test]
fn test_calculate_statistics_unreached_match() {
    let stats = calculate_statistics(&vec![search_result(true, 7), ignored_result(8)]);
    assert_eq!(stats.num_successes, 0);
    assert_eq!(stats.num_ignored, 1);
    assert_eq!(stats.errors.len(), 1);
    assert_eq!(
        stats.errors[0].replace_result,
        Some(ReplaceResult::Error(
            "Failed to find search result in file".to_owned()
        ))
    );
    assert_eq!(
        stats.num_successes + stats.num_ignored + stats.errors.len(),
        2
    );
}

#[test]
fn test_search_state() {
    let mut state = SearchState {
        results: vec![
            SearchResult {
                path: "test1.txt".to_string(),
                line_number: 1,
                line: "test line 1".to_string(),
                replacement: "replacement 1".to_string(),
                included: true,
                replace_result: None,
            },
            SearchResult {
                path: "test2.txt".to_string(),
                line_number: 2,
                line: "test line 2".to_string(),
                replacement: "replacement 2".to_string(),
                included: false,
                replace_result: None,
            },
        ],
        selected: 0,
    };

    state.move_selected_down();
    assert_eq!(state.selected, 1);
    state.move_selected_down();
    assert_eq!(state.selected, 0);
    state.move_selected_up();
    assert_eq!(state.selected, 1);
    state.move_selected_up();
    assert_eq!(state.selected, 0);

    state.toggle_selected_inclusion();
    assert!(!state.results[0].included);
    state.move_selected_down();
    state.toggle_selected_inclusion();
    assert!(state.results[1].included);
}

#[test]
fn test_replace_state() {
    let mut state = ReplaceState {
        num_successes: 2,
        num_ignored: 1,
        errors: (1..3)
            .map(|n| SearchResult {
                path: format!("error-{}.txt", n),
                line_number: 1,
                line: format!("line {}", n),
                replacement: format!("error replacement {}", n),
                included: true,
                replace_result: Some(ReplaceResult::Error(format!("Test error {}", n))),
            })
            .collect::<Vec<_>>(),
        replacement_errors_pos: 0,
    };

    state.scroll_replacement_errors_down();
    assert_eq!(state.replacement_errors_pos, 1);
    state.scroll_replacement_errors_down();
    assert_eq!(state.replacement_errors_pos, 0);
    state.scroll_replacement_errors_up();
    assert_eq!(state.replacement_errors_pos, 1);
    state.scroll_replacement_errors_up();
    assert_eq!(state.replacement_errors_pos, 0);
}

fn press(code: KeyCode, modifiers: KeyModifiers) -> KeyEvent {
    KeyEvent {
        code,
        modifiers,
        kind: KeyEventKind::Press,
    }
}

#[test]
fn test_app_reset() {
    let mut app = App::new("/tmp".to_string(), false, false);
    app.current_screen = Screen::Results(ReplaceState {
        num_successes: 5,
        num_ignored: 2,
        errors: vec![],
        replacement_errors_pos: 0,
    });

    app.reset();

    assert!(matches!(app.current_screen, Screen::SearchFields));
}

#[test]
fn test_back_from_results() {
    let mut app = App::new("/tmp".to_string(), false, false);
    app.current_screen = Screen::SearchComplete(SearchState {
        results: vec![],
        selected: 0,
    });
    app.search_fields = SearchFields::with_values("foo", "bar", true, "pattern");

    let res = app.handle_key_events(&press(KeyCode::Char('o'), KeyModifiers::control()));
    assert!(!res.exit);
    assert_eq!(app.search_fields.search().text(), "foo");
    assert_eq!(app.search_fields.replace().text(), "bar");
    assert!(app.search_fields.fixed_strings().checked);
    assert_eq!(app.search_fields.path_pattern().text(), "pattern");
    assert!(matches!(app.current_screen, Screen::SearchFields));
}

#[test]
fn test_error_popup() {
    let mut app = App::new("/tmp".to_string(), false, false);
    app.current_screen = Screen::SearchFields;
    app.search_fields =
        SearchFields::with_values("search invalid regex(", "replacement", false, "");

    let res = app.perform_search_if_valid(0);
    assert!(!res.exit);
    assert!(matches!(app.current_screen, Screen::SearchFields));
    assert!(app.search_fields.show_error_popup);

    let res = app.handle_key_events(&press(KeyCode::Esc, KeyModifiers::empty()));
    assert!(!res.exit);
    assert!(!app.search_fields.show_error_popup);

    let res = app.handle_key_events(&press(KeyCode::Esc, KeyModifiers::empty()));
    assert!(res.exit);
}

#[test]
fn test_invalid_pattern_stays_on_form() {
    let mut app = App::new("/tmp".to_string(), false, false);
    app.search_fields = SearchFields::with_values("[invalid regex", "replacement", false, "");
    let res = app.handle_app_event(AppEvent::PerformSearch, 0);
    assert!(!res.exit);
    assert!(matches!(app.current_screen, Screen::SearchFields));
    assert!(app.search_fields.show_error_popup);
    let error = app.search_fields.search().error().expect("search field annotated");
    assert_eq!(error.short, "Couldn't parse regex");
    assert_eq!(
        error.long,
        regex::Regex::new("[invalid regex").unwrap_err().to_string()
    );
    assert!(app.search_fields.path_pattern().error().is_none());
    assert!(app.take_effects().is_empty());
}

#[test]
fn test_invalid_path_pattern_is_annotated() {
    let mut app = App::new("/tmp".to_string(), false, true);
    app.search_fields = SearchFields::with_values("foo", "bar", false, "(").with_advanced_regex(true);
    app.perform_search_if_valid(0);
    assert!(app.search_fields.search().error().is_none());
    let error = app.search_fields.path_pattern().error().expect("path field annotated");
    assert_eq!(
        error.long,
        fancy_regex::Regex::new("(").unwrap_err().to_string()
    );
    assert!(app.search_fields.show_error_popup);
}

#[test]
fn test_valid_search_starts_worker() {
    let mut app = App::new("/root".to_string(), true, false);
    app.search_fields = SearchFields::with_values("foo", "bar", false, "");
    app.perform_search_if_valid(42);
    match &app.current_screen {
        Screen::SearchProgressing(state) => {
            assert_eq!(state.last_render, 42);
            assert!(state.search_state.results.is_empty());
        }
        other => panic!("unexpected screen {:?}", other),
    }
    let effects = app.take_effects();
    assert_eq!(effects.len(), 1);
    match &effects[0] {
        Effect::StartSearch(query) => {
            assert_eq!(query.root_dir, "/root");
            assert!(query.include_hidden);
            assert_eq!(query.replace_string, "bar");
            assert!(query.path_pattern.is_none());
        }
        other => panic!("unexpected effect {:?}", other),
    }
}

fn progressing(last_render: u64) -> App {
    let mut app = App::new("/tmp".to_string(), false, false);
    app.current_screen = Screen::SearchProgressing(SearchInProgressState::new(last_render));
    app
}

#[test]
fn test_redraws_are_coalesced() {
    let mut app = progressing(1000);
    let res = app.handle_background_processing_event(
        BackgroundProcessingEvent::AddSearchResult(search_result(true, 1)),
        1050,
    );
    assert!(!res.rerender);
    let res = app.handle_background_processing_event(
        BackgroundProcessingEvent::AddSearchResult(search_result(true, 2)),
        1100,
    );
    assert!(res.rerender);
    match &app.current_screen {
        Screen::SearchProgressing(state) => {
            assert_eq!(state.search_state.results.len(), 2);
            assert_eq!(state.last_render, 1100);
        }
        other => panic!("unexpected screen {:?}", other),
    }
}

#[test]
fn test_matches_after_leaving_search_are_dropped() {
    let mut app = progressing(0);
    app.handle_key_events(&press(KeyCode::Char('o'), KeyModifiers::control()));
    assert!(matches!(app.current_screen, Screen::SearchFields));
    let effects = app.take_effects();
    assert!(matches!(effects[0], Effect::CancelWorker));
    assert!(matches!(effects[1], Effect::SendAppEvent(AppEvent::Rerender)));
    let res = app.handle_background_processing_event(
        BackgroundProcessingEvent::AddSearchResult(search_result(true, 1)),
        500,
    );
    assert!(!res.rerender);
    assert!(matches!(app.current_screen, Screen::SearchFields));
    app.handle_background_processing_event(BackgroundProcessingEvent::SearchCompleted, 600);
    assert!(matches!(app.current_screen, Screen::SearchFields));
}

#[test]
fn test_search_completes_then_replacement_starts() {
    let mut app = progressing(0);
    app.handle_background_processing_event(
        BackgroundProcessingEvent::AddSearchResult(search_result(true, 3)),
        10,
    );
    app.handle_background_processing_event(BackgroundProcessingEvent::SearchCompleted, 20);
    assert!(matches!(app.current_screen, Screen::SearchComplete(_)));
    app.handle_key_events(&press(KeyCode::Enter, KeyModifiers::empty()));
    assert!(matches!(app.current_screen, Screen::PerformingReplacement(_)));
    let effects = app.take_effects();
    match &effects[0] {
        Effect::StartReplacement(state) => assert_eq!(state.results.len(), 1),
        other => panic!("unexpected effect {:?}", other),
    }
    let stats = ReplaceState {
        num_successes: 1,
        num_ignored: 0,
        errors: vec![],
        replacement_errors_pos: 0,
    };
    app.handle_background_processing_event(BackgroundProcessingEvent::ReplacementCompleted(stats), 30);
    assert!(matches!(app.current_screen, Screen::Results(_)));
    let res = app.handle_key_events(&press(KeyCode::Char('q'), KeyModifiers::empty()));
    assert!(res.exit);
}

#[test]
fn test_form_keys_focus_and_edit() {
    let mut app = App::new("/tmp".to_string(), false, false);
    app.handle_key_events(&press(KeyCode::Char('x'), KeyModifiers::empty()));
    assert_eq!(app.search_fields.search().text(), "x");
    app.handle_key_events(&press(KeyCode::Tab, KeyModifiers::empty()));
    assert_eq!(app.search_fields.highlighted, 1);
    app.handle_key_events(&press(KeyCode::BackTab, KeyModifiers::shift()));
    assert_eq!(app.search_fields.highlighted, 0);
    app.handle_key_events(&press(KeyCode::Tab, KeyModifiers::alt()));
    assert_eq!(app.search_fields.highlighted, 3);
    app.handle_key_events(&press(KeyCode::Enter, KeyModifiers::empty()));
    let effects = app.take_effects();
    assert!(matches!(effects[0], Effect::SendAppEvent(AppEvent::PerformSearch)));
    let res = app.handle_key_events(&press(KeyCode::Char('c'), KeyModifiers::control()));
    assert!(res.exit);
}

#[test]
fn test_first_visible_result() {
    assert_eq!(first_visible_result(0, 100, 10), 0);
    assert_eq!(first_visible_result(50, 100, 10), 45);
    assert_eq!(first_visible_result(98, 100, 10), 90);
    assert_eq!(first_visible_result(3, 2, 10), 0);
}
