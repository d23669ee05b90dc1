use scooter::pattern::SearchType;
use scooter::{CheckboxField, Field, KeyCode, KeyModifiers, SearchFields, TextField};

#[test]
fn test_text_field_operations() {
    let mut field = TextField::default();

    for c in "Hello".chars() {
        field.enter_char(c);
    }
    assert_eq!(field.text(), "Hello");
    assert_eq!(field.cursor_idx(), 5);

    field.move_cursor_left();
    assert_eq!(field.cursor_idx(), 4);
    field.move_cursor_right();
    assert_eq!(field.cursor_idx(), 5);
    field.move_cursor_start();
    assert_eq!(field.cursor_idx(), 0);
    field.move_cursor_end();
    assert_eq!(field.cursor_idx(), 5);

    field.clear();
    for c in "Hello world".chars() {
        field.enter_char(c);
    }
    field.move_cursor_start();
    field.move_cursor_forward_word();
    assert_eq!(field.cursor_idx(), 6);
    field.move_cursor_forward_word();
    assert_eq!(field.cursor_idx(), 11);
    field.move_cursor_forward_word();
    assert_eq!(field.cursor_idx(), 11);
    field.move_cursor_back_word();
    assert_eq!(field.cursor_idx(), 6);

    field.move_cursor_start();
    field.delete_char_forward();
    assert_eq!(field.text(), "ello world");
    field.move_cursor_end();
    field.delete_char();
    assert_eq!(field.text(), "ello worl");
    field.move_cursor_start();
    field.delete_word_forward();
    assert_eq!(field.text(), "worl");
    field.move_cursor_end();
    field.delete_word_backward();
    assert_eq!(field.text(), "");
}

#[test]
fn test_checkbox_field() {
    let mut field = CheckboxField::new(false);
    assert!(!field.checked);

    field.handle_keys(KeyCode::Char(' '), KeyModifiers::empty());
    assert!(field.checked);

    field.handle_keys(KeyCode::Char(' '), KeyModifiers::empty());
    assert!(!field.checked);

    field.handle_keys(KeyCode::Enter, KeyModifiers::empty());
    assert!(!field.checked);
}

#[test]
fn test_search_fields() {
    let mut search_fields = SearchFields::with_values("", "", false, "");

    assert_eq!(search_fields.highlighted, 0);
    search_fields.focus_next();
    assert_eq!(search_fields.highlighted, 1);
    search_fields.focus_next();
    assert_eq!(search_fields.highlighted, 2);
    search_fields.focus_next();
    assert_eq!(search_fields.highlighted, 3);
    search_fields.focus_next();
    assert_eq!(search_fields.highlighted, 0);
    search_fields.focus_prev();
    assert_eq!(search_fields.highlighted, 3);
    search_fields.focus_next();
    assert_eq!(search_fields.highlighted, 0);

    for c in "test search".chars() {
        search_fields.handle_keys(KeyCode::Char(c), KeyModifiers::empty());
    }
    assert_eq!(search_fields.search().text(), "test search");

    search_fields.focus_next();
    assert_eq!(search_fields.highlighted, 1);
    for c in "test replace".chars() {
        search_fields.handle_keys(KeyCode::Char(c), KeyModifiers::empty());
    }
    assert_eq!(search_fields.replace().text(), "test replace");

    search_fields.focus_next();
    assert_eq!(search_fields.highlighted, 2);
    search_fields.handle_keys(KeyCode::Char(' '), KeyModifiers::empty());
    assert!(search_fields.fixed_strings().checked);

    match search_fields.search_type().unwrap() {
        SearchType::Fixed(s) => assert_eq!(s, "test search"),
        _ => panic!("Expected Fixed, got Pattern"),
    }

    search_fields.handle_keys(KeyCode::Char(' '), KeyModifiers::empty());
    match search_fields.search_type().unwrap() {
        SearchType::Pattern(_) => {}
        _ => panic!("Expected Pattern, got Fixed"),
    }
}

#[test]
fn test_focus_wraps_after_four_moves() {
    let mut search_fields = SearchFields::with_values("", "", false, "");
    for start in 0..4 {
        while search_fields.highlighted != start {
            search_fields.focus_next();
        }
        for _ in 0..4 {
            search_fields.focus_next();
        }
        assert_eq!(search_fields.highlighted, start);
        for _ in 0..4 {
            search_fields.focus_prev();
        }
        assert_eq!(search_fields.highlighted, start);
    }
}

fn field_with(text: &str, cursor: usize) -> TextField {
    let mut field = TextField::new(text.to_string());
    for _ in 0..cursor {
        field.move_cursor_right();
    }
    field
}

#[test]
fn test_insert_then_backspace_restores_text() {
    let mut field = field_with("héllo wörld", 3);
    field.enter_char('ß');
    assert_eq!(field.text(), "hélßlo wörld");
    assert_eq!(field.cursor_idx(), 4);
    field.delete_char();
    assert_eq!(field.text(), "héllo wörld");
    assert_eq!(field.cursor_idx(), 3);
}

#[test]
fn test_cursor_stays_in_range() {
    let mut field = field_with("ab cd", 0);
    field.move_cursor_left();
    assert_eq!(field.cursor_idx(), 0);
    for _ in 0..10 {
        field.move_cursor_right();
    }
    assert_eq!(field.cursor_idx(), 5);
    field.move_cursor_forward_word();
    assert_eq!(field.cursor_idx(), 5);
    field.delete_word_backward();
    assert_eq!(field.text(), "ab ");
    assert_eq!(field.cursor_idx(), 3);
    field.delete_char_forward();
    assert_eq!(field.text(), "ab ");
    field.clear();
    assert_eq!(field.cursor_idx(), 0);
    field.move_cursor_back_word();
    assert_eq!(field.cursor_idx(), 0);
}

#[test]
fn test_word_motion_round_trip() {
    let mut field = field_with("foo bar baz", 5);
    field.move_cursor_forward_word();
    assert_eq!(field.cursor_idx(), 8);
    field.move_cursor_back_word();
    assert_eq!(field.cursor_idx(), 4);
    let mut field = field_with("foo bar baz", 0);
    field.move_cursor_forward_word();
    field.move_cursor_back_word();
    assert_eq!(field.cursor_idx(), 0);
}

#[test]
fn test_text_field_key_bindings() {
    let mut field = Field::text("one two");
    field.handle_keys(KeyCode::End, KeyModifiers::empty());
    assert_eq!(field.cursor_idx(), Some(7));
    field.handle_keys(KeyCode::Char('w'), KeyModifiers::control());
    field.handle_keys(KeyCode::Char('!'), KeyModifiers::empty());
    field.handle_keys(KeyCode::Left, KeyModifiers::alt());
    assert_eq!(field.cursor_idx(), Some(4));
    field.handle_keys(KeyCode::Char('d'), KeyModifiers::alt());
    field.handle_keys(KeyCode::Home, KeyModifiers::empty());
    field.handle_keys(KeyCode::Char('f'), KeyModifiers::alt());
    assert_eq!(field.cursor_idx(), Some(4));
    field.handle_keys(KeyCode::Backspace, KeyModifiers::meta());
    assert_eq!(field.cursor_idx(), Some(0));
    match &field {
        Field::Text(f) => assert_eq!(f.text(), ""),
        Field::Checkbox(_) => panic!("expected a text field"),
    }
}

#[test]
fn test_editing_clears_field_error() {
    let mut field = Field::text("abc");
    if let Field::Text(f) = &mut field {
        f.set_error("short".to_string(), "long".to_string());
    }
    assert_eq!(field.error().map(|e| e.short), Some("short".to_string()));
    field.handle_keys(KeyCode::Char('d'), KeyModifiers::empty());
    assert!(field.error().is_none());
    let checkbox = Field::checkbox(true);
    assert_eq!(checkbox.cursor_idx(), None);
}

#[test]
fn test_form_errors_and_snapshot() {
    let mut app = scooter::App::new("/tmp".to_string(), false, false);
    app.search_fields = SearchFields::with_values("(", "r", false, "[");
    app.perform_search_if_valid(0);
    let errors = app.search_fields.errors();
    assert_eq!(errors.len(), 2);
    assert_eq!(errors[0].0, "Search text");
    assert_eq!(errors[1].0, "Path pattern (regex)");
    assert_eq!(errors[0].1.short, "Couldn't parse regex");
    assert_eq!(scooter::FieldName::FixedStrings.title(), "Fixed strings");
    assert_eq!(scooter::FieldName::Replace.title(), "Replace text");
    app.search_fields.focus_next();
    match app.search_fields.highlighted_field() {
        Field::Text(f) => assert_eq!(f.text(), "r"),
        Field::Checkbox(_) => panic!("expected the replacement field"),
    }
    assert_eq!(app.search_fields.highlighted_field_name(), scooter::FieldName::Replace);
}
