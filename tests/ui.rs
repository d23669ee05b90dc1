use scooter::ui::{diff_spans, line_diff, Color, Diff, DiffTag};

fn d(text: &str, fg_colour: Color, bg_colour: Color) -> Diff {
    Diff {
        text: text.to_owned(),
        fg_colour,
        bg_colour,
    }
}

#[test]
fn test_identical_lines() {
    let (old_actual, new_actual) = line_diff("hello", "hello");
    let old_expected = vec![d("- ", Color::Red, Color::Reset), d("hello", Color::Red, Color::Reset)];
    let new_expected = vec![d("+ ", Color::Green, Color::Reset), d("hello", Color::Green, Color::Reset)];
    assert_eq!(old_expected, old_actual);
    assert_eq!(new_expected, new_actual);
}

#[test]
fn test_single_char_difference() {
    let (old_actual, new_actual) = line_diff("hello", "hallo");
    let old_expected = vec![
        d("- ", Color::Red, Color::Reset),
        d("h", Color::Red, Color::Reset),
        d("e", Color::Black, Color::Red),
        d("llo", Color::Red, Color::Reset),
    ];
    let new_expected = vec![
        d("+ ", Color::Green, Color::Reset),
        d("h", Color::Green, Color::Reset),
        d("a", Color::Black, Color::Green),
        d("llo", Color::Green, Color::Reset),
    ];
    assert_eq!(old_expected, old_actual);
    assert_eq!(new_expected, new_actual);
}

#[test]
fn test_completely_different_strings() {
    let (old_actual, new_actual) = line_diff("foo", "bar");
    let old_expected = vec![d("- ", Color::Red, Color::Reset), d("foo", Color::Black, Color::Red)];
    let new_expected = vec![d("+ ", Color::Green, Color::Reset), d("bar", Color::Black, Color::Green)];
    assert_eq!(old_expected, old_actual);
    assert_eq!(new_expected, new_actual);
}

#[test]
fn test_empty_strings() {
    let (old_actual, new_actual) = line_diff("", "");
    assert_eq!(vec![d("- ", Color::Red, Color::Reset)], old_actual);
    assert_eq!(vec![d("+ ", Color::Green, Color::Reset)], new_actual);
}

#[test]
fn test_addition_at_end() {
    let (old_actual, new_actual) = line_diff("hello", "hello!");
    let old_expected = vec![d("- ", Color::Red, Color::Reset), d("hello", Color::Red, Color::Reset)];
    let new_expected = vec![
        d("+ ", Color::Green, Color::Reset),
        d("hello", Color::Green, Color::Reset),
        d("!", Color::Black, Color::Green),
    ];
    assert_eq!(old_expected, old_actual);
    assert_eq!(new_expected, new_actual);
}

#[test]
fn test_addition_at_start() {
    let (old_actual, new_actual) = line_diff("hello", "!hello");
    let old_expected = vec![d("- ", Color::Red, Color::Reset), d("hello", Color::Red, Color::Reset)];
    let new_expected = vec![
        d("+ ", Color::Green, Color::Reset),
        d("!", Color::Black, Color::Green),
        d("hello", Color::Green, Color::Reset),
    ];
    assert_eq!(old_expected, old_actual);
    assert_eq!(new_expected, new_actual);
}

#[test]
fn test_diff_spans_merge_runs() {
    let changes = vec![
        (DiffTag::Equal, "a".to_string()),
        (DiffTag::Equal, "b".to_string()),
        (DiffTag::Insert, "x".to_string()),
        (DiffTag::Equal, "c".to_string()),
        (DiffTag::Delete, "d".to_string()),
        (DiffTag::Delete, "e".to_string()),
    ];
    let (old_spans, new_spans) = diff_spans(changes);
    assert_eq!(
        old_spans,
        vec![
            d("- ", Color::Red, Color::Reset),
            d("ab", Color::Red, Color::Reset),
            d("c", Color::Red, Color::Reset),
            d("de", Color::Black, Color::Red),
        ]
    );
    assert_eq!(
        new_spans,
        vec![
            d("+ ", Color::Green, Color::Reset),
            d("ab", Color::Green, Color::Reset),
            d("x", Color::Black, Color::Green),
            d("c", Color::Green, Color::Reset),
        ]
    );
}
