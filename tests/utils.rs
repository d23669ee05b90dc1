use scooter::utils::{group_by, replace_start};

#[test]
fn test_replace_start_matching_prefix() {
    assert_eq!(replace_start("abac".to_string(), "a", "z"), "zbac");
}

#[test]
fn test_replace_start_no_match() {
    assert_eq!(replace_start("bac".to_string(), "a", "z"), "bac");
}

#[test]
fn test_replace_start_empty_string() {
    assert_eq!(replace_start("".to_string(), "a", "z"), "");
}

#[test]
fn test_replace_start_longer_prefix() {
    assert_eq!(
        replace_start("hello world hello there".to_string(), "hello", "hi"),
        "hi world hello there"
    );
}

#[test]
fn test_replace_start_whole_string() {
    assert_eq!(replace_start("abc".to_string(), "abc", "xyz"), "xyz");
}

#[test]
fn test_replace_start_empty_from() {
    assert_eq!(replace_start("abc".to_string(), "", "xyz"), "xyzabc");
}

#[test]
fn test_replace_start_multibyte_prefix() {
    assert_eq!(replace_start("ééa".to_string(), "é", "e"), "eéa");
}

#[test]
fn test_vec() {
    let numbers = vec![1, 2, 2, 3, 4, 4, 4, 5];
    let grouped = group_by(numbers, |a, b| a == b);
    assert_eq!(
        grouped,
        vec![vec![1], vec![2, 2], vec![3], vec![4, 4, 4], vec![5]]
    );
}

#[test]
fn test_array() {
    let numbers = [1, 2, 2, 3, 4, 4, 4, 5];
    let grouped = group_by(numbers.to_vec(), |a, b| a == b);
    assert_eq!(
        grouped,
        vec![vec![1], vec![2, 2], vec![3], vec![4, 4, 4], vec![5]]
    );
}

#[test]
fn test_range() {
    let grouped = group_by((1..=5).collect(), |a: &i32, b: &i32| b - a <= 1);
    assert_eq!(grouped, vec![vec![1, 2, 3, 4, 5]]);
}

#[test]
fn test_chain() {
    let first = [1, 2];
    let second = [2, 3];
    let grouped = group_by(first.into_iter().chain(second).collect(), |a, b| a == b);
    assert_eq!(grouped, vec![vec![1], vec![2, 2], vec![3]]);
}

#[test]
fn test_empty() {
    let empty: Vec<i32> = vec![];
    let grouped = group_by(empty, |a, b| a == b);
    assert_eq!(grouped, Vec::<Vec<i32>>::new());
}

#[test]
fn test_single() {
    let single = std::iter::once(1).collect();
    let grouped = group_by(single, |a: &i32, b: &i32| a == b);
    assert_eq!(grouped, vec![vec![1]]);
}

#[test]
fn test_string_slice() {
    let words = ["apple", "app", "banana", "ban", "cat"];
    let grouped = group_by(words.to_vec(), |a, b| a.starts_with(b) || b.starts_with(a));
    assert_eq!(
        grouped,
        vec![vec!["apple", "app"], vec!["banana", "ban"], vec!["cat"]]
    );
}

#[test]
fn test_literal_replace_without_overlap() {
    assert_eq!(scooter::text::replace("aaaa", "aa", "b"), "bb");
    assert_eq!(scooter::text::replace("aaa", "aa", "b"), "ba");
    assert_eq!(scooter::text::replace("abc", "", "x"), "xaxbxcx");
    assert!(scooter::text::contains("abc", "bc"));
    assert!(!scooter::text::contains("abc", "cb"));
    assert!(scooter::text::contains("abc", ""));
}
