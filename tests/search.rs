use scooter::parsed_fields::{ignore_file, is_binary_line, relative_path_from, ParsedFields};
use scooter::pattern::SearchType;
use scooter::replace::{group_included_by_path, mark_file_error, rewrite_lines};
use scooter::{ReplaceResult, SearchResult};

fn lines(text: &[&str]) -> Vec<String> {
    text.iter().map(|l| l.to_string()).collect()
}

fn file1() -> Vec<String> {
    lines(&["This is a test file", "It contains some test content", "For testing purposes"])
}

fn file2() -> Vec<String> {
    lines(&["Another test file", "With different content", "Also for testing"])
}

fn file3() -> Vec<String> {
    lines(&["something", "123 bar[a-b]+.*bar)(baz 456", "something"])
}

fn query(search: SearchType, replace: &str, path: Option<SearchType>) -> ParsedFields {
    ParsedFields::new(search, replace.to_string(), path, "/root/dir".to_string(), false)
}

fn regex(p: &str, advanced: bool) -> SearchType {
    if advanced {
        SearchType::advanced(p).unwrap()
    } else {
        SearchType::basic(p).unwrap()
    }
}

/// Scans each file, then rewrites every file that has a match.
fn search_and_replace(q: &ParsedFields, files: &[(&str, Vec<String>)]) -> (usize, Vec<Vec<String>>) {
    let mut results = Vec::new();
    for (name, content) in files {
        let path = format!("/root/dir/{}", name);
        results.extend(q.scan_file(&path, content));
    }
    let count = results.len();
    let groups = group_included_by_path(&results);
    let mut out: Vec<Vec<String>> = files.iter().map(|(_, c)| c.clone()).collect();
    for group in groups {
        let path = results[group[0]].path.clone();
        let index = files
            .iter()
            .position(|(name, _)| path.ends_with(name))
            .unwrap();
        out[index] = rewrite_lines(&files[index].1, &mut results, &group);
    }
    assert!(results.iter().all(|r| r.replace_result == Some(ReplaceResult::Success)));
    (count, out)
}

#[test]
fn test_fixed_string_escape() {
    let q = query(SearchType::Fixed(".*".to_string()), "example", None);
    let (count, out) = search_and_replace(
        &q,
        &[("file1.txt", file1()), ("file2.txt", file2()), ("file3.txt", file3())],
    );
    assert_eq!(count, 1);
    assert_eq!(out[0], file1());
    assert_eq!(out[1], file2());
    assert_eq!(out[2], lines(&["something", "123 bar[a-b]+examplebar)(baz 456", "something"]));
}

#[test]
fn test_update_search_results_regex() {
    for advanced in [false, true] {
        let q = query(regex(r"\b\w+ing\b", advanced), "VERB", None);
        let (count, out) = search_and_replace(
            &q,
            &[("file1.txt", file1()), ("file2.txt", file2()), ("file3.txt", file3())],
        );
        assert_eq!(count, 4);
        assert_eq!(out[0], lines(&["This is a test file", "It contains some test content", "For VERB purposes"]));
        assert_eq!(out[1], lines(&["Another test file", "With different content", "Also for VERB"]));
        assert_eq!(out[2], lines(&["VERB", "123 bar[a-b]+.*bar)(baz 456", "VERB"]));
    }
}

#[test]
fn test_update_search_results_no_matches() {
    let q = query(SearchType::Fixed("nonexistent-string".to_string()), "replacement", None);
    let (count, out) = search_and_replace(
        &q,
        &[("file1.txt", file1()), ("file2.txt", file2()), ("file3.txt", file3())],
    );
    assert_eq!(count, 0);
    assert_eq!(out, vec![file1(), file2(), file3()]);
}

#[test]
fn test_invalid_regex_is_refused() {
    assert!(SearchType::basic("[invalid regex").is_err());
    assert!(SearchType::advanced("[invalid regex").is_err());
}

#[test]
fn test_update_search_results_filtered_dir() {
    for advanced in [false, true] {
        let q = query(regex("testing", advanced), "f", Some(regex("dir2", advanced)));
        let file3 = lines(&["something", "123 bar[a-b]+.*bar)(baz 456", "something testing"]);
        let (count, out) = search_and_replace(
            &q,
            &[("dir1/file1.txt", file1()), ("dir2/file2.txt", file2()), ("dir2/file3.txt", file3.clone())],
        );
        assert_eq!(count, 2);
        assert_eq!(out[0], file1());
        assert_eq!(out[1], lines(&["Another test file", "With different content", "Also for f"]));
        assert_eq!(out[2], lines(&["something", "123 bar[a-b]+.*bar)(baz 456", "something f"]));
    }
}

#[test]
fn test_ignores_gif_file() {
    let q = query(regex("is", false), "", None);
    assert!(q.scan_file("/root/dir/dir2/file2.gif", &lines(&["This is a gif file"])).is_empty());
    let found = q.scan_file("/root/dir/dir1/file1.txt", &lines(&["This is a text file"]));
    assert_eq!(found.len(), 1);
    assert_eq!(found[0].replacement, "Th  a text file");
    assert!(ignore_file("a/b/picture.GIF"));
    assert!(ignore_file("x.jpeg"));
    assert!(!ignore_file("dir.png/file.txt"));
    assert!(!ignore_file(".gif"));
    assert!(!ignore_file("file.gifs"));
}

#[test]
fn test_advanced_regex_negative_lookahead() {
    let q = query(regex("(test)(?!ing)", true), "BAR", None);
    let (count, out) = search_and_replace(
        &q,
        &[("file1.txt", file1()), ("file2.txt", file2()), ("file3.txt", file3())],
    );
    assert_eq!(count, 3);
    assert_eq!(out[0], lines(&["This is a BAR file", "It contains some BAR content", "For testing purposes"]));
    assert_eq!(out[1], lines(&["Another BAR file", "With different content", "Also for testing"]));
    assert_eq!(out[2], file3());
}

#[test]
fn test_binary_first_line_gives_no_matches() {
    let q = query(SearchType::Fixed("a".to_string()), "b", None);
    assert!(is_binary_line("a\u{0}a"));
    assert!(is_binary_line("%PDF-1.4 a"));
    assert!(!is_binary_line("\u{feff}a\u{0}"));
    assert!(!is_binary_line("plain a"));
    assert!(q.scan_file("/root/dir/f.txt", &lines(&["a\u{0}", "a"])).is_empty());
    let found = q.scan_file("/root/dir/f.txt", &lines(&["a", "xa", "\u{0}", "a"]));
    assert_eq!(found.len(), 2);
    assert_eq!(found[1].line_number, 2);
}

#[test]
fn test_relative_path() {
    assert_eq!(relative_path_from("/root/dir", "/root/dir/dir2/f.txt"), "dir2/f.txt");
    assert_eq!(relative_path_from("/root/dir/", "/root/dir/f.txt"), "f.txt");
    assert_eq!(relative_path_from("/else", "/root/f.txt"), "/root/f.txt");
}

fn result(path: &str, line_number: usize, line: &str, replacement: &str, included: bool) -> SearchResult {
    SearchResult {
        path: path.to_string(),
        line_number,
        line: line.to_string(),
        replacement: replacement.to_string(),
        included,
        replace_result: None,
    }
}

#[test]
fn test_changed_line_is_kept() {
    let mut results = vec![
        result("a", 1, "old one", "new one", true),
        result("a", 2, "old two", "new two", true),
        result("a", 9, "gone", "x", true),
    ];
    let current = lines(&["old one", "edited two", "three"]);
    let out = rewrite_lines(&current, &mut results, &vec![0, 1, 2]);
    assert_eq!(out, lines(&["new one", "edited two", "three"]));
    assert_eq!(results[0].replace_result, Some(ReplaceResult::Success));
    assert_eq!(
        results[1].replace_result,
        Some(ReplaceResult::Error("File changed since last search".to_string()))
    );
    assert_eq!(results[2].replace_result, None);
}

#[test]
fn test_grouping_and_file_errors() {
    let mut results = vec![
        result("a", 1, "x", "y", true),
        result("b", 1, "x", "y", true),
        result("a", 2, "x", "y", false),
        result("a", 3, "x", "y", true),
    ];
    let groups = group_included_by_path(&results);
    assert_eq!(groups, vec![vec![0, 3], vec![1]]);
    mark_file_error(&mut results, &groups[0], "disk full");
    assert_eq!(results[0].replace_result, Some(ReplaceResult::Error("disk full".to_string())));
    assert_eq!(results[3].replace_result, Some(ReplaceResult::Error("disk full".to_string())));
    assert_eq!(results[1].replace_result, None);
    assert_eq!(results[2].replace_result, None);
}

#[test]
fn test_backreference_in_template() {
    for advanced in [false, true] {
        let re = regex(r"(\w+)@(\w+)", advanced);
        assert_eq!(re.is_match("mail bob@host"), Some(true));
        assert_eq!(
            re.replacement_if_match("mail bob@host", "$2 at $1"),
            Some("mail host at bob".to_string())
        );
        assert_eq!(re.replacement_if_match("no mail here", "$2"), None);
    }
}

#[test]
fn test_temp_file_beside_target() {
    assert_eq!(scooter::replace::temp_file_path("/a/b/file.txt"), "/a/b/file.txt.tmp");
    let app = scooter::App::new("/root/dir".to_string(), false, false);
    assert_eq!(app.relative_path("/root/dir/x/y.rs"), "x/y.rs");
}
