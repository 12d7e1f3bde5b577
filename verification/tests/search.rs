//! Searches through files: the filters, the patterns, what is read, and where
//! a search stops.

use herdr_sidebar::explorer_app::content::{collect_content_hits, ContentSearch};
use herdr_sidebar::explorer_app::hits::{is_small_enough, ContentHit, SearchRun};
use herdr_sidebar::explorer_app::quick::{gather_file, sort_files, QuickFile};
use herdr_sidebar::explorer_app::search::SearchOptions;

fn options(match_case: bool, whole_word: bool, regex: bool) -> SearchOptions {
    SearchOptions { match_case, whole_word, regex }
}

fn plain() -> SearchOptions {
    SearchOptions::default()
}

/// The files of a walk, in the order in which they are listed.
fn walked(labels: &[&str]) -> Vec<QuickFile> {
    let mut files = Vec::new();
    for label in labels {
        let path = format!("/ws/{label}");
        gather_file(&mut files, path.as_str(), label, 20);
    }
    sort_files(&files)
}

fn text_of(label: &str) -> Option<Vec<u8>> {
    match label {
        "src/main.rs" => Some(b"first\nNeedle here\nneedle again\n".to_vec()),
        ".secret" => Some(b"needle\n".to_vec()),
        ".gitignore" => Some(b"target/\n".to_vec()),
        _ => None,
    }
}

fn search(
    query: &str,
    files_in: &str,
    files_out: &str,
    options: SearchOptions,
    limit: usize,
    labels: &[&str],
) -> Result<(Vec<ContentHit>, bool), String> {
    let files = walked(labels);
    let contents = files.iter().map(|f| text_of(f.label.as_str())).collect();
    collect_content_hits(query, files_in, files_out, options, limit, files, &contents, false)
}

fn places(hits: &[ContentHit]) -> Vec<(&str, usize)> {
    hits.iter().map(|hit| (hit.label.as_str(), hit.line)).collect()
}

fn run(query: &str, options: SearchOptions, limit: usize) -> SearchRun {
    SearchRun::new(query, "", "", options, limit).unwrap().unwrap()
}

fn found(query: &str, options: SearchOptions, bytes: &[u8]) -> Vec<ContentHit> {
    let mut hits = Vec::new();
    let file = &walked(&["a.txt"])[0];
    run(query, options, 100).scan_file(file, bytes, &mut hits);
    hits
}

#[test]
fn content_search_groups_ignored_and_hidden_rules_with_source_lines() {
    let shown = ["src/main.rs"];
    let all = ["src/main.rs", ".secret", ".gitignore"];

    let (visible, truncated) = search("NEEDLE", "", "", plain(), 20, &shown).unwrap();
    assert!(!truncated);
    assert_eq!(places(&visible), vec![("src/main.rs", 2), ("src/main.rs", 3)]);

    let (with_hidden, _) = search("needle", "", "", plain(), 20, &all).unwrap();
    assert_eq!(with_hidden.len(), 3);
    assert!(with_hidden.iter().any(|hit| hit.label == ".secret"));

    let (included, _) = search("needle", "src/**", "", plain(), 20, &all).unwrap();
    assert_eq!(included.len(), 2);
    let (excluded, _) = search("needle", "", "src/**", plain(), 20, &all).unwrap();
    assert_eq!(excluded.len(), 1);
    assert_eq!(excluded[0].label, ".secret");
}

#[test]
fn hits_know_where_they_are() {
    let (hits, _) = search("needle", "src", "", plain(), 20, &["src/main.rs"]).unwrap();
    assert_eq!(hits[0].path, "/ws/src/main.rs");
    assert_eq!(hits[0].label, "src/main.rs");
    assert_eq!(hits[0].line, 2);
    assert_eq!(hits[0].context, "Needle here");
    assert_eq!(hits[0].matches, vec![(0, 6)]);
}

#[test]
fn a_search_stops_where_it_may_find_no_more() {
    let all = ["src/main.rs", ".secret"];
    let (hits, truncated) = search("needle", "", "", plain(), 2, &all).unwrap();
    assert_eq!(places(&hits), vec![(".secret", 1), ("src/main.rs", 2)]);
    assert!(truncated);
    let (hits, truncated) = search("needle", "", "", plain(), 3, &all).unwrap();
    assert_eq!(hits.len(), 3);
    assert!(truncated);
    let (hits, truncated) = search("needle", "", "", plain(), 4, &all).unwrap();
    assert_eq!(hits.len(), 3);
    assert!(!truncated);
}

#[test]
fn an_incomplete_list_of_files_is_told() {
    let files = walked(&["src/main.rs"]);
    let contents = vec![text_of("src/main.rs")];
    let (hits, truncated) =
        collect_content_hits("first", "", "", plain(), 20, files, &contents, true).unwrap();
    assert_eq!(hits.len(), 1);
    assert!(truncated);
}

#[test]
fn nothing_is_searched_without_a_query() {
    let (hits, truncated) = search("", "[", "", plain(), 20, &["src/main.rs"]).unwrap();
    assert!(hits.is_empty() && !truncated);
    let (hits, truncated) = search("needle", "[", "", plain(), 0, &["src/main.rs"]).unwrap();
    assert!(hits.is_empty() && !truncated);
}

#[test]
fn broken_patterns_are_complained_about() {
    let error = search("(", "", "", options(false, false, true), 20, &[]).unwrap_err();
    assert!(error.starts_with("Invalid regular expression: "), "{error}");
    assert!(error.contains("unclosed group"), "{error}");
    // The query is no pattern where it is looked for as it is.
    assert!(search("(", "", "", plain(), 20, &[]).is_ok());
    let error = search("a", "[", "", plain(), 20, &[]).unwrap_err();
    assert!(error.starts_with("Invalid include pattern"), "{error}");
    let error = search("a", "", "[", plain(), 20, &[]).unwrap_err();
    assert!(error.starts_with("Invalid exclude pattern"), "{error}");
    // The expression is looked at before the filters.
    let error = search("(", "[", "", options(false, false, true), 20, &[]).unwrap_err();
    assert!(error.starts_with("Invalid regular expression: "), "{error}");
}

#[test]
fn expressions_find_what_they_match() {
    let hits = found("ne+dle", options(false, false, true), b"a NEEDLE\nnedle needle\nneddle\n");
    assert_eq!(places(&hits), vec![("a.txt", 1), ("a.txt", 2)]);
    assert_eq!(hits[0].matches, vec![(2, 8)]);
    assert_eq!(hits[1].matches, vec![(0, 5), (6, 12)]);
    let hits = found("ne+dle", options(true, false, true), b"a NEEDLE\nneedle\n");
    assert_eq!(places(&hits), vec![("a.txt", 2)]);
    let hits = found("a|b", options(false, true, true), b"ab\nb a\n");
    assert_eq!(places(&hits), vec![("a.txt", 2)]);
    assert_eq!(hits[0].matches, vec![(0, 1), (2, 3)]);
}

#[test]
fn an_expression_can_match_lines_without_a_character() {
    // A line is found though there is nothing in it to mark.
    let hits = found("^", options(false, false, true), b"one\ntwo\n");
    assert_eq!(places(&hits), vec![("a.txt", 1), ("a.txt", 2)]);
    assert!(hits[0].matches.is_empty());
}

#[test]
fn only_text_is_searched() {
    assert!(found("a", plain(), b"a\0b").is_empty());
    assert!(found("a", plain(), &[b'a', 0xff]).is_empty());
    assert_eq!(found("ä", plain(), "Ä".as_bytes()).len(), 1);
    assert_eq!(found("a", plain(), b"a\r\na").len(), 2);
    assert_eq!(found("a", plain(), b"a\r\na")[0].context, "a");
    assert!(found("a", plain(), b"").is_empty());
}

#[test]
fn large_files_are_passed_over() {
    assert!(is_small_enough(1_048_576));
    assert!(!is_small_enough(1_048_577));
}

#[test]
fn filters_decide_what_is_read() {
    let run = SearchRun::new("a", "src, *.md", "target", plain(), 20).unwrap().unwrap();
    assert!(run.wants("src/main.rs"));
    assert!(run.wants("docs/readme.md"));
    assert!(!run.wants("docs/readme.txt"));
    assert!(!run.wants("src/target/main.rs"));
    let run = SearchRun::new("a", " , ", "", plain(), 20).unwrap().unwrap();
    assert!(run.wants("anything"));
}

#[test]
fn a_search_asks_for_the_files_it_wants() {
    let run = SearchRun::new("needle", "", "*.md", plain(), 20).unwrap().unwrap();
    let mut search = ContentSearch::new(run, walked(&["a.md", "b.rs", "c.md", "d.rs"]));
    assert_eq!(search.next_file().as_deref(), Some("/ws/b.rs"));
    assert_eq!(search.next_file().as_deref(), Some("/ws/b.rs"));
    search.read(None);
    assert_eq!(search.next_file().as_deref(), Some("/ws/d.rs"));
    search.read(Some(b"a needle"));
    assert_eq!(search.next_file(), None);
    assert_eq!(places(&search.hits), vec![("d.rs", 1)]);
    assert!(!search.full);
}

#[test]
fn a_full_search_asks_for_nothing_more() {
    let run = SearchRun::new("needle", "", "", plain(), 1).unwrap().unwrap();
    let mut search = ContentSearch::new(run, walked(&["a", "b"]));
    assert_eq!(search.next_file().as_deref(), Some("/ws/a"));
    search.read(Some(b"needle\nneedle\n"));
    assert_eq!(search.next_file(), None);
    assert_eq!(places(&search.hits), vec![("a", 1)]);
    assert!(search.full);
}

#[test]
fn files_are_listed_by_their_lowercased_path() {
    let files = walked(&["src/main.rs", ".secret", ".gitignore"]);
    let labels: Vec<&str> = files.iter().map(|f| f.label.as_str()).collect();
    assert_eq!(labels, vec![".gitignore", ".secret", "src/main.rs"]);
    let files = walked(&["Zoo", "apple", "Bar\\baz"]);
    let labels: Vec<&str> = files.iter().map(|f| f.label.as_str()).collect();
    assert_eq!(labels, vec!["apple", "Bar/baz", "Zoo"]);
    assert_eq!(files[1].label_lower, "bar/baz");
    assert_eq!(files[1].path, "/ws/Bar\\baz");
}

#[test]
fn a_walk_is_over_with_enough_files() {
    let mut files = Vec::new();
    assert!(!gather_file(&mut files, "/ws/a", "a", 2));
    assert!(gather_file(&mut files, "/ws/b", "b", 2));
    assert_eq!(files.len(), 2);
}
