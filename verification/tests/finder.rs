use nub_search::error::CatalogError;
use nub_search::engine::Lookup;
use nub_search::finder::{
    choose_places, finish, gather, holds_place, merge, Found, NubFinder, Stored, RESULT_LIMIT,
};
use nub_search::nub::{join_tags, Nub};

fn nub(source: &str, tags: &[&str]) -> Nub {
    Nub { source: source.to_string(), tags: tags.iter().map(|t| t.to_string()).collect() }
}

fn pairs(found: &[Found]) -> Vec<(String, String)> {
    found.iter().map(|f| (f.source.clone(), f.tags.clone())).collect()
}

fn pair(source: &str, tags: &str) -> (String, String) {
    (source.to_string(), tags.to_string())
}

fn some(text: &str) -> Option<String> {
    Some(text.to_string())
}

#[test]
fn finds_by_keyword_and_by_source() {
    let mut finder = NubFinder::new().unwrap();
    finder
        .commit(vec![nub("u1", &["happy", "cat"]), nub("u2", &["sad", "dog"])])
        .unwrap();
    assert_eq!(pairs(&finder.search("cat").unwrap()), vec![pair("u1", "happy, cat")]);
    assert_eq!(pairs(&finder.search("u2").unwrap()), vec![pair("u2", "sad, dog")]);
    assert_eq!(pairs(&finder.search("u3").unwrap()), Vec::<(String, String)>::new());
}

#[test]
fn new_index_finds_nothing() {
    let finder = NubFinder::new().unwrap();
    assert!(finder.search("cat").unwrap().is_empty());
}

#[test]
fn empty_catalog_finds_nothing() {
    let mut finder = NubFinder::new().unwrap();
    finder.commit(vec![nub("u1", &["cat"])]).unwrap();
    finder.commit(Vec::new()).unwrap();
    assert!(finder.search("cat").unwrap().is_empty());
}

#[test]
fn exact_source_is_among_the_results() {
    let mut finder = NubFinder::new().unwrap();
    let catalog: Vec<Nub> = (0..30)
        .map(|i| nub(&format!("item{i}"), &["common", &format!("tag{i}")]))
        .collect();
    finder.commit(catalog).unwrap();
    for i in [0, 7, 29] {
        let source = format!("item{i}");
        let found = pairs(&finder.search(&source).unwrap());
        assert!(found.contains(&(source, format!("common, tag{i}"))));
    }
}

#[test]
fn source_is_returned_as_it_was_given() {
    let mut finder = NubFinder::new().unwrap();
    finder.commit(vec![nub("Mixed/Case_01.GIF", &["Loud", "CAT"])]).unwrap();
    assert_eq!(
        pairs(&finder.search("cat").unwrap()),
        vec![pair("Mixed/Case_01.GIF", "Loud, CAT")]
    );
}

#[test]
fn never_more_than_ten_results() {
    let mut finder = NubFinder::new().unwrap();
    let catalog: Vec<Nub> = (0..15).map(|i| nub(&format!("u{i}"), &["cat"])).collect();
    finder.commit(catalog).unwrap();
    let found = finder.search("cat").unwrap();
    assert_eq!(RESULT_LIMIT, 10);
    assert_eq!(found.len(), 10);
}

#[test]
fn equal_matches_come_in_catalog_order() {
    let mut finder = NubFinder::new().unwrap();
    finder
        .commit(vec![nub("a", &["cat"]), nub("b", &["cat"]), nub("c", &["cat"])])
        .unwrap();
    assert_eq!(
        pairs(&finder.search("cat").unwrap()),
        vec![pair("a", "cat"), pair("b", "cat"), pair("c", "cat")]
    );
}

#[test]
fn better_matches_come_first() {
    let mut finder = NubFinder::new().unwrap();
    finder
        .commit(vec![
            nub("long", &["cat", "dog", "bird", "fish", "horse", "sheep"]),
            nub("short", &["cat"]),
            nub("none", &["dog"]),
        ])
        .unwrap();
    assert_eq!(
        pairs(&finder.search("cat").unwrap()),
        vec![pair("short", "cat"), pair("long", "cat, dog, bird, fish, horse, sheep")]
    );
}

#[test]
fn rebuild_leaves_nothing_of_the_old_catalog() {
    let mut finder = NubFinder::new().unwrap();
    finder.commit(vec![nub("old", &["cat"]), nub("both", &["cat"])]).unwrap();
    finder.commit(vec![nub("both", &["cat"]), nub("fresh", &["cat"])]).unwrap();
    assert_eq!(
        pairs(&finder.search("cat").unwrap()),
        vec![pair("both", "cat"), pair("fresh", "cat")]
    );
    assert!(finder.search("old").unwrap().is_empty());
}

#[test]
fn same_source_twice_gives_two_results() {
    let mut finder = NubFinder::new().unwrap();
    finder.commit(vec![nub("u", &["cat"]), nub("u", &["dog"])]).unwrap();
    assert_eq!(pairs(&finder.search("u").unwrap()), vec![pair("u", "cat"), pair("u", "dog")]);
}

#[test]
fn empty_query_is_refused() {
    let mut finder = NubFinder::new().unwrap();
    finder.commit(vec![nub("u1", &["cat"])]).unwrap();
    assert_eq!(finder.search("").unwrap_err(), CatalogError::Query);
}

#[test]
fn malformed_query_is_refused() {
    let mut finder = NubFinder::new().unwrap();
    finder.commit(vec![nub("u1", &["cat"])]).unwrap();
    assert_eq!(finder.search("cat AND").unwrap_err(), CatalogError::Query);
    assert_eq!(finder.search("nowhere:cat").unwrap_err(), CatalogError::Query);
}

#[test]
fn query_may_name_a_field() {
    let mut finder = NubFinder::new().unwrap();
    finder.commit(vec![nub("cat", &["dog"]), nub("dog", &["cat"])]).unwrap();
    assert_eq!(pairs(&finder.search("keywords:cat").unwrap()), vec![pair("dog", "cat")]);
    assert_eq!(pairs(&finder.search("url:cat").unwrap()), vec![pair("cat", "dog")]);
}

#[test]
fn tags_are_joined_by_comma_and_space() {
    assert_eq!(join_tags(&Vec::new()), "");
    assert_eq!(join_tags(&vec!["happy".to_string()]), "happy");
    assert_eq!(join_tags(&vec!["happy".to_string(), "cat".to_string()]), "happy, cat");
    assert_eq!(
        join_tags(&vec!["a".to_string(), String::new(), "c".to_string()]),
        "a, , c"
    );
}

#[test]
fn gather_keeps_the_complete_rows_in_order() {
    let stored: Vec<Stored> = vec![
        (some("u1"), some("cat")),
        (None, some("dog")),
        (some("u3"), None),
        (None, None),
        (some("u5"), some("")),
    ];
    assert_eq!(pairs(&gather(&stored)), vec![pair("u1", "cat"), pair("u5", "")]);
    assert!(gather(&Vec::new()).is_empty());
}

#[test]
fn a_source_is_found_by_itself_whatever_it_looks_like() {
    let mut finder = NubFinder::new().unwrap();
    finder
        .commit(vec![
            nub("https://example.org/a.gif", &["happy", "cat"]),
            nub("a b", &["x"]),
            nub("cat AND", &["y"]),
            nub("(open", &["z"]),
            nub("Mixed/Case_01.GIF", &["w"]),
        ])
        .unwrap();
    assert_eq!(
        pairs(&finder.search("https://example.org/a.gif").unwrap()),
        vec![pair("https://example.org/a.gif", "happy, cat")]
    );
    assert_eq!(pairs(&finder.search("a b").unwrap()), vec![pair("a b", "x")]);
    assert_eq!(pairs(&finder.search("(open").unwrap()), vec![pair("(open", "z")]);
    assert_eq!(
        pairs(&finder.search("Mixed/Case_01.GIF").unwrap()),
        vec![pair("Mixed/Case_01.GIF", "w")]
    );
    assert_eq!(finder.search("(shut").unwrap_err(), CatalogError::Query);
    assert!(finder.search("mixed/case_01.gif").unwrap().is_empty());
}

#[test]
fn the_record_with_the_source_comes_before_the_ranked_matches() {
    let mut finder = NubFinder::new().unwrap();
    finder
        .commit(vec![nub("a", &["cat"]), nub("b", &["cat", "dog"]), nub("cat", &["bird"])])
        .unwrap();
    assert_eq!(
        pairs(&finder.search("cat").unwrap()),
        vec![pair("cat", "bird"), pair("a", "cat"), pair("b", "cat, dog")]
    );
}

#[test]
fn a_refused_text_that_is_a_source_is_answered() {
    let mut finder = NubFinder::new().unwrap();
    finder.commit(vec![nub("cat AND", &["y"]), nub("u2", &["cat"])]).unwrap();
    assert_eq!(pairs(&finder.search("cat AND").unwrap()), vec![pair("cat AND", "y")]);
}

#[test]
fn more_than_ten_records_with_one_source_give_ten_of_them() {
    let mut finder = NubFinder::new().unwrap();
    let catalog: Vec<Nub> = (0..12).map(|i| nub("same", &[&format!("tag{i}")])).collect();
    finder.commit(catalog).unwrap();
    let found = finder.search("same").unwrap();
    assert_eq!(found.len(), 10);
    assert!(found.iter().all(|f| f.source == "same"));
}

#[test]
fn a_very_long_text_is_searched_as_a_query_only() {
    let mut finder = NubFinder::new().unwrap();
    finder.commit(vec![nub("u1", &["cat"])]).unwrap();
    let long = "cat ".repeat(5000);
    assert_eq!(pairs(&finder.search(&long).unwrap()), vec![pair("u1", "cat")]);
}

#[test]
fn each_rebuild_replaces_the_one_before() {
    let mut finder = NubFinder::new().unwrap();
    finder.commit(vec![nub("u1", &["cat"])]).unwrap();
    finder.commit(vec![nub("u2", &["cat"])]).unwrap();
    finder.commit(vec![nub("u3", &["cat"])]).unwrap();
    assert_eq!(pairs(&finder.search("cat").unwrap()), vec![pair("u3", "cat")]);
}

#[test]
fn places_are_found_in_a_list() {
    let list = vec![(0, 1), (0, 3), (2, 0)];
    assert!(holds_place(&list, (0, 3)));
    assert!(holds_place(&list, (2, 0)));
    assert!(!holds_place(&list, (3, 0)));
    assert!(!holds_place(&list, (0, 0)));
    assert!(!holds_place(&Vec::new(), (0, 0)));
}

#[test]
fn merge_puts_exact_places_first_and_drops_repeats() {
    assert_eq!(merge(&vec![(0, 2)], &vec![(0, 1), (0, 2), (0, 3)], 10), vec![(0, 2), (0, 1), (0, 3)]);
    assert_eq!(merge(&vec![], &vec![(0, 1), (0, 2)], 10), vec![(0, 1), (0, 2)]);
    assert_eq!(merge(&vec![(0, 1), (0, 2)], &vec![], 10), vec![(0, 1), (0, 2)]);
    assert_eq!(merge(&vec![], &vec![], 10), Vec::<(u32, u32)>::new());
}

#[test]
fn merge_keeps_to_the_limit() {
    assert_eq!(merge(&vec![(0, 5), (0, 6)], &vec![(0, 1), (0, 2), (0, 3)], 3), vec![(0, 5), (0, 6), (0, 1)]);
    assert_eq!(merge(&vec![(0, 5), (0, 6), (0, 7)], &vec![(0, 1)], 2), vec![(0, 5), (0, 6)]);
    assert_eq!(merge(&vec![(0, 5)], &vec![(0, 1)], 0), Vec::<(u32, u32)>::new());
}

#[test]
fn places_are_chosen_from_the_two_lookups() {
    let exact = Lookup::Hits(vec![(0, 2)]);
    let none = Lookup::Hits(vec![]);
    let ranked = Lookup::Hits(vec![(0, 1), (0, 2)]);
    assert_eq!(choose_places(&exact, &ranked, 10), Some(vec![(0, 2), (0, 1)]));
    assert_eq!(choose_places(&none, &ranked, 10), Some(vec![(0, 1), (0, 2)]));
    assert_eq!(choose_places(&none, &Lookup::Hits(vec![]), 10), Some(vec![]));
    assert_eq!(choose_places(&exact, &Lookup::Rejected, 10), Some(vec![(0, 2)]));
    assert_eq!(choose_places(&none, &Lookup::Rejected, 10), None);
    assert_eq!(choose_places(&exact, &Lookup::Failed, 10), None);
    assert_eq!(choose_places(&Lookup::Failed, &ranked, 10), None);
    assert_eq!(choose_places(&Lookup::Rejected, &ranked, 10), None);
}

#[test]
fn finish_refuses_where_nothing_was_read() {
    assert_eq!(finish(None).unwrap_err(), CatalogError::Query);
    let stored: Vec<Stored> = vec![(some("u1"), some("cat")), (None, some("dog"))];
    assert_eq!(pairs(&finish(Some(stored)).unwrap()), vec![pair("u1", "cat")]);
    assert!(finish(Some(Vec::new())).unwrap().is_empty());
}

#[test]
fn blank_query_finds_nothing() {
    let mut finder = NubFinder::new().unwrap();
    finder.commit(vec![nub("u1", &["cat"])]).unwrap();
    assert!(finder.search("  ").unwrap().is_empty());
}
