use ferrum::models::collection::Collection;
use ferrum::models::environment::Environment;
use ferrum::models::history::{HistoryEntry, MAX_HISTORY};
use ferrum::models::request::HttpMethod;
use ferrum::storage::{record_file_name, retained_history, sort_collections, sort_environments};

#[test]
fn collections_are_listed_by_name_stably() {
    let a1 = Collection::new("b");
    let a2 = Collection::new("a");
    let a3 = Collection::new("b");
    let a4 = Collection::new("B");
    let a5 = Collection::new("ab");
    let ids: Vec<String> = vec![a1.id.clone(), a2.id.clone(), a3.id.clone(), a4.id.clone(), a5.id.clone()];
    let sorted = sort_collections(vec![a1, a2, a3, a4, a5]);
    let names: Vec<&str> = sorted.iter().map(|c| c.name.as_str()).collect();
    assert_eq!(names, vec!["B", "a", "ab", "b", "b"]);
    assert_eq!(sorted[3].id, ids[0]);
    assert_eq!(sorted[4].id, ids[2]);
}

#[test]
fn environments_sort_like_str_ordering() {
    let names = ["zeta", "Ärger", "alpha", "", "alp", "Zulu", "éclair", "alpha2"];
    let envs: Vec<Environment> = names.iter().map(|n| Environment::new(n)).collect();
    let sorted = sort_environments(envs);
    let got: Vec<String> = sorted.iter().map(|e| e.name.clone()).collect();
    let mut expected: Vec<String> = names.iter().map(|s| s.to_string()).collect();
    expected.sort();
    assert_eq!(got, expected);
}

#[test]
fn history_keeps_the_last_entries() {
    let entries: Vec<HistoryEntry> = (0..MAX_HISTORY + 3)
        .map(|i| HistoryEntry::from_request(&format!("u{}", i), &HttpMethod::GET, &[], &[]))
        .collect();
    let kept = retained_history(&entries);
    assert_eq!(kept.len(), MAX_HISTORY);
    assert_eq!(kept[0].request.url, "u3");
    assert_eq!(kept[MAX_HISTORY - 1].request.url, format!("u{}", MAX_HISTORY + 2));
    let few = &entries[..4];
    assert_eq!(retained_history(few).len(), 4);
    assert_eq!(MAX_HISTORY, 500);
}

#[test]
fn records_are_stored_under_their_identifier() {
    assert_eq!(record_file_name("abc"), "abc.json");
    let c = Collection::new("x");
    let name = record_file_name(&c.id);
    assert_eq!(name.len(), 41);
    assert!(!name.contains('/') && !name.contains('\\'));
}
