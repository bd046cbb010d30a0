use tui_scheduler::entry::Entry;
use tui_scheduler::store::filter_entries;

fn entry_named(name: &str, begin_day: i64, end_day: i64) -> Entry {
    Entry {
        priority: 0,
        name: name.to_string(),
        category: String::new(),
        description: String::new(),
        begin_day,
        end_day,
        begin_text: String::new(),
        end_text: String::new(),
    }
}

#[test]
fn only_the_relevant_entry_survives() {
    let today = 20_000;
    let entries = vec![
        entry_named("ended yesterday", today - 30, today - 1),
        entry_named("starts next week", today + 8, today + 9),
        entry_named("current", today, today + 1),
    ];
    let kept = filter_entries(&entries, today);
    assert_eq!(kept.len(), 1);
    assert_eq!(kept[0].name, "current");
}

#[test]
fn boundaries_of_the_window() {
    let today = 20_000;
    let entries = vec![
        entry_named("ends today", today - 5, today),
        entry_named("begins in exactly seven days", today + 7, today + 10),
        entry_named("begins in eight days", today + 8, today + 10),
        entry_named("ended yesterday", today - 5, today - 1),
    ];
    let kept = filter_entries(&entries, today);
    let names: Vec<&str> = kept.iter().map(|e| e.name.as_str()).collect();
    assert_eq!(names, vec!["ends today", "begins in exactly seven days"]);
}

#[test]
fn order_is_preserved() {
    let today = 20_000;
    let entries = vec![
        entry_named("a", today, today + 1),
        entry_named("gone", today + 9, today + 9),
        entry_named("b", today, today + 2),
        entry_named("c", today - 1, today + 3),
    ];
    let kept = filter_entries(&entries, today);
    let names: Vec<&str> = kept.iter().map(|e| e.name.as_str()).collect();
    assert_eq!(names, vec!["a", "b", "c"]);
}

#[test]
fn empty_collection_stays_empty() {
    let kept = filter_entries(&Vec::new(), 20_000);
    assert!(kept.is_empty());
}

#[test]
fn kept_entries_carry_all_fields() {
    let today = 20_000;
    let mut e = entry_named("full", today, today + 1);
    e.priority = 7;
    e.category = "work".to_string();
    e.description = "write things".to_string();
    e.begin_text = "2024-10-01 09:00".to_string();
    e.end_text = "2024-10-02 17:00".to_string();
    let kept = filter_entries(&vec![e], today);
    assert_eq!(kept[0].priority, 7);
    assert_eq!(kept[0].category, "work");
    assert_eq!(kept[0].description, "write things");
    assert_eq!(kept[0].begin_text, "2024-10-01 09:00");
    assert_eq!(kept[0].end_text, "2024-10-02 17:00");
}
