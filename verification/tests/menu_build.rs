use promptgenie::menu::{build, MenuEntry, MenuItemSpec};

fn item(id: &str, title: &str) -> MenuItemSpec {
    MenuItemSpec { id: String::from(id), title: String::from(title) }
}

fn entry_parts(e: &MenuEntry) -> Option<(&str, &str, bool)> {
    match e {
        MenuEntry::Separator => None,
        MenuEntry::Item { id, title, clickable } => Some((id.as_str(), title.as_str(), *clickable)),
    }
}

#[test]
fn build_single_item_order() {
    let items = vec![item("p1", "Short")];
    let m = build(&items);
    assert_eq!(m.entries.len(), 6);
    assert_eq!(entry_parts(&m.entries[0]), Some(("show-window", "Show Window", true)));
    assert!(matches!(m.entries[1], MenuEntry::Separator));
    assert_eq!(entry_parts(&m.entries[2]), Some(("recent-title", "Recent Prompts", false)));
    assert_eq!(entry_parts(&m.entries[3]), Some(("p1", "Short", true)));
    assert!(matches!(m.entries[4], MenuEntry::Separator));
    assert_eq!(entry_parts(&m.entries[5]), Some(("quit", "Quit", true)));
}

#[test]
fn build_empty_list_has_placeholder() {
    let items: Vec<MenuItemSpec> = Vec::new();
    let m = build(&items);
    assert_eq!(m.entries.len(), 6);
    assert_eq!(entry_parts(&m.entries[3]), Some(("no-recent", "No entries", false)));
    let clickable = m
        .entries
        .iter()
        .filter(|e| matches!(e, MenuEntry::Item { clickable: true, .. }))
        .count();
    assert_eq!(clickable, 2);
}

#[test]
fn build_counts_and_unique_ids() {
    for n in 0..6usize {
        let items: Vec<MenuItemSpec> =
            (0..n).map(|i| item(&format!("id{}", i), &format!("title {}", i))).collect();
        let m = build(&items);
        let clickable = m
            .entries
            .iter()
            .filter(|e| matches!(e, MenuEntry::Item { clickable: true, .. }))
            .count();
        let placeholders = m
            .entries
            .iter()
            .filter(|e| matches!(e, MenuEntry::Item { id, clickable: false, .. } if id == "no-recent"))
            .count();
        assert_eq!(clickable + placeholders, n.max(1) + 2);
        let mut ids: Vec<&str> = m
            .entries
            .iter()
            .filter_map(|e| match e {
                MenuEntry::Item { id, .. } => Some(id.as_str()),
                MenuEntry::Separator => None,
            })
            .collect();
        let total = ids.len();
        ids.sort();
        ids.dedup();
        assert_eq!(ids.len(), total);
    }
}

#[test]
fn build_keeps_supplied_order() {
    let items = vec![item("b", "Second"), item("a", "First"), item("c", "Third")];
    let m = build(&items);
    assert_eq!(entry_parts(&m.entries[3]).unwrap().0, "b");
    assert_eq!(entry_parts(&m.entries[4]).unwrap().0, "a");
    assert_eq!(entry_parts(&m.entries[5]).unwrap().0, "c");
}

#[test]
fn build_rebuild_is_identical() {
    let items = || vec![item("p1", "A rather long title that goes over the limit")];
    let first = build(&items());
    let second = build(&items());
    assert_eq!(first.entries.len(), second.entries.len());
    for (a, b) in first.entries.iter().zip(second.entries.iter()) {
        assert_eq!(entry_parts(a), entry_parts(b));
    }
}

#[test]
fn long_ascii_title_is_truncated() {
    let title = "abcdefghijklmnopqrstuvwxyz12345"; // 31 characters
    let m = build(&vec![item("p1", title)]);
    let (_, rendered, _) = entry_parts(&m.entries[3]).unwrap();
    assert_eq!(rendered, "abcdefghijklmnopqrstuvwxyz1...");
    assert_eq!(rendered.chars().count(), 30);
}

#[test]
fn title_at_limit_is_unchanged() {
    let title = "abcdefghijklmnopqrstuvwxyz1234"; // exactly 30 characters
    let m = build(&vec![item("p1", title)]);
    let (_, rendered, _) = entry_parts(&m.entries[3]).unwrap();
    assert_eq!(rendered, title);
}

#[test]
fn long_multibyte_title_is_truncated_by_characters() {
    // 31 three-byte glyphs: truncation must count characters, not bytes.
    let title: String = std::iter::repeat('好').take(31).collect();
    let m = build(&vec![item("p1", &title)]);
    let (_, rendered, _) = entry_parts(&m.entries[3]).unwrap();
    let expected: String = std::iter::repeat('好').take(27).collect::<String>() + "...";
    assert_eq!(rendered, expected);
    assert_eq!(rendered.chars().count(), 30);
}

#[test]
fn mixed_multibyte_title_keeps_prefix() {
    let title = "caféteria-überlänge-αβγδεζηθικλμν"; // 33 characters
    assert_eq!(title.chars().count(), 33);
    let m = build(&vec![item("p1", title)]);
    let (_, rendered, _) = entry_parts(&m.entries[3]).unwrap();
    let expected: String = title.chars().take(27).collect::<String>() + "...";
    assert_eq!(rendered, expected);
    assert_eq!(rendered.chars().count(), 30);
}
