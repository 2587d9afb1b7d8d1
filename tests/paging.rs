use std::cell::Cell;

use artist_contracts::paging::{fetch_all, has_more, DrainError, Page, MAX_PAGES};

fn page(items: &[&str], next_key: Option<&str>) -> Page<String> {
    Page {
        items: items.iter().map(|s| s.to_string()).collect(),
        next_key: next_key.map(|k| k.to_string()),
        total: None,
    }
}

#[test]
fn fetch_all_concatenates_pages_in_order() {
    let asked: Cell<u32> = Cell::new(0);
    let module = |cursor: Option<String>| -> Result<Page<String>, String> {
        asked.set(asked.get() + 1);
        match cursor.as_deref() {
            None => Ok(page(&["a", "b"], Some("cursor1"))),
            Some("cursor1") => Ok(page(&["c"], Some("cursor2"))),
            Some("cursor2") => Ok(page(&["d"], None)),
            Some(other) => Err(format!("unknown cursor {}", other)),
        }
    };
    let drained = fetch_all(module).unwrap();
    assert_eq!(drained.items, vec!["a", "b", "c", "d"]);
    assert_eq!(drained.rounds, 3);
    assert_eq!(asked.get(), 3);
    assert_eq!(drained.next_key, None);
}

#[test]
fn fetch_all_single_page() {
    let drained = fetch_all(|_c: Option<String>| -> Result<Page<String>, String> {
        Ok(Page { items: vec!["x".to_string()], next_key: None, total: Some(1) })
    })
    .unwrap();
    assert_eq!(drained.items, vec!["x"]);
    assert_eq!(drained.rounds, 1);
    assert_eq!(drained.total, Some(1));
}

#[test]
fn fetch_all_stops_at_an_empty_key() {
    let drained = fetch_all(|cursor: Option<String>| -> Result<Page<String>, String> {
        match cursor {
            None => Ok(page(&["a"], Some("k"))),
            Some(_) => Ok(page(&["b"], Some(""))),
        }
    })
    .unwrap();
    assert_eq!(drained.items, vec!["a", "b"]);
    assert_eq!(drained.rounds, 2);
    assert_eq!(drained.next_key, Some(String::new()));
}

#[test]
fn fetch_all_of_empty_listing() {
    let drained = fetch_all(|_c: Option<String>| -> Result<Page<String>, String> {
        Ok(page(&[], None))
    })
    .unwrap();
    assert!(drained.items.is_empty());
    assert_eq!(drained.rounds, 1);
}

#[test]
fn fetch_all_passes_the_module_error_on() {
    let result = fetch_all(|cursor: Option<String>| -> Result<Page<String>, String> {
        match cursor {
            None => Ok(page(&["a"], Some("k"))),
            Some(_) => Err("module down".to_string()),
        }
    });
    assert_eq!(result, Err(DrainError::Module("module down".to_string())));
}

#[test]
fn fetch_all_gives_up_on_endless_listing() {
    let asked: Cell<u64> = Cell::new(0);
    let result = fetch_all(|_c: Option<String>| -> Result<Page<String>, String> {
        asked.set(asked.get() + 1);
        Ok(page(&["x"], Some("again")))
    });
    assert_eq!(result, Err(DrainError::TooManyPages));
    assert_eq!(asked.get(), MAX_PAGES);
}

#[test]
fn has_more_only_for_nonempty_keys() {
    assert!(has_more(&Some("k".to_string())));
    assert!(!has_more(&Some(String::new())));
    assert!(!has_more(&None));
}
