use libllm_tui::input_file_cache::{CachedResolution, InputFileCache};

#[test]
fn insert_and_lookup() {
    let mut cache = InputFileCache::new();
    cache.insert(
        "/tmp/a.md".to_owned(),
        CachedResolution { estimated_tokens: 3 },
    );
    assert_eq!(
        cache.lookup("/tmp/a.md").map(|r| r.estimated_tokens),
        Some(3)
    );
}

#[test]
fn retain_paths_evicts_missing() {
    let mut cache = InputFileCache::new();
    cache.insert(
        "/tmp/a.md".to_owned(),
        CachedResolution { estimated_tokens: 1 },
    );
    cache.insert(
        "/tmp/b.md".to_owned(),
        CachedResolution { estimated_tokens: 1 },
    );
    let live = vec!["/tmp/a.md".to_owned()];
    cache.retain_paths(&live);
    assert!(cache.lookup("/tmp/a.md").is_some());
    assert!(cache.lookup("/tmp/b.md").is_none());
}

#[test]
fn sum_estimated_tokens_adds_entries() {
    let mut cache = InputFileCache::new();
    cache.insert(
        "/tmp/a.md".to_owned(),
        CachedResolution { estimated_tokens: 3 },
    );
    cache.insert(
        "/tmp/b.md".to_owned(),
        CachedResolution { estimated_tokens: 5 },
    );
    assert_eq!(cache.sum_estimated_tokens(), 8);
}

#[test]
fn reinsert_replaces_count_instead_of_adding_entry() {
    let mut cache = InputFileCache::new();
    cache.insert("/tmp/a.md".to_owned(), CachedResolution { estimated_tokens: 3 });
    cache.insert("/tmp/a.md".to_owned(), CachedResolution { estimated_tokens: 7 });
    assert_eq!(cache.lookup("/tmp/a.md").map(|r| r.estimated_tokens), Some(7));
    assert_eq!(cache.sum_estimated_tokens(), 7);
}

#[test]
fn retain_with_no_live_paths_empties_cache() {
    let mut cache = InputFileCache::default();
    cache.insert("/tmp/a.md".to_owned(), CachedResolution { estimated_tokens: 2 });
    cache.retain_paths(&Vec::new());
    assert!(cache.lookup("/tmp/a.md").is_none());
    assert_eq!(cache.sum_estimated_tokens(), 0);
}

#[test]
fn paths_compare_by_components() {
    let mut cache = InputFileCache::new();
    cache.insert("/tmp/a.md".to_owned(), CachedResolution { estimated_tokens: 3 });
    assert_eq!(cache.lookup("/tmp//a.md").map(|r| r.estimated_tokens), Some(3));
    assert_eq!(cache.lookup("/tmp/./a.md/").map(|r| r.estimated_tokens), Some(3));
    assert_eq!(cache.lookup("tmp/a.md").map(|r| r.estimated_tokens), None);
    cache.insert("/tmp/./a.md".to_owned(), CachedResolution { estimated_tokens: 7 });
    assert_eq!(cache.sum_estimated_tokens(), 7);
    cache.insert("./b".to_owned(), CachedResolution { estimated_tokens: 1 });
    assert_eq!(cache.lookup("b").map(|r| r.estimated_tokens), None);
    assert_eq!(cache.lookup("./b").map(|r| r.estimated_tokens), Some(1));
    cache.retain_paths(&vec!["/tmp//a.md".to_owned()]);
    assert_eq!(cache.sum_estimated_tokens(), 7);
    assert_eq!(cache.lookup("./b").map(|r| r.estimated_tokens), None);
}
