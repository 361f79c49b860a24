//! Tests for the shortening service against the in-memory record store.

use shorty::id::IdGen;
use shorty::store::{Changeset, MemStore, StoreError, UrlRecord};
use shorty::urls::Url;
use shorty::{create_url, create_url_with_ids, get_url, setup_db, ShortyError};

fn record(short_id: &str, full_url: &str, view_count: u32) -> UrlRecord {
    UrlRecord {
        short_id: short_id.to_string(),
        full_url: full_url.to_string(),
        view_count,
        created_at: 0,
        updated_at: 0,
    }
}

#[test]
fn test_create_new_url() {
    let mut store = MemStore::new();
    setup_db(&store).expect("could not setup DB");

    const URL: &str = "https://example.com";
    let mut gen = IdGen::new();
    let create_url_result = create_url(&mut store, URL, &mut gen);
    assert!(
        create_url_result.is_ok(),
        "received an error while creating url: {:?}",
        create_url_result.err().unwrap()
    );
}

#[test]
fn test_get_url() {
    let mut store = MemStore::new();
    setup_db(&store).expect("could not setup DB");

    const URL: &str = "https://example.com";
    let mut gen = IdGen::new();
    let short_id = create_url(&mut store, URL, &mut gen).expect("could not shorten URL");

    let full_url = get_url(&mut store, &short_id);
    assert!(full_url.is_ok());

    let full_url = full_url.unwrap();
    assert!(full_url.is_some());

    let full_url = full_url.unwrap();
    assert_eq!(full_url, URL);
}

#[test]
fn test_get_url_invalid_id() {
    let mut store = MemStore::new();
    setup_db(&store).expect("could not setup DB");

    let full_url = get_url(&mut store, "this_id_does_not_exist");
    assert!(full_url.is_ok());

    let full_url = full_url.unwrap();
    assert!(full_url.is_none());
}

#[test]
fn round_trip_returns_the_original_url() {
    let mut store = MemStore::new();
    let mut gen = IdGen::new();
    for url in ["https://example.com", "http://a", "https://x.dev/p?q=1"] {
        let id = create_url(&mut store, url, &mut gen).expect("shorten failed");
        let back = get_url(&mut store, &id).expect("lengthen failed");
        assert_eq!(back.as_deref(), Some(url));
    }
}

#[test]
fn view_count_counts_sequential_lookups() {
    let mut store = MemStore::new();
    let mut gen = IdGen::new();
    let id = create_url(&mut store, "https://example.com", &mut gen).unwrap();

    let fresh = store.find_by_short_id(&id).expect("record must exist");
    assert_eq!(fresh.view_count, 0);

    for _ in 0..3 {
        get_url(&mut store, &id).unwrap();
    }
    let after = store.find_by_short_id(&id).expect("record must exist");
    assert_eq!(after.view_count, 3);
}

#[test]
fn shorten_issues_distinct_ids() {
    let mut store = MemStore::new();
    let mut gen = IdGen::new();
    let id1 = create_url(&mut store, "https://a.com", &mut gen).unwrap();
    let id2 = create_url(&mut store, "https://b.com", &mut gen).unwrap();
    let id3 = create_url(&mut store, "https://a.com", &mut gen).unwrap();
    assert_ne!(id1, id2);
    assert_ne!(id1, id3);
    assert_ne!(id2, id3);
}

#[test]
fn lengthen_of_never_issued_id_is_empty_not_an_error() {
    let mut store = MemStore::new();
    let mut gen = IdGen::new();
    create_url(&mut store, "https://example.com", &mut gen).unwrap();

    let looked_up = get_url(&mut store, "doesnotexist");
    assert_eq!(looked_up, Ok(None));
}

#[test]
fn shorten_rejects_invalid_urls_before_the_store() {
    let mut store = MemStore::new();
    let mut gen = IdGen::new();
    for bad in ["", "https;//example.com", "ftp://x", "https://", "https://a b"] {
        let res = create_url(&mut store, bad, &mut gen);
        assert_eq!(res, Err(ShortyError::Validation));
    }
    // The store was never touched: nothing can be looked up afterwards.
    assert_eq!(get_url(&mut store, "c673865f8a6ec67d"), Ok(None));
}

#[test]
fn collision_retries_with_the_next_candidate() {
    // An identifier generator stubbed to produce "X" twice and then "Y": the
    // first shorten takes "X"; the second collides on "X" and its retry
    // inserts under "Y".
    let mut store = MemStore::new();
    let first = create_url_with_ids(&mut store, "https://one.example", &vec!["X".to_string()]);
    assert_eq!(first, Ok("X".to_string()));

    let second = create_url_with_ids(
        &mut store,
        "https://two.example",
        &vec!["X".to_string(), "Y".to_string()],
    );
    assert_eq!(second, Ok("Y".to_string()));

    let x = store.find_by_short_id("X").expect("X must exist");
    assert_eq!(x.full_url, "https://one.example");
    let y = store.find_by_short_id("Y").expect("Y must exist");
    assert_eq!(y.full_url, "https://two.example");
}

#[test]
fn exhausting_the_retry_budget_fails_the_allocation() {
    let mut store = MemStore::new();
    create_url_with_ids(&mut store, "https://one.example", &vec!["X".to_string()]).unwrap();

    let res = create_url_with_ids(
        &mut store,
        "https://two.example",
        &vec!["X".to_string(), "X".to_string()],
    );
    assert_eq!(res, Err(ShortyError::AllocationFailed));

    let res = create_url_with_ids(&mut store, "https://two.example", &vec![]);
    assert_eq!(res, Err(ShortyError::AllocationFailed));
}

#[test]
fn shorten_then_lengthen_bumps_the_count_from_zero_to_one() {
    let mut store = MemStore::new();
    let mut gen = IdGen::new();
    let id = create_url(&mut store, "https://example.com", &mut gen).unwrap();
    assert_eq!(store.find_by_short_id(&id).unwrap().view_count, 0);

    let back = get_url(&mut store, &id).unwrap();
    assert_eq!(back.as_deref(), Some("https://example.com"));
    assert_eq!(store.find_by_short_id(&id).unwrap().view_count, 1);
}

#[test]
fn store_insert_detects_duplicate_keys() {
    let mut store = MemStore::new();
    assert_eq!(store.insert(record("abc", "https://a.com", 0)), Ok(()));
    assert_eq!(
        store.insert(record("abc", "https://b.com", 0)),
        Err(StoreError::DuplicateKey)
    );
    // The colliding insert changed nothing.
    assert_eq!(store.find_by_short_id("abc").unwrap().full_url, "https://a.com");
}

#[test]
fn store_update_of_a_missing_record_is_not_found() {
    let mut store = MemStore::new();
    let bump = Changeset::Delta {
        short_id: None,
        view_count: Some(1),
    };
    assert_eq!(
        store.apply_changeset("missing", &bump, 7),
        Err(StoreError::NotFound)
    );
}

#[test]
fn store_update_applies_only_the_fields_present() {
    let mut store = MemStore::new();
    store.insert(record("abc", "https://a.com", 4)).unwrap();

    let bump = Changeset::Delta {
        short_id: None,
        view_count: Some(5),
    };
    assert_eq!(store.apply_changeset("abc", &bump, 99), Ok(()));
    let r = store.find_by_short_id("abc").unwrap();
    assert_eq!(r.view_count, 5);
    assert_eq!(r.full_url, "https://a.com");
    assert_eq!(r.short_id, "abc");
    assert_eq!(r.updated_at, 99);
}

#[test]
fn store_update_cannot_steal_a_taken_short_id() {
    let mut store = MemStore::new();
    store.insert(record("abc", "https://a.com", 0)).unwrap();
    store.insert(record("def", "https://b.com", 0)).unwrap();

    let steal = Changeset::Delta {
        short_id: Some("abc".to_string()),
        view_count: None,
    };
    assert_eq!(
        store.apply_changeset("def", &steal, 0),
        Err(StoreError::DuplicateKey)
    );
}

#[test]
fn aggregate_tracks_pending_changes_until_saved() {
    let mut store = MemStore::new();
    let mut url = Url::new("first".to_string(), "https://example.com", 0);
    assert!(!url.persisted());
    assert_eq!(url.get_short_id(), "first");
    assert_eq!(url.get_full_url(), "https://example.com");

    // The collision-retry path: the pending short ID is what a reader sees.
    url.update_short_id("second".to_string());
    assert_eq!(url.get_short_id(), "second");

    assert_eq!(url.save(&mut store), Ok(()));
    assert!(url.persisted());
    assert_eq!(url.get_short_id(), "second");
    assert!(store.find_by_short_id("first").is_none());
    assert!(store.find_by_short_id("second").is_some());
}

#[test]
fn aggregate_increment_does_not_stack_before_a_save() {
    let mut store = MemStore::new();
    store.insert(record("abc", "https://a.com", 0)).unwrap();

    let mut url = Url::from_fetched(store.find_by_short_id("abc").unwrap());
    url.increment_view_count();
    url.increment_view_count();
    assert_eq!(url.get_view_count(), 1);
    assert_eq!(url.save(&mut store), Ok(()));
    assert_eq!(store.find_by_short_id("abc").unwrap().view_count, 1);
}

#[test]
fn saving_a_clean_persisted_aggregate_writes_nothing() {
    let mut store = MemStore::new();
    store.insert(record("abc", "https://a.com", 3)).unwrap();

    let mut url = Url::from_fetched(store.find_by_short_id("abc").unwrap());
    assert_eq!(url.save(&mut store), Ok(()));
    assert_eq!(store.find_by_short_id("abc").unwrap().view_count, 3);
}

#[test]
fn duplicate_save_keeps_the_pending_changeset() {
    let mut store = MemStore::new();
    store.insert(record("taken", "https://a.com", 0)).unwrap();

    let mut url = Url::new("taken".to_string(), "https://b.com", 0);
    assert_eq!(url.save(&mut store), Err(StoreError::DuplicateKey));
    assert!(!url.persisted());
    // Retrying with a fresh candidate succeeds.
    url.update_short_id("free".to_string());
    assert_eq!(url.save(&mut store), Ok(()));
    assert_eq!(store.find_by_short_id("free").unwrap().full_url, "https://b.com");
}
