use tsh::model::Zettel;
use tsh::store::{Store, StoreError};

fn note(store: &mut Store, content: &str, parents: Vec<i64>, now: i64) -> Zettel {
    store
        .create_note(content.to_string(), vec![1, 2, 3], parents, now)
        .expect("creation failed")
        .expect("creation skipped")
}

#[test]
fn create_assigns_dense_ids_and_times() {
    let mut store = Store::new();
    let a = note(&mut store, "first", vec![], 1000);
    let b = note(&mut store, "second", vec![], 2000);
    assert_eq!(a.id, 1);
    assert_eq!(b.id, 2);
    assert_eq!(a.content, "first");
    assert_eq!(a.created_at, 1000);
    assert_eq!(b.created_at, 2000);
}

#[test]
fn create_clamps_backwards_clock() {
    let mut store = Store::new();
    let a = note(&mut store, "first", vec![], 5000);
    let b = note(&mut store, "second", vec![], 3000);
    assert_eq!(a.created_at, 5000);
    assert_eq!(b.created_at, 5000);
}

#[test]
fn find_by_id_roundtrip() {
    let mut store = Store::new();
    let a = note(&mut store, "alpha", vec![], 1);
    let got = store.find_by_id(a.id).expect("note should exist");
    assert_eq!(got.id, a.id);
    assert_eq!(got.content, "alpha");
}

#[test]
fn find_by_id_not_found() {
    let mut store = Store::new();
    assert_eq!(store.find_by_id(1).unwrap_err(), StoreError::NotFound);
    note(&mut store, "alpha", vec![], 1);
    assert_eq!(store.find_by_id(0).unwrap_err(), StoreError::NotFound);
    assert_eq!(store.find_by_id(2).unwrap_err(), StoreError::NotFound);
    assert_eq!(store.find_by_id(-7).unwrap_err(), StoreError::NotFound);
}

#[test]
fn leaf_invariant_scenario() {
    // Creating A without parents and B citing A: the recent leaves hold B
    // and not A.
    let mut store = Store::new();
    let a = note(&mut store, "a", vec![], 10);
    let b = note(&mut store, "b", vec![a.id], 20);
    let leaves = store.find_n_recent_leaves(10);
    assert!(leaves.iter().any(|z| z.id == b.id));
    assert!(!leaves.iter().any(|z| z.id == a.id));
}

#[test]
fn self_edge_for_zero_one_many_parents() {
    let mut store = Store::new();
    let a = note(&mut store, "root", vec![], 1);
    let b = note(&mut store, "one parent", vec![a.id], 2);
    let c = note(&mut store, "two parents", vec![a.id, b.id], 3);
    for id in [a.id, b.id, c.id] {
        assert!(store.edges.iter().any(|e| e.node_id == id));
    }
    // the root marker rows exist
    assert!(store
        .edges
        .iter()
        .any(|e| e.node_id == a.id && e.parent_id.is_none()));
    assert!(store
        .edges
        .iter()
        .any(|e| e.node_id == c.id && e.parent_id == Some(a.id)));
    assert!(store
        .edges
        .iter()
        .any(|e| e.node_id == c.id && e.parent_id == Some(b.id)));
}

#[test]
fn noop_save_unchanged_single_parent() {
    let mut store = Store::new();
    let a = note(&mut store, "same text", vec![], 1);
    let notes_before = store.notes.len();
    let edges_before = store.edges.len();
    let r = store
        .create_note("same text".to_string(), vec![9], vec![a.id], 2)
        .unwrap();
    assert!(r.is_none());
    assert_eq!(store.notes.len(), notes_before);
    assert_eq!(store.edges.len(), edges_before);
    assert_eq!(store.embeddings.len(), notes_before);
}

#[test]
fn empty_content_creates_nothing() {
    let mut store = Store::new();
    let r = store.create_note(String::new(), vec![9], vec![], 2).unwrap();
    assert!(r.is_none());
    assert_eq!(store.notes.len(), 0);
    assert_eq!(store.edges.len(), 0);
    assert_eq!(store.embeddings.len(), 0);
}

#[test]
fn changed_content_single_parent_is_saved() {
    let mut store = Store::new();
    let a = note(&mut store, "same text", vec![], 1);
    let r = store
        .create_note("different text".to_string(), vec![9], vec![a.id], 2)
        .unwrap();
    assert!(r.is_some());
    assert_eq!(store.notes.len(), 2);
}

#[test]
fn atomicity_on_invalid_parent() {
    // One bad parent id in a multi-parent creation leaves nothing behind.
    let mut store = Store::new();
    let a = note(&mut store, "a", vec![], 1);
    let notes_before = store.notes.len();
    let edges_before = store.edges.len();
    let embeddings_before = store.embeddings.len();
    let r = store.create_note("child".to_string(), vec![7], vec![a.id, 999], 2);
    assert_eq!(r.unwrap_err(), StoreError::NotFound);
    assert_eq!(store.notes.len(), notes_before);
    assert_eq!(store.edges.len(), edges_before);
    assert_eq!(store.embeddings.len(), embeddings_before);
    assert_eq!(store.find_by_id(2).unwrap_err(), StoreError::NotFound);
}

#[test]
fn recent_leaves_ordering_and_limit() {
    let mut store = Store::new();
    for (i, t) in [(1, 10), (2, 20), (3, 30), (4, 40)] {
        note(&mut store, &format!("note {}", i), vec![], t);
    }
    let leaves = store.find_n_recent_leaves(2);
    assert_eq!(leaves.len(), 2);
    assert_eq!(leaves[0].id, 4);
    assert_eq!(leaves[1].id, 3);
    let all = store.find_n_recent_leaves(10);
    assert_eq!(all.len(), 4);
    assert_eq!(all[0].id, 4);
    assert_eq!(all[3].id, 1);
}

#[test]
fn tag_upsert_is_idempotent() {
    let mut store = Store::new();
    let a = note(&mut store, "a", vec![], 1);
    let t1 = store.add_tag(a.id, "x".to_string(), 100).unwrap();
    assert_eq!(t1.zettel_id, a.id);
    assert_eq!(t1.tag, "x");
    assert_eq!(t1.created_at, 100);
    let t2 = store.add_tag(a.id, "x".to_string(), 200).unwrap();
    assert_eq!(t2.created_at, 200);
    let tags = store.tags_for(a.id).unwrap();
    assert_eq!(tags.len(), 1);
    assert_eq!(tags[0].tag, "x");
    // the upsert refreshed the creation time
    assert_eq!(tags[0].created_at, 200);
}

#[test]
fn tag_remove_twice_is_noop_not_error() {
    let mut store = Store::new();
    let a = note(&mut store, "a", vec![], 1);
    store.add_tag(a.id, "x".to_string(), 1).unwrap();
    assert_eq!(store.remove_tag(a.id, &"x".to_string()), Ok(()));
    assert_eq!(store.remove_tag(a.id, &"x".to_string()), Ok(()));
    assert_eq!(store.tags_for(a.id).unwrap().len(), 0);
}

#[test]
fn tag_ops_on_missing_note() {
    let mut store = Store::new();
    assert_eq!(
        store.add_tag(1, "x".to_string(), 1).unwrap_err(),
        StoreError::NotFound
    );
    assert_eq!(
        store.remove_tag(1, &"x".to_string()).unwrap_err(),
        StoreError::NotFound
    );
    assert_eq!(store.tags_for(1).unwrap_err(), StoreError::NotFound);
}

#[test]
fn tag_filter_or_semantics() {
    // P has {a}, Q has {b}, R has {a, b}.
    let mut store = Store::new();
    let p = note(&mut store, "p", vec![], 1);
    let q = note(&mut store, "q", vec![], 2);
    let r = note(&mut store, "r", vec![], 3);
    store.add_tag(p.id, "a".to_string(), 1).unwrap();
    store.add_tag(q.id, "b".to_string(), 2).unwrap();
    store.add_tag(r.id, "a".to_string(), 3).unwrap();
    store.add_tag(r.id, "b".to_string(), 4).unwrap();

    let only_a = store.notes_with_any_tag(&vec!["a".to_string()]);
    let ids: Vec<i64> = only_a.iter().map(|z| z.id).collect();
    assert_eq!(ids, vec![p.id, r.id]);

    let both = store.notes_with_any_tag(&vec!["a".to_string(), "b".to_string()]);
    let ids: Vec<i64> = both.iter().map(|z| z.id).collect();
    assert_eq!(ids, vec![p.id, q.id, r.id]);

    let none = store.notes_with_any_tag(&Vec::new());
    assert!(none.is_empty());
}

#[test]
fn tag_text_search_dedup_and_substring() {
    let mut store = Store::new();
    let a = note(&mut store, "a", vec![], 1);
    let b = note(&mut store, "b", vec![], 2);
    store.add_tag(a.id, "rust-lang".to_string(), 1).unwrap();
    store.add_tag(b.id, "rust-lang".to_string(), 2).unwrap();
    store.add_tag(b.id, "trust".to_string(), 3).unwrap();
    store.add_tag(b.id, "other".to_string(), 4).unwrap();

    let found = store.search_tag_text(&"rust".to_string());
    assert_eq!(found, vec!["rust-lang".to_string(), "trust".to_string()]);

    // the match is case-sensitive
    let upper = store.search_tag_text(&"RUST".to_string());
    assert!(upper.is_empty());

    // the empty text matches every tag, once each
    let all = store.search_tag_text(&String::new());
    assert_eq!(
        all,
        vec![
            "rust-lang".to_string(),
            "trust".to_string(),
            "other".to_string()
        ]
    );
}

#[test]
fn similarity_orders_by_distance() {
    let mut store = Store::new();
    store
        .create_note("near".to_string(), vec![10, 0], vec![], 1)
        .unwrap()
        .unwrap();
    store
        .create_note("far".to_string(), vec![100, 0], vec![], 2)
        .unwrap()
        .unwrap();
    store
        .create_note("nearest".to_string(), vec![12, 0], vec![], 3)
        .unwrap()
        .unwrap();

    let found = store.find_similar(&vec![13, 0], 2);
    assert_eq!(found.len(), 2);
    assert_eq!(found[0].content, "nearest");
    assert_eq!(found[1].content, "near");

    let everything = store.find_similar(&vec![13, 0], 10);
    assert_eq!(everything.len(), 3);
    assert_eq!(everything[2].content, "far");
}

#[test]
fn scenario_idea_and_extension() {
    // Create note 1 ("idea", no parents), then note 2 ("idea extended",
    // citing note 1): the recent leaves are exactly [2], and a search near
    // note 2's embedding returns note 2 before note 1.
    let mut store = Store::new();
    let n1 = store
        .create_note("idea".to_string(), vec![1, 1], vec![], 100)
        .unwrap()
        .unwrap();
    assert_eq!(n1.id, 1);
    let leaves = store.find_n_recent_leaves(10);
    assert_eq!(leaves.len(), 1);
    assert_eq!(leaves[0].id, 1);

    let n2 = store
        .create_note("idea extended".to_string(), vec![5, 5], vec![n1.id], 200)
        .unwrap()
        .unwrap();
    assert_eq!(n2.id, 2);

    let leaves = store.find_n_recent_leaves(10);
    assert_eq!(leaves.len(), 1);
    assert_eq!(leaves[0].id, 2);

    let found = store.find_similar(&vec![5, 6], 15);
    assert_eq!(found.len(), 2);
    assert_eq!(found[0].id, 2);
    assert_eq!(found[1].id, 1);
}

#[test]
fn promote_snapshots_content() {
    let mut store = Store::new();
    let a = note(&mut store, "the text", vec![], 1);
    let article = store
        .promote(a.id, "a title".to_string(), 500)
        .expect("promotion should succeed");
    assert_eq!(article.id, 1);
    assert_eq!(article.zettel_id, a.id);
    assert_eq!(article.title, "a title");
    assert_eq!(article.content, "the text");
    assert_eq!(article.created_at, 500);
    // promoting twice is allowed and appends
    let second = store.promote(a.id, "again".to_string(), 600).unwrap();
    assert_eq!(second.id, 2);
    assert_eq!(store.articles.len(), 2);
    // a missing note cannot be promoted
    assert_eq!(
        store.promote(99, "t".to_string(), 1).unwrap_err(),
        StoreError::NotFound
    );
}
