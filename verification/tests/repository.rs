use link_shortener::database::{LinkStore, NewLink, StoreError, UpdatableLink};

fn new_link(name: &str, link: &str) -> NewLink {
    NewLink {
        name: String::from(name),
        link: String::from(link),
    }
}

#[test]
fn identifiers_are_assigned_in_order() {
    let mut store = LinkStore::new();
    let first = store.insert(new_link("a", "https://a.example")).unwrap();
    let second = store.insert(new_link("b", "https://b.example")).unwrap();
    assert_eq!(first.id, 1);
    assert_eq!(second.id, 2);
    assert_eq!(store.len(), 2);
}

#[test]
fn fresh_rows_are_enabled_and_unused() {
    let mut store = LinkStore::new();
    let row = store.insert(new_link("a", "https://a.example")).unwrap();
    assert!(row.enabled);
    assert_eq!(row.times_used, 0);
}

#[test]
fn inserting_a_taken_name_is_a_unique_violation() {
    let mut store = LinkStore::new();
    store.insert(new_link("a", "https://a.example")).unwrap();
    match store.insert(new_link("a", "https://b.example")) {
        Err(StoreError::UniqueViolation) => {}
        _ => panic!("the second insert must conflict"),
    }
    assert_eq!(store.len(), 1);
}

#[test]
fn listing_returns_rows_in_table_order() {
    let mut store = LinkStore::new();
    store.insert(new_link("a", "https://a.example")).unwrap();
    store.insert(new_link("b", "https://b.example")).unwrap();
    let rows = store.list();
    assert_eq!(rows.len(), 2);
    assert_eq!(rows[0].name, "a");
    assert_eq!(rows[1].name, "b");
}

#[test]
fn update_applies_only_present_fields() {
    let mut store = LinkStore::new();
    store.insert(new_link("a", "https://a.example")).unwrap();
    store
        .update(
            1,
            UpdatableLink {
                name: Some(String::from("renamed")),
                link: None,
                enabled: None,
            },
        )
        .unwrap();
    let row = store.find_by_name(&String::from("renamed")).unwrap();
    assert_eq!(row.link, "https://a.example");
    assert!(row.enabled);
    assert_eq!(row.times_used, 0);
}

#[test]
fn update_of_a_missing_id_is_not_found() {
    let mut store = LinkStore::new();
    match store.update(
        7,
        UpdatableLink {
            name: None,
            link: None,
            enabled: Some(false),
        },
    ) {
        Err(StoreError::NotFound) => {}
        _ => panic!("updating a missing row must be not-found"),
    }
}

#[test]
fn renaming_onto_a_taken_name_is_a_unique_violation() {
    let mut store = LinkStore::new();
    store.insert(new_link("a", "https://a.example")).unwrap();
    store.insert(new_link("b", "https://b.example")).unwrap();
    match store.update(
        2,
        UpdatableLink {
            name: Some(String::from("a")),
            link: None,
            enabled: None,
        },
    ) {
        Err(StoreError::UniqueViolation) => {}
        _ => panic!("the rename must conflict"),
    }
    let untouched = store.find_by_name(&String::from("b")).unwrap();
    assert_eq!(untouched.id, 2);
}

#[test]
fn renaming_a_row_onto_its_own_name_is_permitted() {
    let mut store = LinkStore::new();
    store.insert(new_link("a", "https://a.example")).unwrap();
    store
        .update(
            1,
            UpdatableLink {
                name: Some(String::from("a")),
                link: Some(String::from("https://new.example")),
                enabled: None,
            },
        )
        .unwrap();
    assert_eq!(
        store.find_by_name(&String::from("a")).unwrap().link,
        "https://new.example"
    );
}

#[test]
fn increment_usage_counts_one_at_a_time() {
    let mut store = LinkStore::new();
    store.insert(new_link("a", "https://a.example")).unwrap();
    store.increment_usage(1).unwrap();
    store.increment_usage(1).unwrap();
    store.increment_usage(1).unwrap();
    assert_eq!(store.find_by_name(&String::from("a")).unwrap().times_used, 3);
}

#[test]
fn increment_usage_of_a_missing_id_is_not_found() {
    let mut store = LinkStore::new();
    match store.increment_usage(5) {
        Err(StoreError::NotFound) => {}
        _ => panic!("incrementing a missing row must be not-found"),
    }
}

#[test]
fn delete_removes_exactly_the_named_row() {
    let mut store = LinkStore::new();
    store.insert(new_link("a", "https://a.example")).unwrap();
    store.insert(new_link("b", "https://b.example")).unwrap();
    store.delete(1).unwrap();
    assert_eq!(store.len(), 1);
    assert!(store.find_by_name(&String::from("a")).is_none());
    assert!(store.find_by_name(&String::from("b")).is_some());
}

#[test]
fn delete_of_a_missing_id_is_not_found() {
    let mut store = LinkStore::new();
    match store.delete(3) {
        Err(StoreError::NotFound) => {}
        _ => panic!("deleting a missing row must be not-found"),
    }
}

#[test]
fn a_deleted_name_can_be_reused_with_a_fresh_id() {
    let mut store = LinkStore::new();
    store.insert(new_link("a", "https://a.example")).unwrap();
    store.delete(1).unwrap();
    let again = store.insert(new_link("a", "https://again.example")).unwrap();
    assert_eq!(again.id, 2);
}

#[test]
fn disabled_rows_stay_visible_in_listings() {
    let mut store = LinkStore::new();
    store.insert(new_link("a", "https://a.example")).unwrap();
    store
        .update(
            1,
            UpdatableLink {
                name: None,
                link: None,
                enabled: Some(false),
            },
        )
        .unwrap();
    let rows = store.list();
    assert_eq!(rows.len(), 1);
    assert!(!rows[0].enabled);
}
