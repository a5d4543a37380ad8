use time_entries::{find, Entries, Entry, EntryStore};

fn candidate(user_name: &str, minutes: i32, location: i32) -> Entry {
    Entry { user_name: String::from(user_name), minutes, location }
}

#[test]
fn create_then_find_id() {
    let mut store = EntryStore::new();
    let created = Entries::create(&mut store, candidate("A", 10, 3)).unwrap();
    let found = Entries::find_id(&store, created.id).unwrap();
    assert_eq!(found.len(), 1);
    assert_eq!(found[0].id, created.id);
    assert_eq!(found[0].user_name, "A");
    assert_eq!(found[0].minutes, 10);
    assert_eq!(found[0].location, 3);
}

#[test]
fn delete_nonexistent_id() {
    let mut store = EntryStore::new();
    Entries::create(&mut store, candidate("A", 10, 3)).unwrap();
    let deleted = Entries::delete(&mut store, 42).unwrap();
    assert_eq!(deleted, 0);
    assert_eq!(Entries::find_all(&store).unwrap().len(), 1);
}

#[test]
fn delete_existing_then_find_id() {
    let mut store = EntryStore::new();
    let created = Entries::create(&mut store, candidate("A", 10, 3)).unwrap();
    let deleted = Entries::delete(&mut store, created.id).unwrap();
    assert_eq!(deleted, 1);
    let found = Entries::find_id(&store, created.id).unwrap();
    assert!(found.is_empty());
}

#[test]
fn find_location_returns_exactly_the_matches() {
    let mut store = EntryStore::new();
    let a = Entries::create(&mut store, candidate("A", 10, 3)).unwrap();
    Entries::create(&mut store, candidate("B", 20, 5)).unwrap();
    let c = Entries::create(&mut store, candidate("C", 30, 3)).unwrap();
    let found = Entries::find_location(&store, 3).unwrap();
    assert_eq!(found.len(), 2);
    assert_eq!(found[0].id, a.id);
    assert_eq!(found[0].user_name, "A");
    assert_eq!(found[1].id, c.id);
    assert_eq!(found[1].user_name, "C");
    let none = Entries::find_location(&store, 99).unwrap();
    assert!(none.is_empty());
}

#[test]
fn create_round_trips_every_field() {
    let mut store = EntryStore::new();
    let created = Entries::create(&mut store, candidate("Joe Q. Fortnite", -7, 12345)).unwrap();
    let found = Entries::find_id(&store, created.id).unwrap();
    assert_eq!(found.len(), 1);
    assert_eq!(found[0].user_name, "Joe Q. Fortnite");
    assert_eq!(found[0].minutes, -7);
    assert_eq!(found[0].location, 12345);
    assert_eq!(found[0].id, created.id);
}

#[test]
fn identical_candidates_make_distinct_rows() {
    let mut store = EntryStore::new();
    let first = Entries::create(&mut store, candidate("A", 10, 3)).unwrap();
    let second = Entries::create(&mut store, candidate("A", 10, 3)).unwrap();
    assert_ne!(first.id, second.id);
    let all = Entries::find_all(&store).unwrap();
    assert_eq!(all.len(), 2);
    assert!(candidate("A", 10, 3) == candidate("A", 10, 3));
}

#[test]
fn deleted_id_is_never_reassigned() {
    let mut store = EntryStore::new();
    let first = Entries::create(&mut store, candidate("A", 10, 3)).unwrap();
    assert_eq!(Entries::delete(&mut store, first.id).unwrap(), 1);
    let second = Entries::create(&mut store, candidate("B", 20, 3)).unwrap();
    assert_ne!(second.id, first.id);
}

#[test]
fn find_prefers_id_over_location() {
    let mut store = EntryStore::new();
    let a = Entries::create(&mut store, candidate("A", 10, 3)).unwrap();
    let b = Entries::create(&mut store, candidate("B", 20, 5)).unwrap();
    let by_id = find(&store, Some(b.id), Some(3)).unwrap();
    assert_eq!(by_id.len(), 1);
    assert_eq!(by_id[0].id, b.id);
    let by_location = find(&store, None, Some(3)).unwrap();
    assert_eq!(by_location.len(), 1);
    assert_eq!(by_location[0].id, a.id);
    let all = find(&store, None, None).unwrap();
    assert_eq!(all.len(), 2);
}

#[test]
fn update_overwrites_the_matching_row() {
    let mut store = EntryStore::new();
    let a = Entries::create(&mut store, candidate("A", 10, 3)).unwrap();
    let b = Entries::create(&mut store, candidate("B", 20, 5)).unwrap();
    let updated = Entries::update(&mut store, a.id, candidate("Z", 99, 7)).unwrap();
    assert_eq!(updated.id, a.id);
    assert_eq!(updated.user_name, "Z");
    assert_eq!(updated.minutes, 99);
    assert_eq!(updated.location, 7);
    let found = Entries::find_id(&store, a.id).unwrap();
    assert_eq!(found.len(), 1);
    assert_eq!(found[0].user_name, "Z");
    let other = Entries::find_id(&store, b.id).unwrap();
    assert_eq!(other[0].user_name, "B");
}

#[test]
fn update_of_missing_id_returns_default_row() {
    let mut store = EntryStore::new();
    Entries::create(&mut store, candidate("A", 10, 3)).unwrap();
    let result = Entries::update(&mut store, 42, candidate("Z", 99, 7)).unwrap();
    assert_eq!(result.id, 0);
    assert_eq!(result.user_name, "");
    assert_eq!(result.minutes, 0);
    assert_eq!(result.location, 0);
    let all = Entries::find_all(&store).unwrap();
    assert_eq!(all.len(), 1);
    assert_eq!(all[0].user_name, "A");
}
