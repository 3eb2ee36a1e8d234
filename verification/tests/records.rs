use ankamantatra_bot::models::{valid_name, User, NAME_MAX};
use ankamantatra_bot::reply::{Change, StoreError};
use ankamantatra_bot::store::{Table, UserStore};

#[test]
fn new_user_has_no_score_and_no_category() {
    let user = User::new(7, "alice", "u1");
    assert_eq!(
        user,
        User { id: 7, name: String::from("alice"), user_id: String::from("u1"), score: 0, category: None }
    );
    assert_eq!(user.clone(), user);
}

#[test]
fn names_have_one_to_twenty_characters() {
    assert_eq!(NAME_MAX, 20);
    assert!(!valid_name(""));
    assert!(valid_name("a"));
    assert!(valid_name("abcdefghijklmnopqrst"));
    assert!(!valid_name("abcdefghijklmnopqrstu"));
    assert!(valid_name("éééééééééééééééééééé"));
    assert!(!valid_name("ééééééééééééééééééééé"));
}

#[test]
fn add_point_adds_exactly_one() {
    let mut user = User::new(1, "alice", "u1");
    user.add_point();
    assert_eq!(user.score, 1);
    user.score = 41;
    user.add_point();
    assert_eq!(user.score, 42);
    assert_eq!(user.name, "alice");
    assert_eq!(user.category, None);
}

#[test]
fn reset_score_gives_zero_whatever_it_was() {
    for score in [0, 1, 17, i32::MAX] {
        let mut user = User::new(1, "alice", "u1");
        user.score = score;
        user.set_category("math");
        user.reset_score();
        assert_eq!(user.score, 0);
        assert_eq!(user.category, Some(String::from("math")));
        user.reset_score();
        assert_eq!(user.score, 0);
    }
}

#[test]
fn set_category_replaces_the_category() {
    let mut user = User::new(1, "alice", "u1");
    user.set_category("math");
    assert_eq!(user.category, Some(String::from("math")));
    user.set_category("history");
    assert_eq!(user.category, Some(String::from("history")));
    assert_eq!(user.score, 0);
}

#[test]
fn table_keeps_one_value_per_key() {
    let mut table: Table<u32> = Table::new();
    assert_eq!(table.get("a"), None);
    table.insert("a", 1);
    table.insert("b", 2);
    table.insert("a", 3);
    assert_eq!(table.get("a"), Some(&3));
    assert_eq!(table.get("b"), Some(&2));
    table.remove("a");
    assert_eq!(table.get("a"), None);
    assert_eq!(table.get("b"), Some(&2));
    table.remove("zzz");
    assert_eq!(table.get("b"), Some(&2));
}

#[test]
fn create_registers_a_fresh_record() {
    let mut store = UserStore::new();
    assert_eq!(store.get("u1"), None);
    let alice = store.create("alice", "u1").unwrap();
    assert_eq!(alice, User::new(1, "alice", "u1"));
    assert_eq!(store.get("u1"), Some(alice));
    let bob = store.create("bob", "u2").unwrap();
    assert_eq!(bob.id, 2);
    assert_eq!(store.get("u2"), Some(bob));
}

#[test]
fn registering_a_name_twice_is_a_conflict() {
    let mut store = UserStore::new();
    let alice = store.create("alice", "u1").unwrap();
    assert_eq!(store.create("alice", "u2"), Err(StoreError::Conflict));
    assert_eq!(store.get("u1"), Some(alice));
    assert_eq!(store.get("u2"), None);
}

#[test]
fn registering_an_identity_twice_is_a_conflict() {
    let mut store = UserStore::new();
    let alice = store.create("alice", "u1").unwrap();
    assert_eq!(store.create("alicia", "u1"), Err(StoreError::Conflict));
    assert_eq!(store.create("alice", "u1"), Err(StoreError::Conflict));
    assert_eq!(store.get("u1"), Some(alice));
}

#[test]
fn create_refuses_names_of_a_wrong_length() {
    let mut store = UserStore::new();
    assert_eq!(store.create("", "u1"), Err(StoreError::Storage));
    assert_eq!(store.create("abcdefghijklmnopqrstu", "u1"), Err(StoreError::Storage));
    assert_eq!(store.get("u1"), None);
}

#[test]
fn update_replaces_the_record() {
    let mut store = UserStore::new();
    let mut alice = store.create("alice", "u1").unwrap();
    alice.score = 5;
    alice.set_category("math");
    assert_eq!(store.update(alice.clone()), Ok(()));
    assert_eq!(store.get("u1"), Some(alice));
}

#[test]
fn update_refuses_unknown_users_and_invalid_records() {
    let mut store = UserStore::new();
    let alice = store.create("alice", "u1").unwrap();
    assert_eq!(store.update(User::new(9, "ghost", "u9")), Err(StoreError::Storage));
    let mut negative = alice.clone();
    negative.score = -1;
    assert_eq!(store.update(negative), Err(StoreError::Storage));
    let mut nameless = alice.clone();
    nameless.name = String::new();
    assert_eq!(store.update(nameless), Err(StoreError::Storage));
    assert_eq!(store.get("u1"), Some(alice));
}

#[test]
fn update_refuses_a_name_that_another_user_has() {
    let mut store = UserStore::new();
    let alice = store.create("alice", "u1").unwrap();
    let bob = store.create("bob", "u2").unwrap();
    let mut renamed = bob.clone();
    renamed.name = String::from("alice");
    assert_eq!(store.update(renamed), Err(StoreError::Conflict));
    assert_eq!(store.get("u1"), Some(alice));
    assert_eq!(store.get("u2"), Some(bob));
}

#[test]
fn delete_then_register_gives_a_fresh_record() {
    let mut store = UserStore::new();
    let mut alice = store.create("alice", "u1").unwrap();
    alice.score = 9;
    alice.set_category("science");
    assert_eq!(store.update(alice), Ok(()));
    assert_eq!(store.delete("u1"), Ok(()));
    assert_eq!(store.get("u1"), None);
    assert_eq!(store.delete("u1"), Ok(()));
    let again = store.create("alice", "u1").unwrap();
    assert_eq!(again.score, 0);
    assert_eq!(again.category, None);
    assert_eq!(again.name, "alice");
    assert_eq!(store.get("u1"), Some(again));
}

#[test]
fn apply_carries_out_each_change() {
    let mut store = UserStore::new();
    assert_eq!(store.apply("u1", &Change::Nothing), Ok(()));
    assert_eq!(store.get("u1"), None);
    assert_eq!(store.apply("u1", &Change::Create { name: String::from("alice") }), Ok(()));
    let mut alice = store.get("u1").unwrap();
    assert_eq!(alice, User::new(1, "alice", "u1"));
    alice.add_point();
    assert_eq!(store.apply("u1", &Change::Update(alice.clone())), Ok(()));
    assert_eq!(store.get("u1"), Some(alice.clone()));
    assert_eq!(
        store.apply("u2", &Change::Create { name: String::from("alice") }),
        Err(StoreError::Conflict)
    );
    assert_eq!(store.get("u1"), Some(alice));
    assert_eq!(store.apply("u1", &Change::Delete), Ok(()));
    assert_eq!(store.get("u1"), None);
}
