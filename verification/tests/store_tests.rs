use tiktok_bot::store::{update_query_for, Store, StoreError, User, UserColumn};

fn user(id: i64) -> User {
    User {
        id,
        chat_id: Some(500 + id),
        name: format!("user{}", id),
        requests_amount: 0,
        timestamp: 1_000,
        register_timestamp: 1_000,
    }
}

#[test]
fn create_then_fetch_returns_the_record() {
    let mut store = Store::new();
    let u = User {
        id: 42,
        chat_id: Some(999),
        name: String::from("Ann"),
        requests_amount: 5,
        timestamp: 1_234,
        register_timestamp: 1_000,
    };
    assert!(!store.has_user(42));
    assert!(store.add_user(u).is_ok());
    assert!(store.has_user(42));
    let got = store.get_user(42).unwrap();
    assert_eq!(got.id, 42);
    assert_eq!(got.chat_id, Some(999));
    assert_eq!(got.name, "Ann");
    assert_eq!(got.requests_amount, 5);
    assert_eq!(got.timestamp, 1_234);
    assert_eq!(got.register_timestamp, 1_000);
}

#[test]
fn duplicate_create_is_refused() {
    let mut store = Store::new();
    assert!(store.add_user(user(1)).is_ok());
    let again = store.add_user(user(1));
    assert_eq!(again, Err(StoreError::AlreadyExists));
    // the first record is untouched
    assert_eq!(store.get_user(1).unwrap().chat_id, Some(501));
}

#[test]
fn fetch_of_unknown_id_is_none() {
    let store = Store::new();
    assert!(store.get_user(7).is_none());
    assert!(!store.has_user(7));
}

#[test]
fn repeated_increments_accumulate() {
    let mut store = Store::new();
    assert!(store.add_user(user(3)).is_ok());
    assert!(store.increment_requests(3, 2_000).is_ok());
    assert_eq!(store.get_user(3).unwrap().requests_amount, 1);
    assert!(store.increment_requests(3, 3_000).is_ok());
    assert_eq!(store.get_user(3).unwrap().requests_amount, 2);
    assert!(store.increment_requests(3, 4_000).is_ok());
    let got = store.get_user(3).unwrap();
    assert_eq!(got.requests_amount, 3);
    // the last-seen time is the time of the last call
    assert_eq!(got.timestamp, 4_000);
    // nothing else moved
    assert_eq!(got.name, "user3");
    assert_eq!(got.register_timestamp, 1_000);
    assert_eq!(got.chat_id, Some(503));
}

#[test]
fn increment_of_unknown_id_is_not_found() {
    let mut store = Store::new();
    assert_eq!(store.increment_requests(9, 100), Err(StoreError::NotFound));
}

#[test]
fn set_field_rejects_id() {
    let mut store = Store::new();
    assert!(store.add_user(user(5)).is_ok());
    assert_eq!(store.set_data(5, UserColumn::Id, "6"), Err(StoreError::InvalidField));
    // even for ids with no record, and for arbitrary values
    assert_eq!(store.set_data(999, UserColumn::Id, "x"), Err(StoreError::InvalidField));
    assert_eq!(store.get_user(5).unwrap().id, 5);
}

#[test]
fn set_field_rejects_register_timestamp() {
    let mut store = Store::new();
    assert!(store.add_user(user(5)).is_ok());
    assert_eq!(
        store.set_data(5, UserColumn::RegisterTimestamp, "123"),
        Err(StoreError::InvalidField)
    );
    assert_eq!(
        store.set_data(999, UserColumn::RegisterTimestamp, ""),
        Err(StoreError::InvalidField)
    );
    assert_eq!(store.get_user(5).unwrap().register_timestamp, 1_000);
}

#[test]
fn set_field_writes_the_writable_columns() {
    let mut store = Store::new();
    assert!(store.add_user(user(8)).is_ok());
    assert!(store.set_data(8, UserColumn::Name, "Bob").is_ok());
    assert_eq!(store.get_user(8).unwrap().name, "Bob");
    assert!(store.set_data(8, UserColumn::ChatId, "-100123").is_ok());
    assert_eq!(store.get_user(8).unwrap().chat_id, Some(-100123));
    assert!(store.set_data(8, UserColumn::RequestsAmount, "17").is_ok());
    assert_eq!(store.get_user(8).unwrap().requests_amount, 17);
    assert!(store.set_data(8, UserColumn::Timestamp, "555").is_ok());
    assert_eq!(store.get_user(8).unwrap().timestamp, 555);
}

#[test]
fn set_field_on_unknown_id_is_not_found() {
    let mut store = Store::new();
    assert_eq!(store.set_data(1, UserColumn::Name, "Bob"), Err(StoreError::NotFound));
}

#[test]
fn set_field_refuses_values_that_do_not_parse() {
    let mut store = Store::new();
    assert!(store.add_user(user(8)).is_ok());
    assert_eq!(store.set_data(8, UserColumn::ChatId, "abc"), Err(StoreError::InvalidValue));
    assert_eq!(
        store.set_data(8, UserColumn::RequestsAmount, "-1"),
        Err(StoreError::InvalidValue)
    );
    assert_eq!(store.set_data(8, UserColumn::Timestamp, "-2"), Err(StoreError::InvalidValue));
    // the record is untouched
    let got = store.get_user(8).unwrap();
    assert_eq!(got.chat_id, Some(508));
    assert_eq!(got.requests_amount, 0);
    assert_eq!(got.timestamp, 1_000);
}

#[test]
fn get_data_reads_columns_as_text() {
    let mut store = Store::new();
    let u = User {
        id: -3,
        chat_id: None,
        name: String::from("Zoe"),
        requests_amount: 12,
        timestamp: 777,
        register_timestamp: 42,
    };
    assert!(store.add_user(u).is_ok());
    assert_eq!(store.get_data(-3, UserColumn::Id).unwrap(), "-3");
    assert_eq!(store.get_data(-3, UserColumn::Name).unwrap(), "Zoe");
    assert_eq!(store.get_data(-3, UserColumn::RequestsAmount).unwrap(), "12");
    assert_eq!(store.get_data(-3, UserColumn::Timestamp).unwrap(), "777");
    assert_eq!(store.get_data(-3, UserColumn::RegisterTimestamp).unwrap(), "42");
    // a null chat id reads as no value
    assert!(store.get_data(-3, UserColumn::ChatId).is_none());
    assert!(store.set_data(-3, UserColumn::ChatId, "66").is_ok());
    assert_eq!(store.get_data(-3, UserColumn::ChatId).unwrap(), "66");
    // an unknown id reads as no value
    assert!(store.get_data(1, UserColumn::Name).is_none());
}

#[test]
fn update_user_replaces_the_record() {
    let mut store = Store::new();
    assert!(store.add_user(user(4)).is_ok());
    let replacement = User {
        id: 4,
        chat_id: None,
        name: String::from("New"),
        requests_amount: 9,
        timestamp: 9_999,
        register_timestamp: 1,
    };
    assert!(store.update_user(replacement).is_ok());
    let got = store.get_user(4).unwrap();
    assert_eq!(got.name, "New");
    assert_eq!(got.chat_id, None);
    assert_eq!(got.requests_amount, 9);
    let absent = User {
        id: 11,
        chat_id: None,
        name: String::from("Nobody"),
        requests_amount: 0,
        timestamp: 0,
        register_timestamp: 0,
    };
    assert_eq!(store.update_user(absent), Err(StoreError::NotFound));
}

#[test]
fn the_relational_backend_writes_only_the_writable_columns() {
    assert_eq!(
        update_query_for(UserColumn::Name),
        Ok("UPDATE users SET name = $1 WHERE id = $2")
    );
    assert_eq!(
        update_query_for(UserColumn::RequestsAmount),
        Ok("UPDATE users SET requests_amount = $1 WHERE id = $2")
    );
    assert_eq!(
        update_query_for(UserColumn::Timestamp),
        Ok("UPDATE users SET timestamp = $1 WHERE id = $2")
    );
    assert_eq!(
        update_query_for(UserColumn::ChatId),
        Ok("UPDATE users SET chat_id = $1 WHERE id = $2")
    );
    assert_eq!(update_query_for(UserColumn::Id), Err(StoreError::InvalidField));
    assert_eq!(
        update_query_for(UserColumn::RegisterTimestamp),
        Err(StoreError::InvalidField)
    );
}

#[test]
fn a_snapshot_carries_every_record() {
    let mut store = Store::new();
    assert!(store.add_user(user(1)).is_ok());
    assert!(store.add_user(user(2)).is_ok());
    let snapshot = store.snapshot();
    assert_eq!(snapshot.len(), 2);
    let mut ids: Vec<i64> = snapshot.iter().map(|u| u.id).collect();
    ids.sort();
    assert_eq!(ids, vec![1, 2]);
}

#[test]
fn remove_user_drops_the_record() {
    let mut store = Store::new();
    assert!(store.add_user(user(1)).is_ok());
    assert!(store.add_user(user(2)).is_ok());
    store.remove_user(1);
    assert!(!store.has_user(1));
    assert!(store.has_user(2));
    // removing an absent id is a no-op
    store.remove_user(1);
    assert!(store.has_user(2));
}
