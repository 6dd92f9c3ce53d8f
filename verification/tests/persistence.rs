use user_directory::persistence::load;
use user_directory::ApiError;
use user_directory::CreateUser;
use user_directory::DirectoryStore;
use user_directory::SaveFailure;
use user_directory::Presented;
use user_directory::SessionAuthority;
use user_directory::Stored;
use user_directory::User;
use user_directory::WriteThrough;

fn sample(username: &str, created_by: &str) -> User {
    User {
        username: username.to_string(),
        real_name: "Some Body".to_string(),
        email: "some@body.org".to_string(),
        created_by: created_by.to_string(),
    }
}

fn request(username: &str) -> CreateUser {
    CreateUser {
        username: username.to_string(),
        real_name: "Some Body".to_string(),
        email: "some@body.org".to_string(),
    }
}

#[test]
fn absent_store_loads_as_empty() {
    assert!(load(Stored::Absent).is_empty());
}

#[test]
fn unparseable_store_loads_as_empty() {
    assert!(load(Stored::Unparseable).is_empty());
}

#[test]
fn stored_records_load_in_order() {
    let users = load(Stored::Records(vec![sample("u0", "alice"), sample("u1", "bob")]));
    assert_eq!(users, vec![sample("u0", "alice"), sample("u1", "bob")]);
}

#[test]
fn stored_empty_list_loads_as_empty() {
    assert!(load(Stored::Records(Vec::new())).is_empty());
}

#[test]
fn finish_after_a_successful_write_gives_the_reply() {
    let pending = WriteThrough { records: vec![sample("u0", "alice")], reply: 7u32 };
    assert_eq!(pending.finish(Ok(())), Ok(7u32));
}

#[test]
fn finish_after_a_failed_write_is_a_persistence_failure() {
    let pending = WriteThrough { records: Vec::new(), reply: 7u32 };
    assert_eq!(pending.finish(Err(SaveFailure::Write)), Err(ApiError::PersistenceFailure));
}

#[test]
fn finish_after_a_failed_serialisation_is_internal() {
    let pending = WriteThrough { records: Vec::new(), reply: 7u32 };
    assert_eq!(pending.finish(Err(SaveFailure::Serialize)), Err(ApiError::Internal));
}

#[test]
fn failed_write_does_not_roll_a_create_back() {
    let mut sessions = SessionAuthority::new();
    let token = sessions.mint("alice".to_string());
    let alice = sessions.resolve(Presented::Token(token.as_str())).unwrap();
    let mut store = DirectoryStore::new(Vec::new());
    let pending = store.create(&alice, request("u0"));
    assert_eq!(pending.finish(Err(SaveFailure::Write)).err(), Some(ApiError::PersistenceFailure));
    assert_eq!(store.list(), vec![sample("u0", "alice")]);
}

#[test]
fn failed_write_does_not_roll_a_delete_back() {
    let mut sessions = SessionAuthority::new();
    let token = sessions.mint("alice".to_string());
    let alice = sessions.resolve(Presented::Token(token.as_str())).unwrap();
    let mut store = DirectoryStore::new(vec![sample("u0", "alice"), sample("u1", "alice")]);
    let pending = store.delete(&alice, 0).unwrap();
    assert_eq!(pending.finish(Err(SaveFailure::Write)), Err(ApiError::PersistenceFailure));
    assert_eq!(store.list(), vec![sample("u1", "alice")]);
}

#[test]
fn reload_after_creates_and_deletes_agrees_with_memory() {
    let mut sessions = SessionAuthority::new();
    let token = sessions.mint("alice".to_string());
    let alice = sessions.resolve(Presented::Token(token.as_str())).unwrap();
    let mut store = DirectoryStore::new(load(Stored::Absent));
    let mut written: Vec<User> = Vec::new();
    for i in 0..6 {
        let pending = store.create(&alice, request(&format!("u{}", i)));
        written = pending.records.clone();
        assert!(pending.finish(Ok(())).is_ok());
    }
    for index in [4usize, 0, 2] {
        let pending = store.delete(&alice, index).unwrap();
        written = pending.records.clone();
        assert!(pending.finish(Ok(())).is_ok());
    }
    let restarted = DirectoryStore::new(load(Stored::Records(written)));
    assert_eq!(restarted.list(), store.list());
    assert_eq!(
        restarted.list(),
        vec![sample("u1", "alice"), sample("u2", "alice"), sample("u5", "alice")]
    );
}

#[test]
fn rejected_delete_leaves_nothing_to_write() {
    let mut sessions = SessionAuthority::new();
    let token = sessions.mint("mallory".to_string());
    let mallory = sessions.resolve(Presented::Token(token.as_str())).unwrap();
    let mut store = DirectoryStore::new(vec![sample("u0", "alice")]);
    assert!(store.delete(&mallory, 0).is_err());
    assert!(store.delete(&mallory, 5).is_err());
}
