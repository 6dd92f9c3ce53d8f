use user_directory::persistence::load;
use user_directory::ApiError;
use user_directory::CreateUser;
use user_directory::DirectoryStore;
use user_directory::Presented;
use user_directory::SessionAuthority;
use user_directory::Stored;

#[test]
fn login_create_and_delete_by_owner_only() {
    let mut sessions = SessionAuthority::new();
    let mut store = DirectoryStore::new(load(Stored::Absent));
    assert!(store.list().is_empty());

    let t1 = sessions.mint("alice".to_string());
    let alice = sessions.resolve(Presented::Token(t1.as_str())).unwrap();
    let pending = store.create(
        &alice,
        CreateUser {
            username: "bob".to_string(),
            real_name: "Bob B".to_string(),
            email: "bob@x.com".to_string(),
        },
    );
    assert_eq!(pending.reply.created_by, "alice");
    let created = pending.finish(Ok(())).unwrap();
    assert_eq!(created.username, "bob");
    assert_eq!(created.real_name, "Bob B");
    assert_eq!(created.email, "bob@x.com");
    assert_eq!(created.created_by, "alice");

    let listed = store.list();
    assert_eq!(listed.len(), 1);
    assert_eq!(listed[0], created);

    let t2 = sessions.mint("mallory".to_string());
    let mallory = sessions.resolve(Presented::Token(t2.as_str())).unwrap();
    assert_eq!(store.delete(&mallory, 0).err(), Some(ApiError::Forbidden));
    assert_eq!(store.len(), 1);

    let removal = store.delete(&alice, 0).unwrap();
    assert!(removal.records.is_empty());
    assert_eq!(removal.finish(Ok(())), Ok(()));
    assert!(store.list().is_empty());
}
