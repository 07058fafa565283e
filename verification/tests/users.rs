use storefront::user::user::User;
use storefront::user::user_repository::{MemoryUserRepository, UserRepository};
use storefront::user::Error;

fn add(repo: &mut MemoryUserRepository, username: &str, email: &str, hash: &str) -> Result<User, Error> {
    repo.add_user(username.to_string(), email.to_string(), hash.to_string())
}

#[test]
fn new_user_repository_is_empty() {
    let repo = MemoryUserRepository::new();
    assert!(repo.get_all_users().unwrap().is_empty());
    assert!(!repo.is_exhausted());
}

#[test]
fn add_user_returns_the_created_user() {
    let mut repo = MemoryUserRepository::new();
    let alice = add(&mut repo, "alice", "a@x.com", "hash-of-alice").unwrap();
    assert_eq!(
        alice,
        User {
            id: 1,
            username: "alice".to_string(),
            email: "a@x.com".to_string(),
            password: "hash-of-alice".to_string(),
        }
    );
}

#[test]
fn users_with_distinct_usernames_are_all_added_and_listed_in_order() {
    let mut repo = MemoryUserRepository::new();
    let wanted = ["alice", "bob", "carol", "dave"];
    for (k, name) in wanted.iter().enumerate() {
        let user = add(&mut repo, name, "same@x.com", "hash").unwrap();
        assert_eq!(user.id, k as u32 + 1);
    }
    let listed = repo.get_all_users().unwrap();
    assert_eq!(listed.len(), 4);
    for (k, user) in listed.iter().enumerate() {
        assert_eq!(user.id, k as u32 + 1);
        assert_eq!(user.username, wanted[k]);
        assert_eq!(user.email, "same@x.com");
    }
}

#[test]
fn a_taken_username_is_already_exists_whatever_the_other_fields() {
    let mut repo = MemoryUserRepository::new();
    add(&mut repo, "alice", "a@x.com", "hash").unwrap();
    match add(&mut repo, "alice", "other@y.org", "another hash") {
        Err(Error::AlreadyExists(message)) => {
            assert_eq!(message, "User with username 'alice' already exists")
        }
        other => panic!("{:?}", other),
    }
    assert_eq!(repo.get_all_users().unwrap().len(), 1);
}

#[test]
fn an_empty_username_or_email_is_invalid_input() {
    let mut repo = MemoryUserRepository::new();
    for (username, email) in [("", "a@x.com"), ("alice", ""), ("", "")] {
        match add(&mut repo, username, email, "hash") {
            Err(Error::InvalidInput(message)) => {
                assert_eq!(message, "Username and email cannot be empty")
            }
            other => panic!("{:?}", other),
        }
    }
    assert!(repo.get_all_users().unwrap().is_empty());
}

#[test]
fn a_lookup_gives_the_user_that_was_added() {
    let mut repo = MemoryUserRepository::new();
    add(&mut repo, "alice", "a@x.com", "hash a").unwrap();
    let bob = add(&mut repo, "bob", "b@x.com", "hash b").unwrap();
    assert_eq!(repo.get_user_by_id(bob.id).unwrap(), bob);
    assert_eq!(repo.get_user_by_username("bob".to_string()).unwrap(), bob);
}

#[test]
fn a_lookup_of_an_unknown_user_is_not_found() {
    let mut repo = MemoryUserRepository::new();
    add(&mut repo, "alice", "a@x.com", "hash").unwrap();
    match repo.get_user_by_id(42) {
        Err(Error::NotFound(message)) => assert_eq!(message, "User with ID '42' not found"),
        other => panic!("{:?}", other),
    }
    match repo.get_user_by_id(0) {
        Err(Error::NotFound(message)) => assert_eq!(message, "User with ID '0' not found"),
        other => panic!("{:?}", other),
    }
    match repo.get_user_by_id(u32::MAX) {
        Err(Error::NotFound(message)) => {
            assert_eq!(message, "User with ID '4294967295' not found")
        }
        other => panic!("{:?}", other),
    }
    match repo.get_user_by_username("nobody".to_string()) {
        Err(Error::NotFound(message)) => {
            assert_eq!(message, "User with username 'nobody' not found")
        }
        other => panic!("{:?}", other),
    }
}

#[test]
fn users_compare_by_their_fields() {
    let alice = User {
        id: 1,
        username: "alice".to_string(),
        email: "a@x.com".to_string(),
        password: "hash".to_string(),
    };
    assert_eq!(alice, alice.clone());
    assert_ne!(alice, User { id: 2, ..alice.clone() });
    assert_ne!(alice, User { username: "bob".to_string(), ..alice.clone() });
    assert_ne!(alice, User { email: "b@x.com".to_string(), ..alice.clone() });
    assert_ne!(alice, User { password: "other".to_string(), ..alice.clone() });
}
