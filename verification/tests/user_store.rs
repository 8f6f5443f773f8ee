//! Exercises of the in-memory user repository and the account operations.

use authify_api::error::AppError;
use authify_api::users::{InMemoryUserRepository, User, UserService};

const NOW: i64 = 1700000000;

fn sample_user(uid: &str, username: &str) -> User {
    User::new(
        uid.to_string(),
        format!("{}@example.com", uid),
        username.to_string(),
        format!("The {}", username),
        NOW,
    )
}

#[test]
fn create_and_find_by_uid() {
    let mut repo = InMemoryUserRepository::new();
    let created = repo.create(sample_user("u1", "alice")).unwrap();
    assert_eq!(created.uid, "u1");
    let found = repo.find_by_uid("u1").unwrap();
    assert_eq!(found.username, "alice");
    assert!(repo.find_by_uid("u2").is_none());
}

#[test]
fn username_lookup_is_case_insensitive() {
    let mut repo = InMemoryUserRepository::new();
    repo.create(sample_user("u1", "Alice")).unwrap();
    let found = repo.find_by_username("aLiCe").unwrap();
    assert_eq!(found.uid, "u1");
    assert!(repo.is_username_taken("ALICE"));
    assert!(!repo.is_username_taken("bob"));
}

#[test]
fn duplicate_uid_conflicts() {
    let mut repo = InMemoryUserRepository::new();
    repo.create(sample_user("u1", "alice")).unwrap();
    let err = repo.create(sample_user("u1", "bob")).unwrap_err();
    assert!(matches!(err, AppError::Conflict(_)));
}

#[test]
fn duplicate_username_conflicts() {
    let mut repo = InMemoryUserRepository::new();
    repo.create(sample_user("u1", "alice")).unwrap();
    let err = repo.create(sample_user("u2", "ALICE")).unwrap_err();
    assert!(matches!(err, AppError::Conflict(_)));
}

#[test]
fn update_replaces_the_profile() {
    let mut repo = InMemoryUserRepository::new();
    repo.create(sample_user("u1", "alice")).unwrap();
    let mut user = repo.find_by_uid("u1").unwrap();
    user.display_name = "Alice A.".to_string();
    repo.update(&user).unwrap();
    assert_eq!(repo.find_by_uid("u1").unwrap().display_name, "Alice A.");
}

#[test]
fn update_of_unknown_uid_fails() {
    let mut repo = InMemoryUserRepository::new();
    let err = repo.update(&sample_user("ghost", "casper")).unwrap_err();
    assert!(matches!(err, AppError::NotFound(_)));
}

#[test]
fn delete_frees_the_username() {
    let mut repo = InMemoryUserRepository::new();
    repo.create(sample_user("u1", "alice")).unwrap();
    repo.delete("u1").unwrap();
    assert!(repo.find_by_uid("u1").is_none());
    assert!(!repo.is_username_taken("alice"));
    // Deleting an absent uid is not an error.
    repo.delete("u1").unwrap();
}

#[test]
fn register_creates_a_fresh_profile() {
    let mut service = UserService::new(InMemoryUserRepository::new());
    let user = service
        .register(
            "u1".to_string(),
            "u1@example.com".to_string(),
            "alice".to_string(),
            "Alice".to_string(),
            Some("hello".to_string()),
            NOW,
        )
        .unwrap();
    assert_eq!(user.uid, "u1");
    assert_eq!(user.bio.as_deref(), Some("hello"));
    assert_eq!(user.followers_count, 0);
    assert!(!user.is_verified);
    assert_eq!(user.created_at, NOW);
}

#[test]
fn register_rejects_taken_username() {
    let mut service = UserService::new(InMemoryUserRepository::new());
    service
        .register(
            "u1".to_string(),
            "u1@example.com".to_string(),
            "alice".to_string(),
            "Alice".to_string(),
            None,
            NOW,
        )
        .unwrap();
    let err = service
        .register(
            "u2".to_string(),
            "u2@example.com".to_string(),
            "Alice".to_string(),
            "Another Alice".to_string(),
            None,
            NOW,
        )
        .unwrap_err();
    assert!(matches!(err, AppError::Conflict(_)));
}

#[test]
fn register_rejects_existing_profile() {
    let mut service = UserService::new(InMemoryUserRepository::new());
    service
        .register(
            "u1".to_string(),
            "u1@example.com".to_string(),
            "alice".to_string(),
            "Alice".to_string(),
            None,
            NOW,
        )
        .unwrap();
    let err = service
        .register(
            "u1".to_string(),
            "u1@example.com".to_string(),
            "newname".to_string(),
            "Alice".to_string(),
            None,
            NOW,
        )
        .unwrap_err();
    assert!(matches!(err, AppError::Conflict(_)));
}

#[test]
fn update_profile_overrides_given_fields() {
    let mut service = UserService::new(InMemoryUserRepository::new());
    service
        .register(
            "u1".to_string(),
            "u1@example.com".to_string(),
            "alice".to_string(),
            "Alice".to_string(),
            None,
            NOW,
        )
        .unwrap();
    let updated = service
        .update_profile("u1", None, Some("new bio".to_string()), NOW + 5)
        .unwrap();
    assert_eq!(updated.display_name, "Alice");
    assert_eq!(updated.bio.as_deref(), Some("new bio"));
    assert_eq!(updated.updated_at, NOW + 5);
    assert_eq!(updated.created_at, NOW);
    let err = service.update_profile("ghost", None, None, NOW).unwrap_err();
    assert!(matches!(err, AppError::NotFound(_)));
}

#[test]
fn get_by_username_reaches_the_profile() {
    let mut service = UserService::new(InMemoryUserRepository::new());
    service
        .register(
            "u1".to_string(),
            "u1@example.com".to_string(),
            "alice".to_string(),
            "Alice".to_string(),
            None,
            NOW,
        )
        .unwrap();
    let found = service.get_by_username("ALICE").unwrap().unwrap();
    assert_eq!(found.uid, "u1");
    assert!(service.get_by_username("nobody").unwrap().is_none());
    assert!(service.get_by_uid("u1").unwrap().is_some());
}
