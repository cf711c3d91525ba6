use user_repo::errors::{AppError, AppUseCase, DbError};
use user_repo::repo::UserRepo;
use user_repo::user::{User, UserId};

fn fresh_user(email: &str, username: &str) -> User {
    User {
        id: 0,
        email: email.to_string(),
        username: username.to_string(),
        bio: String::new(),
        image: None,
    }
}

#[test]
fn save_returns_positive_generated_ids() {
    let mut repo = UserRepo::new();
    let id1 = repo
        .save(&fresh_user("a@x.com", "a"), "p1".to_string(), "s1".to_string())
        .unwrap();
    let id2 = repo
        .save(&fresh_user("b@x.com", "b"), "p2".to_string(), "s2".to_string())
        .unwrap();
    assert!(id1 > 0);
    assert!(id2 > 0);
    assert_ne!(id1, id2);
    assert_eq!(id1, 1);
    assert_eq!(id2, 2);
}

#[test]
fn save_then_get_by_id_and_email_round_trip() {
    let mut repo = UserRepo::new();
    let id = repo
        .save(&fresh_user("a@x.com", "alice"), "hashed".to_string(), "salty".to_string())
        .unwrap();

    let by_id = repo.get_by_id(&UserId::from(id), AppUseCase::UserLogin).unwrap();
    assert_eq!(by_id.user.email, "a@x.com");
    assert_eq!(by_id.user.username, "alice");
    assert_eq!(by_id.password, "hashed");
    assert_eq!(by_id.salt, "salty");
    // The by-id select list omits the id column: the mapped entry's id
    // defaults to zero.
    assert_eq!(by_id.user.id, 0);

    let by_email = repo
        .get_by_email(&"a@x.com".to_string(), AppUseCase::UserLogin)
        .unwrap();
    assert_eq!(by_email.user.id, id);
    assert_eq!(by_email.user.username, "alice");
    assert_eq!(by_email.password, "hashed");
    assert_eq!(by_email.salt, "salty");
    assert_eq!(by_email.user.bio, "");
    assert_eq!(by_email.user.image, None);
}

#[test]
fn save_duplicate_email_fails_tagged_register() {
    let mut repo = UserRepo::new();
    repo.save(&fresh_user("a@x.com", "alice"), "p".to_string(), "s".to_string())
        .unwrap();
    let r = repo.save(&fresh_user("a@x.com", "bob"), "p".to_string(), "s".to_string());
    match r {
        Ok(_) => panic!("duplicate email must be rejected"),
        Err(e) => assert_eq!(
            e,
            AppError::Storage(DbError::UniqueViolation, AppUseCase::UserRegister)
        ),
    }
}

#[test]
fn save_duplicate_username_fails_tagged_register() {
    let mut repo = UserRepo::new();
    repo.save(&fresh_user("a@x.com", "alice"), "p".to_string(), "s".to_string())
        .unwrap();
    let r = repo.save(&fresh_user("b@x.com", "alice"), "p".to_string(), "s".to_string());
    match r {
        Ok(_) => panic!("duplicate username must be rejected"),
        Err(e) => assert_eq!(
            e,
            AppError::Storage(DbError::UniqueViolation, AppUseCase::UserRegister)
        ),
    }
}

#[test]
fn get_by_email_missing_carries_caller_tag() {
    let repo = UserRepo::new();
    match repo.get_by_email(&"nobody@x.com".to_string(), AppUseCase::UserLogin) {
        Ok(_) => panic!("lookup of a missing email must fail"),
        Err(e) => assert_eq!(e, AppError::Storage(DbError::RowNotFound, AppUseCase::UserLogin)),
    }
    match repo.get_by_email(&"nobody@x.com".to_string(), AppUseCase::GetUserProfile) {
        Ok(_) => panic!("lookup of a missing email must fail"),
        Err(e) => assert_eq!(
            e,
            AppError::Storage(DbError::RowNotFound, AppUseCase::GetUserProfile)
        ),
    }
}

#[test]
fn get_by_id_missing_carries_caller_tag() {
    let repo = UserRepo::new();
    match repo.get_by_id(&UserId::from(42), AppUseCase::UserRegister) {
        Ok(_) => panic!("lookup of a missing id must fail"),
        Err(e) => assert_eq!(
            e,
            AppError::Storage(DbError::RowNotFound, AppUseCase::UserRegister)
        ),
    }
}

#[test]
fn update_with_no_fields_fails_without_storage_access() {
    let mut repo = UserRepo::new();
    let id = repo
        .save(&fresh_user("a@x.com", "alice"), "p".to_string(), "s".to_string())
        .unwrap();
    let r = repo.update_by_id(UserId::from(id), None, None, None);
    match r {
        Ok(_) => panic!("an update with no fields must be rejected"),
        Err(e) => assert_eq!(e, AppError::InvalidInput),
    }
    // The row is untouched.
    let e = repo.get_by_id(&UserId::from(id), AppUseCase::UserLogin).unwrap();
    assert_eq!(e.user.email, "a@x.com");
    assert_eq!(e.user.bio, "");
}

#[test]
fn update_with_no_fields_fails_even_for_missing_id() {
    // The invalid-input check precedes the fetch, so it wins over
    // not-found.
    let mut repo = UserRepo::new();
    match repo.update_by_id(UserId::from(7), None, None, None) {
        Ok(_) => panic!("an update with no fields must be rejected"),
        Err(e) => assert_eq!(e, AppError::InvalidInput),
    }
}

#[test]
fn update_email_only_keeps_bio_and_image() {
    let mut repo = UserRepo::new();
    let id = repo
        .save(&fresh_user("old@x.com", "alice"), "p".to_string(), "s".to_string())
        .unwrap();
    // Give the row a bio and an image first.
    repo.update_by_id(
        UserId::from(id),
        None,
        Some("stored bio".to_string()),
        Some("http://img".to_string()),
    )
    .unwrap();

    let updated = repo
        .update_by_id(UserId::from(id), Some("a@b.com".to_string()), None, None)
        .unwrap();
    assert_eq!(updated.user.email, "a@b.com");
    assert_eq!(updated.user.bio, "stored bio");
    assert_eq!(updated.user.image, Some("http://img".to_string()));

    let refetched = repo.get_by_id(&UserId::from(id), AppUseCase::UserLogin).unwrap();
    assert_eq!(refetched.user.email, "a@b.com");
    assert_eq!(refetched.user.bio, "stored bio");
    assert_eq!(refetched.user.image, Some("http://img".to_string()));
    assert_eq!(refetched.user.username, "alice");
    assert_eq!(refetched.password, "p");
    assert_eq!(refetched.salt, "s");
}

#[test]
fn update_missing_id_fails_tagged_update() {
    let mut repo = UserRepo::new();
    match repo.update_by_id(UserId::from(9), Some("a@b.com".to_string()), None, None) {
        Ok(_) => panic!("updating a missing row must fail"),
        Err(e) => assert_eq!(e, AppError::Storage(DbError::RowNotFound, AppUseCase::UpdateUser)),
    }
}

#[test]
fn update_to_duplicate_email_fails_tagged_update() {
    let mut repo = UserRepo::new();
    repo.save(&fresh_user("a@x.com", "alice"), "p".to_string(), "s".to_string())
        .unwrap();
    let id_b = repo
        .save(&fresh_user("b@x.com", "bob"), "p".to_string(), "s".to_string())
        .unwrap();
    match repo.update_by_id(UserId::from(id_b), Some("a@x.com".to_string()), None, None) {
        Ok(_) => panic!("an update violating email uniqueness must fail"),
        Err(e) => assert_eq!(
            e,
            AppError::Storage(DbError::UniqueViolation, AppUseCase::UpdateUser)
        ),
    }
    // The failed statement left the row unchanged.
    let e = repo.get_by_id(&UserId::from(id_b), AppUseCase::UserLogin).unwrap();
    assert_eq!(e.user.email, "b@x.com");
}

#[test]
fn update_keeping_own_email_is_no_conflict() {
    let mut repo = UserRepo::new();
    let id = repo
        .save(&fresh_user("a@x.com", "alice"), "p".to_string(), "s".to_string())
        .unwrap();
    let updated = repo
        .update_by_id(UserId::from(id), Some("a@x.com".to_string()), Some("bio".to_string()), None)
        .unwrap();
    assert_eq!(updated.user.email, "a@x.com");
    assert_eq!(updated.user.bio, "bio");
}

#[test]
fn profile_of_follower_of_two_users() {
    let mut repo = UserRepo::new();
    let id_a = repo
        .save(&fresh_user("a@x.com", "alice"), "p".to_string(), "s".to_string())
        .unwrap();
    let id_b = repo
        .save(&fresh_user("b@x.com", "bob"), "p".to_string(), "s".to_string())
        .unwrap();
    let id_c = repo
        .save(&fresh_user("c@x.com", "carol"), "p".to_string(), "s".to_string())
        .unwrap();
    repo.add_following(id_a, id_b);
    repo.add_following(id_a, id_c);

    let dto = repo
        .get_profile_by_username(&"alice".to_string(), AppUseCase::GetUserProfile)
        .unwrap();
    assert_eq!(dto.username, "alice");
    let followed = dto.following.expect("the secondary lookup succeeded");
    assert_eq!(followed, vec![UserId::from(id_b), UserId::from(id_c)]);
}

#[test]
fn profile_of_missing_username_carries_caller_tag() {
    let repo = UserRepo::new();
    match repo.get_profile_by_username(&"ghost".to_string(), AppUseCase::GetUserProfile) {
        Ok(_) => panic!("the primary lookup must fail for a missing username"),
        Err(e) => assert_eq!(
            e,
            AppError::Storage(DbError::RowNotFound, AppUseCase::GetUserProfile)
        ),
    }
}

#[test]
fn scenario_register_fetch_update_refetch() {
    let mut repo = UserRepo::new();
    let n = repo
        .save(
            &fresh_user("eve@example.com", "eve"),
            "hashed123".to_string(),
            "s1".to_string(),
        )
        .unwrap();
    assert!(n > 0);

    let by_id = repo.get_by_id(&UserId::from(n), AppUseCase::UserLogin).unwrap();
    assert_eq!(by_id.user.username, "eve");

    let by_email = repo
        .get_by_email(&"eve@example.com".to_string(), AppUseCase::GetUserProfile)
        .unwrap();
    assert_eq!(by_email.user.id, n);
    assert_eq!(by_email.user.username, "eve");
    assert_eq!(by_email.password, "hashed123");
    assert_eq!(by_email.salt, "s1");

    repo.update_by_id(UserId::from(n), None, Some("hi".to_string()), None)
        .unwrap();
    let refetched = repo.get_by_id(&UserId::from(n), AppUseCase::UserLogin).unwrap();
    assert_eq!(refetched.user.bio, "hi");
    assert_eq!(refetched.user.email, "eve@example.com");
    assert_eq!(refetched.user.username, "eve");
}
