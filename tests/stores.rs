use auth_service::banned_token_store::HashsetBannedTokenStore;
use auth_service::email::Email;
use auth_service::password::Password;
use auth_service::two_fa::{LoginAttemptId, TwoFACode};
use auth_service::two_fa_code_store::{
    HashMapTwoFACodeStore, TwoFACodeStoreError, TEN_MINUTES_IN_SECONDS,
};
use auth_service::user::User;
use auth_service::user_store::{HashMapUserStore, UserStoreError};

const NOW: u64 = 1_700_000_000;

fn email(s: &str) -> Email {
    Email::parse(s.to_string()).ok().unwrap()
}

fn password(s: &str) -> Password {
    Password::parse(s.to_string()).ok().unwrap()
}

fn empty_hashmap_user_store() -> HashMapUserStore {
    let store = HashMapUserStore::default();
    assert_eq!(store.count(), 0);
    store
}

#[test]
fn test_add_user() {
    for (address, requires_2fa) in [("test_email@google.com", false), ("teemo@gmail.com", true)] {
        let user = User::new(email(address), requires_2fa, password("captain teemo"));
        let mut user_store = empty_hashmap_user_store();
        assert_eq!(user_store.count(), 0);
        user_store.add_user(user.clone()).expect("Failed to add user");
        assert_eq!(user_store.count(), 1);
        let failed_insert = user_store.add_user(user);
        assert_eq!(failed_insert, Err(UserStoreError::UserAlreadyExists));
        assert_eq!(user_store.count(), 1);
    }
}

#[test]
fn test_get_user() {
    for address in ["test_email@gmail.com", "email@hotmail.com"] {
        let e = email(address);
        let user = User::new(e.clone(), false, password("a valid password"));
        let mut user_store = empty_hashmap_user_store();

        let error = user_store.get_user(&e);
        assert!(matches!(error, Err(UserStoreError::UserNotFound)));

        user_store.add_user(user.clone()).expect("Failed to add user");
        let same_user = user_store.get_user(&e).ok().unwrap();
        assert!(same_user.email == user.email);
        assert_eq!(same_user.requires_2fa, user.requires_2fa);
        // the store keeps a hash, never the plaintext
        assert_ne!(same_user.password_hash, "a valid password");
        assert!(same_user.password_hash.starts_with("$argon2id$"));
    }
}

#[test]
fn test_validate_user() {
    for address in ["some_password@gmail.com", "email@hotmail.com"] {
        let e = email(address);
        let user = User::new(e.clone(), false, password("valid password"));
        let mut user_store = empty_hashmap_user_store();
        let wrong_password = password("wrongPassword");

        let error = user_store.validate_user(&e, &wrong_password);
        assert_eq!(error, Err(UserStoreError::UserNotFound));

        user_store.add_user(user.clone()).unwrap();
        assert!(user.password != wrong_password);
        let error = user_store.validate_user(&e, &wrong_password);
        assert_eq!(error, Err(UserStoreError::InvalidCredentials));

        let is_ok = user_store.validate_user(&e, &user.password).is_ok();
        assert_eq!(is_ok, true);
    }
}

#[test]
fn same_password_hashes_differently_per_user() {
    let mut store = HashMapUserStore::new();
    store.add_user(User::new(email("a@x.com"), false, password("password123"))).unwrap();
    store.add_user(User::new(email("b@x.com"), false, password("password123"))).unwrap();
    let a = store.get_user(&email("a@x.com")).ok().unwrap();
    let b = store.get_user(&email("b@x.com")).ok().unwrap();
    assert_ne!(a.password_hash, b.password_hash);
    assert_eq!(store.count(), 2);
}

#[test]
fn add_code_twice_is_refused() {
    let mut code_store = HashMapTwoFACodeStore::default();
    let id = LoginAttemptId::default();
    let code = TwoFACode::default();
    let e = email("jaymo@gmail.com");
    assert!(code_store.add_code(e.clone(), id.clone(), code.clone(), NOW).is_ok());
    let again = code_store.add_code(e.clone(), LoginAttemptId::default(), TwoFACode::default(), NOW + 1);
    assert_eq!(again, Err(TwoFACodeStoreError::EmailAlreadyExists));
    let (stored_id, stored_code) = code_store.get_code(&e, NOW + 1).ok().unwrap();
    assert!(stored_id == id);
    assert!(stored_code == code);
}

#[test]
fn remove_code_cycle() {
    let mut code_store = HashMapTwoFACodeStore::default();
    let e = email("jaymo@gmail.com");
    assert_eq!(code_store.remove_code(&e, NOW), Err(TwoFACodeStoreError::LoginAttemptIdNotFound));
    code_store.add_code(e.clone(), LoginAttemptId::default(), TwoFACode::default(), NOW).unwrap();
    assert!(code_store.remove_code(&e, NOW).is_ok());
    assert_eq!(code_store.remove_code(&e, NOW), Err(TwoFACodeStoreError::LoginAttemptIdNotFound));
}

#[test]
fn get_code_cycle() {
    let mut code_store = HashMapTwoFACodeStore::default();
    let e = email("jaymo@gmail.com");
    assert!(matches!(
        code_store.get_code(&e, NOW),
        Err(TwoFACodeStoreError::LoginAttemptIdNotFound)
    ));
    let id = LoginAttemptId::default();
    let code = TwoFACode::default();
    code_store.add_code(e.clone(), id.clone(), code.clone(), NOW).unwrap();
    let (map_id, map_code) = code_store.get_code(&e, NOW).ok().unwrap();
    assert!(map_id == id);
    assert!(map_code == code);
}

#[test]
fn challenge_expires_without_deletion() {
    let mut code_store = HashMapTwoFACodeStore::default();
    let e = email("late@x.com");
    code_store.add_code(e.clone(), LoginAttemptId::default(), TwoFACode::default(), NOW).unwrap();
    assert!(code_store.get_code(&e, NOW + TEN_MINUTES_IN_SECONDS - 1).is_ok());
    assert!(matches!(
        code_store.get_code(&e, NOW + TEN_MINUTES_IN_SECONDS),
        Err(TwoFACodeStoreError::LoginAttemptIdNotFound)
    ));
    // an expired challenge no longer blocks a new one
    let id = LoginAttemptId::default();
    assert!(code_store
        .add_code(e.clone(), id.clone(), TwoFACode::default(), NOW + TEN_MINUTES_IN_SECONDS)
        .is_ok());
    let (stored, _) = code_store.get_code(&e, NOW + TEN_MINUTES_IN_SECONDS).ok().unwrap();
    assert!(stored == id);
}

#[test]
fn challenge_near_end_of_time_does_not_overflow() {
    let mut code_store = HashMapTwoFACodeStore::default();
    let e = email("far@x.com");
    code_store.add_code(e.clone(), LoginAttemptId::default(), TwoFACode::default(), u64::MAX - 1).unwrap();
    assert!(code_store.get_code(&e, u64::MAX - 1).is_ok());
    assert!(code_store.get_code(&e, u64::MAX).is_err());
}

#[test]
fn banned_token_insert_and_check() {
    let mut store = HashsetBannedTokenStore::new();
    let sample_token = "asduashfiasbnfd".to_string();
    assert_eq!(store.token_exists(&sample_token, NOW), Ok(false));
    assert!(store.insert(sample_token.clone(), NOW + 100).is_ok());
    assert_eq!(store.token_exists(&sample_token, NOW), Ok(true));
    assert_eq!(store.token_exists(&"other".to_string(), NOW), Ok(false));
    // banning again is no error, and never shortens the ban
    assert!(store.insert(sample_token.clone(), NOW + 10).is_ok());
    assert_eq!(store.token_exists(&sample_token, NOW + 50), Ok(true));
    assert_eq!(store.token_exists(&sample_token, NOW + 100), Ok(false));
    assert!(store.insert(sample_token.clone(), NOW + 200).is_ok());
    assert_eq!(store.token_exists(&sample_token, NOW + 150), Ok(true));
}
