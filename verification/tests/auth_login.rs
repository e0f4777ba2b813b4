use mentem_api::auth::domain::User;
use mentem_api::auth::error::AuthError;
use mentem_api::auth::hasher::{Argon2Hasher, PasswordHasher};
use mentem_api::auth::service::{
    login_start, login_step, new_user_record, user_from_lookup, LoginAction, LoginEvent, LoginState,
};

fn alice() -> User {
    User { id: 5, email: "alice@example.com".to_string(), password_hash: "HASH".to_string() }
}

#[test]
fn hashed_password_verifies_and_others_do_not() {
    let hasher = Argon2Hasher::new();
    let hash = hasher.hash("correct horse").unwrap();
    assert!(hash.starts_with("$argon2id$v=19$m=19456,t=2,p=1$"));
    assert_ne!(hash, hasher.hash("correct horse").unwrap());
    assert_eq!(hasher.verify("correct horse", &hash).unwrap(), true);
    assert_eq!(hasher.verify("wrong horse", &hash).unwrap(), false);
}

#[test]
fn unparsable_hash_is_internal_error() {
    let hasher = Argon2Hasher::new();
    assert!(matches!(hasher.verify("pw", "not a phc string"), Err(AuthError::Internal(_))));
}

#[test]
fn dummy_hash_is_a_valid_hash() {
    let hasher = Argon2Hasher::new();
    let hash = hasher.dummy_hash().unwrap();
    assert_eq!(hasher.verify("dummy-password-for-timing", &hash).unwrap(), true);
}

#[test]
fn login_of_known_user_with_right_password_issues_token() {
    let (state, action) = login_start("alice@example.com", "pw123456");
    match action {
        LoginAction::LookUpUser { email } => assert_eq!(email, "alice@example.com"),
        other => panic!("unexpected {:?}", other),
    }
    let (state, action) = login_step(state, LoginEvent::UserLookedUp(Ok(Some(alice()))));
    match action {
        LoginAction::CheckPassword { password, hash } => {
            assert_eq!(password, "pw123456");
            assert_eq!(hash, "HASH");
        }
        other => panic!("unexpected {:?}", other),
    }
    let (state, action) = login_step(state, LoginEvent::PasswordChecked(Ok(true)));
    assert!(matches!(action, LoginAction::IssueToken { user_id: 5 }));
    let (state, action) = login_step(state, LoginEvent::TokenIssued(Ok("tok".to_string())));
    assert!(matches!(state, LoginState::Finished));
    match action {
        LoginAction::Finish(Ok(t)) => assert_eq!(t, "tok"),
        other => panic!("unexpected {:?}", other),
    }
}

#[test]
fn login_of_unknown_user_checks_dummy_hash_then_refuses() {
    let (state, _) = login_start("ghost@example.com", "pw123456");
    let (state, action) = login_step(state, LoginEvent::UserLookedUp(Ok(None)));
    assert!(matches!(action, LoginAction::ComputeDummyHash));
    let (state, action) = login_step(state, LoginEvent::DummyHashed(Ok("DUMMY".to_string())));
    match action {
        LoginAction::CheckPassword { password, hash } => {
            assert_eq!(password, "pw123456");
            assert_eq!(hash, "DUMMY");
        }
        other => panic!("unexpected {:?}", other),
    }
    let (_, action) = login_step(state, LoginEvent::PasswordChecked(Ok(true)));
    assert!(matches!(action, LoginAction::Finish(Err(AuthError::InvalidCredentials))));
}

#[test]
fn login_with_wrong_password_is_refused() {
    let (state, _) = login_start("alice@example.com", "bad");
    let (state, _) = login_step(state, LoginEvent::UserLookedUp(Ok(Some(alice()))));
    let (state, action) = login_step(state, LoginEvent::PasswordChecked(Ok(false)));
    assert!(matches!(state, LoginState::Finished));
    assert!(matches!(action, LoginAction::Finish(Err(AuthError::InvalidCredentials))));
}

#[test]
fn login_passes_on_failures_of_outside_work() {
    let (state, _) = login_start("a@b.c", "pw");
    let (_, action) = login_step(state, LoginEvent::UserLookedUp(Err(AuthError::Internal("db".to_string()))));
    assert!(matches!(action, LoginAction::Finish(Err(AuthError::Internal(_)))));

    let (state, _) = login_start("a@b.c", "pw");
    let (state, _) = login_step(state, LoginEvent::UserLookedUp(Ok(None)));
    let (_, action) = login_step(state, LoginEvent::DummyHashed(Err(AuthError::Internal("h".to_string()))));
    assert!(matches!(action, LoginAction::Finish(Err(AuthError::Internal(_)))));

    let (state, _) = login_start("a@b.c", "pw");
    let (state, _) = login_step(state, LoginEvent::UserLookedUp(Ok(Some(alice()))));
    let (state, _) = login_step(state, LoginEvent::PasswordChecked(Ok(true)));
    let (_, action) = login_step(state, LoginEvent::TokenIssued(Err(AuthError::Internal("jwt".to_string()))));
    assert!(matches!(action, LoginAction::Finish(Err(AuthError::Internal(_)))));
}

#[test]
fn new_user_record_keeps_email_and_hash() {
    let u = new_user_record("a@b.c", Ok("H".to_string())).unwrap();
    assert_eq!(u.email, "a@b.c");
    assert_eq!(u.password_hash, "H");
    assert!(matches!(new_user_record("a@b.c", Err(AuthError::Internal("x".to_string()))), Err(AuthError::Internal(_))));
}

#[test]
fn user_lookup_without_user_is_not_found() {
    assert_eq!(user_from_lookup(Ok(Some(alice()))).unwrap().id, 5);
    assert!(matches!(user_from_lookup(Ok(None)), Err(AuthError::UserNotFound)));
    assert!(matches!(user_from_lookup(Err(AuthError::Internal("x".to_string()))), Err(AuthError::Internal(_))));
}

#[test]
fn any_password_is_hashed_under_a_fresh_salt() {
    let hasher = Argon2Hasher::new();
    let hash = hasher.hash("").unwrap();
    assert!(hasher.verify("", &hash).unwrap());
    let parts: Vec<&str> = hash.split('$').collect();
    // "", "argon2id", "v=19", "m=19456,t=2,p=1", salt, hash
    assert_eq!(parts.len(), 6);
    assert_eq!(parts[4].len(), 22);
    let other = hasher.hash("").unwrap();
    assert_ne!(parts[4], other.split('$').nth(4).unwrap());
}

#[test]
fn event_that_does_not_answer_the_state_ends_the_login() {
    let (_, action) = login_step(LoginState::AwaitToken, LoginEvent::UserLookedUp(Ok(None)));
    assert!(matches!(action, LoginAction::Finish(Err(AuthError::InvalidCredentials))));
    let (state, action) = login_step(
        LoginState::AwaitUser { password: "pw".to_string() },
        LoginEvent::TokenIssued(Ok("t".to_string())),
    );
    assert!(matches!(state, LoginState::Finished));
    assert!(matches!(action, LoginAction::Finish(Err(AuthError::InvalidCredentials))));
}

#[test]
fn hash_with_oversized_parallelism_is_a_mismatch() {
    let hasher = Argon2Hasher::new();
    let huge = "$argon2id$v=19$m=19456,t=2,p=536870912$c29tZXNhbHQ$AAAAAAAAAAAAAAAAAAAAAA";
    assert_eq!(hasher.verify("pw", huge).unwrap(), false);
    let last_p_huge = "$argon2id$v=19$m=19456,t=2,p=1,p=4294967295$c29tZXNhbHQ$AAAAAAAAAAAAAAAAAAAAAA";
    assert_eq!(hasher.verify("pw", last_p_huge).unwrap(), false);
    // a parallelism over the limit but short enough to check is refused by argon2 itself
    let too_many = "$argon2id$v=19$m=19456,t=2,p=16777216$c29tZXNhbHQ$AAAAAAAAAAAAAAAAAAAAAA";
    assert_eq!(hasher.verify("pw", too_many).unwrap(), false);
}
