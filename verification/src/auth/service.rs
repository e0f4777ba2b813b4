//! The decisions of the authentication service. Looking users up, hashing
//! and checking passwords and issuing tokens are outside work that the
//! caller performs: for login, `login_start` and `login_step` say after each
//! outcome what to do next, until they say `Finish`.

use vstd::prelude::*;

use super::domain::{NewUser, User, UserId};
use super::error::AuthError;
use super::hasher::{records_password, verify_outcome};

verus! {

/// Where a login stands.
#[derive(Debug)]
pub enum LoginState {
    /// The user with the email is being looked up.
    AwaitUser { password: String },
    /// No user has the email: a stand-in hash is being computed.
    AwaitDummyHash { password: String },
    /// The password is being checked; `user` is the user found, if any.
    AwaitVerify { user: Option<User> },
    /// A token is being issued.
    AwaitToken,
    /// The login is over.
    Finished,
}

/// The outcome of the outside work that a login asked for.
#[derive(Debug)]
pub enum LoginEvent {
    UserLookedUp(Result<Option<User>, AuthError>),
    DummyHashed(Result<String, AuthError>),
    PasswordChecked(Result<bool, AuthError>),
    TokenIssued(Result<String, AuthError>),
}

/// What a login asks the caller to do next.
#[derive(Debug)]
pub enum LoginAction {
    LookUpUser { email: String },
    ComputeDummyHash,
    CheckPassword { password: String, hash: String },
    IssueToken { user_id: UserId },
    /// The login is over, with a token or an error.
    Finish(Result<String, AuthError>),
}

/// Ends the login with a result.
pub open spec fn finish(result: Result<String, AuthError>) -> (LoginState, LoginAction) {
    (LoginState::Finished, LoginAction::Finish(result))
}

/// How a login moves on an event: any failed outside work ends it with that
/// error; a found user has the password checked against the stored hash, a
/// missing one against a stand-in hash; a failed check, or any check without
/// a user, ends it with `InvalidCredentials`; a passed check for a user has a
/// token issued for that user, and the token ends the login.
pub open spec fn login_transition(state: LoginState, event: LoginEvent) -> (LoginState, LoginAction) {
    match (state, event) {
        (LoginState::AwaitUser { password }, LoginEvent::UserLookedUp(found)) => match found {
            Err(e) => finish(Err(e)),
            Ok(Some(user)) => (
                LoginState::AwaitVerify { user: Some(user) },
                LoginAction::CheckPassword { password, hash: user.password_hash },
            ),
            Ok(None) => (LoginState::AwaitDummyHash { password }, LoginAction::ComputeDummyHash),
        },
        (LoginState::AwaitDummyHash { password }, LoginEvent::DummyHashed(hashed)) => match hashed {
            Err(e) => finish(Err(e)),
            Ok(hash) => (
                LoginState::AwaitVerify { user: None },
                LoginAction::CheckPassword { password, hash },
            ),
        },
        (LoginState::AwaitVerify { user }, LoginEvent::PasswordChecked(checked)) => match checked {
            Err(e) => finish(Err(e)),
            Ok(false) => finish(Err(AuthError::InvalidCredentials)),
            Ok(true) => match user {
                None => finish(Err(AuthError::InvalidCredentials)),
                Some(u) => (LoginState::AwaitToken, LoginAction::IssueToken { user_id: u.id }),
            },
        },
        (LoginState::AwaitToken, LoginEvent::TokenIssued(issued)) => finish(issued),
        _ => finish(Err(AuthError::InvalidCredentials)),
    }
}

/// Starts a login: the user with the email is looked up first.
pub fn login_start(email: &str, password: &str) -> (r: (LoginState, LoginAction))
    ensures
        r.0 matches LoginState::AwaitUser { password: p } && p@ == password@,
        r.1 matches LoginAction::LookUpUser { email: e } && e@ == email@,
{
    (
        LoginState::AwaitUser { password: password.to_owned() },
        LoginAction::LookUpUser { email: email.to_owned() },
    )
}

/// Moves a login on the outcome of the work it asked for; an event that
/// does not answer what the login waits for ends it with
/// `InvalidCredentials`.
pub fn login_step(state: LoginState, event: LoginEvent) -> (r: (LoginState, LoginAction))
    ensures
        r == login_transition(state, event),
{
    match (state, event) {
        (LoginState::AwaitUser { password }, LoginEvent::UserLookedUp(found)) => match found {
            Err(e) => (LoginState::Finished, LoginAction::Finish(Err(e))),
            Ok(Some(user)) => {
                let hash = user.password_hash.clone();
                (
                    LoginState::AwaitVerify { user: Some(user) },
                    LoginAction::CheckPassword { password, hash },
                )
            },
            Ok(None) => (LoginState::AwaitDummyHash { password }, LoginAction::ComputeDummyHash),
        },
        (LoginState::AwaitDummyHash { password }, LoginEvent::DummyHashed(hashed)) => match hashed {
            Err(e) => (LoginState::Finished, LoginAction::Finish(Err(e))),
            Ok(hash) => (
                LoginState::AwaitVerify { user: None },
                LoginAction::CheckPassword { password, hash },
            ),
        },
        (LoginState::AwaitVerify { user }, LoginEvent::PasswordChecked(checked)) => match checked {
            Err(e) => (LoginState::Finished, LoginAction::Finish(Err(e))),
            Ok(false) => (
                LoginState::Finished,
                LoginAction::Finish(Err(AuthError::InvalidCredentials)),
            ),
            Ok(true) => match user {
                Some(u) => (LoginState::AwaitToken, LoginAction::IssueToken { user_id: u.id }),
                None => (
                    LoginState::Finished,
                    LoginAction::Finish(Err(AuthError::InvalidCredentials)),
                ),
            },
        },
        (LoginState::AwaitToken, LoginEvent::TokenIssued(issued)) => (
            LoginState::Finished,
            LoginAction::Finish(issued),
        ),
        _ => (LoginState::Finished, LoginAction::Finish(Err(AuthError::InvalidCredentials))),
    }
}

/// A token is asked for only when a user was found and the password checked
/// out against that user's hash, and it is asked for that user.
pub proof fn lemma_token_only_for_verified_user(state: LoginState, event: LoginEvent)
    requires
        login_transition(state, event).1 is IssueToken,
    ensures
        state matches LoginState::AwaitVerify { user } && user matches Some(u)
            && login_transition(state, event).1 == (LoginAction::IssueToken { user_id: u.id }),
        event matches LoginEvent::PasswordChecked(checked) && checked == Ok::<bool, AuthError>(true),
{
}

/// A login ends with a token only when that token is the one issued.
pub proof fn lemma_success_only_with_issued_token(state: LoginState, event: LoginEvent, token: String)
    requires
        login_transition(state, event).1 == LoginAction::Finish(Ok(token)),
    ensures
        state is AwaitToken,
        event == LoginEvent::TokenIssued(Ok(token)),
{
}

/// The password of a found user is checked against that user's stored hash.
pub proof fn lemma_found_user_checked_against_stored_hash(password: String, user: User)
    ensures
        login_transition(
            LoginState::AwaitUser { password },
            LoginEvent::UserLookedUp(Ok(Some(user))),
        ) == (LoginState::AwaitVerify { user: Some(user) }, LoginAction::CheckPassword {
            password,
            hash: user.password_hash,
        }),
{
}

/// A missing user still has the password checked, against a stand-in hash,
/// so that it takes as long as a wrong password.
pub proof fn lemma_missing_user_still_checks_password(password: String, dummy: String)
    ensures
        login_transition(LoginState::AwaitUser { password }, LoginEvent::UserLookedUp(Ok(None)))
            == (LoginState::AwaitDummyHash { password }, LoginAction::ComputeDummyHash),
        login_transition(LoginState::AwaitDummyHash { password }, LoginEvent::DummyHashed(Ok(dummy)))
            == (LoginState::AwaitVerify { user: None }, LoginAction::CheckPassword {
            password,
            hash: dummy,
        }),
{
}

/// A missing user and a wrong password are refused alike, with
/// `InvalidCredentials`, whatever the check against the stand-in hash gave.
pub proof fn lemma_missing_user_and_wrong_password_refused_alike(user: User, checked: bool)
    ensures
        login_transition(LoginState::AwaitVerify { user: None }, LoginEvent::PasswordChecked(Ok(checked)))
            == finish(Err(AuthError::InvalidCredentials)),
        login_transition(LoginState::AwaitVerify { user: Some(user) }, LoginEvent::PasswordChecked(Ok(false)))
            == finish(Err(AuthError::InvalidCredentials)),
{
}

/// A user whose stored hash records the password, logging in with that
/// password, has it checked against the stored hash, the check passes, and a
/// token is asked for that user.
pub proof fn lemma_recorded_password_logs_in(password: String, user: User)
    requires
        records_password(password@, user.password_hash@),
    ensures
        login_transition(LoginState::AwaitUser { password }, LoginEvent::UserLookedUp(Ok(Some(user))))
            == (LoginState::AwaitVerify { user: Some(user) }, LoginAction::CheckPassword {
            password,
            hash: user.password_hash,
        }),
        verify_outcome(password@, user.password_hash@) == Some(true),
        login_transition(LoginState::AwaitVerify { user: Some(user) }, LoginEvent::PasswordChecked(Ok(true)))
            == (LoginState::AwaitToken, LoginAction::IssueToken { user_id: user.id }),
{
}

/// The record to store for a new user once the password has been hashed;
/// a failed hashing gives its error.
pub fn new_user_record(email: &str, hashed: Result<String, AuthError>) -> (r: Result<NewUser, AuthError>)
    ensures
        hashed matches Ok(h) ==> (r matches Ok(u) && u.email@ == email@ && u.password_hash == h),
        hashed matches Err(e) ==> r == Err::<NewUser, AuthError>(e),
{
    match hashed {
        Ok(password_hash) => Ok(NewUser { email: email.to_owned(), password_hash }),
        Err(e) => Err(e),
    }
}

/// The user that a lookup by id found; none found fails with `UserNotFound`,
/// a failed lookup with its error.
pub fn user_from_lookup(found: Result<Option<User>, AuthError>) -> (r: Result<User, AuthError>)
    ensures
        found matches Ok(Some(u)) ==> r == Ok::<User, AuthError>(u),
        found matches Ok(None) ==> (r matches Err(e) && e is UserNotFound),
        found matches Err(e) ==> r == Err::<User, AuthError>(e),
{
    match found {
        Ok(Some(user)) => Ok(user),
        Ok(None) => Err(AuthError::UserNotFound),
        Err(e) => Err(e),
    }
}

/// A login whose token issuance came back ends with exactly that outcome:
/// the issued token itself, or the issuer's error.
pub proof fn lemma_issued_token_ends_login(issued: Result<String, AuthError>)
    ensures
        login_transition(LoginState::AwaitToken, LoginEvent::TokenIssued(issued)) == (
            LoginState::Finished,
            LoginAction::Finish(issued),
        ),
{
}

/// The whole login of a stored user with the right password: the password
/// is checked against the user's stored hash, a passed check has a token
/// issued for that user, and the login answers with that very token.
pub proof fn lemma_right_password_logs_in_with_issued_token(
    password: String,
    user: User,
    token: String,
)
    ensures
        login_transition(
            LoginState::AwaitUser { password },
            LoginEvent::UserLookedUp(Ok(Some(user))),
        ) == (LoginState::AwaitVerify { user: Some(user) }, LoginAction::CheckPassword {
            password,
            hash: user.password_hash,
        }),
        login_transition(
            LoginState::AwaitVerify { user: Some(user) },
            LoginEvent::PasswordChecked(Ok(true)),
        ) == (LoginState::AwaitToken, LoginAction::IssueToken { user_id: user.id }),
        login_transition(LoginState::AwaitToken, LoginEvent::TokenIssued(Ok(token))) == (
            LoginState::Finished,
            LoginAction::Finish(Ok::<String, AuthError>(token)),
        ),
{
}

} // verus!
