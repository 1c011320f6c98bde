//! The register and login flows, as decisions on plain values.
//!
//! The caller talks to the store and to the client. Registration is two
//! steps around the caller's insert: `register_user` makes the record to
//! store, `finish_registration` turns what the store reported into the
//! answer. Login is one step after the caller's lookup.

use crate::config::AppConfig;
use crate::models::user::{NewUser, User};
use crate::models::user_dto::{AuthResponse, LoginUser, RegisterUser, UserResponse};
use crate::services::auth::{
    carries_salt, check_spec, create_jwt_at, expiration_spec, hash_failed, hash_malformed,
    hash_password, hash_password_with_salt, hash_with_salt_spec, issue_spec, validate_spec,
    verify_password, verify_spec, Claims,
};
use crate::services::backend::{argon2_phc, unix_now, MIN_ENCODED_HASH_CHARS, MIN_SALT_BYTES};
use crate::utils::error::{AppError, ErrorView};
use vstd::prelude::*;

verus! {

/// What the store reported for the lookup of a user by name.
#[derive(Debug, Clone, PartialEq, Eq)]
pub enum UserLookup {
    /// The user exists: this is the stored record.
    Found(User),
    /// No user has that name.
    NotFound,
    /// The store could not be asked or did not answer.
    StorageError,
}

/// What the store reported for the insert of a new user.
#[derive(Debug, Clone, PartialEq, Eq)]
pub enum InsertOutcome {
    /// The user was stored: this is the record as stored.
    Created(User),
    /// The name or the address belongs to a user already.
    Conflict,
    /// The store could not be asked or did not answer.
    StorageError,
}

/// The one error for every login that is turned down, whether the user is
/// unknown or the password is wrong.
pub open spec fn invalid_credentials() -> ErrorView {
    ErrorView::unauthorized("Invalid username or password"@)
}

/// The error for a store that failed: no detail is given away.
pub open spec fn storage_failed() -> ErrorView {
    ErrorView::internal("Internal server error"@)
}

/// The error for a registration whose name or address is taken.
pub open spec fn identity_taken() -> ErrorView {
    ErrorView::conflict("Username or email already exists"@)
}

/// A login's result as contracts see it: the token's text, or the error.
pub open spec fn login_outcome(r: Result<AuthResponse, AppError>) -> Result<Seq<char>, ErrorView> {
    match r {
        Ok(response) => Ok(response.token@),
        Err(e) => Err(e@),
    }
}

/// What login answers for a user that was found, once the password check
/// has reported: an error for a stored hash that does not parse, the
/// unauthorized error for a password that does not match, else what
/// issuance gives.
pub open spec fn login_after_check(
    user_id: i32,
    checked: Option<bool>,
    secret: Seq<char>,
    lifetime_minutes: int,
    now: int,
) -> Result<Seq<char>, ErrorView> {
    match checked {
        None => Err(hash_malformed()),
        Some(false) => Err(invalid_credentials()),
        Some(true) => issue_spec(user_id, secret, lifetime_minutes, now),
    }
}

/// What login answers at the moment `now`.
pub open spec fn login_spec(
    lookup: UserLookup,
    password: Seq<char>,
    secret: Seq<char>,
    lifetime_minutes: int,
    now: int,
) -> Result<Seq<char>, ErrorView> {
    match lookup {
        UserLookup::StorageError => Err(storage_failed()),
        UserLookup::NotFound => Err(invalid_credentials()),
        UserLookup::Found(user) => login_after_check(
            user.id,
            check_spec(user.password_hash@, password),
            secret,
            lifetime_minutes,
            now,
        ),
    }
}

/// A wrong password is answered exactly as an unknown user is, whoever the
/// user and whatever was typed: the answer does not tell whether a name
/// exists.
pub proof fn lemma_wrong_password_as_unknown_user(
    user_id: i32,
    password: Seq<char>,
    secret: Seq<char>,
    lifetime_minutes: int,
    now: int,
)
    ensures
        login_after_check(user_id, Some(false), secret, lifetime_minutes, now) == login_spec(
            UserLookup::NotFound,
            password,
            secret,
            lifetime_minutes,
            now,
        ),
        login_spec(UserLookup::NotFound, password, secret, lifetime_minutes, now) == Err::<
            Seq<char>,
            ErrorView,
        >(invalid_credentials()),
{
}

/// A token is answered only to a user that was found and whose password
/// matched its stored hash.
pub proof fn lemma_token_needs_matching_password(
    lookup: UserLookup,
    password: Seq<char>,
    secret: Seq<char>,
    lifetime_minutes: int,
    now: int,
)
    ensures
        login_spec(lookup, password, secret, lifetime_minutes, now) is Ok ==> (lookup matches UserLookup::Found(
            user,
        ) && verify_spec(user.password_hash@, password) == Ok::<bool, ErrorView>(true)),
{
}

/// The first step of registration, under a given salt: hashes the password
/// and makes the record to store. The plaintext goes no further than the
/// hash: what is stored has at least 97 characters, so it is not a password
/// of fewer, and it verifies against the password.
pub fn register_user_with_salt(payload: &RegisterUser, salt: &[u8]) -> (r: Result<
    NewUser,
    AppError,
>)
    ensures
        match hash_with_salt_spec(payload.password@, salt@) {
            Ok(hash) => r matches Ok(new_user) && new_user.username@ == payload.username@
                && new_user.email@ == payload.email@ && new_user.password_hash@ == hash,
            Err(e) => r matches Err(f) && f@ == e,
        },
        r matches Ok(new_user) ==> verify_spec(new_user.password_hash@, payload.password@) == Ok::<
            bool,
            ErrorView,
        >(true),
        r matches Ok(new_user) ==> new_user.password_hash@.len() >= MIN_ENCODED_HASH_CHARS,
        r matches Ok(new_user) ==> (payload.password@.len() < MIN_ENCODED_HASH_CHARS
            ==> new_user.password_hash@ != payload.password@),
        r matches Ok(new_user) ==> carries_salt(new_user.password_hash@, salt@),
{
    match hash_password_with_salt(payload.password.as_str(), salt) {
        Ok(password_hash) => Ok(
            NewUser {
                username: payload.username.clone(),
                email: payload.email.clone(),
                password_hash,
            },
        ),
        Err(e) => Err(e),
    }
}

/// The first step of registration: hashes the password under a fresh random
/// salt and makes the record to store. The stored hash verifies against the
/// password, has at least 97 characters, so it is not a password of fewer,
/// and is the hash under the salt that was drawn and under no other. The
/// only error is the internal one of hashing.
pub fn register_user(payload: &RegisterUser) -> (r: Result<NewUser, AppError>)
    ensures
        r matches Ok(new_user) ==> new_user.username@ == payload.username@ && new_user.email@
            == payload.email@,
        r matches Ok(new_user) ==> verify_spec(new_user.password_hash@, payload.password@) == Ok::<
            bool,
            ErrorView,
        >(true),
        r matches Ok(new_user) ==> new_user.password_hash@.len() >= MIN_ENCODED_HASH_CHARS,
        r matches Ok(new_user) ==> (payload.password@.len() < MIN_ENCODED_HASH_CHARS
            ==> new_user.password_hash@ != payload.password@),
        r matches Ok(new_user) ==> exists|salt: Seq<u8>|
            salt.len() == MIN_SALT_BYTES && #[trigger] argon2_phc(payload.password@, salt) == Some(
                new_user.password_hash@,
            ) && carries_salt(new_user.password_hash@, salt),
        r matches Err(e) ==> e@ == hash_failed(),
{
    match hash_password(payload.password.as_str()) {
        Ok(password_hash) => Ok(
            NewUser {
                username: payload.username.clone(),
                email: payload.email.clone(),
                password_hash,
            },
        ),
        Err(e) => Err(e),
    }
}

/// The last step of registration: turns what the store reported into the
/// answer. A stored user is answered with its identity and without its
/// hash, a taken name or address with a conflict, a failing store with the
/// internal error.
pub fn finish_registration(outcome: InsertOutcome) -> (r: Result<UserResponse, AppError>)
    ensures
        match outcome {
            InsertOutcome::Created(user) => r matches Ok(response) && response.id == user.id
                && response.username@ == user.username@ && response.email@ == user.email@,
            InsertOutcome::Conflict => r matches Err(e) && e@ == identity_taken(),
            InsertOutcome::StorageError => r matches Err(e) && e@ == storage_failed(),
        },
{
    match outcome {
        InsertOutcome::Created(user) => Ok(
            UserResponse { id: user.id, username: user.username, email: user.email },
        ),
        InsertOutcome::Conflict => Err(
            AppError::Conflict("Username or email already exists".to_string()),
        ),
        InsertOutcome::StorageError => Err(
            AppError::InternalServerError("Internal server error".to_string()),
        ),
    }
}

/// Login at the moment `now` (seconds since the Unix epoch), after the
/// caller's lookup. An unknown user and a wrong password get the same
/// unauthorized error. A token that comes back is for the user that was
/// found and is accepted at `now` under the same secret.
pub fn login_user_at(lookup: UserLookup, payload: &LoginUser, config: &AppConfig, now: i64) -> (r:
    Result<AuthResponse, AppError>)
    requires
        config.valid(),
    ensures
        login_outcome(r) == login_spec(
            lookup,
            payload.password@,
            config.jwt_secret@,
            config.jwt_expiration as int,
            now as int,
        ),
        r matches Ok(response) ==> lookup matches UserLookup::Found(user) && validate_spec(
            response.token@,
            config.jwt_secret@,
            now as int,
        ) == Ok::<Claims, ErrorView>(
            Claims {
                sub: user.id,
                exp: expiration_spec(now as int, config.jwt_expiration as int)->0,
            },
        ),
{
    match lookup {
        UserLookup::StorageError => Err(
            AppError::InternalServerError("Internal server error".to_string()),
        ),
        UserLookup::NotFound => Err(
            AppError::Unauthorized("Invalid username or password".to_string()),
        ),
        UserLookup::Found(user) => {
            match verify_password(user.password_hash.as_str(), payload.password.as_str()) {
                Err(e) => Err(e),
                Ok(false) => Err(
                    AppError::Unauthorized("Invalid username or password".to_string()),
                ),
                Ok(true) => match create_jwt_at(user.id, config, now) {
                    Ok(token) => Ok(AuthResponse { token }),
                    Err(e) => Err(e),
                },
            }
        },
    }
}

/// Login now, by the system clock, after the caller's lookup.
pub fn login_user(lookup: UserLookup, payload: &LoginUser, config: &AppConfig) -> (r: Result<
    AuthResponse,
    AppError,
>)
    requires
        config.valid(),
    ensures
        exists|now: i64| #[trigger]
            login_spec(
                lookup,
                payload.password@,
                config.jwt_secret@,
                config.jwt_expiration as int,
                now as int,
            ) == login_outcome(r),
        r matches Ok(response) ==> lookup matches UserLookup::Found(user) && exists|now: i64|
            (#[trigger] validate_spec(response.token@, config.jwt_secret@, now as int)) matches Ok(
                claims,
            ) && claims.sub == user.id,
{
    let now: i64 = unix_now();
    login_user_at(lookup, payload, config, now)
}

} // verus!
