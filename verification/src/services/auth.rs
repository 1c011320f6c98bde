//! Password hashing and verification, token issuance and validation.
//!
//! Every operation that reads the clock or draws random bytes has a twin
//! that takes the value as an argument instead; the twin is a function of its
//! arguments alone and carries the exact contract.

use crate::config::AppConfig;
use crate::services::backend::{
    argon2_accepts, argon2_hash, argon2_phc, argon2_verify, jwt_claims, jwt_decode, jwt_encode,
    jwt_token, os_random_bytes, phc_parses, unix_now, MAX_SALT_BYTES, MIN_ENCODED_HASH_CHARS,
    MIN_SALT_BYTES,
};
use crate::utils::error::{outcome, text_outcome, AppError, ErrorView};
use vstd::prelude::*;

verus! {

/// The claims carried by an access token.
#[derive(Debug, Clone, Copy, PartialEq, Eq, Structural)]
pub struct Claims {
    /// Subject: the user's identifier.
    pub sub: i32,
    /// Expiration: seconds since the Unix epoch.
    pub exp: usize,
}

/// Seconds in a minute: lifetimes are configured in minutes, expirations are
/// counted in seconds.
pub const SECONDS_PER_MINUTE: i64 = 60;

/// The error of a hashing operation that could not be carried out.
pub open spec fn hash_failed() -> ErrorView {
    ErrorView::internal("Failed to hash password"@)
}

/// The error for a stored hash that is not in a recognised encoding.
pub open spec fn hash_malformed() -> ErrorView {
    ErrorView::internal("Invalid password hash"@)
}

/// The error for an expiration that cannot be represented.
pub open spec fn expiration_failed() -> ErrorView {
    ErrorView::internal("Failed to calculate expiration"@)
}

/// The error for claims that could not be signed.
pub open spec fn signing_failed() -> ErrorView {
    ErrorView::internal("Failed to create JWT"@)
}

/// The one error for every token that is not accepted, whatever the cause.
pub open spec fn token_rejected() -> ErrorView {
    ErrorView::unauthorized("Invalid or expired token"@)
}

/// A salt that the library hashes with: at least 128 bits, and no longer
/// than the salt field of an encoded hash holds.
pub open spec fn usable_salt(salt: Seq<u8>) -> bool {
    MIN_SALT_BYTES <= salt.len() <= MAX_SALT_BYTES
}

/// What hashing reports for a derivation that gave an encoded hash or none.
pub open spec fn hashed(derived: Option<Seq<char>>) -> Result<Seq<char>, ErrorView> {
    match derived {
        Some(hash) => Ok(hash),
        None => Err(hash_failed()),
    }
}

/// The result of hashing a password under a given salt.
pub open spec fn hash_with_salt_spec(password: Seq<char>, salt: Seq<u8>) -> Result<
    Seq<char>,
    ErrorView,
> {
    if usable_salt(salt) {
        hashed(argon2_phc(password, salt))
    } else {
        Err(hash_failed())
    }
}

/// What verification reports for a check that gave a verdict or could not
/// parse the stored hash.
pub open spec fn verdict(checked: Option<bool>) -> Result<bool, ErrorView> {
    match checked {
        Some(matches) => Ok(matches),
        None => Err(hash_malformed()),
    }
}

/// What the check of a password against a stored text gives: a verdict
/// where the text is an encoded hash, nothing where it is not.
pub open spec fn check_spec(stored: Seq<char>, password: Seq<char>) -> Option<bool> {
    if phc_parses(stored) {
        Some(argon2_accepts(stored, password))
    } else {
        None
    }
}

/// The result of verifying a password against a stored hash.
pub open spec fn verify_spec(stored: Seq<char>, password: Seq<char>) -> Result<bool, ErrorView> {
    verdict(check_spec(stored, password))
}

/// The encoded hash holds the salt it was made under: no other salt that
/// the library hashes with gives the same text, whatever the password.
pub open spec fn carries_salt(hash: Seq<char>, salt: Seq<u8>) -> bool {
    forall|any: Seq<char>, other: Seq<u8>|
        usable_salt(other) && #[trigger] argon2_phc(any, other) == Some(hash) ==> other == salt
}

/// Verification fails for a stored text or succeeds for it, whatever the
/// password: a text that is not an encoded hash is the only error, and a
/// password that does not match is `Ok(false)`.
pub proof fn lemma_only_malformed_hash_is_an_error(
    stored: Seq<char>,
    password: Seq<char>,
    other: Seq<char>,
)
    ensures
        verify_spec(stored, password) is Err <==> !phc_parses(stored),
        verify_spec(stored, password) is Err ==> verify_spec(stored, password) == Err::<
            bool,
            ErrorView,
        >(hash_malformed()),
        verify_spec(stored, password) is Ok <==> verify_spec(stored, other) is Ok,
{
}

/// Two salts give two hashes: a hash that holds its salt is not the hash of
/// any password under another salt.
pub proof fn lemma_distinct_salts_give_distinct_hashes(
    hash: Seq<char>,
    salt: Seq<u8>,
    password: Seq<char>,
    other: Seq<u8>,
)
    ensures
        carries_salt(hash, salt) && other != salt ==> hash_with_salt_spec(password, other) != Ok::<
            Seq<char>,
            ErrorView,
        >(hash),
{
}

/// Turns the outcome of a derivation into the result of hashing.
pub fn hash_outcome(derived: Option<String>) -> (r: Result<String, AppError>)
    ensures
        text_outcome(r) == hashed(derived.deep_view()),
{
    match derived {
        Some(hash) => Ok(hash),
        None => Err(AppError::InternalServerError("Failed to hash password".to_string())),
    }
}

/// Hashes a password under the given salt. The same password and salt
/// always give the same encoded hash. A salt of fewer than 16 or more than
/// 48 bytes is refused. A hash that comes back verifies against the
/// password, is checked without error against any other, has at least 97
/// characters and holds the salt, so that another salt gives another hash.
pub fn hash_password_with_salt(password: &str, salt: &[u8]) -> (r: Result<String, AppError>)
    ensures
        text_outcome(r) == hash_with_salt_spec(password@, salt@),
        r matches Ok(hash) ==> verify_spec(hash@, password@) == Ok::<bool, ErrorView>(true),
        r matches Ok(hash) ==> forall|other: Seq<char>| #[trigger]
            verify_spec(hash@, other) is Ok,
        r matches Ok(hash) ==> hash@.len() >= MIN_ENCODED_HASH_CHARS,
        r matches Ok(hash) ==> carries_salt(hash@, salt@),
{
    if salt.len() < MIN_SALT_BYTES || salt.len() > MAX_SALT_BYTES {
        return Err(AppError::InternalServerError("Failed to hash password".to_string()));
    }
    hash_outcome(argon2_hash(password, salt))
}

/// Hashes a plaintext password with Argon2 under a fresh random salt of 128
/// bits. The hash that comes back verifies against the password, is checked
/// without error against any other, has at least 97 characters, and is the
/// hash under the salt that was drawn and under no other. The only error is
/// the internal one, for a random source that is not available or a
/// derivation that fails.
pub fn hash_password(password: &str) -> (r: Result<String, AppError>)
    ensures
        r matches Ok(hash) ==> verify_spec(hash@, password@) == Ok::<bool, ErrorView>(true),
        r matches Ok(hash) ==> forall|other: Seq<char>| #[trigger]
            verify_spec(hash@, other) is Ok,
        r matches Ok(hash) ==> hash@.len() >= MIN_ENCODED_HASH_CHARS,
        r matches Ok(hash) ==> exists|salt: Seq<u8>|
            salt.len() == MIN_SALT_BYTES && #[trigger] argon2_phc(password@, salt) == Some(hash@)
                && carries_salt(hash@, salt),
        r matches Err(e) ==> e@ == hash_failed(),
{
    match os_random_bytes(MIN_SALT_BYTES) {
        Some(salt) => hash_password_with_salt(password, salt.as_slice()),
        None => Err(AppError::InternalServerError("Failed to hash password".to_string())),
    }
}

/// Turns the outcome of a check into the result of verification.
pub fn password_verdict(checked: Option<bool>) -> (r: Result<bool, AppError>)
    ensures
        outcome(r) == verdict(checked),
{
    match checked {
        Some(matches) => Ok(matches),
        None => Err(AppError::InternalServerError("Invalid password hash".to_string())),
    }
}

/// Verifies a plaintext password against a stored hash: `Ok(true)` if they
/// match, `Ok(false)` if they do not, and an error only for a stored hash
/// that is not in a recognised encoding.
pub fn verify_password(hash: &str, password: &str) -> (r: Result<bool, AppError>)
    ensures
        outcome(r) == verify_spec(hash@, password@),
{
    password_verdict(argon2_verify(hash, password))
}

/// The expiration of a token issued at `now` with the given lifetime: `now`
/// plus the lifetime in seconds, where that is a timestamp that `Claims` can
/// hold.
pub open spec fn expiration_spec(now: int, lifetime_minutes: int) -> Option<usize> {
    let exp = now + SECONDS_PER_MINUTE * lifetime_minutes;
    if 0 <= exp <= usize::MAX {
        Some(exp as usize)
    } else {
        None
    }
}

/// The result of issuing a token for a user at `now`.
pub open spec fn issue_spec(user_id: i32, secret: Seq<char>, lifetime_minutes: int, now: int)
    -> Result<Seq<char>, ErrorView> {
    match expiration_spec(now, lifetime_minutes) {
        Some(exp) => Ok(jwt_token(user_id, exp, secret)),
        None => Err(expiration_failed()),
    }
}

/// What validation at `now` makes of the claims read from a token whose
/// signature held (`None`: no such claims). They are accepted if the subject
/// and the expiration fit their fields and the expiration lies strictly
/// after `now`.
pub open spec fn accepted_claims(raw: Option<(i64, u64)>, now: int) -> Result<Claims, ErrorView> {
    match raw {
        Some((sub, exp)) => if i32::MIN <= sub <= i32::MAX && exp <= usize::MAX && now < exp {
            Ok(Claims { sub: sub as i32, exp: exp as usize })
        } else {
            Err(token_rejected())
        },
        None => Err(token_rejected()),
    }
}

/// The result of validating a token at `now`.
pub open spec fn validate_spec(token: Seq<char>, secret: Seq<char>, now: int) -> Result<
    Claims,
    ErrorView,
> {
    accepted_claims(jwt_claims(token, secret), now)
}

/// What validation at the moment `at` makes of a token that carries the
/// subject `user_id` and the expiration `exp`.
pub open spec fn issued_claims_at(user_id: i32, exp: usize, at: int) -> Result<Claims, ErrorView> {
    if at < exp {
        Ok(Claims { sub: user_id, exp })
    } else {
        Err(token_rejected())
    }
}

/// Claims that carry a subject and an expiration are accepted at every
/// moment before the expiration, with exactly that subject and expiration,
/// and at no moment from the expiration on.
pub proof fn lemma_accepted_until_expiration(user_id: i32, exp: usize, at: int)
    ensures
        accepted_claims(Some((user_id as i64, exp as u64)), at) == issued_claims_at(
            user_id,
            exp,
            at,
        ),
{
}

/// Where the signature check gave no claims, validation fails at every
/// moment: nothing that a token says is trusted unless its signature held.
pub proof fn lemma_unsigned_claims_rejected(token: Seq<char>, secret: Seq<char>, at: int)
    ensures
        accepted_claims(None, at) == Err::<Claims, ErrorView>(token_rejected()),
        jwt_claims(token, secret) is None ==> validate_spec(token, secret, at) == Err::<
            Claims,
            ErrorView,
        >(token_rejected()),
{
}

/// Claims issued with a strictly positive lifetime are accepted at the
/// moment of issuance, and carry the subject they were issued for.
pub proof fn lemma_fresh_claims_accepted(user_id: i32, lifetime_minutes: int, issued_at: int)
    requires
        lifetime_minutes > 0,
        expiration_spec(issued_at, lifetime_minutes) is Some,
    ensures
        accepted_claims(
            Some((user_id as i64, expiration_spec(issued_at, lifetime_minutes)->0 as u64)),
            issued_at,
        ) == Ok::<Claims, ErrorView>(
            Claims { sub: user_id, exp: expiration_spec(issued_at, lifetime_minutes)->0 },
        ),
{
}

/// Claims issued at `issued_at` with a lifetime are accepted at `at` if and
/// only if fewer seconds than the lifetime have passed since issuance: still
/// one second before the lifetime is over, no longer at its end nor after.
pub proof fn lemma_lifetime_boundary(user_id: i32, lifetime_minutes: int, issued_at: int, at: int)
    requires
        expiration_spec(issued_at, lifetime_minutes) is Some,
    ensures
        accepted_claims(
            Some((user_id as i64, expiration_spec(issued_at, lifetime_minutes)->0 as u64)),
            at,
        ) is Ok <==> at - issued_at < SECONDS_PER_MINUTE * lifetime_minutes,
{
}

/// The expiration of a token issued at `now`, or `None` where it cannot be
/// represented.
pub fn expiration_at(now: i64, lifetime_minutes: i64) -> (r: Option<usize>)
    ensures
        r == expiration_spec(now as int, lifetime_minutes as int),
{
    let exp: i128 = now as i128 + (SECONDS_PER_MINUTE as i128) * (lifetime_minutes as i128);
    if exp < 0 || exp > usize::MAX as i128 {
        None
    } else {
        Some(exp as usize)
    }
}

/// Turns the outcome of signing into the result of issuance.
pub fn token_outcome(signed: Option<String>) -> (r: Result<String, AppError>)
    ensures
        text_outcome(r) == match signed.deep_view() {
            Some(token) => Ok::<Seq<char>, ErrorView>(token),
            None => Err(signing_failed()),
        },
{
    match signed {
        Some(token) => Ok(token),
        None => Err(AppError::InternalServerError("Failed to create JWT".to_string())),
    }
}

/// Issues a signed token for a user at the moment `now` (seconds since the
/// Unix epoch). The token expires the configured lifetime after `now`. The
/// only failure is an expiration that cannot be represented. A token that
/// comes back is accepted under the same secret at every moment before its
/// expiration, `now` among them, and at none from then on.
pub fn create_jwt_at(user_id: i32, config: &AppConfig, now: i64) -> (r: Result<String, AppError>)
    requires
        config.valid(),
    ensures
        text_outcome(r) == issue_spec(
            user_id,
            config.jwt_secret@,
            config.jwt_expiration as int,
            now as int,
        ),
        r matches Ok(token) ==> validate_spec(token@, config.jwt_secret@, now as int) == Ok::<
            Claims,
            ErrorView,
        >(
            Claims {
                sub: user_id,
                exp: expiration_spec(now as int, config.jwt_expiration as int)->0,
            },
        ),
        r matches Ok(token) ==> forall|at: int| #[trigger]
            validate_spec(token@, config.jwt_secret@, at) == issued_claims_at(
                user_id,
                expiration_spec(now as int, config.jwt_expiration as int)->0,
                at,
            ),
{
    match expiration_at(now, config.jwt_expiration) {
        None => Err(AppError::InternalServerError("Failed to calculate expiration".to_string())),
        Some(exp) => {
            let signed = jwt_encode(user_id, exp, config.jwt_secret.as_str());
            proof {
                lemma_fresh_claims_accepted(user_id, config.jwt_expiration as int, now as int);
                assert forall|at: int| #[trigger]
                    validate_spec(signed->0@, config.jwt_secret@, at) == issued_claims_at(
                        user_id,
                        exp,
                        at,
                    ) by {
                    lemma_accepted_until_expiration(user_id, exp, at);
                }
            }
            token_outcome(signed)
        },
    }
}

/// Issues a signed token for a user now, by the system clock.
pub fn create_jwt(user_id: i32, config: &AppConfig) -> (r: Result<String, AppError>)
    requires
        config.valid(),
    ensures
        exists|now: i64| #[trigger]
            issue_spec(user_id, config.jwt_secret@, config.jwt_expiration as int, now as int)
                == text_outcome(r),
        r matches Ok(token) ==> exists|now: i64| #[trigger]
            validate_spec(token@, config.jwt_secret@, now as int) is Ok,
{
    let now: i64 = unix_now();
    create_jwt_at(user_id, config, now)
}

/// Decides on the claims read from a token whose structure and signature
/// held, at the moment `now`.
pub fn accept_claims(raw: Option<(i64, u64)>, now: i64) -> (r: Result<Claims, AppError>)
    ensures
        outcome(r) == accepted_claims(raw, now as int),
{
    match raw {
        Some((sub, exp)) => {
            if sub < i32::MIN as i64 || sub > i32::MAX as i64 || exp > usize::MAX as u64 {
                return Err(AppError::Unauthorized("Invalid or expired token".to_string()));
            }
            if now >= 0 && now as u64 >= exp {
                return Err(AppError::Unauthorized("Invalid or expired token".to_string()));
            }
            Ok(Claims { sub: sub as i32, exp: exp as usize })
        },
        None => Err(AppError::Unauthorized("Invalid or expired token".to_string())),
    }
}

/// Validates a token at the moment `now` (seconds since the Unix epoch):
/// its structure and signature under the configured secret first, then its
/// claims. Every failure, whatever its cause, is the same unauthorized
/// error.
pub fn decode_jwt_at(token: &str, config: &AppConfig, now: i64) -> (r: Result<Claims, AppError>)
    ensures
        outcome(r) == validate_spec(token@, config.jwt_secret@, now as int),
{
    accept_claims(jwt_decode(token, config.jwt_secret.as_str()), now)
}

/// Validates a token now, by the system clock.
pub fn decode_jwt(token: &str, config: &AppConfig) -> (r: Result<Claims, AppError>)
    ensures
        exists|now: i64| #[trigger]
            validate_spec(token@, config.jwt_secret@, now as int) == outcome(r),
{
    let now: i64 = unix_now();
    decode_jwt_at(token, config, now)
}

} // verus!
