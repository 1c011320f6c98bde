//! The calls into argon2, jsonwebtoken, rand and chrono.
//!
//! Nothing in this file is proved. Each function states what the crate it
//! calls is relied upon to do, and the rest of the library is verified
//! against these statements.

use argon2::password_hash::{PasswordHash, PasswordHasher, PasswordVerifier, SaltString};
use argon2::Argon2;
use jsonwebtoken::{decode, encode, DecodingKey, EncodingKey, Header, Validation};
use rand::rngs::OsRng;
use rand::RngCore;
use vstd::prelude::*;

verus! {

/// Fewest salt bytes that the library hashes with: 128 bits.
pub const MIN_SALT_BYTES: usize = 16;

/// Most salt bytes that fit the salt field of an encoded hash.
pub const MAX_SALT_BYTES: usize = 48;

/// Fewest characters of an encoded hash: the fields `$argon2id`, `$v=19` and
/// `$m=19456,t=2,p=1`, a salt of 16 bytes in 22 characters and a hash of 32
/// bytes in 43, each of the two behind a `$`.
pub const MIN_ENCODED_HASH_CHARS: usize = 97;

/// The encoded hash (`$argon2id$v=19$m=..,t=..,p=..$salt$hash`) that
/// `Argon2::default().hash_password` derives from a password and a salt, or
/// `None` where it reports an error.
pub uninterp spec fn argon2_phc(password: Seq<char>, salt: Seq<u8>) -> Option<Seq<char>>;

/// Whether `PasswordHash::new` parses a stored text as an encoded hash.
pub uninterp spec fn phc_parses(stored: Seq<char>) -> bool;

/// Whether `Argon2::default().verify_password` accepts a password for the
/// encoded hash that a stored text parses to.
pub uninterp spec fn argon2_accepts(stored: Seq<char>, password: Seq<char>) -> bool;

/// The compact token that `jsonwebtoken::encode` builds with the default
/// header (HS256) for the claims `sub` and `exp` under an HMAC secret.
pub uninterp spec fn jwt_token(sub: i32, exp: usize, secret: Seq<char>) -> Seq<char>;

/// The `sub` and `exp` claims that `jsonwebtoken::decode` hands back for a
/// token under an HMAC secret when expiry is left unchecked, or `None` where
/// it rejects the token or one of the two claims is not an integer.
pub uninterp spec fn jwt_claims(token: Seq<char>, secret: Seq<char>) -> Option<(i64, u64)>;

/// Draws `n` bytes from the operating system's random source with
/// `OsRng::try_fill_bytes` of rand. The bytes are different on every call, so
/// only their number is stated; `None` means that the source was not
/// available.
#[verifier::external_body]
pub(crate) fn os_random_bytes(n: usize) -> (r: Option<Vec<u8>>)
    ensures
        r matches Some(bytes) ==> bytes@.len() == n,
{
    let mut bytes = vec![0u8; n];
    OsRng.try_fill_bytes(&mut bytes).ok()?;
    Some(bytes)
}

/// Hashes a password with `Argon2::default().hash_password` of argon2, under
/// the salt that `SaltString::encode_b64` makes of the given bytes, and
/// renders the result as text.
///
/// Claimed, of a hash that comes back:
/// - it depends on the password and the salt alone;
/// - `PasswordHash::new` parses it, and `verify_password` accepts it for the
///   same password, since verifying recomputes the derivation from the
///   algorithm, version, cost parameters and salt written in the hash;
/// - it has the five fields of the layout, so at least 97 characters;
/// - it holds the salt in its fourth field, in an encoding that tells any
///   two salts apart, so that no other salt gives the same text, whatever
///   the password.
///
/// The salt length is bounded because a salt of under four encoded
/// characters makes `hash_password` panic.
#[verifier::external_body]
pub(crate) fn argon2_hash(password: &str, salt: &[u8]) -> (r: Option<String>)
    requires
        MIN_SALT_BYTES <= salt@.len() <= MAX_SALT_BYTES,
    ensures
        r.deep_view() == argon2_phc(password@, salt@),
        r matches Some(hash) ==> phc_parses(hash@),
        r matches Some(hash) ==> argon2_accepts(hash@, password@),
        r matches Some(hash) ==> hash@.len() >= MIN_ENCODED_HASH_CHARS,
        r matches Some(hash) ==> forall|any: Seq<char>, other: Seq<u8>|
            MIN_SALT_BYTES <= other.len() <= MAX_SALT_BYTES && #[trigger] argon2_phc(any, other)
                == Some(hash@) ==> other == salt@,
{
    let salt = SaltString::encode_b64(salt).ok()?;
    let hash = Argon2::default().hash_password(password.as_bytes(), &salt).ok()?;
    Some(hash.to_string())
}

/// Parses a stored hash with `PasswordHash::new` of argon2's password-hash
/// and checks a password against it with `Argon2::default().verify_password`.
///
/// Claimed: whether the stored text parses depends on that text alone, and
/// the verdict on the two texts alone. `None` stands for a stored text that
/// does not parse; any failure of the check itself, a mismatch or parameters
/// that Argon2 refuses, is `Some(false)`. The check takes the memory and the
/// time that the parameters in the stored text ask for.
#[verifier::external_body]
pub(crate) fn argon2_verify(stored: &str, password: &str) -> (r: Option<bool>)
    ensures
        r == if phc_parses(stored@) {
            Some(argon2_accepts(stored@, password@))
        } else {
            None::<bool>
        },
{
    let parsed = PasswordHash::new(stored).ok()?;
    Some(Argon2::default().verify_password(password.as_bytes(), &parsed).is_ok())
}

/// Signs the claims `sub` and `exp` with `jsonwebtoken::encode`, the default
/// header (HS256) and the secret's bytes as HMAC key.
///
/// Claimed: the call succeeds, since the key and the header are of the same
/// family, two integers always serialise and HMAC signing cannot fail; the
/// token depends on the arguments alone; and decoding it under the same
/// secret gives the two claims back.
#[verifier::external_body]
pub(crate) fn jwt_encode(sub: i32, exp: usize, secret: &str) -> (r: Option<String>)
    ensures
        r.deep_view() == Some(jwt_token(sub, exp, secret@)),
        r matches Some(token) ==> jwt_claims(token@, secret@) == Some((sub as i64, exp as u64)),
{
    let mut claims = serde_json::Map::new();
    claims.insert("exp".to_string(), serde_json::Value::from(exp));
    claims.insert("sub".to_string(), serde_json::Value::from(sub));
    encode(&Header::default(), &claims, &EncodingKey::from_secret(secret.as_bytes())).ok()
}

/// Checks a token's structure and HS256 signature with
/// `jsonwebtoken::decode` under the secret's bytes and reads the claims
/// `sub` and `exp` from its payload. Expiry is switched off in the
/// validation handed over, so that the call does not read the clock; the
/// `exp` claim must still be present.
///
/// Claimed: the outcome depends on the token and the secret alone.
#[verifier::external_body]
pub(crate) fn jwt_decode(token: &str, secret: &str) -> (r: Option<(i64, u64)>)
    ensures
        r == jwt_claims(token@, secret@),
{
    let mut validation = Validation::default();
    validation.validate_exp = false;
    let key = DecodingKey::from_secret(secret.as_bytes());
    let data = decode::<serde_json::Value>(token, &key, &validation).ok()?;
    Some((data.claims.get("sub")?.as_i64()?, data.claims.get("exp")?.as_u64()?))
}

/// The current time in whole seconds since the Unix epoch, read from
/// `SystemTime::now()` and converted by chrono's `DateTime::<Utc>::from`,
/// which makes of a clock that reads before the epoch a negative number.
/// Nothing is stated of the value.
#[verifier::external_body]
pub(crate) fn unix_now() -> i64 {
    chrono::DateTime::<chrono::Utc>::from(std::time::SystemTime::now()).timestamp()
}

} // verus!
