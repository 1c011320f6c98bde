use auth_core::services::auth::{
    hash_outcome, hash_password, hash_password_with_salt, password_verdict, verify_password,
};
use auth_core::utils::error::{AppError, ErrorKind};

const SALT: [u8; 16] = [0, 1, 2, 3, 4, 5, 6, 7, 8, 9, 10, 11, 12, 13, 14, 15];
const OTHER_SALT: [u8; 16] = [1, 2, 3, 4, 5, 6, 7, 8, 9, 10, 11, 12, 13, 14, 15, 16];

const SECRET123_UNDER_SALT: &str =
    "$argon2id$v=19$m=19456,t=2,p=1$AAECAwQFBgcICQoLDA0ODw$/nj8kH0yvrlD9LvEd3E1oAzXv+/QcA8vJ5EHgpnvEIY";
const SECRET123_UNDER_OTHER_SALT: &str =
    "$argon2id$v=19$m=19456,t=2,p=1$AQIDBAUGBwgJCgsMDQ4PEA$NlMWLWBrR4apkoQ9oZ63Smd0v072p3tuYipkjVMMc84";
const EMPTY_UNDER_SALT: &str =
    "$argon2id$v=19$m=19456,t=2,p=1$AAECAwQFBgcICQoLDA0ODw$MVSMP3rBIzE7F86FWHKNemRnE6hkgY2O2buZdxt7Gkw";

fn hash_failed() -> AppError {
    AppError::InternalServerError("Failed to hash password".to_string())
}

#[test]
fn hash_then_verify_accepts_the_password() {
    for password in ["Secret123", "", "a", "pässword ✓", "with\0zero"] {
        let hash = hash_password(password).unwrap();
        assert_eq!(verify_password(&hash, password), Ok(true));
    }
}

#[test]
fn verify_rejects_another_password() {
    let hash = hash_password("Secret123").unwrap();
    for other in ["secret123", "Secret1234", "Secret12", "", " Secret123"] {
        assert_eq!(verify_password(&hash, other), Ok(false));
    }
}

#[test]
fn two_hashes_of_one_password_differ_and_both_verify() {
    let first = hash_password("Secret123").unwrap();
    let second = hash_password("Secret123").unwrap();
    assert_ne!(first, second);
    assert_eq!(verify_password(&first, "Secret123"), Ok(true));
    assert_eq!(verify_password(&second, "Secret123"), Ok(true));
}

#[test]
fn hash_is_self_describing_and_hides_the_password() {
    let hash = hash_password("Secret123").unwrap();
    assert!(hash.starts_with("$argon2id$v=19$m=19456,t=2,p=1$"));
    assert_eq!(hash.len(), 97);
    assert!(!hash.contains("Secret123"));
    let fields: Vec<&str> = hash.split('$').collect();
    assert_eq!(fields.len(), 6);
    assert_eq!(fields[4].len(), 22);
    assert_eq!(fields[5].len(), 43);
}

#[test]
fn hash_with_salt_matches_known_answer() {
    assert_eq!(
        hash_password_with_salt("Secret123", &SALT),
        Ok(SECRET123_UNDER_SALT.to_string())
    );
    assert_eq!(
        hash_password_with_salt("Secret123", &OTHER_SALT),
        Ok(SECRET123_UNDER_OTHER_SALT.to_string())
    );
    assert_eq!(hash_password_with_salt("", &SALT), Ok(EMPTY_UNDER_SALT.to_string()));
}

#[test]
fn hash_with_salt_is_deterministic() {
    let first = hash_password_with_salt("Secret123", &SALT);
    let second = hash_password_with_salt("Secret123", &SALT);
    assert!(first.is_ok());
    assert_eq!(first, second);
}

#[test]
fn hash_with_salt_depends_on_salt_and_password() {
    let base = hash_password_with_salt("Secret123", &SALT).unwrap();
    assert_ne!(hash_password_with_salt("Secret123", &OTHER_SALT).unwrap(), base);
    assert_ne!(hash_password_with_salt("Secret124", &SALT).unwrap(), base);
}

#[test]
fn hash_with_longest_salt_matches_known_answer() {
    assert_eq!(
        hash_password_with_salt("pässword", &[255u8; 48]),
        Ok("$argon2id$v=19$m=19456,t=2,p=1$////////////////////////////////////////////////////////////////$/ZPPGh70C/4hRQoyO7Qxk/Fv7oVMggQ3J8v6LLABqW8".to_string())
    );
}

#[test]
fn hash_with_short_salt_is_refused() {
    assert_eq!(hash_password_with_salt("Secret123", &[7u8; 15]), Err(hash_failed()));
    assert_eq!(hash_password_with_salt("Secret123", &[7u8; 3]), Err(hash_failed()));
    assert_eq!(hash_password_with_salt("Secret123", &[]), Err(hash_failed()));
}

#[test]
fn hash_with_long_salt_is_refused() {
    assert_eq!(hash_password_with_salt("Secret123", &[7u8; 49]), Err(hash_failed()));
    assert_eq!(hash_password_with_salt("Secret123", &[7u8; 4096]), Err(hash_failed()));
}

#[test]
fn verify_known_hash() {
    assert_eq!(verify_password(SECRET123_UNDER_SALT, "Secret123"), Ok(true));
    assert_eq!(verify_password(SECRET123_UNDER_OTHER_SALT, "Secret123"), Ok(true));
    assert_eq!(verify_password(EMPTY_UNDER_SALT, ""), Ok(true));
    assert_eq!(verify_password(SECRET123_UNDER_SALT, "Secret124"), Ok(false));
    assert_eq!(verify_password(EMPTY_UNDER_SALT, "Secret123"), Ok(false));
}

#[test]
fn verify_hash_with_one_character_changed_is_false() {
    let changed = SECRET123_UNDER_SALT.replace("/nj8", "/nj9");
    assert_ne!(changed, SECRET123_UNDER_SALT);
    assert_eq!(verify_password(&changed, "Secret123"), Ok(false));
}

#[test]
fn verify_malformed_hash_is_an_error() {
    let malformed = AppError::InternalServerError("Invalid password hash".to_string());
    for stored in ["", "not-a-hash", "Secret123", "$", "$argon2id$v=19$m=19456,t=2,p=1$AAECAw$%%%"] {
        assert_eq!(verify_password(stored, "Secret123"), Err(malformed.clone()));
    }
}

#[test]
fn verify_well_formed_hash_of_another_scheme_is_false() {
    let stored = "$pbkdf2-sha256$i=1000$c2FsdHNhbHQ$aGFzaGhhc2hoYXNoaGFzaA";
    assert_eq!(verify_password(stored, "Secret123"), Ok(false));
}

#[test]
fn password_verdict_maps_each_outcome() {
    assert_eq!(password_verdict(Some(true)), Ok(true));
    assert_eq!(password_verdict(Some(false)), Ok(false));
    let e = password_verdict(None).unwrap_err();
    assert_eq!(e.kind(), ErrorKind::InternalServerError);
    assert_eq!(e.message(), "Invalid password hash");
}

#[test]
fn hash_outcome_maps_each_outcome() {
    assert_eq!(hash_outcome(Some("$x$y".to_string())), Ok("$x$y".to_string()));
    let e = hash_outcome(None).unwrap_err();
    assert_eq!(e.kind(), ErrorKind::InternalServerError);
    assert_eq!(e.message(), "Failed to hash password");
}

#[test]
fn hash_holds_the_salt_it_was_made_under() {
    let under_salt = hash_password_with_salt("Secret123", &SALT).unwrap();
    let under_other = hash_password_with_salt("Secret123", &OTHER_SALT).unwrap();
    let salt_field = |hash: &str| hash.split('$').nth(4).unwrap().to_string();
    assert_eq!(salt_field(&under_salt), "AAECAwQFBgcICQoLDA0ODw");
    assert_eq!(salt_field(&under_other), "AQIDBAUGBwgJCgsMDQ4PEA");
    assert_eq!(salt_field(&hash_password_with_salt("another", &SALT).unwrap()), "AAECAwQFBgcICQoLDA0ODw");
    let first = hash_password("Secret123").unwrap();
    let second = hash_password("Secret123").unwrap();
    assert_ne!(salt_field(&first), salt_field(&second));
}

#[test]
fn hash_has_at_least_97_characters() {
    for len in [16usize, 17, 18, 32, 48] {
        let hash = hash_password_with_salt("Secret123", &vec![9u8; len]).unwrap();
        assert!(hash.chars().count() >= 97);
        assert_eq!(hash.chars().count(), 75 + (4 * len + 2) / 3);
    }
    assert!(hash_password("").unwrap().chars().count() >= 97);
}

#[test]
fn mismatch_is_a_verdict_and_never_an_error() {
    let hash = hash_password("Secret123").unwrap();
    for other in ["", "Secret12", "Secret1234", "SECRET123", "x", "Secret123\0"] {
        assert_eq!(verify_password(&hash, other), Ok(false));
    }
}
