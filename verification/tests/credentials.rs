use survey_backend::credentials::{
    parallelism_within_bound, hash, hash_with_salt, verify, CredentialFormatError, HashingFailed,
};

#[test]
fn hashed_password_verifies() {
    let encoded = hash("secret123").unwrap();
    assert_eq!(verify("secret123", &encoded), Ok(true));
}

#[test]
fn other_password_is_rejected() {
    let encoded = hash("secret123").unwrap();
    assert_eq!(verify("wrong", &encoded), Ok(false));
    assert_eq!(verify("", &encoded), Ok(false));
    assert_eq!(verify("secret1234", &encoded), Ok(false));
}

#[test]
fn two_hashes_of_one_password_differ_and_both_verify() {
    let first = hash("hunter42").unwrap();
    let second = hash("hunter42").unwrap();
    assert_ne!(first, second);
    assert_eq!(verify("hunter42", &first), Ok(true));
    assert_eq!(verify("hunter42", &second), Ok(true));
}

#[test]
fn credential_is_tagged_and_is_not_the_password() {
    let encoded = hash("secret123").unwrap();
    assert!(encoded.starts_with("$argon2id$v=19$m=19456,t=2,p=1$"));
    assert_ne!(encoded, "secret123");
    assert!(parallelism_within_bound(&encoded));
}

#[test]
fn empty_and_non_ascii_passwords_round_trip() {
    let empty = hash("").unwrap();
    assert_eq!(verify("", &empty), Ok(true));
    assert_eq!(verify(" ", &empty), Ok(false));
    let accented = hash("pläne-été-密码").unwrap();
    assert_eq!(verify("pläne-été-密码", &accented), Ok(true));
    assert_eq!(verify("plane-ete", &accented), Ok(false));
}

#[test]
fn same_salt_gives_same_credential() {
    let first = hash_with_salt("hunter42", "examplesaltvalue").unwrap();
    let second = hash_with_salt("hunter42", "examplesaltvalue").unwrap();
    assert_eq!(first, second);
    assert!(first.starts_with("$argon2id$v=19$m=19456,t=2,p=1$examplesaltvalue$"));
    assert_eq!(first.len(), "$argon2id$v=19$m=19456,t=2,p=1$examplesaltvalue$".len() + 43);
    assert_ne!(first, "examplesaltvalue");
    assert_eq!(verify("hunter42", &first), Ok(true));
    let other = hash_with_salt("hunter42", "anothersaltvalue").unwrap();
    assert_ne!(first, other);
}

#[test]
fn unusable_salt_fails_hashing() {
    assert_eq!(hash_with_salt("hunter42", "abc"), Err(HashingFailed));
    assert_eq!(hash_with_salt("hunter42", "not_base64!"), Err(HashingFailed));
    assert_eq!(hash_with_salt("hunter42", ""), Err(HashingFailed));
}

#[test]
fn malformed_credential_is_a_format_error() {
    assert_eq!(verify("secret123", ""), Err(CredentialFormatError));
    assert_eq!(verify("secret123", "secret123"), Err(CredentialFormatError));
    assert_eq!(verify("secret123", "argon2id$v=19"), Err(CredentialFormatError));
    assert_eq!(verify("secret123", "$argon2id$v=19$m=19456,t=2,p=1$a b$c"), Err(CredentialFormatError));
}

#[test]
fn well_formed_credential_of_another_scheme_does_not_match() {
    assert_eq!(verify("secret123", "$scrypt$ln=15,r=8,p=1$c2FsdHNhbHQ$aGFzaGhhc2hoYXNo"), Ok(false));
    assert_eq!(verify("secret123", "$argon2id"), Ok(false));
}

#[test]
fn oversized_parallelism_is_a_format_error() {
    let hostile = "$argon2id$v=19$m=4294967295,t=1,p=4294967295$c2FsdHNhbHQ$aGFzaGhhc2hoYXNo";
    assert!(!parallelism_within_bound(hostile));
    assert_eq!(verify("secret123", hostile), Err(CredentialFormatError));
}

#[test]
fn parallelism_beyond_what_argon2_takes_does_not_match() {
    let encoded = "$argon2id$v=19$m=19456,t=2,p=99999999$c2FsdHNhbHQ$aGFzaGhhc2hoYXNo";
    assert!(parallelism_within_bound(encoded));
    assert_eq!(verify("secret123", encoded), Ok(false));
}

#[test]
fn parallelism_bound_counts_digits_after_p_equals() {
    assert!(parallelism_within_bound(""));
    assert!(parallelism_within_bound("="));
    assert!(parallelism_within_bound("p="));
    assert!(parallelism_within_bound("p=12345678"));
    assert!(!parallelism_within_bound("p=123456789"));
    assert!(parallelism_within_bound("m=123456789"));
    assert!(parallelism_within_bound("t=4294967295,keyid=123456789012"));
    assert!(parallelism_within_bound("p=12345678,p=12345678"));
    assert!(parallelism_within_bound("p=1234567x9"));
    assert!(parallelism_within_bound("1234567890123"));
    assert!(parallelism_within_bound("p==123456789"));
    assert!(parallelism_within_bound("p123456789"));
    assert!(parallelism_within_bound("P=123456789"));
    assert!(!parallelism_within_bound("m=1,p=123456789"));
    assert!(!parallelism_within_bound("pp=0000000000"));
    assert!(!parallelism_within_bound("p=1p=123456789"));
}

#[test]
fn credential_holds_header_fresh_salt_and_digest() {
    let encoded = hash("secret123").unwrap();
    let fields: Vec<&str> = encoded.split('$').collect();
    assert_eq!(fields.len(), 6);
    assert_eq!(fields[0], "");
    assert_eq!(fields[1], "argon2id");
    assert_eq!(fields[2], "v=19");
    assert_eq!(fields[3], "m=19456,t=2,p=1");
    assert_eq!(fields[4].len(), 22);
    assert!(fields[4].chars().all(|c| c.is_ascii_alphanumeric() || c == '+' || c == '/'));
    assert_eq!(fields[5].len(), 43);
    assert_eq!(hash_with_salt("secret123", fields[4]), Ok(encoded.clone()));
}

#[test]
fn different_salts_give_different_credentials() {
    let first = hash_with_salt("hunter42", "AAAAAAAAAAAAAAAAAAAAAA").unwrap();
    let second = hash_with_salt("hunter42", "AAAAAAAAAAAAAAAAAAAAAQ").unwrap();
    assert_ne!(first, second);
    assert!(first.starts_with("$argon2id$v=19$m=19456,t=2,p=1$AAAAAAAAAAAAAAAAAAAAAA$"));
    assert!(second.starts_with("$argon2id$v=19$m=19456,t=2,p=1$AAAAAAAAAAAAAAAAAAAAAQ$"));
    assert_eq!(verify("hunter42", &first), Ok(true));
    assert_eq!(verify("hunter42", &second), Ok(true));
}
