//! Password credentials: how a plaintext password becomes the encoded string
//! that a user record stores, and how a password is checked against one.
//!
//! The hashing itself is Argon2id with the default cost parameters, done by
//! the `argon2` crate. Its results are named here by spec functions without a
//! body; what this module proves is proved over those names.

use argon2::password_hash::rand_core::OsRng;
use argon2::password_hash::{PasswordHash, PasswordHasher, PasswordVerifier, Salt, SaltString};
use argon2::Argon2;
use vstd::prelude::*;
use vstd::utf8::encode_utf8;
use crate::timestamp::text_of;

verus! {

/// The stored credential is not an encoded password hash that can be checked.
#[derive(Clone, Copy, Debug, PartialEq, Eq, Structural)]
pub struct CredentialFormatError;

/// The password could not be hashed.
#[derive(Clone, Copy, Debug, PartialEq, Eq, Structural)]
pub struct HashingFailed;

/// The encoded string that `PasswordHasher::hash_password` of
/// `Argon2::default()` gives for a password and a salt in its text form, or
/// `None` where `Salt::from_b64` refuses the salt text or `hash_password`
/// reports an error.
pub uninterp spec fn argon2id_encoding(password: Seq<char>, salt: Seq<char>) -> Option<Seq<char>>;

/// Whether `PasswordHash::new` accepts the text as an encoded password hash.
pub uninterp spec fn phc_well_formed(encoded: Seq<char>) -> bool;

/// Whether `PasswordVerifier::verify_password` of `Argon2::default()` accepts
/// the password for the parsed form of an encoded password hash.
pub uninterp spec fn argon2_accepts(password: Seq<char>, encoded: Seq<char>) -> bool;

/// The most digits the parallelism of a stored credential may have.
pub const MAX_PARALLELISM_DIGITS: usize = 8;

pub open spec fn is_digit(c: char) -> bool {
    '0' <= c && c <= '9'
}

/// Whether `text` holds a decimal digit at each position from `from` up to,
/// not including, `upto`.
pub open spec fn digits_between(text: Seq<char>, from: int, upto: int) -> bool {
    &&& 0 <= from
    &&& upto <= text.len()
    &&& forall|k: int| from <= k < upto ==> is_digit(#[trigger] text[k])
}

/// No `p=` in `text` is followed by more than `MAX_PARALLELISM_DIGITS`
/// digits. The parallelism of an encoded password hash is the decimal number
/// that follows `p=`, so it is below 100 000 000; Argon2 accepts none above
/// 16 777 215.
pub open spec fn parallelism_bounded(text: Seq<char>) -> bool {
    forall|i: int|
        1 <= i < text.len() && #[trigger] text[i] == '=' && text[i - 1] == 'p' ==> !digits_between(
            text,
            i + 1,
            i + 2 + MAX_PARALLELISM_DIGITS,
        )
}

/// The most bytes that Argon2 takes as a password.
pub open spec fn max_password_bytes() -> int {
    0xFFFF_FFFF
}

/// Whether the password is one that Argon2 hashes: its UTF-8 form has at
/// most `max_password_bytes()` bytes.
pub open spec fn password_fits(password: Seq<char>) -> bool {
    encode_utf8(password).len() <= max_password_bytes()
}

/// Whether hashing under this salt succeeds for every password that fits.
pub open spec fn salt_serves(salt: Seq<char>) -> bool {
    forall|password: Seq<char>|
        password_fits(password) ==> (#[trigger] argon2id_encoding(password, salt)).is_some()
}

/// The characters with which every credential made here begins: the
/// algorithm, its version and the default costs.
pub open spec fn argon2id_header() -> Seq<char> {
    "$argon2id$v=19$m=19456,t=2,p=1$"@
}

/// Whether the character is one of the base64 alphabet: a letter, a digit,
/// `+` or `/`.
pub open spec fn is_base64(c: char) -> bool {
    ('A' <= c && c <= 'Z') || ('a' <= c && c <= 'z') || is_digit(c) || c == '+' || c == '/'
}

/// The number of characters of a salt as it is drawn for a new credential:
/// 16 bytes in unpadded base64.
pub open spec fn fresh_salt_length() -> int {
    22
}

/// Whether the text has the form of a salt as it is drawn for a new
/// credential and serves for every password that fits.
pub open spec fn is_fresh_salt(salt: Seq<char>) -> bool {
    &&& salt.len() == fresh_salt_length()
    &&& forall|i: int| 0 <= i < salt.len() ==> is_base64(#[trigger] salt[i])
    &&& salt_serves(salt)
}

/// Whether the credential begins with the Argon2id header, this salt and a
/// `$`; the digest follows.
pub open spec fn led_by(encoded: Seq<char>, salt: Seq<char>) -> bool {
    (argon2id_header() + salt + seq!['$']).is_prefix_of(encoded)
}

/// What checking a password against a stored credential gives: an error for
/// a credential that is malformed or names a parallelism beyond the bound,
/// else whether Argon2 accepts the password.
pub open spec fn verification(plaintext: Seq<char>, encoded: Seq<char>) -> Result<
    bool,
    CredentialFormatError,
> {
    if parallelism_bounded(encoded) && phc_well_formed(encoded) {
        Ok(argon2_accepts(plaintext, encoded))
    } else {
        Err(CredentialFormatError)
    }
}

/// Whether `encoded` is a credential as `hash` makes them for `plaintext`:
/// it begins with the Argon2id header and is accepted on verification.
pub open spec fn is_credential_for(plaintext: Seq<char>, encoded: Seq<char>) -> bool {
    &&& argon2id_header().is_prefix_of(encoded)
    &&& verification(plaintext, encoded) == Ok::<bool, CredentialFormatError>(true)
}

/// What hashing a password under a salt gives, by the characters of the
/// credential.
pub open spec fn salted(plaintext: Seq<char>, salt: Seq<char>) -> Result<Seq<char>, HashingFailed> {
    match argon2id_encoding(plaintext, salt) {
        Some(encoded) => Ok(encoded),
        None => Err(HashingFailed),
    }
}

/// The characters of a hashing outcome.
pub open spec fn encoded_text(hashed: Result<String, HashingFailed>) -> Result<
    Seq<char>,
    HashingFailed,
> {
    match hashed {
        Ok(encoded) => Ok(encoded@),
        Err(failure) => Err(failure),
    }
}

/// Draws a salt with `SaltString::generate` from the operating system's
/// random source and hands it out in its text form. The salt differs from
/// call to call. The contract claims of every salt that comes out that it is
/// the unpadded base64 text of 16 bytes, which has 22 characters of the
/// base64 alphabet, and that `hash_password` succeeds under it for each
/// password within Argon2's length limit: `Salt::from_b64` accepts such a
/// text, and it decodes to a salt of a length that Argon2 takes. The call
/// panics where the operating system has no random source to offer.
#[verifier::external_body]
fn fresh_salt() -> (salt: String)
    ensures
        is_fresh_salt(salt@),
{
    SaltString::generate(&mut OsRng).as_str().to_string()
}

/// Reads the salt with `Salt::from_b64` and calls
/// `PasswordHasher::hash_password` on `Argon2::default()`. The contract
/// claims that the outcome is a function of password and salt, named
/// `argon2id_encoding`; that there is none for a password of more than
/// `max_password_bytes()` bytes; and of every encoded string that comes out:
/// that it begins with `$argon2id$v=19$m=19456,t=2,p=1$`, the salt as it was
/// given and a `$`, that no `p=` in it is followed by more than eight digits
/// (its only `=` are those of the header), that `PasswordHash::new` parses
/// it, and that `verify_password` accepts the same password for it.
#[verifier::external_body]
fn argon2id_encode(password: &str, salt: &str) -> (out: Option<String>)
    ensures
        text_of(out) == argon2id_encoding(password@, salt@),
        !password_fits(password@) ==> out.is_none(),
        out matches Some(encoded) ==> {
            &&& led_by(encoded@, salt@)
            &&& parallelism_bounded(encoded@)
            &&& phc_well_formed(encoded@)
            &&& argon2_accepts(password@, encoded@)
        },
{
    match Salt::from_b64(salt) {
        Ok(salt) => match Argon2::default().hash_password(password.as_bytes(), salt) {
            Ok(hash) => Some(hash.to_string()),
            Err(_) => None,
        },
        Err(_) => None,
    }
}

/// Parses the credential with `PasswordHash::new` and calls
/// `PasswordVerifier::verify_password` on `Argon2::default()`. The contract
/// claims that a credential which does not parse gives the error, and that
/// for one which parses the answer is whether `verify_password` returned
/// `Ok`. Credentials with a parallelism of more than
/// `MAX_PARALLELISM_DIGITS` digits are kept out: `argon2` multiplies the
/// parallelism by eight in 32 bits when it checks the parameters, which
/// overflows for the largest values. Within the bound the call returns; the
/// memory and the time it takes are those that the credential names.
#[verifier::external_body]
fn check_encoded(password: &str, encoded: &str) -> (out: Result<bool, CredentialFormatError>)
    requires
        parallelism_bounded(encoded@),
    ensures
        out == if phc_well_formed(encoded@) {
            Ok::<bool, CredentialFormatError>(argon2_accepts(password@, encoded@))
        } else {
            Err::<bool, CredentialFormatError>(CredentialFormatError)
        },
{
    match PasswordHash::new(encoded) {
        Ok(parsed) => Ok(Argon2::default().verify_password(password.as_bytes(), &parsed).is_ok()),
        Err(_) => Err(CredentialFormatError),
    }
}

/// Whether a character that is no digit follows the `=` at `j` before the
/// scan position `upto` and within the number of digits that is over the
/// bound.
spec fn run_broken(text: Seq<char>, j: int, upto: int) -> bool {
    exists|k: int|
        j < k < upto && k <= j + 1 + MAX_PARALLELISM_DIGITS && 0 <= k < text.len() && !is_digit(
            #[trigger] text[k],
        )
}

/// What `parallelism_within_bound` knows after the first `upto` characters:
/// `after_p` tells whether the last of them is a `p`, `pending` how many
/// digits have followed the last `p=` where nothing else has, and every
/// other `p=` so far has its run of digits broken.
spec fn scanned(text: Seq<char>, upto: int, after_p: bool, pending: Option<usize>) -> bool {
    &&& 0 <= upto <= text.len()
    &&& after_p == (upto > 0 && text[upto - 1] == 'p')
    &&& pending matches Some(n) ==> {
        &&& n <= MAX_PARALLELISM_DIGITS
        &&& n + 1 < upto
        &&& text[upto - 1 - n] == '='
        &&& text[upto - 2 - n] == 'p'
        &&& digits_between(text, upto - n, upto)
    }
    &&& forall|j: int|
        1 <= j < upto && #[trigger] text[j] == '=' && text[j - 1] == 'p' && !(pending matches Some(
            n,
        ) && j == upto - 1 - n) ==> run_broken(text, j, upto)
}

/// Whether no `p=` stands in the text so that more than
/// `MAX_PARALLELISM_DIGITS` digits follow it.
pub fn parallelism_within_bound(encoded: &str) -> (bounded: bool)
    ensures
        bounded == parallelism_bounded(encoded@),
{
    // Whether the character before this one is a `p`.
    let mut after_p = false;
    // `Some(n)`: the last `p=` ends `n + 1` characters back and only digits
    // have followed it.
    let mut pending: Option<usize> = None;
    for c in it: encoded.chars()
        invariant
            it.seq() == encoded@,
            scanned(encoded@, it.index() as int, after_p, pending),
    {
        if c == '=' {
            pending = if after_p { Some(0) } else { None };
        } else if '0' <= c && c <= '9' {
            match pending {
                Some(n) => {
                    if n == MAX_PARALLELISM_DIGITS {
                        return false;
                    }
                    pending = Some(n + 1);
                },
                None => {},
            }
        } else {
            pending = None;
        }
        after_p = c == 'p';
    }
    proof {
        let text = encoded@;
        let len = text.len() as int;
        assert forall|i: int|
            1 <= i < len && #[trigger] text[i] == '=' && text[i - 1] == 'p' implies !digits_between(
            text,
            i + 1,
            i + 2 + MAX_PARALLELISM_DIGITS,
        ) by {
            if !(pending matches Some(n) && i == len - 1 - n) {
                assert(run_broken(text, i, len));
            }
        }
    }
    true
}

/// A credential that is led by a salt begins with the header.
proof fn lemma_header_leads(salt: Seq<char>, encoded: Seq<char>)
    requires
        led_by(encoded, salt),
    ensures
        argon2id_header().is_prefix_of(encoded),
{
    let lead = argon2id_header() + salt + seq!['$'];
    assert(argon2id_header() =~= lead.subrange(0, argon2id_header().len() as int));
    assert(lead =~= encoded.subrange(0, lead.len() as int));
    assert(argon2id_header() =~= encoded.subrange(0, argon2id_header().len() as int));
}

/// Two credentials that are led by two different salts of one length
/// differ, whatever the passwords.
pub proof fn lemma_salts_tell_credentials_apart(
    first: Seq<char>,
    second: Seq<char>,
    first_salt: Seq<char>,
    second_salt: Seq<char>,
)
    requires
        led_by(first, first_salt),
        led_by(second, second_salt),
        first_salt.len() == second_salt.len(),
        first_salt != second_salt,
    ensures
        first != second,
{
    let header = argon2id_header();
    let first_lead = header + first_salt + seq!['$'];
    let second_lead = header + second_salt + seq!['$'];
    assert(!(first_salt =~= second_salt));
    let k = choose|k: int| 0 <= k < first_salt.len() && first_salt[k] != second_salt[k];
    assert(first_lead =~= first.subrange(0, first_lead.len() as int));
    assert(second_lead =~= second.subrange(0, second_lead.len() as int));
    assert(first_lead[header.len() + k] == first_salt[k]);
    assert(second_lead[header.len() + k] == second_salt[k]);
    assert(first.subrange(0, first_lead.len() as int)[header.len() + k] == first[header.len() + k]);
    assert(second.subrange(0, second_lead.len() as int)[header.len() + k] == second[header.len()
        + k]);
}

/// Hashes a password under the given salt, in the salt's text form
/// (unpadded base64). The outcome is the one the Argon2id implementation
/// gives for the pair, and a failure for every password beyond Argon2's
/// length limit. A credential that comes out begins with the Argon2id
/// header, the salt and a `$`, and is accepted by `verify` for the same
/// password.
pub fn hash_with_salt(plaintext: &str, salt: &str) -> (out: Result<String, HashingFailed>)
    ensures
        encoded_text(out) == salted(plaintext@, salt@),
        !password_fits(plaintext@) ==> out.is_err(),
        out matches Ok(encoded) ==> {
            &&& led_by(encoded@, salt@)
            &&& is_credential_for(plaintext@, encoded@)
        },
{
    match argon2id_encode(plaintext, salt) {
        Some(encoded) => {
            proof {
                lemma_header_leads(salt@, encoded@);
            }
            Ok(encoded)
        },
        None => Err(HashingFailed),
    }
}

/// Whether `out` is what hashing the password under this salt gives, the
/// salt being one as they are drawn: a credential led by the salt and
/// accepted for the password where the password fits, the failure where it
/// does not.
pub open spec fn hashed_under(
    plaintext: Seq<char>,
    salt: Seq<char>,
    out: Result<Seq<char>, HashingFailed>,
) -> bool {
    &&& is_fresh_salt(salt)
    &&& out == salted(plaintext, salt)
    &&& match out {
        Ok(encoded) => {
            &&& password_fits(plaintext)
            &&& led_by(encoded, salt)
            &&& is_credential_for(plaintext, encoded)
        },
        Err(_) => !password_fits(plaintext),
    }
}

/// Hashes a password under a salt drawn afresh for this call. It succeeds
/// exactly for the passwords within Argon2's length limit, and the outcome
/// is the one that `hash_with_salt` gives for this password under the salt
/// drawn, which has 22 characters of the base64 alphabet. A credential that
/// comes out begins with the Argon2id header, that salt and a `$`, and is
/// accepted by `verify` for the same password.
pub fn hash(plaintext: &str) -> (out: Result<String, HashingFailed>)
    ensures
        out.is_ok() <==> password_fits(plaintext@),
        exists|salt: Seq<char>| #[trigger] hashed_under(plaintext@, salt, encoded_text(out)),
        out matches Ok(encoded) ==> is_credential_for(plaintext@, encoded@),
{
    let salt = fresh_salt();
    let out = hash_with_salt(plaintext, salt.as_str());
    assert(hashed_under(plaintext@, salt@, encoded_text(out)));
    out
}

/// Checks a password against a stored credential: `Ok(true)` where Argon2
/// accepts it, `Ok(false)` where it does not, and the error for a credential
/// that is no well-formed encoded hash or names a parallelism of more than
/// `MAX_PARALLELISM_DIGITS` digits.
pub fn verify(plaintext: &str, encoded: &str) -> (out: Result<bool, CredentialFormatError>)
    ensures
        out == verification(plaintext@, encoded@),
{
    if parallelism_within_bound(encoded) {
        check_encoded(plaintext, encoded)
    } else {
        Err(CredentialFormatError)
    }
}

/// A credential made by `hash` is never the password it was made from, as
/// long as the password does not itself begin with the Argon2id header.
pub proof fn lemma_credential_differs_from_plaintext(plaintext: Seq<char>, encoded: Seq<char>)
    requires
        is_credential_for(plaintext, encoded),
        !argon2id_header().is_prefix_of(plaintext),
    ensures
        encoded != plaintext,
{
}

} // verus!
