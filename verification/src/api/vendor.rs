//! The calls into other crates and into the parts of `std` that carry no
//! specification. Nothing in this file is proved: each contract states what the
//! called function is taken to do.

use vstd::prelude::*;

verus! {

/// `jsonwebtoken::errors::Error`, carried from the calls that fail to the
/// code that maps the failure; nothing is read from it.
#[verifier::external_type_specification]
#[verifier::external_body]
pub struct ExJwtError(jsonwebtoken::errors::Error);

/// `uuid::Error`, carried in the same way.
#[verifier::external_type_specification]
#[verifier::external_body]
pub struct ExUuidError(uuid::Error);

/// `pwhash::error::Error`, carried in the same way.
#[verifier::external_type_specification]
#[verifier::external_body]
pub struct ExPwhashError(pwhash::error::Error);

/// Every character lies between the space and the tilde.
pub open spec fn printable_ascii(text: Seq<char>) -> bool {
    forall|i: int| 0 <= i < text.len() ==> 0x20 <= #[trigger] text[i] as u32 <= 0x7e
}

// ---------------------------------------------------------------- uuid

/// The hyphenated lower-case text of a UUID, as `uuid::Uuid` displays it.
pub uninterp spec fn uuid_text(id: u128) -> Seq<char>;

/// The UUID that `uuid::Uuid::parse_str` reads from a text, if it reads one.
pub uninterp spec fn uuid_parsed(text: Seq<char>) -> Option<u128>;

/// `uuid::Uuid::new_v4`: a random UUID, as its 128-bit value. Nothing is
/// claimed of the value.
#[verifier::external_body]
pub(crate) fn fresh_uuid() -> u128 {
    uuid::Uuid::new_v4().as_u128()
}

/// `to_string` of a `uuid::Uuid`: the text of the UUID with the given value.
/// The crate documents that `parse_str` reads every format it writes, so the
/// text parses back to the same value.
#[verifier::external_body]
pub(crate) fn format_uuid(id: u128) -> (text: String)
    ensures
        text@ == uuid_text(id),
        uuid_parsed(text@) == Some(id),
{
    uuid::Uuid::from_u128(id).to_string()
}

/// `uuid::Uuid::parse_str`: the value of the UUID that the text denotes, or
/// the crate's error where it denotes none.
#[verifier::external_body]
pub(crate) fn parse_uuid(text: &str) -> (r: Result<u128, uuid::Error>)
    ensures
        match r {
            Ok(id) => uuid_parsed(text@) == Some(id),
            Err(_) => uuid_parsed(text@) is None,
        },
{
    match uuid::Uuid::parse_str(text) {
        Ok(id) => Ok(id.as_u128()),
        Err(e) => Err(e),
    }
}

// -------------------------------------------------------------- pwhash

/// Whether `pwhash::bcrypt::verify` accepts the password for the hash.
pub uninterp spec fn bcrypt_matches(password: Seq<char>, hash: Seq<char>) -> bool;

/// `pwhash::bcrypt::hash`: a bcrypt hash of the password under a random salt.
/// The hash is written in the characters `$`, `.`, `/`, digits and letters,
/// and it records the salt and cost it was made with, so that `verify`
/// recomputes the same text from the same password.
#[verifier::external_body]
pub(crate) fn bcrypt_hash(password: &str) -> (r: Result<String, pwhash::error::Error>)
    ensures
        r matches Ok(hash) ==> printable_ascii(hash@) && bcrypt_matches(password@, hash@),
{
    pwhash::bcrypt::hash(password)
}

/// `pwhash::bcrypt::verify`: whether the hash corresponds to the password.
/// While it decodes the salt the function indexes a table by each character
/// less `0x20`, so a hash with a character outside the printable ASCII range
/// is kept away from it.
#[verifier::external_body]
pub(crate) fn bcrypt_verify(password: &str, hash: &str) -> (ok: bool)
    requires
        printable_ascii(hash@),
    ensures
        ok == bcrypt_matches(password@, hash@),
{
    pwhash::bcrypt::verify(password, hash)
}

// -------------------------------------------------------- jsonwebtoken

/// The token that `jsonwebtoken::encode` makes of the three claims under the
/// default header (HS256) and the secret; `None` where it fails.
pub uninterp spec fn jwt_signed(user_id: Seq<char>, iss: u64, exp: u64, secret: Seq<u8>) -> Option<
    Seq<char>,
>;

/// What `jsonwebtoken::decode` reads from a token under the secret, with the
/// default validation but for the test of the expiry time: `None` where the
/// token is refused, else the claims `user_id`, `iss` and `exp`, each as far
/// as the token holds one of the expected type.
pub uninterp spec fn jwt_claims(token: Seq<char>, secret: Seq<u8>) -> Option<
    (Option<Seq<char>>, Option<u64>, Option<u64>),
>;

/// `jsonwebtoken::encode` with `Header::default()` and a key made by
/// `EncodingKey::from_secret`, on a JSON object of the three claims. A token
/// so made is one that `decode` accepts under the same secret, and it reads
/// the same claims from it.
#[verifier::external_body]
pub(crate) fn jwt_encode(user_id: &str, iss: u64, exp: u64, secret: &[u8]) -> (r: Result<
    String,
    jsonwebtoken::errors::Error,
>)
    ensures
        match r {
            Ok(token) => jwt_signed(user_id@, iss, exp, secret@) == Some(token@) && jwt_claims(
                token@,
                secret@,
            ) == Some((Some(user_id@), Some(iss), Some(exp))),
            Err(_) => jwt_signed(user_id@, iss, exp, secret@) is None,
        },
{
    let mut claims = serde_json::Map::new();
    claims.insert("user_id".to_string(), serde_json::Value::from(user_id));
    claims.insert("iss".to_string(), serde_json::Value::from(iss));
    claims.insert("exp".to_string(), serde_json::Value::from(exp));
    let key = jsonwebtoken::EncodingKey::from_secret(secret);
    jsonwebtoken::encode(&jsonwebtoken::Header::default(), &claims, &key)
}

/// `jsonwebtoken::decode` with a key made by `DecodingKey::from_secret` and
/// `Validation::default()` with `validate_exp` switched off: the signature,
/// the algorithm and the presence of `exp` are checked there, the expiry time
/// is left to the caller. The claims are handed out field by field.
#[verifier::external_body]
pub(crate) fn jwt_decode(token: &str, secret: &[u8]) -> (r: Result<
    (Option<String>, Option<u64>, Option<u64>),
    jsonwebtoken::errors::Error,
>)
    ensures
        match r {
            Ok(claims) => jwt_claims(token@, secret@) == Some(
                (
                    match claims.0 {
                        Some(id) => Some(id@),
                        None => None,
                    },
                    claims.1,
                    claims.2,
                ),
            ),
            Err(_) => jwt_claims(token@, secret@) is None,
        },
{
    let mut validation = jsonwebtoken::Validation::default();
    validation.validate_exp = false;
    let key = jsonwebtoken::DecodingKey::from_secret(secret);
    match jsonwebtoken::decode::<serde_json::Value>(token, &key, &validation) {
        Ok(data) => Ok(
            (
                data.claims.get("user_id").and_then(|v| v.as_str()).map(|s| s.to_string()),
                data.claims.get("iss").and_then(|v| v.as_u64()),
                data.claims.get("exp").and_then(|v| v.as_u64()),
            ),
        ),
        Err(e) => Err(e),
    }
}

// -------------------------------------------------------------- chrono

/// `chrono::Utc::now().timestamp()`: the clock's reading in seconds since the
/// epoch. `Utc::now` builds its value from the time that has passed since the
/// epoch and does not return for a clock set before it, so the reading is
/// not negative; nothing else is claimed of it.
#[verifier::external_body]
pub(crate) fn unix_now() -> (now: i64)
    ensures
        0 <= now,
{
    chrono::Utc::now().timestamp()
}

// ----------------------------------------------------------- validator

/// Whether `validator::validate_email` takes the text for an email address.
pub uninterp spec fn email_is_valid(email: Seq<char>) -> bool;

/// `validator::validate_email`: whether the text is an email address by the
/// rules of that crate, which follow the HTML5 specification of one.
#[verifier::external_body]
pub(crate) fn validate_email(email: &str) -> (ok: bool)
    ensures
        ok == email_is_valid(email@),
{
    validator::validate_email(email)
}

/// `validator::validate_length` with both bounds given: whether the number of
/// characters of the text lies between them, bounds included.
#[verifier::external_body]
pub(crate) fn validate_length(text: &str, min: u64, max: u64) -> (ok: bool)
    ensures
        ok == (min <= text@.len() <= max),
{
    validator::validate_length(text, Some(min), Some(max), None)
}

// ------------------------------------------------------------- secrecy

/// A text kept behind `secrecy::Secret`, which wipes it when dropped and
/// prints a placeholder in its place. The type stands for `Secret<String>`,
/// whose own declaration would need the trait that bounds its parameter.
#[verifier::external_body]
#[derive(Debug)]
pub struct SecretText {
    inner: secrecy::Secret<String>,
}

/// The text that a [`SecretText`] holds.
pub uninterp spec fn secret_text(s: SecretText) -> Seq<char>;

/// `secrecy::Secret::new`: the secret holds the text it was made from.
#[verifier::external_body]
pub(crate) fn seal(text: String) -> (s: SecretText)
    ensures
        secret_text(s) == text@,
{
    SecretText { inner: secrecy::Secret::new(text) }
}

/// `secrecy::ExposeSecret::expose_secret`: a reference to the text held.
#[verifier::external_body]
pub(crate) fn expose(s: &SecretText) -> (text: &String)
    ensures
        text@ == secret_text(*s),
{
    secrecy::ExposeSecret::expose_secret(&s.inner)
}

// ----------------------------------------------------------------- std

/// Whether `char::is_numeric` holds of the character.
pub uninterp spec fn char_is_numeric(c: char) -> bool;

/// Whether `char::is_lowercase` holds of the character.
pub uninterp spec fn char_is_lowercase(c: char) -> bool;

/// Whether `char::is_uppercase` holds of the character.
pub uninterp spec fn char_is_uppercase(c: char) -> bool;

/// Whether `char::is_alphanumeric` holds of the character.
pub uninterp spec fn char_is_alphanumeric(c: char) -> bool;

/// The text that `str::to_lowercase` makes of a text.
pub uninterp spec fn lowercase(text: Seq<char>) -> Seq<char>;

/// `char::is_numeric`, `char::is_lowercase`, `char::is_uppercase` and
/// `char::is_alphanumeric`: each answers by the Unicode property that `std`
/// documents for it (Numeric, Lowercase, Uppercase, Alphabetic or Numeric).
/// The answer is a function of the character. Among the ASCII characters
/// the properties hold of the digits, of the small letters, of the capital
/// letters, and of the letters and digits; of the other characters nothing
/// more is claimed.
pub assume_specification[ char::is_numeric ](c: char) -> (b: bool)
    ensures
        b == char_is_numeric(c),
        c <= '\u{7f}' ==> b == ('0' <= c <= '9'),
;

pub assume_specification[ char::is_lowercase ](c: char) -> (b: bool)
    ensures
        b == char_is_lowercase(c),
        c <= '\u{7f}' ==> b == ('a' <= c <= 'z'),
;

pub assume_specification[ char::is_uppercase ](c: char) -> (b: bool)
    ensures
        b == char_is_uppercase(c),
        c <= '\u{7f}' ==> b == ('A' <= c <= 'Z'),
;

pub assume_specification[ char::is_alphanumeric ](c: char) -> (b: bool)
    ensures
        b == char_is_alphanumeric(c),
        c <= '\u{7f}' ==> b == ('0' <= c <= '9' || 'a' <= c <= 'z' || 'A' <= c <= 'Z'),
;

/// `str::to_lowercase`: the text in lower case, as `std` makes it.
pub assume_specification[ str::to_lowercase ](text: &str) -> (lower: String)
    ensures
        lower@ == lowercase(text@),
;

/// `str::strip_prefix` with a string for the pattern: what follows the
/// prefix, where the text starts with it.
#[verifier::external_body]
pub(crate) fn strip_prefix<'a>(text: &'a str, prefix: &str) -> (rest: Option<&'a str>)
    ensures
        match rest {
            Some(r) => text@ == prefix@ + r@,
            None => !prefix@.is_prefix_of(text@),
        },
{
    text.strip_prefix(prefix)
}

} // verus!
