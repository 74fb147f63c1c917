//! The signed tokens that authenticate a webhook.
//!
//! A token is a JSON web token signed with HMAC-SHA256. Its one claim,
//! `token_id`, names the stored credentials under which the job runs.

use std::collections::BTreeMap;

use hmac::digest::KeyInit;
use hmac::Hmac;
use jwt::{SignWithKey, VerifyWithKey};
use sha2::Sha256;
use vstd::prelude::*;
use vstd::string::StringSliceAdditionalSpecFns;

use crate::errors::Error;
use crate::identifier::{uuid_parse, uuid_value};
use crate::message::Claim;

verus! {

/// The token that signing the one claim `name: value` with the key `secret`
/// gives, where signing succeeds.
pub uninterp spec fn signed_claim(secret: Seq<u8>, name: Seq<char>, value: Seq<char>) -> Option<
    Seq<char>,
>;

/// The text value of the claim `name` in `token`, where `token` is a well
/// formed token signed with the key `secret` and carries such a claim.
pub uninterp spec fn verified_claim(secret: Seq<u8>, token: Seq<char>, name: Seq<char>) -> Option<
    Seq<char>,
>;

/// Makes an HMAC-SHA256 key of `secret` with `Hmac::new_from_slice` and
/// signs the claims `{name: value}` with `SignWithKey::sign_with_key`.
///
/// Trusted: the result is what `signed_claim` names.
#[verifier::external_body]
pub(crate) fn sign_claim(secret: &[u8], name: &str, value: &str) -> (token: Option<String>)
    ensures
        token.deep_view() == signed_claim(secret@, name@, value@),
{
    let key: Hmac<Sha256> = Hmac::new_from_slice(secret).ok()?;
    let mut claims: BTreeMap<&str, &str> = BTreeMap::new();
    claims.insert(name, value);
    claims.sign_with_key(&key).ok()
}

/// Makes an HMAC-SHA256 key of `secret` with `Hmac::new_from_slice`, checks
/// `token` against it with `VerifyWithKey::verify_with_key` and returns the
/// claim `name`, if the token carries it as text.
///
/// Trusted: the result is what `verified_claim` names.
#[verifier::external_body]
fn verify_claim(secret: &[u8], token: &str, name: &str) -> (value: Option<String>)
    ensures
        value.deep_view() == verified_claim(secret@, token@, name@),
{
    let key: Hmac<Sha256> = Hmac::new_from_slice(secret).ok()?;
    let claims: BTreeMap<String, serde_json::Value> = token.verify_with_key(&key).ok()?;
    claims.get(name)?.as_str().map(String::from)
}

/// The claim that a verified `token_id` stands for: access is granted
/// exactly when the token carried an identifier.
pub fn grant(token_id: Option<u128>) -> (access: Result<Claim, Error>)
    ensures
        access == match token_id {
            Some(token_id) => Ok::<Claim, Error>(Claim { token_id }),
            None => Err::<Claim, Error>(Error::AccessDenied),
        },
{
    match token_id {
        Some(token_id) => Ok(Claim { token_id }),
        None => Err(Error::AccessDenied),
    }
}

/// The identifier in the `token_id` claim of `token`, where `token` is
/// signed with `secret_key` and its claim reads as an identifier.
pub open spec fn token_id_of(secret_key: Seq<char>, token: Seq<char>) -> Option<u128> {
    match verified_claim(vstd::utf8::encode_utf8(secret_key), token, "token_id"@) {
        Some(text) => uuid_value(text),
        None => None,
    }
}

/// Checks the bearer token of a webhook.
///
/// Access is granted, with the claim that the token carries, exactly when
/// the token is signed with `secret_key` and its `token_id` claim is an
/// identifier. Every other token is denied.
pub fn verify_token(token: &str, secret_key: &str) -> (access: Result<Claim, Error>)
    ensures
        access == match token_id_of(secret_key@, token@) {
            Some(token_id) => Ok::<Claim, Error>(Claim { token_id }),
            None => Err::<Claim, Error>(Error::AccessDenied),
        },
{
    let token_id = match verify_claim(secret_key.as_bytes(), token, "token_id") {
        Some(text) => uuid_parse(text.as_str()),
        None => None,
    };
    grant(token_id)
}

} // verus!
