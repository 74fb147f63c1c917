//! Making the key that a caller of the webhook presents.

use vstd::prelude::*;

use crate::config::Config;
use crate::identifier::{hyphenated, identifier_text};
use crate::token::{sign_claim, signed_claim};

verus! {

/// The claim could not be signed.
#[derive(Debug, Clone, Copy, PartialEq, Eq, Structural)]
pub struct SigningFailed;

/// Makes the key for the credentials stored under `token_id`: the token
/// with that claim, signed with the secret key of the configuration.
///
/// The credentials themselves are obtained and stored before this is
/// called; the key is what the owner of the credentials hands to the
/// webhook's caller.
pub fn generate_key(token_id: u128, config: &Config) -> (key: Result<String, SigningFailed>)
    ensures
        match signed_claim(
            vstd::utf8::encode_utf8(config.secret_key@),
            "token_id"@,
            hyphenated(token_id),
        ) {
            Some(token) => key matches Ok(text) && text@ == token,
            None => key == Err::<String, SigningFailed>(SigningFailed),
        },
{
    let text = identifier_text(token_id);
    match sign_claim(config.secret_key.as_str().as_bytes(), "token_id", text.as_str()) {
        Some(token) => Ok(token),
        None => Err(SigningFailed),
    }
}

} // verus!
