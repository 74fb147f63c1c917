//! Where the credentials of a token are kept.
//!
//! Credentials live in Redis, one value for each token and set of scopes.
//! This module decides under which key; reading and writing the value is
//! left to the caller.

use sha2::{Digest, Sha256};
use vstd::prelude::*;
use vstd::string::{StringExecFns, StringSliceAdditionalSpecFns};

use crate::config::Dsn;
use crate::hexadecimal::lower_hex;
use crate::identifier::{hyphenated, identifier_text};

verus! {

/// The SHA-256 digest of `data`.
pub uninterp spec fn sha256(data: Seq<u8>) -> Seq<u8>;

/// `bytes` in lowercase hexadecimal, two digits for each byte.
pub open spec fn hex_text(bytes: Seq<u8>) -> Seq<char>
    decreases bytes.len(),
{
    if bytes.len() == 0 {
        Seq::empty()
    } else {
        hex_text(bytes.drop_last()) + lower_hex(bytes.last() as nat, 2)
    }
}

/// The bytes of all `scopes`, one scope after the other.
pub open spec fn scope_bytes(scopes: Seq<Seq<char>>) -> Seq<u8>
    decreases scopes.len(),
{
    if scopes.len() == 0 {
        Seq::empty()
    } else {
        scope_bytes(scopes.drop_last()) + vstd::utf8::encode_utf8(scopes.last())
    }
}

/// The key under which the credentials of the token `token_id` for
/// `scopes` are kept: the identifier of the token, an underscore, and the
/// digest of the scopes in hexadecimal.
pub open spec fn storage_key(token_id: u128, scopes: Seq<Seq<char>>) -> Seq<char> {
    hyphenated(token_id) + seq!['_'] + hex_text(sha256(scope_bytes(scopes)))
}

/// Calls `Sha256::digest`.
///
/// Trusted: the result is what `sha256` names, and it is 32 bytes long.
#[verifier::external_body]
fn sha256_digest(data: &[u8]) -> (digest: Vec<u8>)
    ensures
        digest@ == sha256(data@),
        digest@.len() == 32,
{
    Sha256::digest(data).to_vec()
}

/// The hexadecimal text of a sequence of bytes is twice as long as the
/// sequence.
pub proof fn lemma_hex_text_length(bytes: Seq<u8>)
    ensures
        hex_text(bytes).len() == 2 * bytes.len(),
    decreases bytes.len(),
{
    if bytes.len() > 0 {
        lemma_hex_text_length(bytes.drop_last());
        crate::hexadecimal::lemma_lower_hex_shape(bytes.last() as nat, 2);
    }
}

/// Calls `hex::encode`.
///
/// Trusted: the text holds two lowercase hexadecimal digits for each byte,
/// in the order of the bytes.
#[verifier::external_body]
fn hex_encode(bytes: &[u8]) -> (text: String)
    ensures
        text@ == hex_text(bytes@),
{
    hex::encode(bytes)
}

/// The Redis server that keeps the credentials.
#[derive(Debug, PartialEq, Eq)]
pub struct Redis {
    pub dsn: Dsn,
}

/// The place of one token's credentials on the server.
#[derive(Debug, PartialEq, Eq)]
pub struct RedisTokenStorage {
    pub token_id: u128,
    pub dsn: Dsn,
}

impl Redis {
    /// The server at `dsn`.
    pub fn from_dsn(dsn: Dsn) -> (redis: Redis)
        ensures
            redis.dsn == dsn,
    {
        Redis { dsn }
    }

    /// The place of the credentials of the token `token_id` on this
    /// server.
    pub fn get_storage(&self, token_id: u128) -> (storage: RedisTokenStorage)
        ensures
            storage.token_id == token_id,
            storage.dsn == self.dsn,
    {
        RedisTokenStorage { token_id, dsn: self.dsn.clone() }
    }
}

impl RedisTokenStorage {
    /// The key under which the credentials for `scopes` are kept.
    ///
    /// The scopes are hashed one after the other, with nothing between
    /// them: their order matters, where one ends and the next begins does
    /// not.
    ///
    /// The key is 101 characters long: 36 for the identifier, one for the
    /// underscore and 64 for the digest.
    pub fn get_key(&self, scopes: &Vec<String>) -> (key: String)
        ensures
            key@ == storage_key(self.token_id, scopes.deep_view()),
            key@.len() == 101,
    {
        let mut data: Vec<u8> = Vec::new();
        let mut i: usize = 0;
        while i < scopes.len()
            invariant
                i <= scopes.len(),
                data@ == scope_bytes(scopes.deep_view().take(i as int)),
            decreases scopes.len() - i,
        {
            let ghost before = data@;
            let bytes = scopes[i].as_str().as_bytes();
            data.extend_from_slice(bytes);
            proof {
                let longer = scopes.deep_view().take(i as int + 1);
                assert(longer.drop_last() =~= scopes.deep_view().take(i as int));
                assert(longer.last() == scopes@[i as int]@);
                assert(data@ =~= before + bytes@);
            }
            i += 1;
        }
        proof {
            assert(scopes.deep_view().take(i as int) =~= scopes.deep_view());
        }
        let digest = sha256_digest(data.as_slice());
        let mut key = identifier_text(self.token_id);
        key.append("_");
        key.append(hex_encode(digest.as_slice()).as_str());
        proof {
            reveal_strlit("_");
            assert("_"@ =~= seq!['_']);
            lemma_hex_text_length(digest@);
        }
        key
    }
}

} // verus!
