//! Passwords and tokens.
//!
//! Passwords are hashed with bcrypt. A token is a JSON Web Token signed
//! with HMAC-SHA256; its claims are pairs of texts.

use vstd::prelude::*;
use hmac::digest::KeyInit;
use hmac::Hmac;
use jwt::{SignWithKey, VerifyWithKey};
use sha2::Sha256;
use std::collections::BTreeMap;
use crate::text::pair_views;

verus! {

/// Whether the password is the one that the hash was made from; nothing
/// where the text is no bcrypt hash.
pub uninterp spec fn bcrypt_verdict(password: Seq<char>, hash: Seq<char>) -> Option<bool>;

/// The claims of a token that is signed with the secret, ordered by
/// name; nothing for a text that is no such token.
pub uninterp spec fn jwt_claims(secret: Seq<char>, token: Seq<char>) -> Option<
    Seq<(Seq<char>, Seq<char>)>,
>;

/// The token that carries the claims, signed with the secret.
pub uninterp spec fn jwt_signed(secret: Seq<char>, claims: Seq<(Seq<char>, Seq<char>)>) -> Option<
    Seq<char>,
>;

/// `bcrypt::hash` at the default cost: a hash of the password with a salt
/// drawn at random. The password verifies against its hash.
#[verifier::external_body]
pub fn password_hash(password: &str) -> (r: Result<String, String>)
    ensures
        match r {
            Ok(hash) => bcrypt_verdict(password@, hash@) == Some(true),
            Err(_) => true,
        },
{
    bcrypt::hash(password, bcrypt::DEFAULT_COST).map_err(|e| e.to_string())
}

/// `bcrypt::verify`: whether the password is the one that the hash was
/// made from, or the error for a text that is no bcrypt hash.
#[verifier::external_body]
pub fn password_verify(password: &str, hash: &str) -> (r: Result<bool, String>)
    ensures
        match r {
            Ok(matched) => bcrypt_verdict(password@, hash@) == Some(matched),
            Err(_) => bcrypt_verdict(password@, hash@) is None,
        },
{
    bcrypt::verify(password, hash).map_err(|e| e.to_string())
}

/// `Hmac::<Sha256>::new_from_slice` and `SignWithKey::sign_with_key`: the
/// token that carries the claims, signed with the secret.
#[verifier::external_body]
pub fn jwt_from_map(secret: &str, map: Vec<(String, String)>) -> (r: Result<String, String>)
    ensures
        match r {
            Ok(token) => jwt_signed(secret@, pair_views(map@)) == Some(token@),
            Err(_) => jwt_signed(secret@, pair_views(map@)) is None,
        },
{
    let key: Hmac<Sha256> = match Hmac::new_from_slice(secret.as_bytes()) {
        Ok(key) => key,
        Err(e) => return Err(e.to_string()),
    };
    let claims: BTreeMap<String, String> = map.into_iter().collect();
    claims.sign_with_key(&key).map_err(|e| e.to_string())
}

/// `Hmac::<Sha256>::new_from_slice` and `VerifyWithKey::verify_with_key`:
/// the claims of a token that is signed with the secret, ordered by name,
/// or the error for a text that is no such token.
#[verifier::external_body]
pub fn jwt_to_map(secret: &str, jwt: &str) -> (r: Result<Vec<(String, String)>, String>)
    ensures
        match r {
            Ok(claims) => jwt_claims(secret@, jwt@) == Some(pair_views(claims@)),
            Err(_) => jwt_claims(secret@, jwt@) is None,
        },
{
    let key: Hmac<Sha256> = match Hmac::new_from_slice(secret.as_bytes()) {
        Ok(key) => key,
        Err(e) => return Err(e.to_string()),
    };
    let claims: BTreeMap<String, String> = match jwt.verify_with_key(&key) {
        Ok(claims) => claims,
        Err(e) => return Err(e.to_string()),
    };
    Ok(claims.into_iter().collect())
}

} // verus!
