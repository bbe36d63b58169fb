//! The token-verification pipeline.
//!
//! Verification is linear and terminal on the first failure: decode the
//! token's header, match its key identifier against the trusted record,
//! build the RSA decoding key, then let the signature and claims check run
//! under an RS256-only validation.  Each failing step is its own error
//! kind, so that the HTTP layer can map kinds to status codes.

use vstd::prelude::*;
use crate::claims::{claims_of, claims_from_payload, Claims};
use crate::jwt::{decode_rs256, decode_token_header, jwt_header_of, jwt_payload_of,
    make_decoding_key, rsa_components_accepted, JwtHeaderModel};
use crate::key_store::{KeyRecord, KeyRecordModel};

verus! {

/// Why a token was rejected.
#[derive(Debug)]
pub enum VerifyError {
    /// The token's header segment does not decode; carries the decoder's
    /// rendering of the fault.
    MalformedHeader(String),
    /// The token names no key identifier, or one that is not the trusted
    /// record's.
    KeyMismatch,
    /// The trusted record's modulus or exponent is not usable key
    /// material; a server-side fault, not the client's.
    InvalidKeyMaterial(String),
    /// The signature or the structural claims failed validation, or the
    /// payload lacks the required claims.
    InvalidToken(String),
}

/// The kind of a `VerifyError`, with the diagnostic text abstracted away.
pub enum VerifyFailure {
    MalformedHeader,
    KeyMismatch,
    InvalidKeyMaterial,
    InvalidToken,
}

/// The kind of an error value.
pub open spec fn verify_error_kind(e: VerifyError) -> VerifyFailure {
    match e {
        VerifyError::MalformedHeader(_) => VerifyFailure::MalformedHeader,
        VerifyError::KeyMismatch => VerifyFailure::KeyMismatch,
        VerifyError::InvalidKeyMaterial(_) => VerifyFailure::InvalidKeyMaterial,
        VerifyError::InvalidToken(_) => VerifyFailure::InvalidToken,
    }
}

/// The kind of the error in a verification result, `None` on success.
pub open spec fn failure_of(r: Result<Claims, VerifyError>) -> Option<VerifyFailure> {
    match r {
        Ok(_) => None,
        Err(e) => Some(verify_error_kind(e)),
    }
}

/// Whether the token's declared key identifier equals the record's: a
/// token without a key identifier never matches.
pub open spec fn kid_matches(h: JwtHeaderModel, key: KeyRecordModel) -> bool {
    h.kid matches Some(k) && k == key.key_id
}

/// Verify a bearer token against the trusted key record.
///
/// The decidable part of the outcome is pinned: the header must decode
/// (else `MalformedHeader`), its key identifier must equal the record's
/// (else `KeyMismatch`), and the record's components must be usable key
/// material (else `InvalidKeyMaterial`), in that order.  Past those gates
/// the signature and claims check decides between success and
/// `InvalidToken`; a token whose header declares an algorithm other than
/// RS256 always fails.  On success the returned claims are exactly the
/// subject and expiration of the token's payload.
pub fn verify_token(token: &str, key: &KeyRecord) -> (r: Result<Claims, VerifyError>)
    ensures
        (failure_of(r) == Some(VerifyFailure::MalformedHeader)) <==> jwt_header_of(token@) is None,
        jwt_header_of(token@) matches Some(h) ==> ((failure_of(r) == Some(VerifyFailure::KeyMismatch))
            <==> !kid_matches(h, key@)),
        (jwt_header_of(token@) matches Some(h) && kid_matches(h, key@)) ==> ((failure_of(r)
            == Some(VerifyFailure::InvalidKeyMaterial)) <==> !rsa_components_accepted(
            key@.modulus,
            key@.exponent,
        )),
        jwt_header_of(token@) matches Some(h) && !h.rs256 ==> r is Err,
        r is Ok ==> {
            &&& jwt_header_of(token@) matches Some(h) && kid_matches(h, key@) && h.rs256
            &&& rsa_components_accepted(key@.modulus, key@.exponent)
        },
        r matches Ok(c) ==> jwt_payload_of(token@) matches Some(p) && claims_of(p) == Some(c@),
{
    let header = match decode_token_header(token) {
        Ok(h) => h,
        Err(m) => {
            return Err(VerifyError::MalformedHeader(m));
        },
    };
    let matches_kid = match &header.kid {
        Some(k) => *k == key.key_id,
        None => false,
    };
    if !matches_kid {
        return Err(VerifyError::KeyMismatch);
    }
    let decoding_key = match make_decoding_key(key.modulus.as_str(), key.exponent.as_str()) {
        Ok(k) => k,
        Err(m) => {
            return Err(VerifyError::InvalidKeyMaterial(m));
        },
    };
    let payload = match decode_rs256(token, &decoding_key) {
        Ok(v) => v,
        Err(m) => {
            return Err(VerifyError::InvalidToken(m));
        },
    };
    match claims_from_payload(&payload) {
        Some(c) => Ok(c),
        None => Err(VerifyError::InvalidToken("payload is missing a usable sub or exp claim".to_owned())),
    }
}

} // verus!
