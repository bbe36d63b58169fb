//! Trusted interface to `jsonwebtoken`, the library that decodes token
//! headers and checks RS256 signatures.
//!
//! A token's header and payload are functions of the token text alone, so
//! they get spec-level names here.  Whether a signature check succeeds also
//! depends on the key and on the clock (expiry), so nothing names it: the
//! decode wrapper states only what holds of every outcome, and the verified
//! code decides everything else.

use vstd::prelude::*;
use crate::json_value::{json_model, JsonModel};

verus! {

#[verifier::external_type_specification]
#[verifier::external_body]
pub struct ExDecodingKey(jsonwebtoken::DecodingKey);

/// What this service reads from a token's decoded header: the key
/// identifier, if any, and whether the declared algorithm is RS256.
pub struct JwtHeaderModel {
    pub kid: Option<Seq<char>>,
    pub rs256: bool,
}

/// The decoded header of a token text: `None` when the token does not
/// split into segments with a header that decodes, otherwise what the
/// header declares.  A function of the token text alone.
pub uninterp spec fn jwt_header_of(t: Seq<char>) -> Option<JwtHeaderModel>;

/// The decoded payload of a token text: `None` when the payload segment is
/// not base64url-encoded JSON, otherwise the JSON value it encodes.  A
/// function of the token text alone.
pub uninterp spec fn jwt_payload_of(t: Seq<char>) -> Option<JsonModel>;

/// Whether `jsonwebtoken` accepts this modulus and exponent as RSA key
/// components: both must be unpadded base64url text.  A function of the
/// two texts alone.
pub uninterp spec fn rsa_components_accepted(n: Seq<char>, e: Seq<char>) -> bool;

/// The decoded header as verified code holds it.
pub struct TokenHeader {
    pub kid: Option<String>,
    pub rs256: bool,
}

impl View for TokenHeader {
    type V = JwtHeaderModel;

    open spec fn view(&self) -> JwtHeaderModel {
        JwtHeaderModel {
            kid: match self.kid {
                Some(k) => Some(k@),
                None => None,
            },
            rs256: self.rs256,
        }
    }
}

/// Relies on `jsonwebtoken::decode_header`: it reads the header segment of
/// the token without touching signature or claims, and its result depends
/// on the token text alone.
#[verifier::external_body]
pub fn decode_token_header(token: &str) -> (r: Result<TokenHeader, String>)
    ensures
        r is Ok <==> jwt_header_of(token@) is Some,
        r matches Ok(h) ==> jwt_header_of(token@) == Some(h@),
{
    match jsonwebtoken::decode_header(token) {
        Ok(h) => Ok(TokenHeader {
            rs256: matches!(h.alg, jsonwebtoken::Algorithm::RS256),
            kid: h.kid,
        }),
        Err(e) => Err(format!("{}", e)),
    }
}

/// Relies on `jsonwebtoken::DecodingKey::from_rsa_components`: it succeeds
/// exactly when both components decode as unpadded base64url, a condition
/// on the two texts alone.
#[verifier::external_body]
pub fn make_decoding_key(modulus: &str, exponent: &str) -> (r: Result<
    jsonwebtoken::DecodingKey,
    String,
>)
    ensures
        r is Ok <==> rsa_components_accepted(modulus@, exponent@),
{
    match jsonwebtoken::DecodingKey::from_rsa_components(modulus, exponent) {
        Ok(k) => Ok(k),
        Err(e) => Err(format!("{}", e)),
    }
}

/// Relies on `jsonwebtoken::decode` with a validation fixed to RS256 and
/// its defaults (expiry required and checked, with the crate's default
/// leeway).  Its source shows: success requires the header to decode and
/// to declare RS256, and on success the returned claims are exactly the
/// token's decoded payload.  Whether an RS256 token with a sound payload
/// succeeds additionally depends on the signature, the key and the clock,
/// so no clause promises success.
#[verifier::external_body]
pub fn decode_rs256(token: &str, key: &jsonwebtoken::DecodingKey) -> (r: Result<
    serde_json::Value,
    String,
>)
    ensures
        jwt_header_of(token@) is None ==> r is Err,
        jwt_header_of(token@) matches Some(h) && !h.rs256 ==> r is Err,
        r matches Ok(v) ==> {
            &&& jwt_header_of(token@) matches Some(h) && h.rs256
            &&& jwt_payload_of(token@) == Some(json_model(v))
        },
{
    let validation = jsonwebtoken::Validation::new(jsonwebtoken::Algorithm::RS256);
    match jsonwebtoken::decode::<serde_json::Value>(token, key, &validation) {
        Ok(data) => Ok(data.claims),
        Err(e) => Err(format!("{}", e)),
    }
}

} // verus!
