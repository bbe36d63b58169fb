//! Mapping one request to one response.
//!
//! The handler receives the request's `Authorization` header as a plain
//! value — absent, undecodable as text, or its text — together with the
//! trusted key record, and produces the status code and JSON body the
//! service answers with.  Malformed requests are 400, failed
//! authentication is 401, unusable key material is 500, and success is 200
//! with the claims object as body.

use vstd::prelude::*;
use vstd::slice::slice_subrange;
use vstd::string::StringExecFns;
use crate::chars::{chars_of, string_from_chars};
use crate::claims::{claims_json_text, claims_of};
use crate::json_text::{json_quote, json_quoted};
use crate::jwt::{jwt_header_of, jwt_payload_of, rsa_components_accepted};
use crate::key_store::{KeyRecord, KeyRecordModel};
use crate::verify::{kid_matches, verify_token, VerifyError};

verus! {

/// The request's `Authorization` header, as handed in by the HTTP layer.
#[derive(Debug)]
pub enum AuthHeader {
    /// No such header on the request.
    Missing,
    /// The header exists but its bytes are not readable as text.
    Undecodable,
    /// The header's text.
    Text(String),
}

/// The mathematical content of an `AuthHeader`.
pub enum AuthModel {
    Missing,
    Undecodable,
    Text(Seq<char>),
}

impl View for AuthHeader {
    type V = AuthModel;

    open spec fn view(&self) -> AuthModel {
        match self {
            AuthHeader::Missing => AuthModel::Missing,
            AuthHeader::Undecodable => AuthModel::Undecodable,
            AuthHeader::Text(s) => AuthModel::Text(s@),
        }
    }
}

/// One HTTP response: a status code and a JSON body.
#[derive(Debug)]
pub struct Reply {
    pub status: u16,
    pub body: String,
}

/// The mathematical content of a `Reply`.
pub struct ReplyModel {
    pub status: u16,
    pub body: Seq<char>,
}

impl View for Reply {
    type V = ReplyModel;

    open spec fn view(&self) -> ReplyModel {
        ReplyModel { status: self.status, body: self.body@ }
    }
}

/// The token carried by an `Authorization` text: what follows the literal
/// prefix `Bearer `, or nothing when the text does not start with it.
pub open spec fn bearer_token_of(h: Seq<char>) -> Option<Seq<char>> {
    if h.len() >= 7 && h.take(7) == "Bearer "@ {
        Some(h.skip(7))
    } else {
        None
    }
}

/// What the response to a well-formed bearer token `t` must look like.
/// The reply is pinned wherever the outcome is a function of the token
/// text and the key record; past those gates the signature check decides
/// between 200 and 401, and even then a non-RS256 token is always 401 and
/// a 200 body is exactly the payload's claims object.
pub open spec fn verified_reply(r: ReplyModel, t: Seq<char>, key: KeyRecordModel) -> bool {
    &&& jwt_header_of(t) is None ==> r.status == 400 && (exists|m: Seq<char>|
        r.body == json_quoted("Invalid token header: "@ + m))
    &&& jwt_header_of(t) matches Some(h) ==> {
        if !kid_matches(h, key) {
            r == (ReplyModel { status: 401, body: json_quoted("Token key ID does not match"@) })
        } else if !rsa_components_accepted(key.modulus, key.exponent) {
            r.status == 500 && (exists|m: Seq<char>|
                r.body == json_quoted("Failed to create decoding key: "@ + m))
        } else {
            &&& r.status == 200 || r.status == 401
            &&& !h.rs256 ==> r.status == 401
            &&& r.status == 200 ==> h.rs256 && (jwt_payload_of(t) matches Some(p)
                && claims_of(p) matches Some(c) && r.body == claims_json_text(c))
            &&& r.status == 401 ==> (exists|m: Seq<char>|
                r.body == json_quoted("Invalid token: "@ + m))
        }
    }
}

/// A token whose declared key identifier is absent or differs from the
/// record's is answered 401 with the mismatch body, whatever its
/// signature would have checked out to.
pub proof fn lemma_key_mismatch_always_unauthorized(
    r: ReplyModel,
    t: Seq<char>,
    key: KeyRecordModel,
)
    requires
        verified_reply(r, t, key),
        jwt_header_of(t) matches Some(h) && !kid_matches(h, key),
    ensures
        r.status == 401,
        r.body == json_quoted("Token key ID does not match"@),
{
}

/// A token whose header does not decode to a declared RS256 algorithm —
/// another algorithm, or a header the decoder does not accept at all — is
/// never answered 200: downgrade attempts always fail.
pub proof fn lemma_downgrade_always_rejected(r: ReplyModel, t: Seq<char>, key: KeyRecordModel)
    requires
        verified_reply(r, t, key),
        !(jwt_header_of(t) matches Some(h) && h.rs256),
    ensures
        r.status != 200,
{
}

/// A 200 answer is possible only for a token whose payload carries the
/// claims, and its body is exactly those claims serialized: what a
/// successful verification returns is the subject and expiration that
/// were signed into the token, nothing else.
pub proof fn lemma_success_reflects_the_payload(r: ReplyModel, t: Seq<char>, key: KeyRecordModel)
    requires
        verified_reply(r, t, key),
        r.status == 200,
    ensures
        jwt_payload_of(t) matches Some(p) && claims_of(p) matches Some(c) && r.body
            == claims_json_text(c),
        jwt_header_of(t) matches Some(h) && kid_matches(h, key) && h.rs256,
{
}

/// A reply whose body is a fixed message as a JSON string.
fn text_reply(status: u16, msg: &str) -> (r: Reply)
    ensures
        r@ == (ReplyModel { status, body: json_quoted(msg@) }),
{
    Reply { status, body: json_quote(msg) }
}

/// A reply whose body is a labelled diagnostic as a JSON string.
fn labelled_reply(status: u16, label: &str, detail: &str) -> (r: Reply)
    ensures
        r@ == (ReplyModel { status, body: json_quoted(label@ + detail@) }),
{
    let mut s = label.to_owned();
    s.append(detail);
    Reply { status, body: json_quote(s.as_str()) }
}

/// Answer one request.
///
/// A missing or unreadable `Authorization` header, a text without the
/// `Bearer ` prefix, and an empty token are each a distinct 400 with a
/// fixed body.  A well-formed bearer token is answered as
/// `verified_reply` prescribes: 400 for an undecodable token header, 401
/// for a key-identifier mismatch and for every rejected token — an
/// algorithm other than RS256 among them — 500 for unusable key material,
/// and 200 with the serialized claims on success.
pub fn handle_verify(auth: &AuthHeader, key: &KeyRecord) -> (r: Reply)
    ensures
        auth@ is Missing ==> r@ == (ReplyModel {
            status: 400,
            body: json_quoted("Missing Authorization header"@),
        }),
        auth@ is Undecodable ==> r@ == (ReplyModel {
            status: 400,
            body: json_quoted("Invalid Authorization header"@),
        }),
        auth@ matches AuthModel::Text(h) ==> (bearer_token_of(h) is None ==> r@ == (ReplyModel {
            status: 400,
            body: json_quoted("Invalid or missing Bearer token"@),
        })),
        auth@ matches AuthModel::Text(h) ==> (bearer_token_of(h) matches Some(t) ==> (t.len() == 0
            ==> r@ == (ReplyModel { status: 400, body: json_quoted("Empty Bearer token"@) }))),
        auth@ matches AuthModel::Text(h) ==> (bearer_token_of(h) matches Some(t) ==> (t.len() > 0
            ==> verified_reply(r@, t, key@))),
{
    let header_text = match auth {
        AuthHeader::Missing => {
            return text_reply(400, "Missing Authorization header");
        },
        AuthHeader::Undecodable => {
            return text_reply(400, "Invalid Authorization header");
        },
        AuthHeader::Text(s) => s,
    };
    let cs = chars_of(header_text.as_str());
    let long_enough = cs.len() >= 7;
    let has_prefix = long_enough && cs[0] == 'B' && cs[1] == 'e' && cs[2]
        == 'a' && cs[3] == 'r' && cs[4] == 'e' && cs[5] == 'r' && cs[6]
        == ' ';
    proof {
        reveal_strlit("Bearer ");
    }
    if !has_prefix {
        proof {
            if header_text@.len() >= 7 && header_text@.take(7) == "Bearer "@ {
                assert(header_text@.take(7)[0] == 'B');
                assert(header_text@.take(7)[1] == 'e');
                assert(header_text@.take(7)[2] == 'a');
                assert(header_text@.take(7)[3] == 'r');
                assert(header_text@.take(7)[4] == 'e');
                assert(header_text@.take(7)[5] == 'r');
                assert(header_text@.take(7)[6] == ' ');
                assert(false);
            }
        }
        return text_reply(400, "Invalid or missing Bearer token");
    }
    assert(header_text@.take(7) =~= "Bearer "@);
    let token_chars = slice_subrange(cs.as_slice(), 7, cs.len());
    assert(token_chars@ =~= header_text@.skip(7));
    if token_chars.len() == 0 {
        return text_reply(400, "Empty Bearer token");
    }
    let token = string_from_chars(token_chars);
    match verify_token(token.as_str(), key) {
        Ok(c) => {
            let body = c.to_json();
            Reply { status: 200, body }
        },
        Err(VerifyError::MalformedHeader(m)) => labelled_reply(
            400,
            "Invalid token header: ",
            m.as_str(),
        ),
        Err(VerifyError::KeyMismatch) => text_reply(401, "Token key ID does not match"),
        Err(VerifyError::InvalidKeyMaterial(m)) => labelled_reply(
            500,
            "Failed to create decoding key: ",
            m.as_str(),
        ),
        Err(VerifyError::InvalidToken(m)) => labelled_reply(401, "Invalid token: ", m.as_str()),
    }
}

} // verus!
