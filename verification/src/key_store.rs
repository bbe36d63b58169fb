//! Parsing the key-set document into the one usable signing-key record.
//!
//! The document must be JSON with a `keys` array; only its first element is
//! read, and that element must carry non-empty string members `n`
//! (modulus), `e` (exponent) and `kid` (key identifier) — an empty member
//! is as unusable as an absent one.  Each way the document can fall short
//! is a distinct error, so that startup diagnostics name the cause.

use vstd::prelude::*;
use vstd::string::StringExecFns;
use crate::json_value::{json_get_index, json_get_member, json_model, json_parse, parse_json,
    str_member, str_member_of, JsonModel};

verus! {

/// The one RSA public key the service trusts: base64url modulus and
/// exponent, and the key identifier tokens must name.
#[derive(Clone, Debug)]
pub struct KeyRecord {
    pub modulus: String,
    pub exponent: String,
    pub key_id: String,
}

/// The mathematical content of a `KeyRecord`.
pub struct KeyRecordModel {
    pub modulus: Seq<char>,
    pub exponent: Seq<char>,
    pub key_id: Seq<char>,
}

impl KeyRecordModel {
    /// The record invariant: all three fields are non-empty.  A record
    /// with an empty field is never produced; loading treats such a
    /// member like an absent one.
    pub open spec fn wf(self) -> bool {
        &&& self.modulus.len() > 0
        &&& self.exponent.len() > 0
        &&& self.key_id.len() > 0
    }
}

impl View for KeyRecord {
    type V = KeyRecordModel;

    open spec fn view(&self) -> KeyRecordModel {
        KeyRecordModel {
            modulus: self.modulus@,
            exponent: self.exponent@,
            key_id: self.key_id@,
        }
    }
}

/// Why the key-set document yielded no key record.
#[derive(Debug)]
pub enum ParseError {
    /// The document is not valid JSON; carries the parser's rendering of
    /// the fault.
    NotJson(String),
    /// There is no `keys` array with a first element.
    NoKeys,
    /// The first key has no non-empty string member `n`.
    MissingModulus,
    /// The first key has no non-empty string member `e`.
    MissingExponent,
    /// The first key has no non-empty string member `kid`.
    MissingKeyId,
}

/// The kind of a `ParseError`, with the diagnostic text abstracted away.
pub enum ParseFailure {
    NotJson,
    NoKeys,
    MissingModulus,
    MissingExponent,
    MissingKeyId,
}

/// The kind of an error value.
pub open spec fn parse_error_kind(e: ParseError) -> ParseFailure {
    match e {
        ParseError::NotJson(_) => ParseFailure::NotJson,
        ParseError::NoKeys => ParseFailure::NoKeys,
        ParseError::MissingModulus => ParseFailure::MissingModulus,
        ParseError::MissingExponent => ParseFailure::MissingExponent,
        ParseError::MissingKeyId => ParseFailure::MissingKeyId,
    }
}

/// The diagnostic line a `ParseError` prints as.
pub open spec fn parse_error_text(e: ParseError) -> Seq<char> {
    match e {
        ParseError::NotJson(m) => "Failed to parse JWKS JSON: "@ + m@,
        ParseError::NoKeys => "No keys found in JWKS"@,
        ParseError::MissingModulus => "Missing RSA modulus in JWKS"@,
        ParseError::MissingExponent => "Missing RSA exponent in JWKS"@,
        ParseError::MissingKeyId => "Missing key ID in JWKS"@,
    }
}

impl ParseError {
    /// The diagnostic line for this error.
    pub fn message(&self) -> (r: String)
        ensures
            r@ == parse_error_text(*self),
    {
        match self {
            ParseError::NotJson(m) => {
                let mut s = "Failed to parse JWKS JSON: ".to_owned();
                s.append(m.as_str());
                s
            },
            ParseError::NoKeys => "No keys found in JWKS".to_owned(),
            ParseError::MissingModulus => "Missing RSA modulus in JWKS".to_owned(),
            ParseError::MissingExponent => "Missing RSA exponent in JWKS".to_owned(),
            ParseError::MissingKeyId => "Missing key ID in JWKS".to_owned(),
        }
    }
}

/// Whether the document is an object whose `keys` member is a non-empty
/// array.
pub open spec fn has_first_key(j: JsonModel) -> bool {
    &&& j matches JsonModel::Obj(m)
    &&& m.contains_key("keys"@)
    &&& m["keys"@] matches JsonModel::Arr(a)
    &&& a.len() > 0
}

/// The first element of the document's `keys` array, if the document is an
/// object with such an array and the array is non-empty.
pub open spec fn first_key_of(j: JsonModel) -> Option<JsonModel> {
    if has_first_key(j) {
        Some(j->Obj_0["keys"@]->Arr_0[0])
    } else {
        None
    }
}

/// A string member of the first key that is usable as key material:
/// present, a string, and non-empty.  An empty member counts as missing.
pub open spec fn usable_member_of(j: JsonModel, name: Seq<char>) -> Option<Seq<char>> {
    match str_member_of(j, name) {
        Some(s) => if s.len() > 0 {
            Some(s)
        } else {
            None
        },
        None => None,
    }
}

/// What loading a key-set document text yields: the record read from the
/// first key, or the first failure in document order — not JSON, then no
/// first key, then each missing or empty string member, modulus before
/// exponent before key identifier.  A returned record always satisfies
/// its invariant: no field is empty.
pub open spec fn key_record_spec(doc: Seq<char>) -> Result<KeyRecordModel, ParseFailure> {
    match json_parse(doc) {
        None => Err(ParseFailure::NotJson),
        Some(j) => match first_key_of(j) {
            None => Err(ParseFailure::NoKeys),
            Some(k) => match usable_member_of(k, "n"@) {
                None => Err(ParseFailure::MissingModulus),
                Some(n) => match usable_member_of(k, "e"@) {
                    None => Err(ParseFailure::MissingExponent),
                    Some(e) => match usable_member_of(k, "kid"@) {
                        None => Err(ParseFailure::MissingKeyId),
                        Some(kid) => Ok(KeyRecordModel { modulus: n, exponent: e, key_id: kid }),
                    },
                },
            },
        },
    }
}

/// Read a non-empty string member of the first key.
fn usable_member(key: &serde_json::Value, name: &str) -> (r: Option<String>)
    ensures
        r is Some <==> usable_member_of(json_model(*key), name@) is Some,
        r matches Some(s) ==> usable_member_of(json_model(*key), name@) == Some(s@),
{
    match str_member(key, name) {
        Some(s) => {
            if s.as_str().is_empty() {
                None
            } else {
                Some(s)
            }
        },
        None => None,
    }
}

/// Load the signing-key record from the key-set document text.  The result
/// is a function of the text alone, pinned by `key_record_spec`: the same
/// document always yields the same record or the same kind of failure, and
/// a returned record satisfies the `KeyRecord` invariant.
pub fn load_key_record(doc: &str) -> (r: Result<KeyRecord, ParseError>)
    ensures
        r is Ok <==> key_record_spec(doc@) is Ok,
        r matches Ok(rec) ==> key_record_spec(doc@) == Ok::<KeyRecordModel, ParseFailure>(rec@),
        r matches Ok(rec) ==> rec@.wf(),
        r matches Err(e) ==> key_record_spec(doc@)
            == Err::<KeyRecordModel, ParseFailure>(parse_error_kind(e)),
{
    let parsed = match parse_json(doc) {
        Ok(v) => v,
        Err(m) => {
            return Err(ParseError::NotJson(m));
        },
    };
    let keys = match json_get_member(&parsed, "keys") {
        Some(v) => v,
        None => {
            return Err(ParseError::NoKeys);
        },
    };
    let key = match json_get_index(keys, 0) {
        Some(v) => v,
        None => {
            return Err(ParseError::NoKeys);
        },
    };
    let modulus = match usable_member(key, "n") {
        Some(s) => s,
        None => {
            return Err(ParseError::MissingModulus);
        },
    };
    let exponent = match usable_member(key, "e") {
        Some(s) => s,
        None => {
            return Err(ParseError::MissingExponent);
        },
    };
    let key_id = match usable_member(key, "kid") {
        Some(s) => s,
        None => {
            return Err(ParseError::MissingKeyId);
        },
    };
    Ok(KeyRecord { modulus, exponent, key_id })
}

} // verus!
