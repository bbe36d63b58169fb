use jwks_verify::handler::{handle_verify, AuthHeader};
use jwks_verify::key_store::KeyRecord;

fn test_key() -> KeyRecord {
    KeyRecord {
        modulus: "n2_3g6v93-Jm6OD2nqmxAnXJeVNIVG85IQ4EcOPeXke1hRQQLLwW_2KAZqcKJ4tA".to_string(),
        exponent: "AQAB".to_string(),
        key_id: "k1".to_string(),
    }
}

#[test]
fn missing_header_is_bad_request() {
    let r = handle_verify(&AuthHeader::Missing, &test_key());
    assert_eq!(r.status, 400);
    assert_eq!(r.body, "\"Missing Authorization header\"");
}

#[test]
fn undecodable_header_is_bad_request() {
    let r = handle_verify(&AuthHeader::Undecodable, &test_key());
    assert_eq!(r.status, 400);
    assert_eq!(r.body, "\"Invalid Authorization header\"");
}

#[test]
fn header_without_bearer_space_is_bad_request() {
    let r = handle_verify(&AuthHeader::Text("BearerXYZ".to_string()), &test_key());
    assert_eq!(r.status, 400);
    assert_eq!(r.body, "\"Invalid or missing Bearer token\"");
}

#[test]
fn header_with_other_scheme_is_bad_request() {
    let r = handle_verify(&AuthHeader::Text("Basic dXNlcjpwdw==".to_string()), &test_key());
    assert_eq!(r.status, 400);
    assert_eq!(r.body, "\"Invalid or missing Bearer token\"");
}

#[test]
fn empty_token_is_bad_request() {
    let r = handle_verify(&AuthHeader::Text("Bearer ".to_string()), &test_key());
    assert_eq!(r.status, 400);
    assert_eq!(r.body, "\"Empty Bearer token\"");
}

#[test]
fn garbage_token_is_a_malformed_header() {
    let r = handle_verify(&AuthHeader::Text("Bearer notatoken".to_string()), &test_key());
    assert_eq!(r.status, 400);
    assert!(r.body.starts_with("\"Invalid token header: "));
}

#[test]
fn token_with_one_segment_is_a_malformed_header() {
    let r = handle_verify(&AuthHeader::Text("Bearer abc.def".to_string()), &test_key());
    assert_eq!(r.status, 400);
    assert!(r.body.starts_with("\"Invalid token header: "));
}
