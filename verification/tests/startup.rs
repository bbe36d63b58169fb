use jwks_verify::key_source::{jwks_cache_path, jwks_url, plan_key_document, KeyDocumentPlan};
use jwks_verify::key_store::{load_key_record, ParseError};

#[test]
fn existing_cache_is_used_without_fetching() {
    assert_eq!(plan_key_document(true), KeyDocumentPlan::UseCache);
}

#[test]
fn missing_cache_is_fetched() {
    assert_eq!(plan_key_document(false), KeyDocumentPlan::FetchAndStore);
}

#[test]
fn cache_path_names_the_client() {
    assert_eq!(jwks_cache_path("abc123"), "abc123-jwks.json");
}

#[test]
fn url_names_the_client() {
    assert_eq!(jwks_url("abc123"), "https://api.workos.com/sso/jwks/abc123");
}

#[test]
fn loading_the_cached_document_twice_is_identical() {
    let doc = "{\"keys\":[{\"n\":\"mod\",\"e\":\"AQAB\",\"kid\":\"k1\"}]}";
    assert_eq!(plan_key_document(true), KeyDocumentPlan::UseCache);
    let first = load_key_record(doc).unwrap();
    let second = load_key_record(doc).unwrap();
    assert_eq!(first.modulus, second.modulus);
    assert_eq!(first.exponent, second.exponent);
    assert_eq!(first.key_id, second.key_id);
}

#[test]
fn document_with_one_key_loads() {
    let doc = "{\"keys\":[{\"n\":\"some-modulus\",\"e\":\"AQAB\",\"kid\":\"k1\"}]}";
    let rec = load_key_record(doc).unwrap();
    assert_eq!(rec.modulus, "some-modulus");
    assert_eq!(rec.exponent, "AQAB");
    assert_eq!(rec.key_id, "k1");
}

#[test]
fn extra_members_and_keys_are_ignored() {
    let doc = "{\"keys\":[{\"alg\":\"RS256\",\"n\":\"m1\",\"e\":\"AQAB\",\"kid\":\"a\",\"use\":\"sig\"},{\"n\":\"m2\",\"e\":\"AQAB\",\"kid\":\"b\"}],\"other\":3}";
    let rec = load_key_record(doc).unwrap();
    assert_eq!(rec.modulus, "m1");
    assert_eq!(rec.key_id, "a");
}

#[test]
fn invalid_json_is_a_parse_failure() {
    let e = load_key_record("not json at all").unwrap_err();
    assert!(matches!(e, ParseError::NotJson(_)));
    assert!(e.message().starts_with("Failed to parse JWKS JSON: "));
}

#[test]
fn document_without_keys_member_fails() {
    let e = load_key_record("{\"other\":[]}").unwrap_err();
    assert!(matches!(e, ParseError::NoKeys));
    assert_eq!(e.message(), "No keys found in JWKS");
}

#[test]
fn empty_keys_array_fails() {
    let e = load_key_record("{\"keys\":[]}").unwrap_err();
    assert!(matches!(e, ParseError::NoKeys));
}

#[test]
fn keys_member_of_wrong_kind_fails() {
    let e = load_key_record("{\"keys\":3}").unwrap_err();
    assert!(matches!(e, ParseError::NoKeys));
}

#[test]
fn missing_modulus_fails() {
    let e = load_key_record("{\"keys\":[{\"e\":\"AQAB\",\"kid\":\"k1\"}]}").unwrap_err();
    assert!(matches!(e, ParseError::MissingModulus));
    assert_eq!(e.message(), "Missing RSA modulus in JWKS");
}

#[test]
fn non_string_modulus_fails() {
    let e = load_key_record("{\"keys\":[{\"n\":5,\"e\":\"AQAB\",\"kid\":\"k1\"}]}").unwrap_err();
    assert!(matches!(e, ParseError::MissingModulus));
}

#[test]
fn empty_modulus_fails() {
    let e = load_key_record("{\"keys\":[{\"n\":\"\",\"e\":\"AQAB\",\"kid\":\"k1\"}]}").unwrap_err();
    assert!(matches!(e, ParseError::MissingModulus));
}

#[test]
fn empty_exponent_fails() {
    let e = load_key_record("{\"keys\":[{\"n\":\"m\",\"e\":\"\",\"kid\":\"k1\"}]}").unwrap_err();
    assert!(matches!(e, ParseError::MissingExponent));
}

#[test]
fn empty_key_id_fails() {
    let e = load_key_record("{\"keys\":[{\"n\":\"m\",\"e\":\"AQAB\",\"kid\":\"\"}]}").unwrap_err();
    assert!(matches!(e, ParseError::MissingKeyId));
}

#[test]
fn missing_exponent_fails() {
    let e = load_key_record("{\"keys\":[{\"n\":\"m\",\"kid\":\"k1\"}]}").unwrap_err();
    assert!(matches!(e, ParseError::MissingExponent));
    assert_eq!(e.message(), "Missing RSA exponent in JWKS");
}

#[test]
fn missing_key_id_fails() {
    let e = load_key_record("{\"keys\":[{\"n\":\"m\",\"e\":\"AQAB\"}]}").unwrap_err();
    assert!(matches!(e, ParseError::MissingKeyId));
    assert_eq!(e.message(), "Missing key ID in JWKS");
}
