//! Verification core of a small JWKS-backed bearer-token service.
//!
//! The library owns the logic of the service: deciding whether the cached
//! key-set document must be fetched, parsing the document into the single
//! signing-key record, verifying a presented bearer token against that
//! record, and mapping every outcome to an HTTP status and JSON body.
//! Network and file access stay outside, in the surrounding binary.

pub mod chars;
pub mod claims;
pub mod jwt;
pub mod json_text;
pub mod json_value;
pub mod key_store;
pub mod handler;
pub mod key_source;
pub mod verify;
