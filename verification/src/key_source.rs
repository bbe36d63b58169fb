//! Startup planning for the key-set document cache.
//!
//! The service keeps the provider's key-set document in a local file named
//! after the configured client identifier.  At startup the document is
//! fetched over the network only when that file does not exist yet; an
//! existing file is used as-is, with no freshness check.  The decision and
//! the derived file name and URL are computed here; the binary performs the
//! actual file test, download and write.

use vstd::prelude::*;
use vstd::string::StringExecFns;

verus! {

/// What startup must do about the key-set document.
#[derive(Clone, Copy, Debug, PartialEq, Eq, Structural)]
pub enum KeyDocumentPlan {
    /// The cache file exists: read it, touch the network not at all.
    UseCache,
    /// The cache file is absent: download the document once and store it.
    FetchAndStore,
}

/// The plan as a function of cache-file existence alone.
pub open spec fn plan_spec(cache_exists: bool) -> KeyDocumentPlan {
    if cache_exists {
        KeyDocumentPlan::UseCache
    } else {
        KeyDocumentPlan::FetchAndStore
    }
}

/// Decide how to obtain the key-set document: an existing cache file is
/// always used directly, and only a missing one causes a fetch.
pub fn plan_key_document(cache_exists: bool) -> (r: KeyDocumentPlan)
    ensures
        r == plan_spec(cache_exists),
{
    if cache_exists {
        KeyDocumentPlan::UseCache
    } else {
        KeyDocumentPlan::FetchAndStore
    }
}

/// The cache file name for a client identifier: `<client_id>-jwks.json`.
pub fn jwks_cache_path(client_id: &str) -> (r: String)
    ensures
        r@ == client_id@ + "-jwks.json"@,
{
    let mut s = client_id.to_owned();
    s.append("-jwks.json");
    s
}

/// The provider endpoint for a client identifier's key-set document.
pub fn jwks_url(client_id: &str) -> (r: String)
    ensures
        r@ == "https://api.workos.com/sso/jwks/"@ + client_id@,
{
    let mut s = "https://api.workos.com/sso/jwks/".to_owned();
    s.append(client_id);
    s
}

/// With the cache file already present, startup never fetches: the plan is
/// `UseCache` no matter how often it is recomputed.  Together with
/// `load_key_record`'s postcondition, which pins its result to a function of
/// the document text alone, repeated startups over the same cache file yield
/// identical key records.
pub proof fn lemma_existing_cache_never_fetches()
    ensures
        plan_spec(true) == KeyDocumentPlan::UseCache,
        forall|b: bool| plan_spec(b) == KeyDocumentPlan::FetchAndStore ==> !b,
{
}

} // verus!
