//! The claims a verified token yields, and their JSON rendering.
//!
//! A token's payload must carry a string `sub` (subject) and an unsigned
//! integer `exp` (expiration, seconds since the epoch); anything else in
//! the payload is ignored.  A successful verification answers with the
//! claims serialized as a JSON object in exactly that member order.

use vstd::prelude::*;
use vstd::string::StringExecFns;
use crate::json_text::{dec_digits, decimal_string, json_quote, json_quoted};
use crate::json_value::{json_model, str_member, str_member_of, u64_member, u64_member_of,
    JsonModel};

verus! {

/// The claims of a verified token.
#[derive(Clone, Debug)]
pub struct Claims {
    pub sub: String,
    pub exp: u64,
}

/// The mathematical content of `Claims`.
pub struct ClaimsModel {
    pub sub: Seq<char>,
    pub exp: u64,
}

impl View for Claims {
    type V = ClaimsModel;

    open spec fn view(&self) -> ClaimsModel {
        ClaimsModel { sub: self.sub@, exp: self.exp }
    }
}

/// The claims carried by a token payload: present exactly when the payload
/// is an object with a string `sub` and an unsigned integer `exp`.
pub open spec fn claims_of(payload: JsonModel) -> Option<ClaimsModel> {
    match str_member_of(payload, "sub"@) {
        None => None,
        Some(sub) => match u64_member_of(payload, "exp"@) {
            None => None,
            Some(exp) => Some(ClaimsModel { sub, exp }),
        },
    }
}

/// The JSON text of a claims object: `{"sub":<string>,"exp":<number>}`.
pub open spec fn claims_json_text(c: ClaimsModel) -> Seq<char> {
    "{\"sub\":"@ + json_quoted(c.sub) + ",\"exp\":"@ + dec_digits(c.exp as nat) + "}"@
}

/// Extract the claims from a decoded token payload.
pub fn claims_from_payload(payload: &serde_json::Value) -> (r: Option<Claims>)
    ensures
        r is Some <==> claims_of(json_model(*payload)) is Some,
        r matches Some(c) ==> claims_of(json_model(*payload)) == Some(c@),
{
    let sub = match str_member(payload, "sub") {
        Some(s) => s,
        None => {
            return None;
        },
    };
    let exp = match u64_member(payload, "exp") {
        Some(v) => v,
        None => {
            return None;
        },
    };
    Some(Claims { sub, exp })
}

impl Claims {
    /// Serialize the claims as their JSON object.
    pub fn to_json(&self) -> (r: String)
        ensures
            r@ == claims_json_text(self@),
    {
        let mut s = "{\"sub\":".to_owned();
        let quoted = json_quote(self.sub.as_str());
        s.append(quoted.as_str());
        s.append(",\"exp\":");
        let num = decimal_string(self.exp);
        s.append(num.as_str());
        s.append("}");
        assert(s@ =~= claims_json_text(self@));
        s
    }
}

} // verus!
