//! Generic JSON decoding, delegated to serde_json.
//!
//! Generic user assertions and verifiable-credential payloads carry their
//! data as JSON text; the engine decodes that text into a
//! [`serde_json::Value`], which it carries through opaquely and hands to
//! the caller for serialization.

use vstd::prelude::*;

verus! {

#[verifier::external_type_specification]
#[verifier::external_body]
pub struct ExValue(serde_json::Value);

/// The value a JSON text parses to, or `None` when the text is not valid
/// JSON. What a given text parses to depends on the text alone.
pub uninterp spec fn spec_parse_json(s: Seq<char>) -> Option<serde_json::Value>;

/// Relies on `serde_json::from_str::<serde_json::Value>`: parsing is a
/// deterministic function of the text, returning its JSON value exactly
/// when the text is valid JSON. The error branch carries serde_json's
/// rendered message, about which nothing is assumed.
#[verifier::external_body]
pub(crate) fn parse_json(s: &str) -> (r: Result<serde_json::Value, String>)
    ensures
        r is Ok <==> spec_parse_json(s@) is Some,
        r is Ok ==> r->Ok_0 == spec_parse_json(s@)->0,
{
    serde_json::from_str(s).map_err(|e| e.to_string())
}

} // verus!
