use vstd::prelude::*;

verus! {

/// Whether a text is one well-formed JSON document.
pub uninterp spec fn parses_as_json(text: Seq<char>) -> bool;

/// Relies on serde_json::from_str: it accepts the text exactly when the text is
/// one well-formed JSON value, which depends on the text alone.
#[verifier::external_body]
pub(crate) fn is_json(text: &str) -> (r: bool)
    ensures
        r == parses_as_json(text@),
{
    serde_json::from_str::<serde_json::Value>(text).is_ok()
}

} // verus!
