use reqwest::Error as RequestFailure;
use vstd::prelude::*;

verus! {

#[verifier::external_type_specification]
#[verifier::external_body]
pub struct ExRequestFailure(RequestFailure);

/// The HTTP status that a failed request carries, if any.
pub uninterp spec fn failure_status(e: RequestFailure) -> Option<u16>;

/// Relies on reqwest::Error::status (read through StatusCode::as_u16): the
/// HTTP status that a failed request carries, if it carries one.
#[verifier::external_body]
pub(crate) fn reqwest_status(value: &RequestFailure) -> (r: Option<u16>)
    ensures
        r == failure_status(*value),
{
    value.status().map(|code| code.as_u16())
}

/// Relies on reqwest::Error's Display impl: the error's description.
#[verifier::external_body]
pub(crate) fn reqwest_description(value: &RequestFailure) -> (r: String) {
    value.to_string()
}

} // verus!
