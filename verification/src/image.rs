use vstd::prelude::*;
use vstd::string::StringExecFns;

verus! {

/// The outcome of the image request, as plain values: the final URL the
/// request resolved to on a success status, or the failure status otherwise.
pub enum ImageOutcome {
    Success { resolved_url: String },
    Failure { status: u16 },
}

/// The fixed placeholder image used whenever the primary image cannot be
/// resolved.
pub open spec fn fallback_image_spec() -> Seq<char> {
    "https://play-lh.googleusercontent.com/FAlWhVMAjAzI6Nxc7bf4KPgjbwA3GT9j2bzeAMnRpdWim_2SXnS9i4zhwasKWIC8PV4"@
}

/// The placeholder image URL, as an owned string.
pub fn fallback_image_url() -> (s: String)
    ensures
        s@ == fallback_image_spec(),
{
    "https://play-lh.googleusercontent.com/FAlWhVMAjAzI6Nxc7bf4KPgjbwA3GT9j2bzeAMnRpdWim_2SXnS9i4zhwasKWIC8PV4".to_owned()
}

/// Judge the image response: only a `200 OK` counts as success and carries the
/// URL the request finally resolved to; any other status is a failure, which
/// `resolve_image` degrades to the fallback.
pub fn image_outcome(status: u16, resolved_url: String) -> (o: ImageOutcome)
    ensures
        status == 200 ==> (o matches ImageOutcome::Success { resolved_url: u } && u@
            == resolved_url@),
        status != 200 ==> o == (ImageOutcome::Failure { status }),
{
    if status == 200 {
        ImageOutcome::Success { resolved_url }
    } else {
        ImageOutcome::Failure { status }
    }
}

/// What `resolve_image` returns for each outcome.
pub open spec fn resolved_image_spec(outcome: ImageOutcome) -> Seq<char> {
    match outcome {
        ImageOutcome::Success { resolved_url } => resolved_url@,
        ImageOutcome::Failure { .. } => fallback_image_spec(),
    }
}

/// Turn the image request's outcome into the URL to display. Total: a success
/// yields the resolved URL itself, any other outcome degrades to the fixed
/// fallback; the caller is never failed.
pub fn resolve_image(outcome: ImageOutcome) -> (url: String)
    ensures
        url@ == resolved_image_spec(outcome),
{
    match outcome {
        ImageOutcome::Success { resolved_url } => resolved_url,
        ImageOutcome::Failure { status: _ } => fallback_image_url(),
    }
}

/// The URL of the primary-image request for an item:
/// `{endpoint}/Items/{item_id}/Images/Primary`.
pub open spec fn image_request_url_spec(endpoint: Seq<char>, item_id: Seq<char>) -> Seq<char> {
    endpoint + "/Items/"@ + item_id + "/Images/Primary"@
}

/// Build the primary-image request URL for an item.
pub fn image_request_url(endpoint: &str, item_id: &str) -> (u: String)
    ensures
        u@ == image_request_url_spec(endpoint@, item_id@),
{
    endpoint.to_owned().concat("/Items/").concat(item_id).concat("/Images/Primary")
}

} // verus!
