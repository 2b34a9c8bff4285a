use vstd::prelude::*;

verus! {

#[verifier::external_type_specification]
#[verifier::external_body]
pub struct ExUrl(reqwest::Url);

/// Names whether resolving a path against a base URL succeeds: `Url::join`
/// accepts or rejects deterministically, as a function of its two
/// arguments alone.
pub uninterp spec fn join_ok_of(base: reqwest::Url, path: Seq<char>) -> bool;

/// Relies on `Url::join` of the `url` crate (re-exported by reqwest):
/// resolves a path against a base URL, succeeding or not as a function of
/// the two alone; on failure the error's text is returned instead.
#[verifier::external_body]
pub(crate) fn join_url(base: &reqwest::Url, path: &str) -> (r: Result<reqwest::Url, String>)
    ensures
        r is Ok <==> join_ok_of(*base, path@),
{
    match base.join(path) {
        Ok(u) => Ok(u),
        Err(e) => Err(e.to_string()),
    }
}

} // verus!
