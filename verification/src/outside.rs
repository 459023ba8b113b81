//! Types and calls of other crates that the library carries through.

use vstd::prelude::*;

verus! {

/// `semver::Version`, a parsed semantic version. Nothing is known of its
/// contents here: a value is only stored and handed on.
#[verifier::external_type_specification]
#[verifier::external_body]
pub struct ExVersion(semver::Version);

/// `hyper::Url`, a parsed URL record. Nothing is known of its contents here: a
/// value is only stored, copied and handed on.
#[verifier::external_type_specification]
#[verifier::external_body]
pub struct ExUrl(hyper::Url);

/// Calls `Clone::clone` of `hyper::Url`, which is derived: the copy has the
/// same fields as the URL it was made from, so the two are the same URL.
#[verifier::external_body]
pub(crate) fn clone_url(url: &hyper::Url) -> (copy: hyper::Url)
    ensures
        copy == *url,
{
    url.clone()
}

} // verus!
