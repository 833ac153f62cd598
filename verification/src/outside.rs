//! What the library believes about the crate `url`.

use vstd::prelude::*;

verus! {

/// A parsed URL of the crate `url`. The library stores URLs and passes them on;
/// it never looks inside one.
#[verifier::external_type_specification]
#[verifier::external_body]
pub struct ExUrl(url::Url);

/// `Clone` of `url::Url`, which the crate derives: the copy is the same URL.
pub assume_specification[ <url::Url as Clone>::clone ](url: &url::Url) -> (res: url::Url)
    ensures
        res == *url,
;

} // verus!
