use vstd::prelude::*;

verus! {

/// Whether `url::Url::parse` accepts the text as an absolute URL.
pub uninterp spec fn url_parses(s: Seq<char>) -> bool;

/// Relies on `url::Url::parse`: whether it returns `Ok` depends on the input
/// alone, and an input without a `:` has no scheme, so it is refused.
#[verifier::external_body]
pub(crate) fn is_well_formed(s: &str) -> (r: bool)
    ensures
        r == url_parses(s@),
        !s@.contains(':') ==> !r,
{
    url::Url::parse(s).is_ok()
}

} // verus!
