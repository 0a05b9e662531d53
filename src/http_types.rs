//! The `http` crate's types that probe definitions carry, and the calls into
//! `http` and std whose results the configuration logic builds on.
use vstd::prelude::*;

verus! {

#[verifier::external_type_specification]
#[verifier::external_body]
pub struct ExUri(http::Uri);

#[verifier::external_type_specification]
#[verifier::external_body]
pub struct ExInvalidUri(http::uri::InvalidUri);

#[verifier::external_type_specification]
#[verifier::external_body]
pub struct ExHeaderValue(http::HeaderValue);

#[verifier::external_type_specification]
#[verifier::external_body]
#[verifier::reject_recursive_types(T)]
pub struct ExHeaderMap<T>(http::HeaderMap<T>);

/// Relies on `http::Uri`'s derived `Clone`; nothing is claimed of the copy.
pub assume_specification[ <http::Uri as Clone>::clone ](u: &http::Uri) -> http::Uri;

/// Relies on `http::HeaderMap`'s derived `Clone`; nothing is claimed of the
/// copy.
pub assume_specification<T>[ <http::HeaderMap<T> as Clone>::clone ](m: &http::HeaderMap<T>) -> http::HeaderMap<T>
    where
        T: Clone,
;

/// Whether `http` accepts the text as a URI.
pub uninterp spec fn uri_accepts(s: Seq<char>) -> bool;

/// The lower-case form of a text, as std's `str::to_lowercase` gives it.
pub uninterp spec fn lower_of(s: Seq<char>) -> Seq<char>;

/// Relies on `<http::Uri as FromStr>::from_str`: it succeeds exactly on the
/// texts that `http`'s URI grammar accepts, which depends on the text alone.
#[verifier::external_body]
pub(crate) fn parse_uri(s: &str) -> (r: Result<http::Uri, http::uri::InvalidUri>)
    ensures
        r.is_ok() == uri_accepts(s@),
{
    s.parse::<http::Uri>()
}

/// Relies on std's `str::to_lowercase`: the result depends on the characters
/// alone.
#[verifier::external_body]
pub(crate) fn lowercase(s: &str) -> (r: String)
    ensures
        r@ == lower_of(s@),
{
    s.to_lowercase()
}

} // verus!
