//! Addresses: the base address of a cluster and the paths joined onto it.
//!
//! Parsing and joining are the work of the `url` crate as `hyper` hands it
//! on. What they return is named here, so that contracts elsewhere can say
//! which address a request goes to.

use hyper::error::ParseError;
use hyper::Url;
use vstd::prelude::*;

verus! {

/// `hyper::Url`: a parsed absolute URL.
#[verifier::external_type_specification]
#[verifier::external_body]
pub struct ExUrl(Url);

/// `hyper::error::ParseError`: why a text is no URL.
#[verifier::external_type_specification]
#[verifier::external_body]
pub struct ExParseError(ParseError);

/// What `Url::parse` makes of a text: the URL, or nothing where the text is
/// no absolute URL.
pub uninterp spec fn url_parse(text: Seq<char>) -> Option<Url>;

/// What `Url::join` makes of a reference read against a base: the URL, or
/// nothing where the reference cannot be resolved.
pub uninterp spec fn url_join(base: Url, reference: Seq<char>) -> Option<Url>;

/// Calls `Url::parse`. The contract claims only that the outcome is the one
/// named [`url_parse`]: the same text always parses the same way.
#[verifier::external_body]
pub(crate) fn parse_url(text: &str) -> (r: Result<Url, ParseError>)
    ensures
        match r {
            Ok(url) => url_parse(text@) == Some(url),
            Err(_) => url_parse(text@) is None,
        },
{
    Url::parse(text)
}

/// Calls `Url::join`. The contract claims only that the outcome is the one
/// named [`url_join`]: it depends on the base and the reference alone.
#[verifier::external_body]
pub(crate) fn join_url(base: &Url, reference: &str) -> (r: Result<Url, ParseError>)
    ensures
        match r {
            Ok(url) => url_join(*base, reference@) == Some(url),
            Err(_) => url_join(*base, reference@) is None,
        },
{
    base.join(reference)
}

} // verus!
