//! Endpoints: from what the operator typed to a URL in its normal form.

use vstd::prelude::*;
use crate::error::Error;

verus! {

/// What parsing `input` as an absolute URL gives: the URL in its normal form, or the
/// parser's complaint.
pub uninterp spec fn parsed_url(input: Seq<char>) -> Result<Seq<char>, Seq<char>>;

/// `url::Url::parse`, followed by the URL's own conversion into its serialization, or
/// by the error's own message. The result depends on `input` alone.
#[verifier::external_body]
fn parse(input: &str) -> (parsed: Result<String, String>)
    ensures
        match parsed {
            Ok(url) => parsed_url(input@) == Ok::<Seq<char>, Seq<char>>(url@),
            Err(message) => parsed_url(input@) == Err::<Seq<char>, Seq<char>>(message@),
        },
{
    match url::Url::parse(input) {
        Ok(url) => Ok(String::from(url)),
        Err(e) => Err(e.to_string()),
    }
}

/// The views of an outcome that carries text either way.
pub open spec fn views(outcome: Result<String, String>) -> Result<Seq<char>, Seq<char>> {
    match outcome {
        Ok(text) => Ok(text@),
        Err(cause) => Err(cause@),
    }
}

/// What [`parse_endpoint`] makes of a parser's verdict.
pub open spec fn endpoint_of(verdict: Result<Seq<char>, Seq<char>>) -> Result<
    Seq<char>,
    crate::error::ErrorView,
> {
    match verdict {
        Ok(url) => Ok(url),
        Err(message) => Err(crate::error::ErrorView::InvalidUrl(message)),
    }
}

/// Turns a parser's verdict into an endpoint or an [`Error::InvalidUrl`].
pub fn endpoint_from(verdict: Result<String, String>) -> (endpoint: Result<String, Error>)
    ensures
        match endpoint {
            Ok(url) => endpoint_of(views(verdict)) == Ok::<Seq<char>, crate::error::ErrorView>(
                url@,
            ),
            Err(e) => endpoint_of(views(verdict)) == Err::<Seq<char>, crate::error::ErrorView>(
                e@,
            ),
        },
{
    match verdict {
        Ok(url) => Ok(url),
        Err(message) => Err(Error::InvalidUrl(message)),
    }
}

/// Parses `input` as an absolute URL and hands back its normal form.
pub fn parse_endpoint(input: &str) -> (endpoint: Result<String, Error>)
    ensures
        match endpoint {
            Ok(url) => endpoint_of(parsed_url(input@)) == Ok::<
                Seq<char>,
                crate::error::ErrorView,
            >(url@),
            Err(e) => endpoint_of(parsed_url(input@)) == Err::<
                Seq<char>,
                crate::error::ErrorView,
            >(e@),
        },
{
    endpoint_from(parse(input))
}

} // verus!
