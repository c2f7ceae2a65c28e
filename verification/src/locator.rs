//! Splitting a request URL into the parts that the summary list shows.

use vstd::prelude::*;

verus! {

/// The parts of an absolute URL that the summary list shows.
#[derive(Debug, Clone, PartialEq, Eq)]
pub struct UrlParts {
    /// The host, when the URL has one and it is a domain name rather than an
    /// IP address.
    pub domain: Option<String>,
    /// The path, without query and fragment.
    pub path: String,
}

/// The mathematical value of a [`UrlParts`].
pub ghost struct UrlPartsView {
    pub domain: Option<Seq<char>>,
    pub path: Seq<char>,
}

impl DeepView for UrlParts {
    type V = UrlPartsView;

    open spec fn deep_view(&self) -> UrlPartsView {
        UrlPartsView { domain: self.domain.deep_view(), path: self.path@ }
    }
}

/// What the `url` crate makes of `input`: `None` where `url::Url::parse`
/// rejects it, else what `Url::domain` and `Url::path` return for the URL
/// that it accepts.
pub uninterp spec fn parsed_url(input: Seq<char>) -> Option<UrlPartsView>;

/// Parses `input` with `url::Url::parse` and reads the domain and the path
/// off the result with `Url::domain` and `Url::path`.
///
/// Not verified: the parser lies outside this library. The contract claims
/// no more than that the outcome is [`parsed_url`] of the input, that is,
/// that the parser's outcome depends on its input alone.
#[verifier::external_body]
pub(crate) fn parse_url(input: &str) -> (parts: Option<UrlParts>)
    ensures
        parts.deep_view() == parsed_url(input@),
{
    match url::Url::parse(input) {
        Ok(parsed) => Some(
            UrlParts {
                domain: parsed.domain().map(String::from),
                path: String::from(parsed.path()),
            },
        ),
        Err(_) => None,
    }
}

} // verus!
