//! Shortening a content type to its subtype.

use vstd::prelude::*;
use vstd::string::*;

verus! {

/// What the `mime` crate makes of `text`: `None` where parsing it as a
/// `mime::Mime` fails, else what `Mime::subtype` returns for the media type
/// that was parsed.
pub uninterp spec fn mime_subtype(text: Seq<char>) -> Option<Seq<char>>;

/// Parses `text` as a `mime::Mime`, through the `FromStr` of that type, and
/// returns the name that `Mime::subtype` gives.
///
/// Not verified: the parser lies outside this library. The contract claims
/// no more than that the outcome is [`mime_subtype`] of the text, that is,
/// that the parser's outcome depends on its input alone.
#[verifier::external_body]
pub(crate) fn parse_subtype(text: &str) -> (subtype: Option<String>)
    ensures
        subtype.deep_view() == mime_subtype(text@),
{
    match text.parse::<mime::Mime>() {
        Ok(parsed) => Some(String::from(parsed.subtype().as_str())),
        Err(_) => None,
    }
}

/// The short form of a content type: its subtype where it has one, else the
/// content type as it was given.
pub open spec fn short_form(mime_type: Seq<char>, subtype: Option<Seq<char>>) -> Seq<char> {
    match subtype {
        Some(name) => name,
        None => mime_type,
    }
}

/// Chooses the short form of `mime_type`, given the subtype that parsing it
/// produced.
pub fn shorten_with(mime_type: &str, subtype: Option<String>) -> (short: String)
    ensures
        short@ == short_form(mime_type@, subtype.deep_view()),
{
    match subtype {
        Some(name) => name,
        None => String::from_str(mime_type),
    }
}

/// Shortens a content type to its subtype, such as `json` for
/// `application/json`. A text that is no media type comes back unchanged.
pub fn shorten_mime(mime_type: &str) -> (short: String)
    ensures
        short@ == short_form(mime_type@, mime_subtype(mime_type@)),
{
    shorten_with(mime_type, parse_subtype(mime_type))
}

} // verus!
