//! The boundary to the `url` crate: what it takes for a text to be an
//! address that can be fetched.

use vstd::prelude::*;

verus! {

/// `url::ParseError`, the reason why a text is no absolute URL.
#[verifier::external_type_specification]
#[verifier::external_body]
pub struct ExParseError(url::ParseError);

/// A text that is no absolute URL.
#[derive(Debug, Clone, Copy, PartialEq, Eq, Structural)]
pub struct InvalidUrl;

/// The serialization of the URL that `url::Url::parse` reads from `text`, or
/// `None` where it reports an error.
pub uninterp spec fn normalized_url(text: Seq<char>) -> Option<Seq<char>>;

/// `url::Url::parse`, followed by the conversion of the URL into its
/// serialization: the normalized text of an absolute URL, or the parser's
/// error. The result depends on the text alone.
#[verifier::external_body]
pub(crate) fn parse_url(text: &str) -> (parsed: Result<String, url::ParseError>)
    ensures
        match parsed {
            Ok(address) => normalized_url(text@) == Some(address@),
            Err(_) => normalized_url(text@) is None,
        },
{
    url::Url::parse(text).map(String::from)
}

/// Checks that `text` is an absolute URL and returns it in normalized form.
pub fn normalize(text: &str) -> (address: Result<String, InvalidUrl>)
    ensures
        match address {
            Ok(a) => normalized_url(text@) == Some(a@),
            Err(_) => normalized_url(text@) is None,
        },
{
    match parse_url(text) {
        Ok(a) => Ok(a),
        Err(_) => Err(InvalidUrl),
    }
}

} // verus!
