//! URLs: the path component of a request URL.

use crate::error::{Fault, ProcessingError};
use vstd::prelude::*;
use vstd::string::*;

verus! {

/// `url::ParseError`: why a text is no URL.
#[verifier::external_type_specification]
#[verifier::external_body]
pub struct ExUrlParseError(url::ParseError);

/// The path component of a URL, or `None` where the text is no absolute URL: what `Url::parse`
/// followed by `Url::path` gives.
pub uninterp spec fn url_path(url: Seq<char>) -> Option<Seq<char>>;

/// `Url::parse`, then `Url::path`: the path component of the URL, without scheme, host and
/// query string.
#[verifier::external_body]
pub(crate) fn path_of_url(url: &str) -> (path: Result<String, url::ParseError>)
    ensures
        path is Ok == url_path(url@) is Some,
        path matches Ok(p) ==> url_path(url@) == Some(p@),
{
    url::Url::parse(url).map(|parsed| parsed.path().to_owned())
}

/// `url::ParseError` as `Display` writes it: the parser's words for why a text is no URL.
#[verifier::external_body]
pub(crate) fn words(error: &url::ParseError) -> (text: String) {
    error.to_string()
}

/// The path component of a request URL: scheme, host and query string are dropped. A text
/// that is no absolute URL is refused.
pub fn normalized_path(url: &str) -> (path: Result<String, ProcessingError>)
    ensures
        path is Ok == url_path(url@) is Some,
        path matches Ok(p) ==> url_path(url@) == Some(p@),
        path matches Err(error) ==> error.fault() == Fault::Url,
{
    match path_of_url(url) {
        Ok(path) => Ok(path),
        Err(error) => Err(ProcessingError::Url(words(&error))),
    }
}

/// The origin that a request target is resolved against.
pub const ORIGIN: &'static str = "http://example.com";

/// The path component of a request target, which is a path with an optional query string.
pub open spec fn target_path(target: Seq<char>) -> Option<Seq<char>> {
    url_path(ORIGIN@ + target)
}

/// The path component of a request target.
pub fn path_of_target(target: &str) -> (path: Result<String, ProcessingError>)
    ensures
        path is Ok == target_path(target@) is Some,
        path matches Ok(p) ==> target_path(target@) == Some(p@),
        path matches Err(error) ==> error.fault() == Fault::Url,
{
    let url = String::from_str(ORIGIN).concat(target);
    normalized_path(url.as_str())
}

} // verus!
