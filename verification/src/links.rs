//! URL handling, done by the `url` crate.

use vstd::prelude::*;

verus! {

/// The text of the URL that `url::Url::parse` makes of `text`, or `None`
/// where it rejects `text`.
pub uninterp spec fn parsed_url(text: Seq<char>) -> Option<Seq<char>>;

/// The text of the `file` URL that `url::Url::from_file_path` makes of
/// `path`, or `None` where it rejects `path`, as a path that is not absolute.
/// The path is read by the rules of the platform that the library is built
/// for.
pub uninterp spec fn file_url_of(path: Seq<char>) -> Option<Seq<char>>;

/// Parses an absolute URL with `url::Url::parse` and hands out its
/// serialization. The outcome is a function of `text` alone; it is named
/// [`parsed_url`] and nothing more is claimed of it.
#[verifier::external_body]
pub(crate) fn parse_url(text: &str) -> (url: Option<String>)
    ensures
        match url {
            Some(u) => parsed_url(text@) == Some(u@),
            None => parsed_url(text@) is None,
        },
{
    match url::Url::parse(text) {
        Ok(url) => Some(String::from(url)),
        Err(_) => None,
    }
}

/// Converts a file path to a `file` URL with `url::Url::from_file_path` and
/// hands out its serialization. The outcome is a function of `path` alone; it
/// is named [`file_url_of`] and nothing more is claimed of it.
#[verifier::external_body]
pub(crate) fn file_url(path: &str) -> (url: Option<String>)
    ensures
        match url {
            Some(u) => file_url_of(path@) == Some(u@),
            None => file_url_of(path@) is None,
        },
{
    match url::Url::from_file_path(path) {
        Ok(url) => Some(String::from(url)),
        Err(_) => None,
    }
}

} // verus!
