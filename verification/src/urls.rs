//! URL parsing and joining, done by the `url` crate (WHATWG URL standard).
//!
//! What the crate computes takes the standard's pages to state, so each
//! result is given a name here and the library's functions are stated over
//! those names.

use vstd::prelude::*;

use crate::db::sql::opt_view;

verus! {

/// The serialization of `text` parsed as an absolute URL, or `None` when it
/// does not parse.
pub uninterp spec fn url_serialization(text: Seq<char>) -> Option<Seq<char>>;

/// The path of `text` parsed as an absolute URL, or `None` when it does not
/// parse.
pub uninterp spec fn url_path(text: Seq<char>) -> Option<Seq<char>>;

/// The serialization of `reference` resolved against the URL `base`, or
/// `None` when either does not parse.
pub uninterp spec fn url_joined(base: Seq<char>, reference: Seq<char>) -> Option<Seq<char>>;

/// The serialization of the URL `text` with its path set to `path`, or
/// `None` when `text` does not parse.
pub uninterp spec fn url_with_path(text: Seq<char>, path: Seq<char>) -> Option<Seq<char>>;

/// The serialization of the URL `text` without its query, or `None` when
/// `text` does not parse.
pub uninterp spec fn url_without_query(text: Seq<char>) -> Option<Seq<char>>;

/// Parses `text` with `url::Url::parse` and gives back the serialized URL
/// (`Url::to_string`). The result is named, not described.
#[verifier::external_body]
pub(crate) fn parse_url(text: &str) -> (r: Option<String>)
    ensures
        opt_view(r) == url_serialization(text@),
{
    match url::Url::parse(text) {
        Ok(url) => Some(url.to_string()),
        Err(_) => None,
    }
}

/// Parses `text` with `url::Url::parse` and gives back `Url::path`. The
/// result is named, not described.
#[verifier::external_body]
pub(crate) fn parsed_path(text: &str) -> (r: Option<String>)
    ensures
        opt_view(r) == url_path(text@),
{
    match url::Url::parse(text) {
        Ok(url) => Some(url.path().to_string()),
        Err(_) => None,
    }
}

/// Parses `base` with `url::Url::parse`, resolves `reference` against it
/// with `Url::join` and gives back the serialized result. The result is
/// named, not described.
#[verifier::external_body]
pub(crate) fn join_url(base: &str, reference: &str) -> (r: Option<String>)
    ensures
        opt_view(r) == url_joined(base@, reference@),
{
    match url::Url::parse(base) {
        Ok(url) => match url.join(reference) {
            Ok(joined) => Some(joined.to_string()),
            Err(_) => None,
        },
        Err(_) => None,
    }
}

/// Parses `text` with `url::Url::parse`, sets its path with `Url::set_path`
/// and gives back the serialized result. The result is named, not
/// described.
#[verifier::external_body]
pub(crate) fn replace_path(text: &str, path: &str) -> (r: Option<String>)
    ensures
        opt_view(r) == url_with_path(text@, path@),
{
    match url::Url::parse(text) {
        Ok(mut url) => {
            url.set_path(path);
            Some(url.to_string())
        },
        Err(_) => None,
    }
}

/// Parses `text` with `url::Url::parse`, removes its query with
/// `Url::set_query(None)` and gives back the serialized result. The result
/// is named, not described.
#[verifier::external_body]
pub(crate) fn drop_query(text: &str) -> (r: Option<String>)
    ensures
        opt_view(r) == url_without_query(text@),
{
    match url::Url::parse(text) {
        Ok(mut url) => {
            url.set_query(None);
            Some(url.to_string())
        },
        Err(_) => None,
    }
}

} // verus!
