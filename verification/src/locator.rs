//! Locators: resolving a relative reference against a base URL, setting a query
//! string, and asking whether a text is a URI that can be sent. The rules are
//! those of the `url` and `http` crates.

use http::uri::InvalidUri;
use http::Uri;
use std::str::FromStr;
use url::{ParseError, Url};
use vstd::prelude::*;
use vstd::string::{StringExecFns, StringSliceAdditionalSpecFns};

verus! {

/// The refusal of `url::Url::parse` and `url::Url::join`, held as it comes.
#[verifier::external_type_specification]
#[verifier::external_body]
pub struct ExParseError(ParseError);

/// The refusal of `http::Uri::from_str`, held as it comes.
#[verifier::external_type_specification]
#[verifier::external_body]
pub struct ExInvalidUri(InvalidUri);

/// Why no locator could be made.
#[derive(Debug)]
pub enum UrlError {
    /// The base is no absolute URL.
    Base(ParseError),
    /// The reference cannot be resolved against the base.
    Resolve(ParseError),
    /// The locator or the query string is longer than `MAX_TEXT_BYTES`.
    TooLong,
    /// The query string could not be read or set.
    Query(ParseError),
    /// The locator is no URI that can be sent.
    Uri(InvalidUri),
}

/// The kinds of `UrlError`.
pub enum UrlFailure {
    Base,
    Resolve,
    TooLong,
    Query,
    Uri,
}

impl UrlError {
    /// The kind of the error.
    pub open spec fn kind(self) -> UrlFailure {
        match self {
            UrlError::Base(_) => UrlFailure::Base,
            UrlError::Resolve(_) => UrlFailure::Resolve,
            UrlError::TooLong => UrlFailure::TooLong,
            UrlError::Query(_) => UrlFailure::Query,
            UrlError::Uri(_) => UrlFailure::Uri,
        }
    }
}

/// The most bytes that a locator, or a query string, may have for a query string to be set.
pub const MAX_TEXT_BYTES: usize = 0x400_0000;

/// The text of the URL that `url::Url::join` makes of `relative` on the URL that
/// `url::Url::parse` makes of `base`; `None` where either refuses.
pub uninterp spec fn resolved_url(base: Seq<char>, relative: Seq<char>) -> Option<Seq<char>>;

/// The query string of the URL `url`, as `url::Url::query` gives it: `None`
/// where `url` is no URL, and `Some(None)` where the URL has no query string.
pub uninterp spec fn url_query(url: Seq<char>) -> Option<Option<Seq<char>>>;

/// The text of the URL that `url::Url::set_query` makes of the URL `url` and the
/// query string `query`; `None` where `url` is no URL.
pub uninterp spec fn url_with_query(url: Seq<char>, query: Seq<char>) -> Option<Seq<char>>;

/// Whether `http::Uri::from_str` accepts `text`.
pub uninterp spec fn uri_accepts(text: Seq<char>) -> bool;

/// Parses `base` with `url::Url::parse`, resolves `relative` against it with
/// `url::Url::join`, and hands back the text of the result, or the refusal of either.
#[verifier::external_body]
fn join_url(base: &str, relative: &str) -> (r: Result<String, ParseError>)
    ensures
        match r {
            Ok(url) => resolved_url(base@, relative@) == Some(url@),
            Err(_) => resolved_url(base@, relative@) is None,
        },
{
    Url::parse(base)?.join(relative).map(String::from)
}

/// The content of a text that may be absent.
pub open spec fn text_of(text: Option<String>) -> Option<Seq<char>> {
    match text {
        Some(t) => Some(t@),
        None => None,
    }
}

/// Parses `url` with `url::Url::parse` and hands back the query string that
/// `url::Url::query` finds in it, if it finds one.
#[verifier::external_body]
fn read_url_query(url: &str) -> (r: Result<Option<String>, ParseError>)
    ensures
        match r {
            Ok(query) => url_query(url@) == Some(text_of(query)),
            Err(_) => url_query(url@) is None,
        },
{
    Url::parse(url).map(|u| u.query().map(String::from))
}

/// Parses `url` with `url::Url::parse`, replaces its query string by `query` with
/// `url::Url::set_query`, and hands back the text of the result. The bounds keep
/// the result within the length that `set_query` can record.
#[verifier::external_body]
fn set_url_query(url: &str, query: &str) -> (r: Result<String, ParseError>)
    requires
        url.spec_bytes().len() <= MAX_TEXT_BYTES,
        query.spec_bytes().len() <= MAX_TEXT_BYTES,
    ensures
        match r {
            Ok(text) => url_with_query(url@, query@) == Some(text@),
            Err(_) => url_with_query(url@, query@) is None,
        },
{
    let mut parsed = Url::parse(url)?;
    parsed.set_query(Some(query));
    Ok(String::from(parsed))
}

/// Asks `http::Uri::from_str` whether it accepts `text`.
#[verifier::external_body]
fn check_uri(text: &str) -> (r: Result<(), InvalidUri>)
    ensures
        r is Ok <==> uri_accepts(text@),
{
    Uri::from_str(text).map(|_| ())
}

/// Whether a query string of that text can be set on a locator of that text.
pub open spec fn fits(url: Seq<char>, query: Seq<char>) -> bool {
    vstd::utf8::encode_utf8(url).len() <= MAX_TEXT_BYTES && vstd::utf8::encode_utf8(query).len()
        <= MAX_TEXT_BYTES
}

/// What `resolve` returns: the locator that `relative` names when read
/// against `base`; a base that is no URL is told apart from a reference that
/// cannot be resolved against it.
pub open spec fn resolved(base: Seq<char>, relative: Seq<char>) -> Result<Seq<char>, UrlFailure> {
    match url_query(base) {
        None => Err(UrlFailure::Base),
        Some(_) => match resolved_url(base, relative) {
            Some(url) => Ok(url),
            None => Err(UrlFailure::Resolve),
        },
    }
}

/// The locator that `relative` names when read against `base`.
pub fn resolve(base: &str, relative: &str) -> (r: Result<String, UrlError>)
    ensures
        match r {
            Ok(url) => resolved(base@, relative@) == Ok::<Seq<char>, UrlFailure>(url@),
            Err(e) => resolved(base@, relative@) == Err::<Seq<char>, UrlFailure>(e.kind()),
        },
{
    match read_url_query(base) {
        Err(e) => Err(UrlError::Base(e)),
        Ok(_) => match join_url(base, relative) {
            Ok(url) => Ok(url),
            Err(e) => Err(UrlError::Resolve(e)),
        },
    }
}

/// The query string that holds what `existing` holds, and behind it `added`.
pub open spec fn appended_query(existing: Option<Seq<char>>, added: Seq<char>) -> Seq<char> {
    match existing {
        Some(query) => if query.len() > 0 {
            query + seq!['&'] + added
        } else {
            added
        },
        None => added,
    }
}

/// What `append_query` returns: the locator `url` with `added` appended to its
/// query string.
pub open spec fn queried(url: Seq<char>, added: Seq<char>) -> Result<Seq<char>, UrlFailure> {
    match url_query(url) {
        None => Err(UrlFailure::Query),
        Some(existing) => {
            let query = appended_query(existing, added);
            if !fits(url, query) {
                Err(UrlFailure::TooLong)
            } else {
                match url_with_query(url, query) {
                    Some(text) => Ok(text),
                    None => Err(UrlFailure::Query),
                }
            }
        },
    }
}

/// The locator `url` with `added` appended to its query string: what the
/// query string holds stays, and `added` follows it behind an `&`; a locator
/// without a query string gets `added` as its query string. Texts of more
/// than `MAX_TEXT_BYTES` bytes are refused.
pub fn append_query(url: &str, added: &str) -> (r: Result<String, UrlError>)
    ensures
        match r {
            Ok(text) => queried(url@, added@) == Ok::<Seq<char>, UrlFailure>(text@),
            Err(e) => queried(url@, added@) == Err::<Seq<char>, UrlFailure>(e.kind()),
        },
{
    let existing = match read_url_query(url) {
        Ok(existing) => existing,
        Err(e) => {
            return Err(UrlError::Query(e));
        },
    };
    let query = match existing {
        Some(mut query) => {
            if query.as_str().is_empty() {
                added.to_owned()
            } else {
                query.append("&");
                query.append(added);
                proof {
                    reveal_strlit("&");
                    assert("&"@ =~= seq!['&']);
                }
                query
            }
        },
        None => added.to_owned(),
    };
    if url.as_bytes().len() > MAX_TEXT_BYTES || query.as_str().as_bytes().len() > MAX_TEXT_BYTES {
        return Err(UrlError::TooLong);
    }
    match set_url_query(url, query.as_str()) {
        Ok(text) => Ok(text),
        Err(e) => Err(UrlError::Query(e)),
    }
}

/// Whether `text` is a URI that can be sent.
pub fn sendable(text: &str) -> (r: Result<(), UrlError>)
    ensures
        match r {
            Ok(_) => uri_accepts(text@),
            Err(e) => !uri_accepts(text@) && e.kind() == UrlFailure::Uri,
        },
{
    match check_uri(text) {
        Ok(_) => Ok(()),
        Err(e) => Err(UrlError::Uri(e)),
    }
}

} // verus!
