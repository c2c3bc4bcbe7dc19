//! URL handling, done by the `url` crate. URLs are kept as their
//! serialization (`Url::as_str`) everywhere else in the library.
use vstd::prelude::*;

verus! {

/// The serialization of the URL that `url::Url::parse` makes of `input`, or
/// `None` where it refuses the input.
pub uninterp spec fn url_parse(input: Seq<char>) -> Option<Seq<char>>;

/// The serialization of the URL `url` after `url::Url::set_path(path)`, or
/// `None` where `url::Url::parse` refuses `url`.
pub uninterp spec fn url_set_path(url: Seq<char>, path: Seq<char>) -> Option<Seq<char>>;

/// The serialization of the URL that `url::Url::join(input)` makes of the
/// URL `base` parses to, or `None` where `url::Url::parse` refuses `base` or
/// the join fails.
pub uninterp spec fn url_join(base: Seq<char>, input: Seq<char>) -> Option<Seq<char>>;

/// The host of the URL that `url::Url::parse` makes of `url`, as
/// `Url::host` gives it and `Host`'s `Display` writes it; `None` where the
/// URL does not parse or has no host.
pub uninterp spec fn url_host(url: Seq<char>) -> Option<Seq<char>>;

/// The views of an optional string.
pub open spec fn opt_view(o: Option<String>) -> Option<Seq<char>> {
    match o {
        Some(s) => Some(s@),
        None => None,
    }
}

/// Calls `url::Url::parse` and serializes the result with `Url::as_str`.
/// What the serialization is (the normalizations the WHATWG URL standard
/// asks for) is left to the name `url_parse`.
#[verifier::external_body]
pub(crate) fn parse_url(input: &str) -> (r: Option<String>)
    ensures
        opt_view(r) == url_parse(input@),
{
    match url::Url::parse(input) {
        Ok(u) => Some(u.as_str().to_string()),
        Err(_) => None,
    }
}

/// Parses `url` with `url::Url::parse`, calls `Url::set_path(path)` on it and
/// serializes the result with `Url::as_str`. The result is left to the name
/// `url_set_path`.
#[verifier::external_body]
pub(crate) fn set_url_path(url: &str, path: &str) -> (r: Option<String>)
    ensures
        opt_view(r) == url_set_path(url@, path@),
{
    match url::Url::parse(url) {
        Ok(mut u) => {
            u.set_path(path);
            Some(u.as_str().to_string())
        },
        Err(_) => None,
    }
}

/// Parses `base` with `url::Url::parse`, joins `input` onto it with
/// `Url::join` and serializes the result with `Url::as_str`. The result is
/// left to the name `url_join`.
#[verifier::external_body]
pub(crate) fn join_url(base: &str, input: &str) -> (r: Option<String>)
    ensures
        opt_view(r) == url_join(base@, input@),
{
    match url::Url::parse(base) {
        Ok(u) => match u.join(input) {
            Ok(j) => Some(j.as_str().to_string()),
            Err(_) => None,
        },
        Err(_) => None,
    }
}

/// Parses `url` with `url::Url::parse` and writes its `Url::host` with
/// `to_string`. The result is left to the name `url_host`.
#[verifier::external_body]
pub(crate) fn host_of_url(url: &str) -> (r: Option<String>)
    ensures
        opt_view(r) == url_host(url@),
{
    match url::Url::parse(url) {
        Ok(u) => match u.host() {
            Some(h) => Some(h.to_string()),
            None => None,
        },
        Err(_) => None,
    }
}

} // verus!
