//! Absolute URLs, parsed by the `url` crate (as re-exported by `reqwest`),
//! and their path segments.
use vstd::prelude::*;

use crate::text::{split_char, split_char_exec, starts_with, suffix_from, views};

verus! {

/// The parts of an absolute URL as `url::Url` gives them: the scheme
/// (lower-cased), the host if any, the explicit port if it is not the
/// scheme's default, and the percent-encoded path.
pub type UrlPartsView = (Seq<char>, Option<Seq<char>>, Option<u16>, Seq<char>);

/// What `url::Url::parse` makes of `input`: `None` where it is not an absolute
/// URL, else the URL's scheme, host, port and path.
pub uninterp spec fn url_parse(input: Seq<char>) -> Option<UrlPartsView>;

/// Parses `input` with `url::Url::parse` (called as `reqwest::Url::parse`) and
/// hands back the parsed URL's `scheme()`, `host_str()`, `port()` and `path()`.
/// The contract claims only that the result is a function of `input` alone,
/// named `url_parse`; what the WHATWG URL grammar accepts is not stated.
#[verifier::external_body]
pub(crate) fn parse_url(input: &str) -> (r: Option<(String, Option<String>, Option<u16>, String)>)
    ensures
        r.deep_view() == url_parse(input@),
{
    match reqwest::Url::parse(input) {
        Ok(url) => Some((
            url.scheme().to_owned(),
            url.host_str().map(str::to_owned),
            url.port(),
            url.path().to_owned(),
        )),
        Err(_) => None,
    }
}

/// `Url::path_segments` on a URL with path `path`: the path without its
/// leading `/`, split at every `/`; `None` where the path does not start with
/// `/` (a URL that cannot be a base).
pub open spec fn path_segments(path: Seq<char>) -> Option<Seq<Seq<char>>> {
    if starts_with(path, seq!['/']) {
        Some(split_char(path.skip(1), '/'))
    } else {
        None
    }
}

/// The path segments of a URL path.
pub fn path_segments_exec(path: &Vec<char>) -> (r: Option<Vec<Vec<char>>>)
    ensures
        match r {
            Some(v) => path_segments(path@) == Some(views(v@)),
            None => path_segments(path@) is None,
        },
{
    if path.len() > 0 && path[0] == '/' {
        assert(path@.take(1) =~= seq!['/']);
        let rest = suffix_from(path, 1);
        Some(split_char_exec(&rest, '/'))
    } else {
        assert(path@.len() > 0 ==> path@.take(1)[0] != '/');
        None
    }
}

} // verus!
