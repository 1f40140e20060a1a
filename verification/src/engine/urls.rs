//! URL edits done by the `url` crate. Each function parses its argument,
//! applies one edit and serializes the result; `None` when the argument does
//! not parse or the edit is refused.
use vstd::prelude::*;
use vstd::string::StrSliceExecFns;

verus! {

/// The scheme of `url`, or `None` when it does not parse.
pub uninterp spec fn url_scheme(url: Seq<char>) -> Option<Seq<char>>;

/// The host of `url`, or `None` when it does not parse or has no host.
pub uninterp spec fn url_host(url: Seq<char>) -> Option<Seq<char>>;

/// `url` with its scheme replaced, or `None` when it does not parse or the
/// parser refuses the new scheme.
pub uninterp spec fn url_with_scheme(url: Seq<char>, scheme: Seq<char>) -> Option<Seq<char>>;

/// `url` with its path replaced, or `None` when it does not parse.
pub uninterp spec fn url_with_path(url: Seq<char>, path: Seq<char>) -> Option<Seq<char>>;

/// `url` with its query replaced or removed, or `None` when it does not
/// parse.
pub uninterp spec fn url_with_query(url: Seq<char>, query: Option<Seq<char>>) -> Option<Seq<char>>;

/// `url` with a trailing empty path segment dropped and `segments` appended
/// as path segments, or `None` when it does not parse or cannot have a path.
pub uninterp spec fn url_with_segments(url: Seq<char>, segments: Seq<Seq<char>>) -> Option<Seq<char>>;

/// Whether editing `url` by writing `added` more characters into it keeps
/// the serialized URL below 4 GiB, which the `url` crate's setters need: a
/// character takes at most 4 bytes, at most 12 once percent-encoded, and the
/// parser adds a few separators.
pub open spec fn edit_fits(url: Seq<char>, added: int) -> bool {
    16 * (url.len() + added) + 64 <= u32::MAX
}

/// Characters that appending `segments` as path segments writes: each
/// segment and its separator.
pub open spec fn segments_chars(segments: Seq<Seq<char>>) -> int
    decreases segments.len(),
{
    if segments.len() == 0 {
        0
    } else {
        segments_chars(segments.drop_last()) + segments.last().len() + 1
    }
}

/// Whether `url` with `added` more characters stays small enough to edit.
pub fn edit_fits_exec(url: &str, added: usize) -> (r: bool)
    ensures
        r == edit_fits(url@, added as int),
{
    let n = url.unicode_len();
    if n >= 268435456 || added >= 268435456 {
        return false;
    }
    let total: u64 = 16 * (n as u64 + added as u64) + 64;
    total <= 4294967295u64
}

/// `Url::parse` then `Url::scheme`. Claimed: the result is the scheme the
/// parser finds, a function of the argument alone, or `None` when it fails.
#[verifier::external_body]
pub(crate) fn scheme_of(url: &str) -> (r: Option<String>)
    ensures
        match r {
            Some(s) => url_scheme(url@) == Some(s@),
            None => url_scheme(url@) is None,
        },
{
    url::Url::parse(url).ok().map(|u| u.scheme().to_string())
}

/// `Url::parse` then `Url::host_str`. Claimed: the result is the host the
/// parser finds, or `None` when parsing fails or there is no host.
#[verifier::external_body]
pub(crate) fn host_of(url: &str) -> (r: Option<String>)
    ensures
        match r {
            Some(s) => url_host(url@) == Some(s@),
            None => url_host(url@) is None,
        },
{
    url::Url::parse(url).ok().and_then(|u| u.host_str().map(|h| h.to_string()))
}

/// The setters below panic once the serialized URL passes 4 GiB, so each
/// wrapper asks for room (`edit_fits`).
///
/// `Url::parse` then `Url::set_scheme`. Claimed: the result is the
/// serialized URL with the new scheme, or `None` when parsing fails or
/// `set_scheme` refuses.
#[verifier::external_body]
pub(crate) fn with_scheme(url: &str, scheme: &str) -> (r: Option<String>)
    requires
        edit_fits(url@, scheme@.len() as int),
    ensures
        match r {
            Some(s) => url_with_scheme(url@, scheme@) == Some(s@),
            None => url_with_scheme(url@, scheme@) is None,
        },
{
    let mut u = url::Url::parse(url).ok()?;
    u.set_scheme(scheme).ok()?;
    Some(u.into())
}

/// `Url::parse` then `Url::set_path`. Claimed: the result is the serialized
/// URL with the new path, or `None` when parsing fails.
#[verifier::external_body]
pub(crate) fn with_path(url: &str, path: &str) -> (r: Option<String>)
    requires
        edit_fits(url@, path@.len() as int),
    ensures
        match r {
            Some(s) => url_with_path(url@, path@) == Some(s@),
            None => url_with_path(url@, path@) is None,
        },
{
    let mut u = url::Url::parse(url).ok()?;
    u.set_path(path);
    Some(u.into())
}

/// `Url::parse` then `Url::set_query`. Claimed: the result is the serialized
/// URL with the new query, or `None` when parsing fails.
#[verifier::external_body]
pub(crate) fn with_query(url: &str, query: Option<&str>) -> (r: Option<String>)
    requires
        edit_fits(url@, match query { Some(q) => q@.len() as int + 1, None => 0int }),
    ensures
        match r {
            Some(s) => url_with_query(url@, match query { Some(q) => Some(q@), None => None }) == Some(s@),
            None => url_with_query(url@, match query { Some(q) => Some(q@), None => None }) is None,
        },
{
    let mut u = url::Url::parse(url).ok()?;
    u.set_query(query);
    Some(u.into())
}

/// `Url::parse` then `Url::path_segments_mut` with `pop_if_empty` and one
/// `push` per segment. Claimed: the result is the serialized URL with the
/// segments appended, or `None` when parsing fails or the URL cannot be a
/// base.
#[verifier::external_body]
pub(crate) fn with_segments(url: &str, segments: &Vec<String>) -> (r: Option<String>)
    requires
        edit_fits(url@, segments_chars(segments@.map_values(|x: String| x@))),
    ensures
        match r {
            Some(s) => url_with_segments(url@, segments@.map_values(|x: String| x@)) == Some(s@),
            None => url_with_segments(url@, segments@.map_values(|x: String| x@)) is None,
        },
{
    let mut u = url::Url::parse(url).ok()?;
    u.path_segments_mut().ok()?.pop_if_empty().extend(segments.iter());
    Some(u.into())
}

/// The WebSocket scheme that goes with an HTTP scheme; other schemes are
/// kept.
pub open spec fn websocket_scheme_for(scheme: Seq<char>) -> Seq<char> {
    if scheme == "https"@ {
        "wss"@
    } else if scheme == "http"@ {
        "ws"@
    } else {
        scheme
    }
}

/// The WebSocket scheme that goes with an HTTP scheme.
pub fn websocket_scheme(scheme: &str) -> (r: String)
    ensures
        r@ == websocket_scheme_for(scheme@),
{
    if crate::text::str_equals(scheme, "https") {
        String::from_str("wss")
    } else if crate::text::str_equals(scheme, "http") {
        String::from_str("ws")
    } else {
        String::from_str(scheme)
    }
}

/// Why an endpoint URL could not be built.
#[derive(Debug, Clone, Copy, PartialEq, Eq, Structural)]
pub enum UrlError {
    /// The base URL does not parse.
    InvalidUrl,
    /// The base URL's scheme cannot be switched to the WebSocket scheme.
    InvalidScheme,
    /// The base URL has no host.
    MissingHost,
}

/// A WebSocket endpoint on the server of `base`: the scheme switched to its
/// WebSocket counterpart, the path and the query replaced.
/// URLs too long to edit count as invalid.
pub open spec fn websocket_endpoint(base: Seq<char>, path: Seq<char>, query: Option<Seq<char>>) -> Result<Seq<char>, UrlError> {
    let query_chars: int = match query { Some(q) => q.len() as int + 1, None => 0int };
    match url_scheme(base) {
        None => Err(UrlError::InvalidUrl),
        Some(sc) => if !edit_fits(base, websocket_scheme_for(sc).len() as int) {
            Err(UrlError::InvalidUrl)
        } else {
            match url_with_scheme(base, websocket_scheme_for(sc)) {
                None => Err(UrlError::InvalidScheme),
                Some(u1) => if !edit_fits(u1, path.len() as int) {
                    Err(UrlError::InvalidUrl)
                } else {
                    match url_with_path(u1, path) {
                        None => Err(UrlError::InvalidUrl),
                        Some(u2) => if !edit_fits(u2, query_chars) {
                            Err(UrlError::InvalidUrl)
                        } else {
                            match url_with_query(u2, query) {
                                None => Err(UrlError::InvalidUrl),
                                Some(u3) => Ok(u3),
                            }
                        },
                    }
                },
            }
        },
    }
}

/// Builds the WebSocket endpoint at `path` with `query` on the server of
/// `base`.
pub fn build_websocket_endpoint(base: &str, path: &str, query: Option<&str>) -> (r: Result<String, UrlError>)
    ensures
        match websocket_endpoint(base@, path@, match query { Some(q) => Some(q@), None => None }) {
            Ok(u) => (r matches Ok(s) && s@ == u),
            Err(e) => r == Err::<String, UrlError>(e),
        },
{
    let scheme = match scheme_of(base) {
        Some(s) => s,
        None => return Err(UrlError::InvalidUrl),
    };
    let ws = websocket_scheme(scheme.as_str());
    if !edit_fits_exec(base, ws.unicode_len()) {
        return Err(UrlError::InvalidUrl);
    }
    let u1 = match with_scheme(base, ws.as_str()) {
        Some(u) => u,
        None => return Err(UrlError::InvalidScheme),
    };
    if !edit_fits_exec(u1.as_str(), path.unicode_len()) {
        return Err(UrlError::InvalidUrl);
    }
    let u2 = match with_path(u1.as_str(), path) {
        Some(u) => u,
        None => return Err(UrlError::InvalidUrl),
    };
    let query_chars: usize = match query {
        Some(q) => {
            let n = q.unicode_len();
            if n >= 268435456 {
                return Err(UrlError::InvalidUrl);
            }
            n + 1
        },
        None => 0,
    };
    if !edit_fits_exec(u2.as_str(), query_chars) {
        return Err(UrlError::InvalidUrl);
    }
    match with_query(u2.as_str(), query) {
        Some(u) => Ok(u),
        None => Err(UrlError::InvalidUrl),
    }
}

/// Picks among resolved addresses, given which of them are IPv4: the first
/// IPv4 address, else the first address.
pub fn preferred_address_index(is_ipv4: &Vec<bool>) -> (r: Option<usize>)
    ensures
        match r {
            Some(i) => i < is_ipv4@.len() && (is_ipv4@[i as int] || forall|j: int| 0 <= j < is_ipv4@.len() ==> !is_ipv4@[j])
                && forall|j: int| 0 <= j < i ==> !is_ipv4@[j],
            None => is_ipv4@.len() == 0,
        },
{
    let mut i: usize = 0;
    while i < is_ipv4.len()
        invariant
            i <= is_ipv4@.len(),
            forall|j: int| 0 <= j < i ==> !is_ipv4@[j],
        decreases is_ipv4@.len() - i,
    {
        if is_ipv4[i] {
            return Some(i);
        }
        i = i + 1;
    }
    if is_ipv4.len() > 0 {
        Some(0)
    } else {
        None
    }
}

} // verus!
