//! API endpoints and the URL operations of the client: base URLs, resolving
//! locations, upload part URLs and download tokens.

use url::{ParseError, Url};
use vstd::prelude::*;

use crate::access::{download_token_applies, is_trusted_upload_target, should_append_download_token, upload_target_trusted};
use crate::error::FigshareError;
use crate::text::{chars_of, decimal, decimal_string, string_of};

verus! {

#[verifier::external_type_specification]
pub struct ExParseError(ParseError);

/// The text of a URL: its serialization, which `Url::as_str` returns and
/// which determines every part of the URL.
pub uninterp spec fn url_text(url: Url) -> Seq<char>;

/// What `Url::parse` makes of a text: the serialization of the parsed URL,
/// or the parse error.
pub uninterp spec fn parsed_url(text: Seq<char>) -> Result<Seq<char>, ParseError>;

/// What `Url::join` makes of a text resolved against a base URL.
pub uninterp spec fn joined_url(base: Seq<char>, text: Seq<char>) -> Result<Seq<char>, ParseError>;

/// The path of a URL (`Url::path`).
pub uninterp spec fn url_path_text(url: Seq<char>) -> Seq<char>;

/// The URL with its path replaced (`Url::set_path`).
pub uninterp spec fn url_with_path(url: Seq<char>, path: Seq<char>) -> Seq<char>;

/// The host of a URL as text (`Url::host_str`), when it has one.
pub uninterp spec fn url_host_text(url: Seq<char>) -> Option<Seq<char>>;

/// Whether two URLs have equal origins (`Url::origin`, compared with `==`);
/// URLs without a scheme, host and port tuple never share one.
pub uninterp spec fn urls_share_origin(a: Seq<char>, b: Seq<char>) -> bool;

/// The URL with `key=value` appended to its query (`append_pair` on
/// `Url::query_pairs_mut`).
pub uninterp spec fn url_with_query_pair(url: Seq<char>, key: Seq<char>, value: Seq<char>) -> Seq<char>;

/// Whether a URL cannot be a base (`Url::cannot_be_a_base`): its path does
/// not start with `/`, so it has no path segments to edit.
pub uninterp spec fn url_cannot_be_a_base(url: Seq<char>) -> bool;

/// The URL with a trailing empty path segment dropped (`pop_if_empty` on
/// `Url::path_segments_mut`).
pub uninterp spec fn url_without_empty_last_segment(url: Seq<char>) -> Seq<char>;

/// The URL with one more path segment (`push` on `Url::path_segments_mut`).
pub uninterp spec fn url_with_pushed_segment(url: Seq<char>, segment: Seq<char>) -> Seq<char>;

/// `Url::parse`.
#[verifier::external_body]
fn parse_url(text: &str) -> (r: Result<Url, ParseError>)
    ensures
        match r {
            Ok(u) => parsed_url(text@) == Ok::<Seq<char>, ParseError>(url_text(u)),
            Err(e) => parsed_url(text@) == Err::<Seq<char>, ParseError>(e),
        },
{
    Url::parse(text)
}

/// `Url::join`: `text` resolved against `base`.
#[verifier::external_body]
fn join_url(base: &Url, text: &str) -> (r: Result<Url, ParseError>)
    ensures
        match r {
            Ok(u) => joined_url(url_text(*base), text@) == Ok::<Seq<char>, ParseError>(url_text(u)),
            Err(e) => joined_url(url_text(*base), text@) == Err::<Seq<char>, ParseError>(e),
        },
{
    base.join(text)
}

/// `Url::path`, as an owned string.
#[verifier::external_body]
fn url_path(url: &Url) -> (r: String)
    ensures
        r@ == url_path_text(url_text(*url)),
{
    url.path().to_owned()
}

/// `Url::set_path`.
#[verifier::external_body]
fn set_url_path(url: &mut Url, path: &str)
    ensures
        url_text(*final(url)) == url_with_path(url_text(*old(url)), path@),
{
    url.set_path(path)
}

/// `Url::host_str`, as an owned string.
#[verifier::external_body]
fn url_host(url: &Url) -> (r: Option<String>)
    ensures
        match r {
            Some(h) => url_host_text(url_text(*url)) == Some(h@),
            None => url_host_text(url_text(*url)) is None,
        },
{
    url.host_str().map(|host| host.to_owned())
}

/// Whether `Url::origin` of the two URLs compare equal.
#[verifier::external_body]
fn same_origin(a: &Url, b: &Url) -> (r: bool)
    ensures
        r == urls_share_origin(url_text(*a), url_text(*b)),
{
    a.origin() == b.origin()
}

/// Appends `key=value` to the query (`Url::query_pairs_mut`, then
/// `append_pair`).
#[verifier::external_body]
fn append_query_pair(url: &mut Url, key: &str, value: &str)
    ensures
        url_text(*final(url)) == url_with_query_pair(url_text(*old(url)), key@, value@),
{
    url.query_pairs_mut().append_pair(key, value);
}

/// `Url::cannot_be_a_base`.
#[verifier::external_body]
fn cannot_be_a_base(url: &Url) -> (r: bool)
    ensures
        r == url_cannot_be_a_base(url_text(*url)),
{
    url.cannot_be_a_base()
}

/// Drops a trailing empty path segment (`Url::path_segments_mut`, then
/// `pop_if_empty`). Only the path after its first `/` changes, so the URL can
/// still be a base afterwards.
#[verifier::external_body]
fn pop_empty_segment(url: &mut Url)
    requires
        !url_cannot_be_a_base(url_text(*old(url))),
    ensures
        url_text(*final(url)) == url_without_empty_last_segment(url_text(*old(url))),
        !url_cannot_be_a_base(url_text(*final(url))),
{
    if let Ok(mut segments) = url.path_segments_mut() {
        segments.pop_if_empty();
    }
}

/// Appends one path segment (`Url::path_segments_mut`, then `push`).
#[verifier::external_body]
fn push_segment(url: &mut Url, segment: &str)
    requires
        !url_cannot_be_a_base(url_text(*old(url))),
    ensures
        url_text(*final(url)) == url_with_pushed_segment(url_text(*old(url)), segment@),
{
    if let Ok(mut segments) = url.path_segments_mut() {
        segments.push(segment);
    }
}

/// Base API endpoint used by the client.
#[derive(Clone, Debug, PartialEq, Eq, Default)]
pub enum Endpoint {
    /// The public Figshare production service.
    #[default]
    Production,
    /// A fully custom Figshare-compatible API base URL.
    Custom(
        /// Deployment root or base API URL, normalized to end in `/v2/` when
        /// no path is supplied.
        Url,
    ),
}

/// The path with every trailing `/` removed.
pub open spec fn without_trailing_slashes(path: Seq<char>) -> Seq<char>
    decreases path.len(),
{
    if path.len() > 0 && path.last() == '/' {
        without_trailing_slashes(path.drop_last())
    } else {
        path
    }
}

/// The API base path for a configured path: `/v2/` when the path is empty or
/// all slashes, otherwise the path without trailing slashes followed by one
/// `/`.
pub open spec fn base_path(path: Seq<char>) -> Seq<char> {
    let p = without_trailing_slashes(path);
    if p.len() == 0 {
        seq!['/', 'v', '2', '/']
    } else {
        p.push('/')
    }
}

proof fn lemma_without_trailing_slashes(path: Seq<char>)
    ensures
        without_trailing_slashes(path).len() <= path.len(),
        path.take(without_trailing_slashes(path).len() as int) == without_trailing_slashes(path),
        forall|j: int| without_trailing_slashes(path).len() <= j < path.len() ==> #[trigger] path[j] == '/',
        without_trailing_slashes(path).len() == 0 || without_trailing_slashes(path).last() != '/',
    decreases path.len(),
{
    if path.len() > 0 && path.last() == '/' {
        let init = path.drop_last();
        lemma_without_trailing_slashes(init);
        let w = without_trailing_slashes(init);
        assert(path.take(w.len() as int) =~= init.take(w.len() as int));
        assert forall|j: int| w.len() <= j < path.len() implies #[trigger] path[j] == '/' by {
            if j < init.len() {
                assert(path[j] == init[j]);
            }
        }
    } else {
        assert(path.take(path.len() as int) =~= path);
    }
}

/// The API base path keeps the configured path up to its trailing slashes
/// and ends it with exactly one `/`; a path that is empty or all slashes
/// becomes `/v2/`.
pub proof fn lemma_base_path_shape(path: Seq<char>)
    ensures
        base_path(path).len() > 0 && base_path(path).last() == '/',
        base_path(path).len() == 1 || base_path(path)[base_path(path).len() - 2] != '/',
        (forall|i: int| 0 <= i < path.len() ==> #[trigger] path[i] == '/') ==> base_path(path) == seq!['/', 'v', '2', '/'],
        !(forall|i: int| 0 <= i < path.len() ==> #[trigger] path[i] == '/') ==> ({
            let kept = base_path(path).drop_last();
            &&& kept.len() <= path.len()
            &&& path.take(kept.len() as int) == kept
            &&& forall|j: int| kept.len() <= j < path.len() ==> #[trigger] path[j] == '/'
        }),
{
    lemma_without_trailing_slashes(path);
    let w = without_trailing_slashes(path);
    if w.len() > 0 {
        assert(w.push('/').drop_last() =~= w);
        assert(w.push('/')[w.len() - 1] == w.last());
    }
    if !(forall|i: int| 0 <= i < path.len() ==> #[trigger] path[i] == '/') {
        let i = choose|i: int| 0 <= i < path.len() && !(#[trigger] path[i] == '/');
        assert(w.len() > 0);
    }
}

/// Normalizes a configured URL path into an API base path.
pub fn normalized_base_path(path: &str) -> (r: String)
    ensures
        r@ == base_path(path@),
{
    let mut p = chars_of(path);
    while p.len() > 0 && p[p.len() - 1] == '/'
        invariant
            without_trailing_slashes(p@) == without_trailing_slashes(path@),
        decreases p.len(),
    {
        p.pop();
    }
    if p.len() == 0 {
        let v2 = ['/', 'v', '2', '/'];
        assert(v2@ =~= seq!['/', 'v', '2', '/']);
        string_of(v2.as_slice())
    } else {
        p.push('/');
        string_of(p.as_slice())
    }
}

/// `https://api.figshare.com/v2/`.
pub open spec fn production_base() -> Seq<char> {
    seq![
        'h', 't', 't', 'p', 's', ':', '/', '/', 'a', 'p', 'i', '.', 'f', 'i', 'g', 's', 'h', 'a', 'r', 'e', '.',
        'c', 'o', 'm', '/', 'v', '2', '/',
    ]
}

/// The API base URL of an endpoint, as text: the parsed production URL, or
/// the custom URL with its path normalized by `base_path`.
pub open spec fn endpoint_base(endpoint: Endpoint) -> Result<Seq<char>, ParseError> {
    match endpoint {
        Endpoint::Production => parsed_url(production_base()),
        Endpoint::Custom(url) => Ok(url_with_path(url_text(url), base_path(url_path_text(url_text(url))))),
    }
}

impl Endpoint {
    /// Returns the API base URL for this endpoint: the production API, or the
    /// custom URL with its path normalized by `normalized_base_path`.
    ///
    /// # Errors
    ///
    /// Returns an error if the configured URL cannot be parsed into a valid
    /// base URL.
    pub fn base_url(&self) -> (r: Result<Url, ParseError>)
        ensures
            match r {
                Ok(u) => endpoint_base(*self) == Ok::<Seq<char>, ParseError>(url_text(u)),
                Err(e) => endpoint_base(*self) == Err::<Seq<char>, ParseError>(e),
            },
    {
        match self {
            Self::Production => {
                proof {
                    reveal_strlit("https://api.figshare.com/v2/");
                    assert("https://api.figshare.com/v2/"@ =~= production_base());
                }
                parse_url("https://api.figshare.com/v2/")
            },
            Self::Custom(url) => {
                let mut url = url.clone();
                let path = url_path(&url);
                let normalized = normalized_base_path(path.as_str());
                set_url_path(&mut url, normalized.as_str());
                Ok(url)
            },
        }
    }
}

/// Where a location that a response points at leads: an absolute URL as it
/// parses, a relative one resolved against the response URL.
pub open spec fn location_target(base: Seq<char>, location: Seq<char>) -> Result<Seq<char>, ParseError> {
    match parsed_url(location) {
        Ok(u) => Ok(u),
        Err(ParseError::RelativeUrlWithoutBase) => joined_url(base, location),
        Err(e) => Err(e),
    }
}

/// Resolves a location that a response points at: an absolute URL as it is,
/// a relative one against the URL of the response.
///
/// # Errors
///
/// Returns `FigshareError::Url` when the location is neither an absolute URL
/// nor resolvable against the response URL.
pub fn parse_location(base: &Url, location: &str) -> (r: Result<Url, FigshareError>)
    ensures
        match location_target(url_text(*base), location@) {
            Ok(t) => r matches Ok(u) && url_text(u) == t,
            Err(e) => r == Err::<Url, FigshareError>(FigshareError::Url(e)),
        },
{
    match parse_url(location) {
        Ok(url) => Ok(url),
        Err(ParseError::RelativeUrlWithoutBase) => match join_url(base, location) {
            Ok(url) => Ok(url),
            Err(e) => Err(FigshareError::Url(e)),
        },
        Err(error) => Err(FigshareError::Url(error)),
    }
}

/// `upload URL cannot accept part number segments`.
pub open spec fn no_part_segments_message() -> Seq<char> {
    seq![
        'u', 'p', 'l', 'o', 'a', 'd', ' ', 'U', 'R', 'L', ' ', 'c', 'a', 'n', 'n', 'o', 't', ' ', 'a', 'c', 'c',
        'e', 'p', 't', ' ', 'p', 'a', 'r', 't', ' ', 'n', 'u', 'm', 'b', 'e', 'r', ' ', 's', 'e', 'g', 'm', 'e',
        'n', 't', 's',
    ]
}

/// The URL of one upload part: the upload session URL with the part number,
/// in decimal, as a last path segment.
///
/// # Errors
///
/// Returns `InvalidState` when the upload URL cannot take path segments.
pub fn upload_part_url(upload_url: &Url, part_no: u64) -> (r: Result<Url, FigshareError>)
    ensures
        url_cannot_be_a_base(url_text(*upload_url)) ==> (r matches Err(FigshareError::InvalidState(m))
            && m@ == no_part_segments_message()),
        !url_cannot_be_a_base(url_text(*upload_url)) ==> (r matches Ok(u) && url_text(u)
            == url_with_pushed_segment(
            url_without_empty_last_segment(url_text(*upload_url)),
            decimal(part_no as nat),
        )),
{
    if cannot_be_a_base(upload_url) {
        let msg = [
            'u', 'p', 'l', 'o', 'a', 'd', ' ', 'U', 'R', 'L', ' ', 'c', 'a', 'n', 'n', 'o', 't', ' ', 'a',
            'c', 'c', 'e', 'p', 't', ' ', 'p', 'a', 'r', 't', ' ', 'n', 'u', 'm', 'b', 'e', 'r', ' ', 's',
            'e', 'g', 'm', 'e', 'n', 't', 's',
        ];
        assert(msg@ =~= no_part_segments_message());
        return Err(FigshareError::InvalidState(string_of(msg.as_slice())));
    }
    let mut url = upload_url.clone();
    let segment = decimal_string(part_no);
    pop_empty_segment(&mut url);
    push_segment(&mut url, segment.as_str());
    Ok(url)
}

/// Whether an API request to `url` stays on the API's origin.
pub fn is_trusted_api_url(api_base: &Url, url: &Url) -> (r: bool)
    ensures
        r == urls_share_origin(url_text(*api_base), url_text(*url)),
{
    same_origin(api_base, url)
}

/// Whether an upload request to `url` may carry credentials: it stays on the
/// API's origin or goes to a Figshare upload host.
pub fn is_trusted_upload_url(api_base: &Url, url: &Url) -> (r: bool)
    ensures
        r == upload_target_trusted(urls_share_origin(url_text(*api_base), url_text(*url)), url_host_text(url_text(*url))),
{
    let origin = same_origin(api_base, url);
    let host = url_host(url);
    match host {
        Some(h) => is_trusted_upload_target(origin, Some(h.as_str())),
        None => is_trusted_upload_target(origin, None),
    }
}

/// `token`, the query key of a download token.
pub open spec fn token_key() -> Seq<char> {
    seq!['t', 'o', 'k', 'e', 'n']
}

/// Adds the account token to a private download URL when it goes to the
/// Figshare downloader host or stays on the API's origin; other URLs come
/// back unchanged.
///
/// # Errors
///
/// Returns `MissingAuth(operation)` when no token is configured.
pub fn with_download_token(api_base: &Url, url: Url, token: Option<&str>, operation: &'static str) -> (r: Result<
    Url,
    FigshareError,
>)
    ensures
        token is None <==> r is Err,
        r matches Err(e) ==> e == FigshareError::MissingAuth(operation),
        r matches Ok(u) ==> url_text(u) == if download_token_applies(
            url_host_text(url_text(url)),
            urls_share_origin(url_text(*api_base), url_text(url)),
        ) {
            url_with_query_pair(url_text(url), token_key(), token->0@)
        } else {
            url_text(url)
        },
{
    match token {
        None => Err(FigshareError::MissingAuth(operation)),
        Some(t) => {
            let mut url = url;
            let host = url_host(&url);
            let origin = same_origin(api_base, &url);
            let append = match &host {
                Some(h) => should_append_download_token(Some(h.as_str()), origin),
                None => should_append_download_token(None, origin),
            };
            if append {
                proof {
                    reveal_strlit("token");
                    assert("token"@ =~= token_key());
                }
                append_query_pair(&mut url, "token", t);
            }
            Ok(url)
        },
    }
}

} // verus!
