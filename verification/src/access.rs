//! Request policy: which hosts receive credentials, how the authorization
//! header reads, and where a created resource lives.

use vstd::prelude::*;

use crate::error::{decode_utf8_lossy, json_get, json_str, member_text, utf8_lossy, FigshareError};
use crate::json::{json_parsed, json_view, parse_json_bytes, JsonValue, JsonView};
use crate::text::{
    chars_eq, chars_of, copy_range, eq_ignore_ascii_case, eq_ignore_case, lower, lower_chars, string_of,
    trim, trim_chars,
};

verus! {

/// `uploads.figshare.com`.
pub open spec fn uploads_host() -> Seq<char> {
    seq!['u', 'p', 'l', 'o', 'a', 'd', 's', '.', 'f', 'i', 'g', 's', 'h', 'a', 'r', 'e', '.', 'c', 'o', 'm']
}

/// `.figshare.com`.
pub open spec fn figshare_suffix() -> Seq<char> {
    seq!['.', 'f', 'i', 'g', 's', 'h', 'a', 'r', 'e', '.', 'c', 'o', 'm']
}

/// `fup-`, the prefix of regional upload hosts.
pub open spec fn regional_upload_prefix() -> Seq<char> {
    seq!['f', 'u', 'p', '-']
}

/// `ndownloader.figshare.com`, the public file download host.
pub open spec fn downloader_host() -> Seq<char> {
    seq!['n', 'd', 'o', 'w', 'n', 'l', 'o', 'a', 'd', 'e', 'r', '.', 'f', 'i', 'g', 's', 'h', 'a', 'r', 'e', '.', 'c', 'o', 'm']
}

/// Whether a host is one of Figshare's upload services, compared without
/// regard to ASCII case: `uploads.figshare.com`, or a subdomain of
/// `figshare.com` whose name starts with `fup-`.
pub open spec fn trusted_upload_host(host: Seq<char>) -> bool {
    let h = lower(host);
    let suffix = figshare_suffix();
    let prefix = regional_upload_prefix();
    ||| h == uploads_host()
    ||| (h.len() >= suffix.len() + prefix.len() && h.skip(h.len() - suffix.len()) == suffix && h.take(
        prefix.len() as int,
    ) == prefix)
}

/// Whether `host` names one of Figshare's upload services.
pub fn is_trusted_figshare_upload_host(host: &str) -> (r: bool)
    ensures
        r == trusted_upload_host(host@),
{
    let h = lower_chars(&chars_of(host));
    let uploads = [
        'u', 'p', 'l', 'o', 'a', 'd', 's', '.', 'f', 'i', 'g', 's', 'h', 'a', 'r', 'e', '.', 'c', 'o', 'm',
    ];
    let suffix = ['.', 'f', 'i', 'g', 's', 'h', 'a', 'r', 'e', '.', 'c', 'o', 'm'];
    let prefix = ['f', 'u', 'p', '-'];
    assert(uploads@ =~= uploads_host());
    assert(suffix@ =~= figshare_suffix());
    assert(prefix@ =~= regional_upload_prefix());
    if chars_eq(h.as_slice(), uploads.as_slice()) {
        return true;
    }
    if h.len() < 17 {
        return false;
    }
    let tail = copy_range(&h, h.len() - 13, h.len());
    let head = copy_range(&h, 0, 4);
    assert(tail@ =~= h@.skip(h@.len() - 13));
    assert(head@ =~= h@.take(4));
    chars_eq(tail.as_slice(), suffix.as_slice()) && chars_eq(head.as_slice(), prefix.as_slice())
}

/// Whether an upload request may carry credentials: the URL shares the API's
/// origin, or its host is a Figshare upload service.
pub open spec fn upload_target_trusted(same_origin_as_api: bool, host: Option<Seq<char>>) -> bool {
    same_origin_as_api || (host matches Some(h) && trusted_upload_host(h))
}

/// Decides whether an upload URL is trusted, given whether it shares the API's
/// origin and its host, if it has one.
pub fn is_trusted_upload_target(same_origin_as_api: bool, host: Option<&str>) -> (r: bool)
    ensures
        r == upload_target_trusted(same_origin_as_api, match host {
            Some(h) => Some(h@),
            None => None,
        }),
{
    if same_origin_as_api {
        return true;
    }
    match host {
        Some(h) => is_trusted_figshare_upload_host(h),
        None => false,
    }
}

/// Whether a private download URL gets the account token appended: its host
/// is `ndownloader.figshare.com` (ignoring ASCII case), or it shares the API's
/// origin.
pub open spec fn download_token_applies(host: Option<Seq<char>>, same_origin_as_api: bool) -> bool {
    (host matches Some(h) && eq_ignore_case(h, downloader_host())) || same_origin_as_api
}

/// Upload credentials go to the API's own origin and to Figshare's upload
/// hosts (`uploads.figshare.com` and the regional `fup-*.figshare.com`, in any
/// ASCII case), and to nothing else without a host; a download token goes to
/// `ndownloader.figshare.com` in any case and to the API's own origin, and
/// to nothing else without a host.
pub proof fn lemma_credential_targets(host: Option<Seq<char>>)
    ensures
        upload_target_trusted(true, host),
        !upload_target_trusted(false, None),
        trusted_upload_host("uploads.figshare.com"@),
        trusted_upload_host("Uploads.Figshare.COM"@),
        trusted_upload_host("fup-eu-west-1.figshare.com"@),
        !trusted_upload_host("example.com"@),
        !trusted_upload_host("uploads.figshare.com.example.org"@),
        download_token_applies(host, true),
        !download_token_applies(None, false),
        download_token_applies(Some("ndownloader.figshare.com"@), false),
        download_token_applies(Some("NDownloader.Figshare.com"@), false),
        !download_token_applies(Some("example.com"@), false),
{
    reveal_strlit("uploads.figshare.com");
    reveal_strlit("Uploads.Figshare.COM");
    reveal_strlit("fup-eu-west-1.figshare.com");
    reveal_strlit("example.com");
    reveal_strlit("uploads.figshare.com.example.org");
    reveal_strlit("ndownloader.figshare.com");
    reveal_strlit("NDownloader.Figshare.com");
    assert(lower("uploads.figshare.com"@) =~= uploads_host());
    assert(lower("Uploads.Figshare.COM"@) =~= uploads_host());
    let r = lower("fup-eu-west-1.figshare.com"@);
    assert(r =~= "fup-eu-west-1.figshare.com"@);
    assert(r.skip(r.len() - figshare_suffix().len()) =~= figshare_suffix());
    assert(r.take(regional_upload_prefix().len() as int) =~= regional_upload_prefix());
    let e = lower("example.com"@);
    assert(e =~= "example.com"@);
    assert(e.len() != uploads_host().len());
    let x = lower("uploads.figshare.com.example.org"@);
    assert(x =~= "uploads.figshare.com.example.org"@);
    assert(x.len() != uploads_host().len());
    assert(x.take(regional_upload_prefix().len() as int)[0] != regional_upload_prefix()[0]);
    assert(eq_ignore_case("ndownloader.figshare.com"@, downloader_host()));
    assert(eq_ignore_case("NDownloader.Figshare.com"@, downloader_host()));
    assert("example.com"@.len() != downloader_host().len());
}

/// The `Authorization` header reads `token ` followed by the account token.
pub proof fn lemma_authorization_text(token: Seq<char>)
    ensures
        authorization_text(token) == "token "@ + token,
{
    reveal_strlit("token ");
    assert(seq!['t', 'o', 'k', 'e', 'n', ' '] =~= "token "@);
}

/// Decides whether a private download URL gets the account token.
pub fn should_append_download_token(host: Option<&str>, same_origin_as_api: bool) -> (r: bool)
    ensures
        r == download_token_applies(match host {
            Some(h) => Some(h@),
            None => None,
        }, same_origin_as_api),
{
    let downloader = [
        'n', 'd', 'o', 'w', 'n', 'l', 'o', 'a', 'd', 'e', 'r', '.', 'f', 'i', 'g', 's', 'h', 'a', 'r', 'e',
        '.', 'c', 'o', 'm',
    ];
    assert(downloader@ =~= downloader_host());
    let by_host = match host {
        Some(h) => {
            let hc = chars_of(h);
            eq_ignore_ascii_case(hc.as_slice(), downloader.as_slice())
        },
        None => false,
    };
    by_host || same_origin_as_api
}

/// `token ` followed by the account token.
pub open spec fn authorization_text(token: Seq<char>) -> Seq<char> {
    seq!['t', 'o', 'k', 'e', 'n', ' '] + token
}

/// The `Authorization` header value for an authenticated request.
///
/// # Errors
///
/// Returns `MissingAuth(operation)` when no token is configured.
pub fn authorization_header_value(token: Option<&str>, operation: &'static str) -> (r: Result<
    String,
    FigshareError,
>)
    ensures
        token is None <==> r is Err,
        r matches Err(e) ==> e == FigshareError::MissingAuth(operation),
        r matches Ok(v) ==> v@ == authorization_text(token->0@),
{
    match token {
        None => Err(FigshareError::MissingAuth(operation)),
        Some(t) => {
            let mut out: Vec<char> = Vec::new();
            out.push('t');
            out.push('o');
            out.push('k');
            out.push('e');
            out.push('n');
            out.push(' ');
            let tc = chars_of(t);
            let mut i: usize = 0;
            while i < tc.len()
                invariant
                    i <= tc.len(),
                    out@ == seq!['t', 'o', 'k', 'e', 'n', ' '] + tc@.take(i as int),
                decreases tc.len() - i,
            {
                out.push(tc[i]);
                i = i + 1;
                assert(out@ =~= seq!['t', 'o', 'k', 'e', 'n', ' '] + tc@.take(i as int));
            }
            assert(tc@.take(tc.len() as int) =~= tc@);
            Ok(string_of(out.as_slice()))
        },
    }
}

/// The kind of request whose target origin was refused.
#[derive(Clone, Copy, Debug, PartialEq, Eq, Structural)]
pub enum RequestKind {
    /// A request to the REST API.
    Api,
    /// A request to the upload service.
    Upload,
}

/// `refusing API request to different origin: ` or
/// `refusing upload request to different origin: `.
pub open spec fn refusal_prefix(kind: RequestKind) -> Seq<char> {
    let word = match kind {
        RequestKind::Api => seq!['A', 'P', 'I'],
        RequestKind::Upload => seq!['u', 'p', 'l', 'o', 'a', 'd'],
    };
    seq!['r', 'e', 'f', 'u', 's', 'i', 'n', 'g', ' '] + word + seq![
        ' ', 'r', 'e', 'q', 'u', 'e', 's', 't', ' ', 't', 'o', ' ', 'd', 'i', 'f', 'f', 'e', 'r', 'e', 'n', 't',
        ' ', 'o', 'r', 'i', 'g', 'i', 'n', ':', ' ',
    ]
}

fn push_chars(out: &mut Vec<char>, s: &[char])
    ensures
        final(out)@ == old(out)@ + s@,
{
    let mut i: usize = 0;
    while i < s.len()
        invariant
            i <= s.len(),
            out@ == old(out)@ + s@.take(i as int),
        decreases s.len() - i,
    {
        out.push(s[i]);
        i = i + 1;
        assert(out@ =~= old(out)@ + s@.take(i as int));
    }
    assert(s@.take(s.len() as int) =~= s@);
}

/// The error for a request whose URL lies outside the trusted origins.
pub fn different_origin_error(kind: RequestKind, url: &str) -> (r: FigshareError)
    ensures
        r matches FigshareError::InvalidState(m) && m@ == refusal_prefix(kind) + url@,
{
    let mut out: Vec<char> = Vec::new();
    push_chars(&mut out, &['r', 'e', 'f', 'u', 's', 'i', 'n', 'g', ' ']);
    match kind {
        RequestKind::Api => push_chars(&mut out, &['A', 'P', 'I']),
        RequestKind::Upload => push_chars(&mut out, &['u', 'p', 'l', 'o', 'a', 'd']),
    }
    push_chars(
        &mut out,
        &[
            ' ', 'r', 'e', 'q', 'u', 'e', 's', 't', ' ', 't', 'o', ' ', 'd', 'i', 'f', 'f', 'e', 'r', 'e', 'n',
            't', ' ', 'o', 'r', 'i', 'g', 'i', 'n', ':', ' ',
        ],
    );
    let uc = chars_of(url);
    push_chars(&mut out, uc.as_slice());
    assert(out@ =~= refusal_prefix(kind) + url@);
    FigshareError::InvalidState(string_of(out.as_slice()))
}

/// `successful Figshare response did not include a location`.
pub open spec fn missing_location_message() -> Seq<char> {
    seq![
        's', 'u', 'c', 'c', 'e', 's', 's', 'f', 'u', 'l', ' ', 'F', 'i', 'g', 's', 'h', 'a', 'r', 'e', ' ',
        'r', 'e', 's', 'p', 'o', 'n', 's', 'e', ' ', 'd', 'i', 'd', ' ', 'n', 'o', 't', ' ', 'i', 'n', 'c',
        'l', 'u', 'd', 'e', ' ', 'a', ' ', 'l', 'o', 'c', 'a', 't', 'i', 'o', 'n',
    ]
}

/// `location`.
pub open spec fn location_key() -> Seq<char> {
    seq!['l', 'o', 'c', 'a', 't', 'i', 'o', 'n']
}

/// Where a successful create or publish response says the new resource lives:
/// the `Location` header when present; otherwise, for a non-empty body, the
/// `location` member of a JSON object body, or a JSON string body, or else the
/// body text with surrounding whitespace removed.
pub open spec fn location_from_response(
    header: Option<Seq<char>>,
    body: Seq<u8>,
    parsed: Option<JsonView>,
) -> Result<Seq<char>, ()> {
    match header {
        Some(h) => Ok(h),
        None => if body.len() == 0 {
            Err(())
        } else {
            match parsed {
                Some(v) => match json_str(json_get(v, location_key())) {
                    Some(l) => Ok(l),
                    None => match v {
                        JsonView::String(s) => Ok(s),
                        _ => Ok(trim(utf8_lossy(body))),
                    },
                },
                None => Ok(trim(utf8_lossy(body))),
            }
        },
    }
}

/// Where a created resource lives: a `Location` header wins over the body;
/// without one, an empty body names nowhere; a JSON body names the string in
/// its `location` member, or is itself that string; any other body names its
/// text with surrounding whitespace removed.
pub proof fn lemma_location_choice(header: Option<Seq<char>>, body: Seq<u8>, parsed: Option<JsonView>)
    ensures
        header matches Some(h) ==> location_from_response(header, body, parsed) == Ok::<Seq<char>, ()>(h),
        header is None && body.len() == 0 ==> location_from_response(header, body, parsed) is Err,
        (header is None && body.len() > 0) ==> (parsed matches Some(v) ==> (json_get(v, "location"@) matches Some(
            JsonView::String(l),
        ) ==> location_from_response(header, body, parsed) == Ok::<Seq<char>, ()>(l))),
        (header is None && body.len() > 0 && !(parsed matches Some(JsonView::Object(_)))) ==> (parsed matches Some(
            JsonView::String(l),
        ) ==> location_from_response(header, body, parsed) == Ok::<Seq<char>, ()>(l)),
        (header is None && body.len() > 0 && parsed is None) ==> location_from_response(header, body, parsed)
            == Ok::<Seq<char>, ()>(trim(utf8_lossy(body))),
{
    reveal_strlit("location");
    assert(location_key() =~= "location"@);
}

/// The location that a non-empty body gives when there is no `Location`
/// header, from the body bytes and the body parsed as JSON (when it parses).
pub fn location_from_body(body: &[u8], parsed: Option<&JsonValue>) -> (r: String)
    requires
        body@.len() > 0,
    ensures
        location_from_response(
            None,
            body@,
            match parsed {
                Some(v) => Some(json_view(*v)),
                None => None,
            },
        ) == Ok::<Seq<char>, ()>(r@),
{
    if let Some(v) = parsed {
        proof {
            reveal_strlit("location");
            assert("location"@ =~= location_key());
        }
        let l = member_text(v, "location");
        assert(crate::error::opt_text(l) == json_str(json_get(json_view(*v), location_key())));
        if let Some(l) = l {
            return l;
        }
        if let JsonValue::String(s) = v {
            return s.clone();
        }
    }
    let text = decode_utf8_lossy(body);
    let t = trim_chars(&chars_of(text.as_str()));
    string_of(t.as_slice())
}

/// Picks the location text of a successful response from its `Location`
/// header (when the header is valid text) or else its body, read as JSON when
/// it parses.
///
/// # Errors
///
/// Returns `InvalidState` when there is no header and the body is empty.
pub fn response_location(header: Option<&str>, body: &[u8]) -> (r: Result<String, FigshareError>)
    ensures
        match location_from_response(
            match header {
                Some(h) => Some(h@),
                None => None,
            },
            body@,
            json_parsed(body@),
        ) {
            Ok(l) => r matches Ok(s) && s@ == l,
            Err(_) => r matches Err(FigshareError::InvalidState(m)) && m@ == missing_location_message(),
        },
{
    if let Some(h) = header {
        return Ok(h.to_owned());
    }
    if body.len() == 0 {
        let msg = [
            's', 'u', 'c', 'c', 'e', 's', 's', 'f', 'u', 'l', ' ', 'F', 'i', 'g', 's', 'h', 'a', 'r', 'e', ' ',
            'r', 'e', 's', 'p', 'o', 'n', 's', 'e', ' ', 'd', 'i', 'd', ' ', 'n', 'o', 't', ' ', 'i', 'n', 'c',
            'l', 'u', 'd', 'e', ' ', 'a', ' ', 'l', 'o', 'c', 'a', 't', 'i', 'o', 'n',
        ];
        assert(msg@ =~= missing_location_message());
        return Err(FigshareError::InvalidState(string_of(msg.as_slice())));
    }
    let parsed = parse_json_bytes(body);
    Ok(location_from_body(body, parsed.as_ref()))
}

} // verus!
