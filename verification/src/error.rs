//! Error types and the decoding of Figshare HTTP error bodies.

use vstd::prelude::*;

use crate::json::{
    entries_view, items_view, json_text, json_view, lemma_entries_view_index, lemma_entries_view_len,
    lemma_items_view_index, lemma_items_view_len, json_parsed, parse_json_bytes, to_json_text, JsonValue, JsonView,
};
use crate::text::{chars_of, copy_range, lemma_trim_shape, string_of, trim, trim_bounds};

verus! {

/// Field-specific validation error returned by Figshare.
#[derive(Clone, Debug, PartialEq, Eq)]
pub struct FieldError {
    /// The field name, when Figshare reports one.
    pub field: Option<String>,
    /// Human-readable error message for the field.
    pub message: String,
}

/// The mathematical form of a field error: field name and message.
pub type FieldErrorView = (Option<Seq<char>>, Seq<char>);

impl FieldError {
    /// The field name and message as character sequences.
    pub open spec fn view(self) -> FieldErrorView {
        (opt_text(self.field), self.message@)
    }
}

/// The characters of an optional string.
pub open spec fn opt_text(o: Option<String>) -> Option<Seq<char>> {
    match o {
        Some(s) => Some(s@),
        None => None,
    }
}

/// The views of a list of field errors.
pub open spec fn field_errors_view(v: Seq<FieldError>) -> Seq<FieldErrorView> {
    v.map_values(|e: FieldError| e.view())
}

/// Errors produced by the Figshare client logic.
#[derive(Debug, PartialEq, Eq)]
pub enum FigshareError {
    /// Figshare returned a non-success HTTP status.
    Http {
        /// HTTP status code returned by Figshare.
        status: u16,
        /// Summary message extracted from the response body, when available.
        message: Option<String>,
        /// Machine-readable error code returned by Figshare, when available.
        code: Option<String>,
        /// Field-level validation errors extracted from the response body.
        field_errors: Vec<FieldError>,
        /// Trimmed raw response body for diagnostics.
        raw_body: Option<String>,
    },
    /// Authentication was required for a private operation.
    MissingAuth(
        /// Description of the private operation.
        &'static str,
    ),
    /// Figshare returned data that violates a workflow invariant, or a request was
    /// malformed.
    InvalidState(
        /// Description of the invalid state.
        String,
    ),
    /// A required link relation was missing from a Figshare payload.
    MissingLink(
        /// Missing link relation name.
        &'static str,
    ),
    /// A requested file name was not present on an article.
    MissingFile {
        /// Missing article file name.
        name: String,
    },
    /// Multiple uploads targeted the same final filename.
    DuplicateUploadFilename {
        /// Duplicate filename seen in the upload set.
        filename: String,
    },
    /// A keep-existing upload would overwrite an existing draft file.
    ConflictingDraftFile {
        /// Conflicting filename already present on the article.
        filename: String,
    },
    /// A selector could not be resolved to an article.
    UnsupportedSelector(
        /// Description of the unsupported selector.
        String,
    ),
    /// Polling timed out before Figshare reached the requested state.
    Timeout(
        /// Label for the operation that timed out.
        &'static str,
    ),
    /// A URL could not be parsed or joined.
    Url(
        /// Underlying URL parse error.
        url::ParseError,
    ),
}

/// `u8::is_ascii_whitespace`: space, tab, line feed, form feed, carriage return.
pub open spec fn is_ascii_ws_byte(b: u8) -> bool {
    b == 0x20 || b == 0x09 || b == 0x0a || b == 0x0c || b == 0x0d
}

/// The first byte that is not ASCII whitespace, if any.
pub open spec fn first_non_ws_byte(body: Seq<u8>) -> Option<u8>
    decreases body.len(),
{
    if body.len() == 0 {
        None
    } else if is_ascii_ws_byte(body[0]) {
        first_non_ws_byte(body.drop_first())
    } else {
        Some(body[0])
    }
}

/// Whether an error body is treated as JSON: the content type starts with
/// `application/json` or ends with `+json`, or the first non-whitespace byte of the
/// body is `{` or `[`.
pub open spec fn looks_like_json_spec(content_type: Option<Seq<char>>, body: Seq<u8>) -> bool {
    let app_json = seq!['a', 'p', 'p', 'l', 'i', 'c', 'a', 't', 'i', 'o', 'n', '/', 'j', 's', 'o', 'n'];
    let plus_json = seq!['+', 'j', 's', 'o', 'n'];
    ||| (content_type matches Some(ct) && (ct.len() >= app_json.len() && ct.take(app_json.len() as int) == app_json
        || ct.len() >= plus_json.len() && ct.skip(ct.len() - plus_json.len()) == plus_json))
    ||| (first_non_ws_byte(body) matches Some(b) && (b == 0x7b || b == 0x5b))
}

/// Whether the content type names JSON.
fn content_type_is_json(ct: &str) -> (r: bool)
    ensures
        r == ({
            let app_json = seq!['a', 'p', 'p', 'l', 'i', 'c', 'a', 't', 'i', 'o', 'n', '/', 'j', 's', 'o', 'n'];
            let plus_json = seq!['+', 'j', 's', 'o', 'n'];
            ct@.len() >= app_json.len() && ct@.take(app_json.len() as int) == app_json
                || ct@.len() >= plus_json.len() && ct@.skip(ct@.len() - plus_json.len()) == plus_json
        }),
{
    let c = chars_of(ct);
    let app_json = ['a', 'p', 'p', 'l', 'i', 'c', 'a', 't', 'i', 'o', 'n', '/', 'j', 's', 'o', 'n'];
    let plus_json = ['+', 'j', 's', 'o', 'n'];
    let ghost aj = seq!['a', 'p', 'p', 'l', 'i', 'c', 'a', 't', 'i', 'o', 'n', '/', 'j', 's', 'o', 'n'];
    let ghost pj = seq!['+', 'j', 's', 'o', 'n'];
    assert(app_json@ =~= aj);
    assert(plus_json@ =~= pj);
    if c.len() >= 16 {
        let head = copy_range(&c, 0, 16);
        assert(head@ =~= c@.take(16));
        if crate::text::chars_eq(head.as_slice(), app_json.as_slice()) {
            return true;
        }
    }
    if c.len() >= 5 {
        let tail = copy_range(&c, c.len() - 5, c.len());
        assert(tail@ =~= c@.skip(c@.len() - 5));
        if crate::text::chars_eq(tail.as_slice(), plus_json.as_slice()) {
            return true;
        }
    }
    false
}

/// Whether an error body should be decoded as JSON.
pub fn looks_like_json(content_type: Option<&str>, body: &[u8]) -> (r: bool)
    ensures
        r == looks_like_json_spec(
            match content_type {
                Some(ct) => Some(ct@),
                None => None,
            },
            body@,
        ),
{
    if let Some(ct) = content_type {
        if content_type_is_json(ct) {
            return true;
        }
    }
    let mut i: usize = 0;
    assert(body@.skip(0) =~= body@);
    while i < body.len() && (body[i] == 0x20 || body[i] == 0x09 || body[i] == 0x0a || body[i] == 0x0c
        || body[i] == 0x0d)
        invariant
            i <= body.len(),
            first_non_ws_byte(body@) == first_non_ws_byte(body@.skip(i as int)),
        decreases body.len() - i,
    {
        assert(body@.skip(i as int).drop_first() =~= body@.skip(i + 1));
        i = i + 1;
    }
    if i == body.len() {
        return false;
    }
    assert(body@.skip(i as int)[0] == body@[i as int]);
    body[i] == 0x7b || body[i] == 0x5b
}

/// What `String::from_utf8_lossy` returns for the given bytes.
pub uninterp spec fn utf8_lossy(bytes: Seq<u8>) -> Seq<char>;

/// `String::from_utf8_lossy`: decodes UTF-8, replacing invalid sequences with
/// U+FFFD. Its documentation promises that valid UTF-8 comes back unchanged, which
/// the contract states; what replacement characters appear for invalid input is left
/// to the name `utf8_lossy`.
#[verifier::external_body]
pub(crate) fn decode_utf8_lossy(bytes: &[u8]) -> (r: String)
    ensures
        r@ == utf8_lossy(bytes@),
        vstd::utf8::valid_utf8(bytes@) ==> r@ == vstd::utf8::decode_utf8(bytes@),
{
    String::from_utf8_lossy(bytes).into_owned()
}

/// Index of the first line feed at or after `i`, or the length.
pub open spec fn next_newline(t: Seq<char>, i: int) -> int
    decreases t.len() - i,
{
    if i >= t.len() || i < 0 {
        t.len() as int
    } else if t[i] == '\n' {
        i
    } else {
        next_newline(t, i + 1)
    }
}

/// The first line (from position `start` on) that is not blank, trimmed.
pub open spec fn first_nonblank_line_from(t: Seq<char>, start: int) -> Option<Seq<char>>
    decreases t.len() - start,
{
    if start < 0 || start > t.len() {
        None
    } else {
        let j = next_newline(t, start);
        let piece = trim(t.subrange(start, j));
        if piece.len() > 0 {
            Some(piece)
        } else if j >= t.len() || j < start {
            None
        } else {
            first_nonblank_line_from(t, j + 1)
        }
    }
}

/// The first non-blank line of a text, trimmed.
pub open spec fn first_nonblank_line(t: Seq<char>) -> Option<Seq<char>> {
    first_nonblank_line_from(t, 0)
}

/// The diagnostic form of a raw body: its first non-blank line (as lossily decoded
/// UTF-8), trimmed and cut to 512 characters.
pub open spec fn trimmed_body_spec(body: Seq<u8>) -> Option<Seq<char>> {
    match first_nonblank_line(utf8_lossy(body)) {
        Some(line) => Some(if line.len() > 512 { line.take(512) } else { line }),
        None => None,
    }
}

/// Keeps the first non-blank line of a raw error body, trimmed and capped to 512
/// characters.
pub fn trimmed_body(body: &[u8]) -> (r: Option<String>)
    ensures
        opt_text(r) == trimmed_body_spec(body@),
{
    let text = decode_utf8_lossy(body);
    let t = chars_of(text.as_str());
    let mut start: usize = 0;
    loop
        invariant
            start <= t.len(),
            t@ == utf8_lossy(body@),
            first_nonblank_line(t@) == first_nonblank_line_from(t@, start as int),
        decreases t.len() - start,
    {
        let mut j = start;
        while j < t.len() && t[j] != '\n'
            invariant
                start <= j <= t.len(),
                next_newline(t@, start as int) == next_newline(t@, j as int),
            decreases t.len() - j,
        {
            j = j + 1;
        }
        let piece = copy_range(&t, start, j);
        let (a, b) = trim_bounds(&piece);
        if a < b {
            let n = if b - a > 512 { a + 512 } else { b };
            let line = copy_range(&piece, a, n);
            proof {
                let p = trim(t@.subrange(start as int, j as int));
                assert(line@ =~= (if p.len() > 512 { p.take(512) } else { p }));
            }
            return Some(string_of(line.as_slice()));
        }
        if j >= t.len() {
            return None;
        }
        start = j + 1;
    }
}

/// The value of the first entry with key `k`, looking from entry `i` on.
pub open spec fn obj_get_from(es: Seq<(Seq<char>, JsonView)>, k: Seq<char>, i: int) -> Option<JsonView>
    decreases es.len() - i,
{
    if i < 0 || i >= es.len() {
        None
    } else if es[i].0 == k {
        Some(es[i].1)
    } else {
        obj_get_from(es, k, i + 1)
    }
}

/// `Value::get(key)`: the member of an object with the given key.
pub open spec fn json_get(v: JsonView, k: Seq<char>) -> Option<JsonView> {
    match v {
        JsonView::Object(es) => obj_get_from(es, k, 0),
        _ => None,
    }
}

/// `Value::as_str` of an optional value.
pub open spec fn json_str(v: Option<JsonView>) -> Option<Seq<char>> {
    match v {
        Some(JsonView::String(s)) => Some(s),
        _ => None,
    }
}

/// The field error that one array item describes: an object gives its `field` and
/// its `message` (or else `detail`, or else `unknown error`), a string gives a
/// message without field, and anything else gives nothing.
pub open spec fn item_field_error(item: JsonView) -> Option<FieldErrorView> {
    match item {
        JsonView::Object(es) => Some(
            (
                json_str(obj_get_from(es, "field"@, 0)),
                match json_str(obj_get_from(es, "message"@, 0)) {
                    Some(m) => m,
                    None => match json_str(obj_get_from(es, "detail"@, 0)) {
                        Some(d) => d,
                        None => "unknown error"@,
                    },
                },
            ),
        ),
        JsonView::String(m) => Some((None, m)),
        _ => None,
    }
}

/// The field errors described by the first `n` items of an array.
pub open spec fn array_field_errors(items: Seq<JsonView>, n: int) -> Seq<FieldErrorView>
    decreases n,
{
    if n <= 0 || n > items.len() {
        Seq::empty()
    } else {
        array_field_errors(items, n - 1) + match item_field_error(items[n - 1]) {
            Some(e) => seq![e],
            None => Seq::empty(),
        }
    }
}

/// The field errors described by the first `n` entries of an object: each key is
/// a field, its message the string value or else the value's JSON text.
pub open spec fn object_field_errors(es: Seq<(Seq<char>, JsonView)>, n: int) -> Seq<FieldErrorView>
    decreases n,
{
    if n <= 0 || n > es.len() {
        Seq::empty()
    } else {
        object_field_errors(es, n - 1).push(
            (
                Some(es[n - 1].0),
                match es[n - 1].1 {
                    JsonView::String(m) => m,
                    other => json_text(other),
                },
            ),
        )
    }
}

/// Field errors described by a JSON value: arrays and objects describe them, other
/// values describe none.
pub open spec fn field_errors_of(v: JsonView) -> Option<Seq<FieldErrorView>> {
    match v {
        JsonView::Array(items) => Some(array_field_errors(items, items.len() as int)),
        JsonView::Object(es) => Some(object_field_errors(es, es.len() as int)),
        _ => None,
    }
}

/// Field errors of an optional member.
pub open spec fn member_field_errors(v: Option<JsonView>) -> Option<Seq<FieldErrorView>> {
    match v {
        Some(x) => field_errors_of(x),
        None => None,
    }
}

/// The message, code and field errors that a JSON error body carries: `message` and
/// `code` when they are strings, and the field errors of `errors`, or else of
/// `data`, or else none.
pub open spec fn json_error_parts(v: JsonView) -> (Option<Seq<char>>, Option<Seq<char>>, Seq<FieldErrorView>) {
    (
        json_str(json_get(v, "message"@)),
        json_str(json_get(v, "code"@)),
        match member_field_errors(json_get(v, "errors"@)) {
            Some(e) => e,
            None => match member_field_errors(json_get(v, "data"@)) {
                Some(e) => e,
                None => Seq::empty(),
            },
        },
    )
}

fn find_key(entries: &Vec<(String, JsonValue)>, key: &str) -> (r: Option<usize>)
    ensures
        match obj_get_from(entries_view(entries@, entries@.len() as int), key@, 0) {
            Some(x) => r matches Some(i) && i < entries.len() && json_view(entries@[i as int].1) == x,
            None => r is None,
        },
{
    let ghost ev = entries_view(entries@, entries@.len() as int);
    proof {
        lemma_entries_view_len(entries@, entries@.len() as int);
    }
    let mut i: usize = 0;
    while i < entries.len()
        invariant
            i <= entries.len(),
            ev == entries_view(entries@, entries@.len() as int),
            ev.len() == entries.len(),
            obj_get_from(ev, key@, 0) == obj_get_from(ev, key@, i as int),
        decreases entries.len() - i,
    {
        proof {
            lemma_entries_view_index(entries@, i as int);
        }
        if crate::text::str_eq(entries[i].0.as_str(), key) {
            return Some(i);
        }
        i = i + 1;
    }
    None
}

fn member<'a>(v: &'a JsonValue, key: &str) -> (r: Option<&'a JsonValue>)
    ensures
        match json_get(json_view(*v), key@) {
            Some(x) => r matches Some(m) && json_view(*m) == x,
            None => r is None,
        },
{
    match v {
        JsonValue::Object(entries) => match find_key(entries, key) {
            Some(i) => Some(&entries[i].1),
            None => None,
        },
        _ => None,
    }
}

pub(crate) fn member_text(v: &JsonValue, key: &str) -> (r: Option<String>)
    ensures
        opt_text(r) == json_str(json_get(json_view(*v), key@)),
{
    match member(v, key) {
        Some(JsonValue::String(s)) => Some(s.clone()),
        _ => None,
    }
}

fn item_error(item: &JsonValue) -> (r: Option<FieldError>)
    ensures
        match r {
            Some(e) => item_field_error(json_view(*item)) == Some(e.view()),
            None => item_field_error(json_view(*item)) is None,
        },
{
    match item {
        JsonValue::Object(_) => {
            let message = match member_text(item, "message") {
                Some(m) => m,
                None => match member_text(item, "detail") {
                    Some(d) => d,
                    None => "unknown error".to_owned(),
                },
            };
            Some(FieldError { field: member_text(item, "field"), message })
        },
        JsonValue::String(m) => Some(FieldError { field: None, message: m.clone() }),
        _ => None,
    }
}

/// Extracts field-level errors from an `errors` or `data` member of an error body.
pub fn parse_field_errors(value: &JsonValue) -> (r: Option<Vec<FieldError>>)
    ensures
        match r {
            Some(v) => field_errors_of(json_view(*value)) == Some(field_errors_view(v@)),
            None => field_errors_of(json_view(*value)) is None,
        },
{
    match value {
        JsonValue::Array(items) => {
            let ghost iv = items_view(items@, items@.len() as int);
            proof {
                lemma_items_view_len(items@, items@.len() as int);
            }
            let mut errors: Vec<FieldError> = Vec::new();
            let mut i: usize = 0;
            while i < items.len()
                invariant
                    i <= items.len(),
                    iv == items_view(items@, items@.len() as int),
                    iv.len() == items.len(),
                    field_errors_view(errors@) == array_field_errors(iv, i as int),
                decreases items.len() - i,
            {
                proof {
                    lemma_items_view_index(items@, i as int);
                }
                let ghost before = errors@;
                match item_error(&items[i]) {
                    Some(e) => {
                        errors.push(e);
                        assert(field_errors_view(errors@) =~= field_errors_view(before) + seq![e.view()]);
                    },
                    None => {
                        assert(array_field_errors(iv, i + 1) =~= array_field_errors(iv, i as int));
                    },
                }
                i = i + 1;
            }
            Some(errors)
        },
        JsonValue::Object(entries) => {
            let ghost ev = entries_view(entries@, entries@.len() as int);
            proof {
                lemma_entries_view_len(entries@, entries@.len() as int);
            }
            let mut errors: Vec<FieldError> = Vec::new();
            let mut i: usize = 0;
            while i < entries.len()
                invariant
                    i <= entries.len(),
                    ev == entries_view(entries@, entries@.len() as int),
                    ev.len() == entries.len(),
                    field_errors_view(errors@) == object_field_errors(ev, i as int),
                decreases entries.len() - i,
            {
                proof {
                    lemma_entries_view_index(entries@, i as int);
                }
                let message = match &entries[i].1 {
                    JsonValue::String(m) => m.clone(),
                    other => to_json_text(other),
                };
                let e = FieldError { field: Some(entries[i].0.clone()), message };
                let ghost before = errors@;
                errors.push(e);
                assert(field_errors_view(errors@) =~= field_errors_view(before).push(e.view()));
                i = i + 1;
            }
            Some(errors)
        },
        _ => None,
    }
}

/// Message, code and field errors carried by a parsed JSON error body.
pub fn json_error_fields(value: &JsonValue) -> (r: (Option<String>, Option<String>, Vec<FieldError>))
    ensures
        (opt_text(r.0), opt_text(r.1), field_errors_view(r.2@)) == json_error_parts(json_view(*value)),
{
    let message = member_text(value, "message");
    let code = member_text(value, "code");
    let from_errors = match member(value, "errors") {
        Some(m) => parse_field_errors(m),
        None => None,
    };
    let field_errors = match from_errors {
        Some(e) => e,
        None => {
            let from_data = match member(value, "data") {
                Some(m) => parse_field_errors(m),
                None => None,
            };
            match from_data {
                Some(e) => e,
                None => {
                    let v: Vec<FieldError> = Vec::new();
                    assert(field_errors_view(v@) =~= Seq::<FieldErrorView>::empty());
                    v
                },
            }
        },
    };
    (message, code, field_errors)
}

/// Message, code and field errors of a JSON error body; `None` when the body
/// is not JSON.
pub fn parse_json_error(body: &[u8]) -> (r: Option<(Option<String>, Option<String>, Vec<FieldError>)>)
    ensures
        match json_parsed(body@) {
            Some(v) => r matches Some(t) && (opt_text(t.0), opt_text(t.1), field_errors_view(t.2@))
                == json_error_parts(v),
            None => r is None,
        },
{
    match parse_json_bytes(body) {
        Some(value) => Some(json_error_fields(&value)),
        None => None,
    }
}

/// The parts of the HTTP error that a response yields: the JSON parts when the body
/// looks like JSON and parsed, otherwise the trimmed body as message.
pub open spec fn http_error_parts(
    content_type: Option<Seq<char>>,
    body: Seq<u8>,
    parsed: Option<JsonView>,
) -> (Option<Seq<char>>, Option<Seq<char>>, Seq<FieldErrorView>) {
    match (if looks_like_json_spec(content_type, body) { parsed } else { None }) {
        Some(v) => json_error_parts(v),
        None => (trimmed_body_spec(body), None, Seq::empty()),
    }
}

/// What an error response says. A body taken as JSON gives the `message` and
/// `code` members when they are strings, and its field errors from `errors`
/// when that is an array or object, else from `data`; a field error item that
/// is an object gives its `field` and `message`, a string item is a message
/// of its own. Any other body gives its trimmed first line as message, no
/// code and no field errors. A JSON content type, or a body whose first
/// non-blank byte opens an object or array, marks the body as JSON.
pub proof fn lemma_http_error_parts(
    content_type: Option<Seq<char>>,
    body: Seq<u8>,
    parsed: Option<JsonView>,
    field: Seq<char>,
    message: Seq<char>,
)
    ensures
        parsed matches Some(v) ==> (looks_like_json_spec(content_type, body) ==> {
            let parts = http_error_parts(content_type, body, parsed);
            &&& parts.0 == (match json_get(v, "message"@) {
                Some(JsonView::String(m)) => Some(m),
                _ => None,
            })
            &&& parts.1 == (match json_get(v, "code"@) {
                Some(JsonView::String(c)) => Some(c),
                _ => None,
            })
            &&& (json_get(v, "errors"@) matches Some(JsonView::Array(items)) ==> parts.2 == array_field_errors(
                items,
                items.len() as int,
            ))
            &&& (json_get(v, "errors"@) matches Some(JsonView::Object(es)) ==> parts.2 == object_field_errors(
                es,
                es.len() as int,
            ))
            &&& ((!(json_get(v, "errors"@) matches Some(JsonView::Array(_))) && !(json_get(v, "errors"@) matches Some(
                JsonView::Object(_),
            ))) ==> (json_get(v, "data"@) matches Some(JsonView::Object(es)) ==> parts.2 == object_field_errors(
                es,
                es.len() as int,
            )))
        }),
        !(looks_like_json_spec(content_type, body) && parsed is Some) ==> http_error_parts(content_type, body, parsed)
            == (trimmed_body_spec(body), None::<Seq<char>>, Seq::<FieldErrorView>::empty()),
        item_field_error(JsonView::Object(seq![("field"@, JsonView::String(field)), ("message"@, JsonView::String(message))]))
            == Some((Some(field), message)),
        item_field_error(JsonView::String(message)) == Some((None::<Seq<char>>, message)),
        looks_like_json_spec(Some("application/json"@), body),
        looks_like_json_spec(Some("application/json; charset=utf-8"@), body),
        looks_like_json_spec(Some("application/problem+json"@), body),
        looks_like_json_spec(content_type, seq![0x20u8, 0x7bu8]),
        looks_like_json_spec(content_type, seq![0x5bu8]),
        !looks_like_json_spec(None, seq![0x6eu8, 0x6fu8]),
{
    reveal_strlit("field");
    reveal_strlit("message");
    reveal_strlit("application/json");
    reveal_strlit("application/json; charset=utf-8");
    reveal_strlit("application/problem+json");
    let es = seq![("field"@, JsonView::String(field)), ("message"@, JsonView::String(message))];
    assert("field"@.len() != "message"@.len());
    assert(es[0].0 != "message"@);
    assert(obj_get_from(es, "message"@, 1) == Some(JsonView::String(message)));
    let aj = seq!['a', 'p', 'p', 'l', 'i', 'c', 'a', 't', 'i', 'o', 'n', '/', 'j', 's', 'o', 'n'];
    assert("application/json"@.take(16) =~= aj);
    assert("application/json; charset=utf-8"@.take(16) =~= aj);
    let pj = "application/problem+json"@;
    assert(pj.skip(pj.len() - 5) =~= seq!['+', 'j', 's', 'o', 'n']);
    let b1 = seq![0x20u8, 0x7bu8];
    assert(b1.drop_first() =~= seq![0x7bu8]);
    assert(first_non_ws_byte(seq![0x7bu8]) == Some(0x7bu8));
    assert(first_non_ws_byte(seq![0x5bu8]) == Some(0x5bu8));
    assert(first_non_ws_byte(seq![0x6eu8, 0x6fu8]) == Some(0x6eu8));
}

/// Decodes a non-success response into an HTTP error. The body is read as
/// JSON only when the content type or the body's first byte says JSON.
pub fn decode_http_error(status: u16, content_type: Option<&str>, body: &[u8]) -> (r: FigshareError)
    ensures
        r matches FigshareError::Http { status: s, message, code, field_errors, raw_body } && s == status
            && (opt_text(message), opt_text(code), field_errors_view(field_errors@)) == http_error_parts(
            match content_type {
                Some(ct) => Some(ct@),
                None => None,
            },
            body@,
            json_parsed(body@),
        ) && opt_text(raw_body) == trimmed_body_spec(body@),
{
    let raw_body = trimmed_body(body);
    let parsed = if looks_like_json(content_type, body) {
        parse_json_error(body)
    } else {
        None
    };
    let (message, code, field_errors) = match parsed {
        Some(parts) => parts,
        None => {
            let v: Vec<FieldError> = Vec::new();
            assert(field_errors_view(v@) =~= Seq::<FieldErrorView>::empty());
            (raw_body.clone(), None, v)
        },
    };
    FigshareError::Http { status, message, code, field_errors, raw_body }
}

} // verus!
