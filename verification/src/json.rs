//! A JSON value model for request bodies and error payloads.

use vstd::prelude::*;

use crate::checksum::hex_digit;

verus! {

/// A JSON value. Numbers keep their JSON text.
#[derive(Debug, PartialEq, Eq)]
pub enum JsonValue {
    /// `null`.
    Null,
    /// `true` or `false`.
    Bool(bool),
    /// A number, as its JSON text.
    Number(String),
    /// A string.
    String(String),
    /// An array.
    Array(Vec<JsonValue>),
    /// An object, as its entries in order.
    Object(Vec<(String, JsonValue)>),
}

/// The mathematical form of a JSON value.
pub enum JsonView {
    /// `null`.
    Null,
    /// A boolean.
    Bool(bool),
    /// A number, as its JSON text.
    Number(Seq<char>),
    /// A string.
    String(Seq<char>),
    /// An array.
    Array(Seq<JsonView>),
    /// An object's entries in order.
    Object(Seq<(Seq<char>, JsonView)>),
}

/// The mathematical form of a JSON value.
pub open spec fn json_view(v: JsonValue) -> JsonView
    decreases v,
{
    match v {
        JsonValue::Null => JsonView::Null,
        JsonValue::Bool(b) => JsonView::Bool(b),
        JsonValue::Number(n) => JsonView::Number(n@),
        JsonValue::String(s) => JsonView::String(s@),
        JsonValue::Array(items) => JsonView::Array(items_view(items@, items@.len() as int)),
        JsonValue::Object(entries) => JsonView::Object(entries_view(entries@, entries@.len() as int)),
    }
}

/// The views of the first `n` items.
pub open spec fn items_view(items: Seq<JsonValue>, n: int) -> Seq<JsonView>
    decreases items, n,
{
    if n <= 0 || n > items.len() {
        Seq::empty()
    } else {
        items_view(items, n - 1).push(json_view(items[n - 1]))
    }
}

/// The views of the first `n` entries.
pub open spec fn entries_view(entries: Seq<(String, JsonValue)>, n: int) -> Seq<(Seq<char>, JsonView)>
    decreases entries, n,
{
    if n <= 0 || n > entries.len() {
        Seq::empty()
    } else {
        entries_view(entries, n - 1).push((entries[n - 1].0@, json_view(entries[n - 1].1)))
    }
}

/// `items_view` only looks at the items it covers.
pub proof fn lemma_items_view_prefix(a: Seq<JsonValue>, b: Seq<JsonValue>)
    requires
        b.len() <= a.len(),
        forall|i: int| 0 <= i < b.len() ==> a[i] == b[i],
    ensures
        items_view(a, b.len() as int) == items_view(b, b.len() as int),
    decreases b.len(),
{
    if b.len() > 0 {
        lemma_items_view_prefix(a, b.drop_last());
        lemma_items_view_prefix(b, b.drop_last());
    }
}

/// `entries_view` only looks at the entries it covers.
pub proof fn lemma_entries_view_prefix(a: Seq<(String, JsonValue)>, b: Seq<(String, JsonValue)>)
    requires
        b.len() <= a.len(),
        forall|i: int| 0 <= i < b.len() ==> a[i] == b[i],
    ensures
        entries_view(a, b.len() as int) == entries_view(b, b.len() as int),
    decreases b.len(),
{
    if b.len() > 0 {
        lemma_entries_view_prefix(a, b.drop_last());
        lemma_entries_view_prefix(b, b.drop_last());
    }
}

impl JsonValue {
    /// A copy of the value with the same view.
    pub fn deep_copy(&self) -> (r: JsonValue)
        ensures
            json_view(r) == json_view(*self),
        decreases self,
    {
        match self {
            JsonValue::Null => JsonValue::Null,
            JsonValue::Bool(b) => JsonValue::Bool(*b),
            JsonValue::Number(n) => JsonValue::Number(n.clone()),
            JsonValue::String(s) => JsonValue::String(s.clone()),
            JsonValue::Array(items) => {
                let mut out: Vec<JsonValue> = Vec::new();
                let mut i: usize = 0;
                while i < items.len()
                    invariant
                        i <= items.len(),
                        items_view(out@, out@.len() as int) == items_view(items@, i as int),
                        out@.len() == i,
                        *self == JsonValue::Array(*items),
                    decreases items.len() - i,
                {
                    proof {
                        let ghost xs: Vec<JsonValue> = (*self)->Array_0;
                        assert(decreases_to!(*self => (*self)->Array_0));
                        assert(decreases_to!(xs => xs@));
                        assert(decreases_to!(xs@ => xs@[i as int]));
                        assert(decreases_to!(*self => items@[i as int]));
                    }
                    let c = items[i].deep_copy();
                    let ghost prev = out@;
                    out.push(c);
                    assert(out@.drop_last() =~= prev);
                    assert(items_view(out@, out@.len() as int) == items_view(prev, prev.len() as int).push(json_view(c))) by {
                        lemma_items_view_prefix(out@, prev);
                    }
                    i = i + 1;
                }
                JsonValue::Array(out)
            },
            JsonValue::Object(entries) => {
                let mut out: Vec<(String, JsonValue)> = Vec::new();
                let mut i: usize = 0;
                while i < entries.len()
                    invariant
                        i <= entries.len(),
                        entries_view(out@, out@.len() as int) == entries_view(entries@, i as int),
                        out@.len() == i,
                        *self == JsonValue::Object(*entries),
                    decreases entries.len() - i,
                {
                    proof {
                        let ghost xs: Vec<(String, JsonValue)> = (*self)->Object_0;
                        assert(decreases_to!(*self => (*self)->Object_0));
                        assert(decreases_to!(xs => xs@));
                        assert(decreases_to!(xs@ => xs@[i as int]));
                        assert(decreases_to!(xs@[i as int] => xs@[i as int].1));
                        assert(decreases_to!(*self => entries@[i as int].1));
                    }
                    let k = entries[i].0.clone();
                    let c = entries[i].1.deep_copy();
                    let ghost prev = out@;
                    out.push((k, c));
                    assert(out@.drop_last() =~= prev);
                    assert(entries_view(out@, out@.len() as int) == entries_view(prev, prev.len() as int).push((k@, json_view(c)))) by {
                        lemma_entries_view_prefix(out@, prev);
                    }
                    i = i + 1;
                }
                JsonValue::Object(out)
            },
        }
    }
}

#[verifier::external_type_specification]
#[verifier::external_body]
pub struct ExSerdeJsonValue(serde_json::Value);

/// What `serde_json::from_slice` makes of bytes, in this model: `None` when
/// they are not JSON; numbers keep the text `serde_json` writes for them and
/// object members come in the order of `serde_json`'s map.
pub uninterp spec fn json_parsed(bytes: Seq<u8>) -> Option<JsonView>;

/// A `serde_json::Value` in this model, variant for variant; numbers become
/// the text that `serde_json` writes for them.
#[verifier::external_body]
fn json_from_serde(value: serde_json::Value) -> JsonValue {
    match value {
        serde_json::Value::Null => JsonValue::Null,
        serde_json::Value::Bool(b) => JsonValue::Bool(b),
        serde_json::Value::Number(n) => JsonValue::Number(n.to_string()),
        serde_json::Value::String(s) => JsonValue::String(s),
        serde_json::Value::Array(items) => JsonValue::Array(items.into_iter().map(json_from_serde).collect()),
        serde_json::Value::Object(map) => JsonValue::Object(map.into_iter().map(|(k, v)| (k, json_from_serde(v))).collect()),
    }
}

/// `serde_json::from_slice` into a `serde_json::Value`, converted to this
/// model; `None` when the bytes are not JSON.
#[verifier::external_body]
pub(crate) fn parse_json_bytes(bytes: &[u8]) -> (r: Option<JsonValue>)
    ensures
        match r {
            Some(v) => json_parsed(bytes@) == Some(json_view(v)),
            None => json_parsed(bytes@) is None,
        },
{
    serde_json::from_slice::<serde_json::Value>(bytes).ok().map(json_from_serde)
}

/// How `serde_json` escapes one character of a string: quote and backslash
/// get a backslash, `\b \t \n \f \r` their short forms, other control
/// characters below U+0020 the form `\u00xx` with lower-case hex digits, and
/// every other character stays as it is.
pub open spec fn escape_char(c: char) -> Seq<char> {
    let u = c as u32;
    if c == '"' {
        seq!['\\', '"']
    } else if c == '\\' {
        seq!['\\', '\\']
    } else if u == 0x08 {
        seq!['\\', 'b']
    } else if c == '\t' {
        seq!['\\', 't']
    } else if c == '\n' {
        seq!['\\', 'n']
    } else if u == 0x0c {
        seq!['\\', 'f']
    } else if c == '\r' {
        seq!['\\', 'r']
    } else if u < 0x20 {
        seq!['\\', 'u', '0', '0', hex_digit((u / 16) as nat), hex_digit((u % 16) as nat)]
    } else {
        seq![c]
    }
}

/// The escaped body of a JSON string.
pub open spec fn escape_text(s: Seq<char>) -> Seq<char>
    decreases s.len(),
{
    if s.len() == 0 {
        Seq::empty()
    } else {
        escape_text(s.drop_last()) + escape_char(s.last())
    }
}

/// A string as `serde_json::to_string` writes it: in double quotes, each
/// character escaped as `escape_char` says.
pub open spec fn json_quoted(s: Seq<char>) -> Seq<char> {
    seq!['"'] + escape_text(s) + seq!['"']
}

/// `serde_json::to_string` of a string slice. Serializing a `str` does not
/// fail; the error arm only satisfies the type.
#[verifier::external_body]
fn quote_json_string(s: &str) -> (r: String)
    ensures
        r@ == json_quoted(s@),
{
    match serde_json::to_string(s) {
        Ok(text) => text,
        Err(_) => String::new(),
    }
}

/// Compact JSON text of a value: no spaces, strings and keys quoted as
/// `serde_json` quotes them, object entries in the order held.
pub open spec fn json_text(v: JsonView) -> Seq<char>
    decreases v,
{
    match v {
        JsonView::Null => seq!['n', 'u', 'l', 'l'],
        JsonView::Bool(b) => if b {
            seq!['t', 'r', 'u', 'e']
        } else {
            seq!['f', 'a', 'l', 's', 'e']
        },
        JsonView::Number(t) => t,
        JsonView::String(s) => json_quoted(s),
        JsonView::Array(items) => seq!['['] + items_text(items, items.len() as int) + seq![']'],
        JsonView::Object(entries) => seq!['{'] + entries_text(entries, entries.len() as int) + seq!['}'],
    }
}

/// The first `n` items, comma separated.
pub open spec fn items_text(items: Seq<JsonView>, n: int) -> Seq<char>
    decreases items, n,
{
    if n <= 0 || n > items.len() {
        Seq::empty()
    } else if n == 1 {
        json_text(items[0])
    } else {
        items_text(items, n - 1) + seq![','] + json_text(items[n - 1])
    }
}

/// The first `n` entries as `"key":value`, comma separated.
pub open spec fn entries_text(entries: Seq<(Seq<char>, JsonView)>, n: int) -> Seq<char>
    decreases entries, n,
{
    if n <= 0 || n > entries.len() {
        Seq::empty()
    } else if n == 1 {
        json_quoted(entries[0].0) + seq![':'] + json_text(entries[0].1)
    } else {
        entries_text(entries, n - 1) + seq![','] + json_quoted(entries[n - 1].0) + seq![':'] + json_text(
            entries[n - 1].1,
        )
    }
}

fn push_all(out: &mut Vec<char>, s: &[char])
    ensures
        final(out)@ == old(out)@ + s@,
{
    let mut i: usize = 0;
    while i < s.len()
        invariant
            i <= s.len(),
            out@ == old(out)@ + s@.take(i as int),
        decreases s.len() - i,
    {
        out.push(s[i]);
        i = i + 1;
        assert(out@ =~= old(out)@ + s@.take(i as int));
    }
    assert(s@.take(s.len() as int) =~= s@);
}

fn write_quoted(out: &mut Vec<char>, s: &str)
    ensures
        final(out)@ == old(out)@ + json_quoted(s@),
{
    let text = quote_json_string(s);
    let cs = crate::text::chars_of(text.as_str());
    push_all(out, cs.as_slice());
}

/// Appends the compact JSON text of `v` to `out`.
pub fn write_json(out: &mut Vec<char>, v: &JsonValue)
    ensures
        final(out)@ == old(out)@ + json_text(json_view(*v)),
    decreases v,
{
    match v {
        JsonValue::Null => push_all(out, &['n', 'u', 'l', 'l']),
        JsonValue::Bool(b) => if *b {
            push_all(out, &['t', 'r', 'u', 'e']);
        } else {
            push_all(out, &['f', 'a', 'l', 's', 'e']);
        },
        JsonValue::Number(t) => {
            let cs = crate::text::chars_of(t.as_str());
            push_all(out, cs.as_slice());
        },
        JsonValue::String(s) => write_quoted(out, s.as_str()),
        JsonValue::Array(items) => {
            out.push('[');
            let ghost start = out@;
            let ghost iv = items_view(items@, items@.len() as int);
            let mut i: usize = 0;
            while i < items.len()
                invariant
                    i <= items.len(),
                    *v == JsonValue::Array(*items),
                    iv == items_view(items@, items@.len() as int),
                    out@ == start + items_text(iv, i as int),
                decreases items.len() - i,
            {
                proof {
                    assert(decreases_to!(*v => (*v)->Array_0));
                    let ghost xs: Vec<JsonValue> = (*v)->Array_0;
                    assert(decreases_to!(xs => xs@));
                    assert(decreases_to!(xs@ => xs@[i as int]));
                    lemma_items_view_index(items@, i as int);
                }
                if i > 0 {
                    out.push(',');
                }
                write_json(out, &items[i]);
                i = i + 1;
                assert(out@ =~= start + items_text(iv, i as int));
            }
            out.push(']');
            proof {
                lemma_items_view_len(items@, items@.len() as int);
            }
            assert(out@ =~= old(out)@ + json_text(json_view(*v)));
        },
        JsonValue::Object(entries) => {
            out.push('{');
            let ghost start = out@;
            let ghost ev = entries_view(entries@, entries@.len() as int);
            let mut i: usize = 0;
            while i < entries.len()
                invariant
                    i <= entries.len(),
                    *v == JsonValue::Object(*entries),
                    ev == entries_view(entries@, entries@.len() as int),
                    out@ == start + entries_text(ev, i as int),
                decreases entries.len() - i,
            {
                proof {
                    assert(decreases_to!(*v => (*v)->Object_0));
                    let ghost xs: Vec<(String, JsonValue)> = (*v)->Object_0;
                    assert(decreases_to!(xs => xs@));
                    assert(decreases_to!(xs@ => xs@[i as int]));
                    assert(decreases_to!(xs@[i as int] => xs@[i as int].1));
                    lemma_entries_view_index(entries@, i as int);
                }
                if i > 0 {
                    out.push(',');
                }
                write_quoted(out, entries[i].0.as_str());
                out.push(':');
                write_json(out, &entries[i].1);
                i = i + 1;
                assert(out@ =~= start + entries_text(ev, i as int));
            }
            out.push('}');
            proof {
                lemma_entries_view_len(entries@, entries@.len() as int);
            }
            assert(out@ =~= old(out)@ + json_text(json_view(*v)));
        },
    }
}

/// The compact JSON text of a value (`serde_json::to_string`).
pub fn to_json_text(v: &JsonValue) -> (r: String)
    ensures
        r@ == json_text(json_view(*v)),
{
    let mut out: Vec<char> = Vec::new();
    write_json(&mut out, v);
    assert(out@ =~= json_text(json_view(*v)));
    crate::text::string_of(out.as_slice())
}

/// The views cover every item, in order.
pub proof fn lemma_items_view_index(items: Seq<JsonValue>, i: int)
    requires
        0 <= i < items.len(),
    ensures
        items_view(items, items.len() as int).len() == items.len(),
        items_view(items, items.len() as int)[i] == json_view(items[i]),
{
    lemma_items_view_len_index(items, items.len() as int, i);
}

/// The views of the first `n` items are `n` long.
pub proof fn lemma_items_view_len(items: Seq<JsonValue>, n: int)
    requires
        0 <= n <= items.len(),
    ensures
        items_view(items, n).len() == n,
    decreases n,
{
    if n > 0 {
        lemma_items_view_len(items, n - 1);
    }
}

/// The views of the first `n` entries are `n` long.
pub proof fn lemma_entries_view_len(entries: Seq<(String, JsonValue)>, n: int)
    requires
        0 <= n <= entries.len(),
    ensures
        entries_view(entries, n).len() == n,
    decreases n,
{
    if n > 0 {
        lemma_entries_view_len(entries, n - 1);
    }
}

proof fn lemma_items_view_len_index(items: Seq<JsonValue>, n: int, i: int)
    requires
        0 <= i < n <= items.len(),
    ensures
        items_view(items, n).len() == n,
        items_view(items, n)[i] == json_view(items[i]),
    decreases n,
{
    lemma_items_view_len(items, n);
    lemma_items_view_len(items, n - 1);
    if i < n - 1 {
        lemma_items_view_len_index(items, n - 1, i);
    }
}

/// The views cover every entry, in order.
pub proof fn lemma_entries_view_index(entries: Seq<(String, JsonValue)>, i: int)
    requires
        0 <= i < entries.len(),
    ensures
        entries_view(entries, entries.len() as int).len() == entries.len(),
        entries_view(entries, entries.len() as int)[i] == (entries[i].0@, json_view(entries[i].1)),
{
    lemma_entries_view_len_index(entries, entries.len() as int, i);
}

proof fn lemma_entries_view_len_index(entries: Seq<(String, JsonValue)>, n: int, i: int)
    requires
        0 <= i < n <= entries.len(),
    ensures
        entries_view(entries, n).len() == n,
        entries_view(entries, n)[i] == (entries[i].0@, json_view(entries[i].1)),
    decreases n,
{
    lemma_entries_view_len(entries, n);
    lemma_entries_view_len(entries, n - 1);
    if i < n - 1 {
        lemma_entries_view_len_index(entries, n - 1, i);
    }
}

/// Index of the first entry with key `k`, from entry `i` on.
pub open spec fn key_index_from(es: Seq<(Seq<char>, JsonView)>, k: Seq<char>, i: int) -> Option<int>
    decreases es.len() - i,
{
    if i < 0 || i >= es.len() {
        None
    } else if es[i].0 == k {
        Some(i)
    } else {
        key_index_from(es, k, i + 1)
    }
}

/// Map insertion on an object's entries, as `serde_json::Map::insert` behaves: an
/// existing key gets the new value in place, a new key is added at the end.
pub open spec fn insert_entry(es: Seq<(Seq<char>, JsonView)>, k: Seq<char>, v: JsonView) -> Seq<(Seq<char>, JsonView)> {
    match key_index_from(es, k, 0) {
        Some(i) => es.update(i, (k, v)),
        None => es.push((k, v)),
    }
}

/// The entries that a sequence of insertions into an empty object leaves.
pub open spec fn insert_all(inserts: Seq<(Seq<char>, JsonView)>) -> Seq<(Seq<char>, JsonView)>
    decreases inserts.len(),
{
    if inserts.len() == 0 {
        Seq::empty()
    } else {
        insert_entry(insert_all(inserts.drop_last()), inserts.last().0, inserts.last().1)
    }
}

pub proof fn lemma_key_index_from_found(es: Seq<(Seq<char>, JsonView)>, k: Seq<char>, i: int)
    requires
        0 <= i <= es.len(),
    ensures
        key_index_from(es, k, i) matches Some(j) ==> i <= j < es.len() && es[j].0 == k && (forall|m: int| i <= m < j ==> es[m].0 != k),
        key_index_from(es, k, i) is None ==> (forall|m: int| i <= m < es.len() ==> es[m].0 != k),
    decreases es.len() - i,
{
    if i < es.len() && es[i].0 != k {
        lemma_key_index_from_found(es, k, i + 1);
    }
}

/// After inserting `k`, the object maps `k` to the new value, and every other key
/// keeps the value it had.
pub proof fn lemma_insert_then_get(es: Seq<(Seq<char>, JsonView)>, k: Seq<char>, v: JsonView, k2: Seq<char>)
    ensures
        key_index_from(insert_entry(es, k, v), k, 0) matches Some(j) && insert_entry(es, k, v)[j].1 == v,
        k2 != k ==> key_index_from(insert_entry(es, k, v), k2, 0) == key_index_from(es, k2, 0),
{
    let ins = insert_entry(es, k, v);
    lemma_key_index_from_found(es, k, 0);
    lemma_key_index_from_found(es, k2, 0);
    lemma_key_index_from_found(ins, k, 0);
    lemma_key_index_from_found(ins, k2, 0);
    match key_index_from(es, k, 0) {
        Some(i) => {
            assert(ins[i].0 == k);
            if let Some(j) = key_index_from(ins, k, 0) {
                assert(j <= i);
                if j < i {
                    assert(ins[j] == es[j]);
                }
            }
            if k2 != k {
                lemma_key_index_same(es, ins, k2, 0);
            }
        },
        None => {
            assert(ins[es.len() as int].0 == k);
            if let Some(j) = key_index_from(ins, k, 0) {
                if j < es.len() {
                    assert(ins[j] == es[j]);
                }
            }
            if k2 != k {
                lemma_key_index_same(es, ins, k2, 0);
            }
        },
    }
}

proof fn lemma_key_index_same(a: Seq<(Seq<char>, JsonView)>, b: Seq<(Seq<char>, JsonView)>, k: Seq<char>, i: int)
    requires
        0 <= i <= a.len() <= b.len(),
        b.len() <= a.len() + 1,
        forall|m: int| 0 <= m < a.len() ==> (a[m].0 == k) == (b[m].0 == k),
        forall|m: int| 0 <= m < a.len() && a[m].0 == k ==> a[m] == b[m],
        b.len() == a.len() + 1 ==> b[a.len() as int].0 != k,
    ensures
        key_index_from(a, k, i) == key_index_from(b, k, i),
    decreases b.len() - i,
{
    if i < a.len() {
        lemma_key_index_same(a, b, k, i + 1);
    } else if i < b.len() {
        assert(key_index_from(b, k, i + 1) is None);
    }
}

/// `entries_view` of a vector with one entry replaced.
pub proof fn lemma_entries_view_update(es: Seq<(String, JsonValue)>, i: int, e: (String, JsonValue), n: int)
    requires
        0 <= i < es.len(),
        0 <= n <= es.len(),
    ensures
        entries_view(es.update(i, e), n) == if i < n {
            entries_view(es, n).update(i, (e.0@, json_view(e.1)))
        } else {
            entries_view(es, n)
        },
    decreases n,
{
    if n > 0 {
        lemma_entries_view_update(es, i, e, n - 1);
        lemma_entries_view_len(es, n - 1);
        assert(entries_view(es.update(i, e), n) =~= if i < n {
            entries_view(es, n).update(i, (e.0@, json_view(e.1)))
        } else {
            entries_view(es, n)
        });
    }
}

/// Inserts `key` with `value` into an object's entries with map semantics.
pub fn object_insert(entries: &mut Vec<(String, JsonValue)>, key: String, value: JsonValue)
    ensures
        entries_view(final(entries)@, final(entries)@.len() as int) == insert_entry(
            entries_view(old(entries)@, old(entries)@.len() as int),
            key@,
            json_view(value),
        ),
{
    let ghost ev = entries_view(entries@, entries@.len() as int);
    proof {
        lemma_entries_view_len(entries@, entries@.len() as int);
        lemma_key_index_from_found(ev, key@, 0);
    }
    let mut i: usize = 0;
    while i < entries.len()
        invariant
            i <= entries.len(),
            entries@ == old(entries)@,
            ev == entries_view(entries@, entries@.len() as int),
            ev.len() == entries.len(),
            key_index_from(ev, key@, 0) == key_index_from(ev, key@, i as int),
        decreases entries.len() - i,
    {
        proof {
            lemma_entries_view_index(entries@, i as int);
        }
        if crate::text::str_eq(entries[i].0.as_str(), key.as_str()) {
            let ghost old_es = entries@;
            let ghost kv = key@;
            let ghost vv = json_view(value);
            entries.set(i, (key, value));
            proof {
                lemma_entries_view_update(old_es, i as int, entries@[i as int], old_es.len() as int);
                assert(entries@ == old_es.update(i as int, entries@[i as int]));
            }
            return;
        }
        i = i + 1;
    }
    let ghost old_es = entries@;
    entries.push((key, value));
    proof {
        lemma_entries_view_prefix(entries@, old_es);
        lemma_entries_view_len(entries@, entries@.len() as int);
    }
}

impl Clone for JsonValue {
    fn clone(&self) -> (r: JsonValue)
        ensures
            json_view(r) == json_view(*self),
    {
        self.deep_copy()
    }
}

} // verus!
