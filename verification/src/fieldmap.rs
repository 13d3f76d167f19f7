//! Custom metadata fields as a map from names to JSON values: the entries
//! stay ordered by name with each name once, so two maps with the same
//! contents hold the same entries.

use vstd::prelude::*;

use crate::json::{entries_view, json_view, lemma_entries_view_index, lemma_entries_view_len, JsonValue, JsonView};
use crate::text::{chars_of, str_eq};

verus! {

/// Whether name `a` orders before name `b`: character by character by code
/// point, a proper prefix first. On UTF-8 text this is the order of `String`.
pub open spec fn name_lt(a: Seq<char>, b: Seq<char>) -> bool
    decreases a.len(),
{
    if b.len() == 0 {
        false
    } else if a.len() == 0 {
        true
    } else if a[0] != b[0] {
        a[0] < b[0]
    } else {
        name_lt(a.skip(1), b.skip(1))
    }
}

/// No name orders before itself.
pub proof fn lemma_name_lt_irreflexive(a: Seq<char>)
    ensures
        !name_lt(a, a),
    decreases a.len(),
{
    if a.len() > 0 {
        lemma_name_lt_irreflexive(a.skip(1));
    }
}

/// The name order is transitive.
pub proof fn lemma_name_lt_transitive(a: Seq<char>, b: Seq<char>, c: Seq<char>)
    requires
        name_lt(a, b),
        name_lt(b, c),
    ensures
        name_lt(a, c),
    decreases a.len(),
{
    if a.len() > 0 && a[0] == b[0] && b[0] == c[0] {
        lemma_name_lt_transitive(a.skip(1), b.skip(1), c.skip(1));
    }
}

/// Of two different names, one orders before the other.
pub proof fn lemma_name_lt_total(a: Seq<char>, b: Seq<char>)
    ensures
        a == b || name_lt(a, b) || name_lt(b, a),
    decreases a.len(),
{
    if a.len() == 0 && b.len() == 0 {
        assert(a =~= b);
    } else if a.len() == 0 || b.len() == 0 {
    } else if a[0] != b[0] {
        assert(a[0] < b[0] || b[0] < a[0]);
    } else {
        lemma_name_lt_total(a.skip(1), b.skip(1));
        if a.skip(1) == b.skip(1) {
            assert(a =~= seq![a[0]] + a.skip(1));
            assert(b =~= seq![b[0]] + b.skip(1));
        }
    }
}

/// Entries strictly ordered by name, so each name occurs once.
pub open spec fn names_ordered(es: Seq<(Seq<char>, JsonView)>) -> bool {
    forall|i: int, j: int| 0 <= i < j < es.len() ==> name_lt(#[trigger] es[i].0, #[trigger] es[j].0)
}

/// Every entry's name orders after `x`.
pub open spec fn all_after(x: Seq<char>, es: Seq<(Seq<char>, JsonView)>) -> bool {
    forall|j: int| 0 <= j < es.len() ==> name_lt(x, #[trigger] es[j].0)
}

/// Sets `name` to `v`: an entry with that name gets the new value in place;
/// otherwise a new entry goes before the first entry whose name orders after
/// `name`, or last.
pub open spec fn set_field(es: Seq<(Seq<char>, JsonView)>, name: Seq<char>, v: JsonView) -> Seq<(Seq<char>, JsonView)>
    decreases es.len(),
{
    if es.len() == 0 {
        seq![(name, v)]
    } else if es[0].0 == name {
        seq![(name, v)] + es.skip(1)
    } else if name_lt(name, es[0].0) {
        seq![(name, v)] + es
    } else {
        seq![es[0]] + set_field(es.skip(1), name, v)
    }
}

/// The map left by setting each field in turn, starting from no fields.
pub open spec fn set_fields(sets: Seq<(Seq<char>, JsonView)>) -> Seq<(Seq<char>, JsonView)>
    decreases sets.len(),
{
    if sets.len() == 0 {
        Seq::empty()
    } else {
        set_field(set_fields(sets.drop_last()), sets.last().0, sets.last().1)
    }
}

/// The value of the first entry named `name`.
pub open spec fn field_value(es: Seq<(Seq<char>, JsonView)>, name: Seq<char>) -> Option<JsonView>
    decreases es.len(),
{
    if es.len() == 0 {
        None
    } else if es[0].0 == name {
        Some(es[0].1)
    } else {
        field_value(es.skip(1), name)
    }
}

/// The value last given to `name` in a sequence of settings.
pub open spec fn last_set(sets: Seq<(Seq<char>, JsonView)>, name: Seq<char>) -> Option<JsonView>
    decreases sets.len(),
{
    if sets.len() == 0 {
        None
    } else if sets.last().0 == name {
        Some(sets.last().1)
    } else {
        last_set(sets.drop_last(), name)
    }
}

proof fn lemma_set_field_after(es: Seq<(Seq<char>, JsonView)>, name: Seq<char>, v: JsonView, x: Seq<char>)
    requires
        all_after(x, es),
        name_lt(x, name),
    ensures
        all_after(x, set_field(es, name, v)),
    decreases es.len(),
{
    let r = set_field(es, name, v);
    if es.len() == 0 {
    } else if es[0].0 == name {
        assert forall|j: int| 0 <= j < r.len() implies name_lt(x, #[trigger] r[j].0) by {
            if j > 0 {
                assert(r[j] == es[j]);
            }
        }
    } else if name_lt(name, es[0].0) {
        assert forall|j: int| 0 <= j < r.len() implies name_lt(x, #[trigger] r[j].0) by {
            if j > 0 {
                assert(r[j] == es[j - 1]);
            }
        }
    } else {
        let tail = es.skip(1);
        assert forall|j: int| 0 <= j < tail.len() implies name_lt(x, #[trigger] tail[j].0) by {
            assert(tail[j] == es[j + 1]);
        }
        lemma_set_field_after(tail, name, v, x);
        let rt = set_field(tail, name, v);
        assert forall|j: int| 0 <= j < r.len() implies name_lt(x, #[trigger] r[j].0) by {
            if j > 0 {
                assert(r[j] == rt[j - 1]);
            } else {
                assert(r[0] == es[0]);
            }
        }
    }
}

/// Setting a field keeps the entries ordered by name.
pub proof fn lemma_set_field_ordered(es: Seq<(Seq<char>, JsonView)>, name: Seq<char>, v: JsonView)
    requires
        names_ordered(es),
    ensures
        names_ordered(set_field(es, name, v)),
    decreases es.len(),
{
    let r = set_field(es, name, v);
    if es.len() == 0 {
    } else if es[0].0 == name {
        assert forall|i: int, j: int| 0 <= i < j < r.len() implies name_lt(#[trigger] r[i].0, #[trigger] r[j].0) by {
            assert(r[j] == es[j]);
            if i > 0 {
                assert(r[i] == es[i]);
            }
        }
    } else if name_lt(name, es[0].0) {
        assert forall|i: int, j: int| 0 <= i < j < r.len() implies name_lt(#[trigger] r[i].0, #[trigger] r[j].0) by {
            assert(r[j] == es[j - 1]);
            if i > 0 {
                assert(r[i] == es[i - 1]);
            } else if j - 1 > 0 {
                assert(name_lt(es[0].0, es[j - 1].0));
                lemma_name_lt_transitive(name, es[0].0, es[j - 1].0);
            }
        }
    } else {
        lemma_name_lt_total(name, es[0].0);
        let tail = es.skip(1);
        assert forall|i: int, j: int| 0 <= i < j < tail.len() implies name_lt(#[trigger] tail[i].0, #[trigger] tail[j].0) by {
            assert(tail[i] == es[i + 1]);
            assert(tail[j] == es[j + 1]);
        }
        assert forall|j: int| 0 <= j < tail.len() implies name_lt(es[0].0, #[trigger] tail[j].0) by {
            assert(tail[j] == es[j + 1]);
        }
        lemma_set_field_ordered(tail, name, v);
        lemma_set_field_after(tail, name, v, es[0].0);
        let rt = set_field(tail, name, v);
        assert forall|i: int, j: int| 0 <= i < j < r.len() implies name_lt(#[trigger] r[i].0, #[trigger] r[j].0) by {
            assert(r[j] == rt[j - 1]);
            if i > 0 {
                assert(r[i] == rt[i - 1]);
            } else {
                assert(r[0] == es[0]);
            }
        }
    }
}

/// Settings in any order leave entries ordered by name.
pub proof fn lemma_set_fields_ordered(sets: Seq<(Seq<char>, JsonView)>)
    ensures
        names_ordered(set_fields(sets)),
    decreases sets.len(),
{
    if sets.len() > 0 {
        lemma_set_fields_ordered(sets.drop_last());
        lemma_set_field_ordered(set_fields(sets.drop_last()), sets.last().0, sets.last().1);
    }
}

/// Where `set_field` acts: at the first entry whose name is `name` or orders
/// after it.
proof fn lemma_set_field_at(es: Seq<(Seq<char>, JsonView)>, name: Seq<char>, v: JsonView, i: int)
    requires
        0 <= i <= es.len(),
        forall|j: int| 0 <= j < i ==> #[trigger] es[j].0 != name && !name_lt(name, es[j].0),
        i < es.len() ==> es[i].0 == name || name_lt(name, es[i].0),
    ensures
        set_field(es, name, v) == (if i == es.len() {
            es.push((name, v))
        } else if es[i].0 == name {
            es.update(i, (name, v))
        } else {
            es.insert(i, (name, v))
        }),
    decreases i,
{
    if i == 0 {
        if es.len() == 0 {
            assert(seq![(name, v)] =~= es.push((name, v)));
        } else if es[0].0 == name {
            assert(seq![(name, v)] + es.skip(1) =~= es.update(0, (name, v)));
        } else {
            assert(seq![(name, v)] + es =~= es.insert(0, (name, v)));
        }
    } else {
        let tail = es.skip(1);
        assert(es[0].0 != name && !name_lt(name, es[0].0));
        assert forall|j: int| 0 <= j < i - 1 implies #[trigger] tail[j].0 != name && !name_lt(name, tail[j].0) by {
            assert(tail[j] == es[j + 1]);
        }
        lemma_set_field_at(tail, name, v, i - 1);
        if i == es.len() {
            assert(seq![es[0]] + tail.push((name, v)) =~= es.push((name, v)));
        } else if es[i].0 == name {
            assert(tail[i - 1] == es[i]);
            assert(seq![es[0]] + tail.update(i - 1, (name, v)) =~= es.update(i, (name, v)));
        } else {
            assert(tail[i - 1] == es[i]);
            assert(seq![es[0]] + tail.insert(i - 1, (name, v)) =~= es.insert(i, (name, v)));
        }
    }
}

/// Setting a name that orders after every entry appends it.
proof fn lemma_set_field_last(es: Seq<(Seq<char>, JsonView)>, name: Seq<char>, v: JsonView)
    requires
        forall|j: int| 0 <= j < es.len() ==> name_lt(#[trigger] es[j].0, name),
    ensures
        set_field(es, name, v) == es.push((name, v)),
{
    assert forall|j: int| 0 <= j < es.len() implies #[trigger] es[j].0 != name && !name_lt(name, es[j].0) by {
        lemma_name_lt_irreflexive(name);
        if name_lt(name, es[j].0) {
            lemma_name_lt_transitive(name, es[j].0, name);
        }
    }
    lemma_set_field_at(es, name, v, es.len() as int);
}

/// Entries already ordered by name are their own map.
pub proof fn lemma_set_fields_of_ordered(es: Seq<(Seq<char>, JsonView)>)
    requires
        names_ordered(es),
    ensures
        set_fields(es) == es,
    decreases es.len(),
{
    if es.len() > 0 {
        let init = es.drop_last();
        assert forall|i: int, j: int| 0 <= i < j < init.len() implies name_lt(#[trigger] init[i].0, #[trigger] init[j].0) by {
            assert(init[i] == es[i]);
            assert(init[j] == es[j]);
        }
        lemma_set_fields_of_ordered(init);
        assert forall|j: int| 0 <= j < init.len() implies name_lt(#[trigger] init[j].0, es.last().0) by {
            assert(init[j] == es[j]);
        }
        lemma_set_field_last(init, es.last().0, es.last().1);
        assert(init.push(es.last()) =~= es);
    }
}

/// Reading a field after setting one: the field set has the new value, every
/// other field keeps its value.
pub proof fn lemma_set_field_value(es: Seq<(Seq<char>, JsonView)>, name: Seq<char>, v: JsonView, other: Seq<char>)
    ensures
        field_value(set_field(es, name, v), other) == (if other == name {
            Some(v)
        } else {
            field_value(es, other)
        }),
    decreases es.len(),
{
    let r = set_field(es, name, v);
    if es.len() == 0 {
        assert(r[0] == (name, v));
        assert(r.skip(1) =~= Seq::<(Seq<char>, JsonView)>::empty());
        assert(field_value(r.skip(1), other) is None);
    } else if es[0].0 == name {
        assert(r[0] == (name, v));
        assert(r.skip(1) =~= es.skip(1));
    } else if name_lt(name, es[0].0) {
        assert(r[0] == (name, v));
        assert(r.skip(1) =~= es);
    } else {
        lemma_set_field_value(es.skip(1), name, v, other);
        assert(r[0] == es[0]);
        assert(r.skip(1) =~= set_field(es.skip(1), name, v));
    }
}

/// Each name maps to the value last set for it.
pub proof fn lemma_set_fields_value(sets: Seq<(Seq<char>, JsonView)>, name: Seq<char>)
    ensures
        field_value(set_fields(sets), name) == last_set(sets, name),
    decreases sets.len(),
{
    if sets.len() > 0 {
        lemma_set_fields_value(sets.drop_last(), name);
        lemma_set_field_value(set_fields(sets.drop_last()), sets.last().0, sets.last().1, name);
    }
}

/// The view of one stored entry.
pub open spec fn entry_view(e: (String, JsonValue)) -> (Seq<char>, JsonView) {
    (e.0@, json_view(e.1))
}

/// The views of stored entries, entry by entry.
pub proof fn lemma_entries_view_map(es: Seq<(String, JsonValue)>)
    ensures
        entries_view(es, es.len() as int) == es.map_values(|e: (String, JsonValue)| entry_view(e)),
{
    lemma_entries_view_len(es, es.len() as int);
    assert forall|i: int| 0 <= i < es.len() implies entries_view(es, es.len() as int)[i] == es.map_values(
        |e: (String, JsonValue)| entry_view(e),
    )[i] by {
        lemma_entries_view_index(es, i);
    }
    assert(entries_view(es, es.len() as int) =~= es.map_values(|e: (String, JsonValue)| entry_view(e)));
}

/// Whether name `a` orders before name `b`.
pub fn name_less(a: &str, b: &str) -> (r: bool)
    ensures
        r == name_lt(a@, b@),
{
    let x = chars_of(a);
    let y = chars_of(b);
    let mut i: usize = 0;
    assert(a@.skip(0) =~= a@);
    assert(b@.skip(0) =~= b@);
    while i < x.len() && i < y.len() && x[i] == y[i]
        invariant
            i <= x.len(),
            i <= y.len(),
            x@ == a@,
            y@ == b@,
            name_lt(a@, b@) == name_lt(a@.skip(i as int), b@.skip(i as int)),
        decreases x.len() - i,
    {
        assert(a@.skip(i as int).skip(1) =~= a@.skip(i + 1));
        assert(b@.skip(i as int).skip(1) =~= b@.skip(i + 1));
        i = i + 1;
    }
    if i == y.len() {
        false
    } else if i == x.len() {
        true
    } else {
        x[i] < y[i]
    }
}

/// Sets `name` to `value` in stored entries, as `set_field` does.
fn set_field_in(entries: &mut Vec<(String, JsonValue)>, name: String, value: JsonValue)
    ensures
        entries_view(final(entries)@, final(entries)@.len() as int) == set_field(
            entries_view(old(entries)@, old(entries)@.len() as int),
            name@,
            json_view(value),
        ),
{
    let ghost ev = entries_view(entries@, entries@.len() as int);
    proof {
        lemma_entries_view_map(entries@);
    }
    let mut i: usize = 0;
    while i < entries.len() && !str_eq(entries[i].0.as_str(), name.as_str()) && !name_less(
        name.as_str(),
        entries[i].0.as_str(),
    )
        invariant
            i <= entries.len(),
            entries@ == old(entries)@,
            ev == entries@.map_values(|e: (String, JsonValue)| entry_view(e)),
            forall|j: int| 0 <= j < i ==> #[trigger] ev[j].0 != name@ && !name_lt(name@, ev[j].0),
        decreases entries.len() - i,
    {
        i = i + 1;
    }
    let ghost nv = (name@, json_view(value));
    let ghost e = (name, value);
    proof {
        lemma_set_field_at(ev, name@, json_view(value), i as int);
    }
    if i == entries.len() {
        entries.push((name, value));
    } else if str_eq(entries[i].0.as_str(), name.as_str()) {
        entries.set(i, (name, value));
    } else {
        entries.insert(i, (name, value));
    }
    proof {
        lemma_entries_view_map(entries@);
        assert(entry_view(e) == nv);
        let f = |x: (String, JsonValue)| entry_view(x);
        if i == old(entries)@.len() {
            assert(entries@.map_values(f) =~= old(entries)@.map_values(f).push(nv));
        } else if ev[i as int].0 == name@ {
            assert(entries@.map_values(f) =~= old(entries)@.map_values(f).update(i as int, nv));
        } else {
            assert(entries@.map_values(f) =~= old(entries)@.map_values(f).insert(i as int, nv));
        }
    }
}

/// Custom fields keyed by name, held ordered by name with each name once.
#[derive(Debug)]
pub struct FieldMap {
    entries: Vec<(String, JsonValue)>,
}

impl FieldMap {
    /// The entries, ordered by name.
    pub closed spec fn view_entries(self) -> Seq<(Seq<char>, JsonView)> {
        entries_view(self.entries@, self.entries@.len() as int)
    }

    #[verifier::type_invariant]
    closed spec fn ordered(self) -> bool {
        names_ordered(self.view_entries())
    }

    /// A map without fields.
    pub fn new() -> (r: FieldMap)
        ensures
            r.view_entries() == Seq::<(Seq<char>, JsonView)>::empty(),
    {
        let entries: Vec<(String, JsonValue)> = Vec::new();
        proof {
            lemma_entries_view_len(entries@, 0);
        }
        FieldMap { entries }
    }

    /// Sets `name` to `value`, replacing an earlier value for that name.
    pub fn set(&mut self, name: String, value: JsonValue)
        ensures
            final(self).view_entries() == set_field(old(self).view_entries(), name@, json_view(value)),
    {
        proof {
            use_type_invariant(&*self);
        }
        let ghost before = self.view_entries();
        let mut entries: Vec<(String, JsonValue)> = Vec::new();
        proof {
            lemma_entries_view_len(entries@, 0);
        }
        std::mem::swap(&mut entries, &mut self.entries);
        let ghost vv = json_view(value);
        set_field_in(&mut entries, name, value);
        proof {
            lemma_set_field_ordered(before, name@, vv);
        }
        self.entries = entries;
    }

    /// The entries, ordered by name with each name once.
    pub fn into_entries(self) -> (r: Vec<(String, JsonValue)>)
        ensures
            entries_view(r@, r@.len() as int) == self.view_entries(),
            names_ordered(self.view_entries()),
    {
        proof {
            use_type_invariant(&self);
        }
        self.entries
    }
}

impl Clone for FieldMap {
    fn clone(&self) -> (r: FieldMap)
        ensures
            r.view_entries() == self.view_entries(),
    {
        proof {
            use_type_invariant(self);
            lemma_entries_view_map(self.entries@);
        }
        let mut entries: Vec<(String, JsonValue)> = Vec::new();
        let mut i: usize = 0;
        while i < self.entries.len()
            invariant
                i <= self.entries.len(),
                entries@.map_values(|e: (String, JsonValue)| entry_view(e)) == self.entries@.take(i as int).map_values(
                    |e: (String, JsonValue)| entry_view(e),
                ),
            decreases self.entries.len() - i,
        {
            let e = (self.entries[i].0.clone(), self.entries[i].1.clone());
            assert(entry_view(e) == entry_view(self.entries@[i as int]));
            let ghost before = entries@;
            entries.push(e);
            assert(entries@.map_values(|e: (String, JsonValue)| entry_view(e)) =~= before.map_values(
                |e: (String, JsonValue)| entry_view(e),
            ).push(entry_view(e)));
            assert(entries@.map_values(|e: (String, JsonValue)| entry_view(e)) =~= self.entries@.take(i + 1).map_values(
                |e: (String, JsonValue)| entry_view(e),
            ));
            i = i + 1;
        }
        assert(self.entries@.take(self.entries.len() as int) =~= self.entries@);
        proof {
            lemma_entries_view_map(entries@);
        }
        FieldMap { entries }
    }
}

/// Custom fields collected into one map: each name with the value last set
/// for it, ordered by name.
pub fn collect_fields(fields: &Vec<(String, JsonValue)>) -> (r: Vec<(String, JsonValue)>)
    ensures
        entries_view(r@, r@.len() as int) == set_fields(entries_view(fields@, fields@.len() as int)),
{
    let mut out: Vec<(String, JsonValue)> = Vec::new();
    let ghost fv = entries_view(fields@, fields@.len() as int);
    proof {
        lemma_entries_view_len(fields@, fields@.len() as int);
        lemma_entries_view_len(out@, 0);
        assert(fv.take(0) =~= Seq::<(Seq<char>, JsonView)>::empty());
    }
    let mut i: usize = 0;
    while i < fields.len()
        invariant
            i <= fields.len(),
            fv == entries_view(fields@, fields@.len() as int),
            fv.len() == fields.len(),
            entries_view(out@, out@.len() as int) == set_fields(fv.take(i as int)),
        decreases fields.len() - i,
    {
        proof {
            lemma_entries_view_index(fields@, i as int);
        }
        set_field_in(&mut out, fields[i].0.clone(), fields[i].1.clone());
        proof {
            assert(fv.take(i + 1).drop_last() =~= fv.take(i as int));
        }
        i = i + 1;
    }
    assert(fv.take(fields.len() as int) =~= fv);
    out
}

} // verus!
