//! Typed search and list query builders for Figshare articles.

use vstd::prelude::*;

use crate::error::{json_get, obj_get_from, FigshareError};
use crate::json::{
    entries_view, insert_all, insert_entry, json_view, key_index_from, lemma_entries_view_len, lemma_insert_then_get, lemma_key_index_from_found,
    object_insert,
    JsonValue, JsonView,
};
use crate::metadata::{defined_type_id, DefinedType};
use crate::text::{chars_of, decimal, decimal_string, string_of};

verus! {

/// Supported sort fields for article list and search endpoints.
#[derive(Clone, Copy, Debug, PartialEq, Eq, Structural)]
pub enum ArticleOrder {
    /// Sort by creation date.
    CreatedDate,
    /// Sort by publication date.
    PublishedDate,
    /// Sort by modification date.
    ModifiedDate,
    /// Sort by views.
    Views,
    /// Sort by shares.
    Shares,
    /// Sort by downloads.
    Downloads,
    /// Sort by citations.
    Cites,
}

/// The API name of a sort field.
pub open spec fn order_name(o: ArticleOrder) -> Seq<char> {
    match o {
        ArticleOrder::CreatedDate => "created_date"@,
        ArticleOrder::PublishedDate => "published_date"@,
        ArticleOrder::ModifiedDate => "modified_date"@,
        ArticleOrder::Views => "views"@,
        ArticleOrder::Shares => "shares"@,
        ArticleOrder::Downloads => "downloads"@,
        ArticleOrder::Cites => "cites"@,
    }
}

impl ArticleOrder {
    /// The API name of the sort field.
    pub fn as_api_str(self) -> (r: &'static str)
        ensures
            r@ == order_name(self),
    {
        match self {
            ArticleOrder::CreatedDate => "created_date",
            ArticleOrder::PublishedDate => "published_date",
            ArticleOrder::ModifiedDate => "modified_date",
            ArticleOrder::Views => "views",
            ArticleOrder::Shares => "shares",
            ArticleOrder::Downloads => "downloads",
            ArticleOrder::Cites => "cites",
        }
    }
}

/// Sort direction for list and search endpoints.
#[derive(Clone, Copy, Debug, PartialEq, Eq, Structural)]
pub enum OrderDirection {
    /// Ascending order.
    Asc,
    /// Descending order.
    Desc,
}

/// The API name of a sort direction.
pub open spec fn direction_name(d: OrderDirection) -> Seq<char> {
    match d {
        OrderDirection::Asc => "asc"@,
        OrderDirection::Desc => "desc"@,
    }
}

impl OrderDirection {
    /// The API name of the sort direction.
    pub fn as_api_str(self) -> (r: &'static str)
        ensures
            r@ == direction_name(self),
    {
        match self {
            OrderDirection::Asc => "asc",
            OrderDirection::Desc => "desc",
        }
    }
}

/// Shared query options for public and authenticated article list/search calls.
#[derive(Clone, Debug, PartialEq, Eq, Default)]
pub struct ArticleQuery {
    /// Search string used by `POST .../search` endpoints.
    pub search_for: Option<String>,
    /// Filter results published since the given ISO-8601 string.
    pub published_since: Option<String>,
    /// Filter results modified since the given ISO-8601 string.
    pub modified_since: Option<String>,
    /// Restrict results to the given institution.
    pub institution: Option<u64>,
    /// Restrict results to the given group.
    pub group: Option<u64>,
    /// Restrict results to the given item type.
    pub item_type: Option<DefinedType>,
    /// Restrict results to the given resource DOI.
    pub resource_doi: Option<String>,
    /// Restrict results to the given DOI.
    pub doi: Option<String>,
    /// Restrict results to the given handle.
    pub handle: Option<String>,
    /// Restrict results to the given project.
    pub project_id: Option<u64>,
    /// Legacy resource title filter retained for backward-compatibility checks.
    pub resource_title: Option<String>,
    /// Optional sort field.
    pub order: Option<ArticleOrder>,
    /// Optional sort direction.
    pub order_direction: Option<OrderDirection>,
    /// Page number based pagination.
    pub page: Option<u64>,
    /// Page size based pagination.
    pub page_size: Option<u64>,
    /// Offset based pagination.
    pub offset: Option<u64>,
    /// Limit based pagination.
    pub limit: Option<u64>,
    /// Extra raw key-value pairs forwarded as-is.
    pub custom: Vec<(String, String)>,
}

/// The mathematical form of an article query.
pub struct ArticleQueryView {
    /// Search string.
    pub search_for: Option<Seq<char>>,
    /// Publication lower bound.
    pub published_since: Option<Seq<char>>,
    /// Modification lower bound.
    pub modified_since: Option<Seq<char>>,
    /// Institution filter.
    pub institution: Option<u64>,
    /// Group filter.
    pub group: Option<u64>,
    /// Item type filter.
    pub item_type: Option<DefinedType>,
    /// Resource DOI filter.
    pub resource_doi: Option<Seq<char>>,
    /// DOI filter.
    pub doi: Option<Seq<char>>,
    /// Handle filter.
    pub handle: Option<Seq<char>>,
    /// Project filter.
    pub project_id: Option<u64>,
    /// Legacy resource title filter.
    pub resource_title: Option<Seq<char>>,
    /// Sort field.
    pub order: Option<ArticleOrder>,
    /// Sort direction.
    pub order_direction: Option<OrderDirection>,
    /// Page number.
    pub page: Option<u64>,
    /// Page size.
    pub page_size: Option<u64>,
    /// Offset.
    pub offset: Option<u64>,
    /// Limit.
    pub limit: Option<u64>,
    /// Extra raw key-value pairs.
    pub custom: Seq<(Seq<char>, Seq<char>)>,
}

/// The characters of an optional string.
pub open spec fn opt_chars(o: Option<String>) -> Option<Seq<char>> {
    match o {
        Some(s) => Some(s@),
        None => None,
    }
}

/// Key-value pairs as character sequences.
pub open spec fn pairs_view(v: Seq<(String, String)>) -> Seq<(Seq<char>, Seq<char>)> {
    v.map_values(|p: (String, String)| (p.0@, p.1@))
}

impl View for ArticleQuery {
    type V = ArticleQueryView;

    open spec fn view(&self) -> ArticleQueryView {
        ArticleQueryView {
            search_for: opt_chars(self.search_for),
            published_since: opt_chars(self.published_since),
            modified_since: opt_chars(self.modified_since),
            institution: self.institution,
            group: self.group,
            item_type: self.item_type,
            resource_doi: opt_chars(self.resource_doi),
            doi: opt_chars(self.doi),
            handle: opt_chars(self.handle),
            project_id: self.project_id,
            resource_title: opt_chars(self.resource_title),
            order: self.order,
            order_direction: self.order_direction,
            page: self.page,
            page_size: self.page_size,
            offset: self.offset,
            limit: self.limit,
            custom: pairs_view(self.custom@),
        }
    }
}

/// A query pair for an optional text value.
pub open spec fn text_pair(k: Seq<char>, o: Option<Seq<char>>) -> Seq<(Seq<char>, Seq<char>)> {
    match o {
        Some(v) => seq![(k, v)],
        None => Seq::empty(),
    }
}

/// A query pair for an optional number, rendered in decimal.
pub open spec fn num_pair(k: Seq<char>, o: Option<u64>) -> Seq<(Seq<char>, Seq<char>)> {
    match o {
        Some(n) => seq![(k, decimal(n as nat))],
        None => Seq::empty(),
    }
}

/// The numeric item type filter, when the type has a numeric form.
pub open spec fn item_type_number(q: ArticleQueryView) -> Option<u64> {
    match q.item_type {
        Some(t) => defined_type_id(t),
        None => None,
    }
}

/// The optional sort field name.
pub open spec fn order_text(q: ArticleQueryView) -> Option<Seq<char>> {
    match q.order {
        Some(o) => Some(order_name(o)),
        None => None,
    }
}

/// The optional sort direction name.
pub open spec fn direction_text(q: ArticleQueryView) -> Option<Seq<char>> {
    match q.order_direction {
        Some(d) => Some(direction_name(d)),
        None => None,
    }
}

/// Date, institution and group pairs.
pub open spec fn common_pairs(q: ArticleQueryView) -> Seq<(Seq<char>, Seq<char>)> {
    text_pair("published_since"@, q.published_since) + text_pair("modified_since"@, q.modified_since)
        + num_pair("institution"@, q.institution) + num_pair("group"@, q.group)
}

/// Pagination pairs.
pub open spec fn pagination_pairs(q: ArticleQueryView) -> Seq<(Seq<char>, Seq<char>)> {
    num_pair("page"@, q.page) + num_pair("page_size"@, q.page_size) + num_pair("offset"@, q.offset)
        + num_pair("limit"@, q.limit)
}

/// The query pairs of a public article listing, in order.
pub open spec fn public_list_pairs(q: ArticleQueryView) -> Seq<(Seq<char>, Seq<char>)> {
    common_pairs(q) + num_pair("item_type"@, item_type_number(q)) + text_pair("resource_doi"@, q.resource_doi)
        + text_pair("doi"@, q.doi) + text_pair("handle"@, q.handle) + text_pair("order"@, order_text(q))
        + text_pair("order_direction"@, direction_text(q)) + pagination_pairs(q) + q.custom
}

proof fn lemma_public_list_dates_and_owners(q: ArticleQueryView)
    ensures
        ({
            let ps = public_list_pairs(q);
            &&& (q.published_since matches Some(v) ==> ps.contains(("published_since"@, v)))
            &&& (q.modified_since matches Some(v) ==> ps.contains(("modified_since"@, v)))
            &&& (q.institution matches Some(n) ==> ps.contains(("institution"@, decimal(n as nat))))
            &&& (q.group matches Some(n) ==> ps.contains(("group"@, decimal(n as nat))))
        }),
{
    broadcast use crate::text::lemma_concat_contains;
    let ps = public_list_pairs(q);
    if let Some(v) = q.published_since {
        assert(seq![("published_since"@, v)][0] == ("published_since"@, v));
    }
    if let Some(v) = q.modified_since {
        assert(seq![("modified_since"@, v)][0] == ("modified_since"@, v));
    }
    if let Some(n) = q.institution {
        assert(seq![("institution"@, decimal(n as nat))][0] == ("institution"@, decimal(n as nat)));
    }
    if let Some(n) = q.group {
        assert(seq![("group"@, decimal(n as nat))][0] == ("group"@, decimal(n as nat)));
    }
}

proof fn lemma_public_list_identifiers(q: ArticleQueryView)
    ensures
        ({
            let ps = public_list_pairs(q);
            &&& (q.item_type matches Some(t) ==> (defined_type_id(t) matches Some(n) ==> ps.contains(("item_type"@, decimal(n as nat)))))
            &&& (q.resource_doi matches Some(v) ==> ps.contains(("resource_doi"@, v)))
            &&& (q.doi matches Some(v) ==> ps.contains(("doi"@, v)))
            &&& (q.handle matches Some(v) ==> ps.contains(("handle"@, v)))
        }),
{
    broadcast use crate::text::lemma_concat_contains;
    let ps = public_list_pairs(q);
    if let Some(t) = q.item_type {
        if let Some(n) = defined_type_id(t) {
            assert(seq![("item_type"@, decimal(n as nat))][0] == ("item_type"@, decimal(n as nat)));
        }
    }
    if let Some(v) = q.resource_doi {
        assert(seq![("resource_doi"@, v)][0] == ("resource_doi"@, v));
    }
    if let Some(v) = q.doi {
        assert(seq![("doi"@, v)][0] == ("doi"@, v));
    }
    if let Some(v) = q.handle {
        assert(seq![("handle"@, v)][0] == ("handle"@, v));
    }
}

proof fn lemma_public_list_sorting(q: ArticleQueryView)
    ensures
        ({
            let ps = public_list_pairs(q);
            &&& (q.order matches Some(o) ==> ps.contains(("order"@, order_name(o))))
            &&& (q.order_direction matches Some(d) ==> ps.contains(("order_direction"@, direction_name(d))))
        }),
{
    broadcast use crate::text::lemma_concat_contains;
    let ps = public_list_pairs(q);
    if let Some(o) = q.order {
        assert(seq![("order"@, order_name(o))][0] == ("order"@, order_name(o)));
    }
    if let Some(d) = q.order_direction {
        assert(seq![("order_direction"@, direction_name(d))][0] == ("order_direction"@, direction_name(d)));
    }
}

proof fn lemma_public_list_pagination(q: ArticleQueryView)
    ensures
        ({
            let ps = public_list_pairs(q);
            &&& (q.page matches Some(n) ==> ps.contains(("page"@, decimal(n as nat))))
            &&& (q.page_size matches Some(n) ==> ps.contains(("page_size"@, decimal(n as nat))))
            &&& (q.offset matches Some(n) ==> ps.contains(("offset"@, decimal(n as nat))))
            &&& (q.limit matches Some(n) ==> ps.contains(("limit"@, decimal(n as nat))))
        }),
{
    broadcast use crate::text::lemma_concat_contains;
    let ps = public_list_pairs(q);
    if let Some(n) = q.page {
        assert(seq![("page"@, decimal(n as nat))][0] == ("page"@, decimal(n as nat)));
    }
    if let Some(n) = q.page_size {
        assert(seq![("page_size"@, decimal(n as nat))][0] == ("page_size"@, decimal(n as nat)));
    }
    if let Some(n) = q.offset {
        assert(seq![("offset"@, decimal(n as nat))][0] == ("offset"@, decimal(n as nat)));
    }
    if let Some(n) = q.limit {
        assert(seq![("limit"@, decimal(n as nat))][0] == ("limit"@, decimal(n as nat)));
    }
}

proof fn lemma_public_list_extras(q: ArticleQueryView)
    ensures
        ({
            let ps = public_list_pairs(q);
            &&& (forall|i: int| 0 <= i < q.custom.len() ==> ps.contains(#[trigger] q.custom[i]))
        }),
{
    broadcast use crate::text::lemma_concat_contains;
    let ps = public_list_pairs(q);
    assert forall|i: int| 0 <= i < q.custom.len() implies ps.contains(#[trigger] q.custom[i]) by {
        assert(ps[ps.len() - q.custom.len() + i] == q.custom[i]);
    }
}

/// Every filter set on a query reaches the public listing: each set text
/// filter as its text, each set number in decimal, the item type by its
/// numeric form, the sort field and direction by their API names, and every
/// extra pair as given.
pub proof fn lemma_public_list_carries_every_filter(q: ArticleQueryView)
    ensures
        ({
            let ps = public_list_pairs(q);
            &&& (q.published_since matches Some(v) ==> ps.contains(("published_since"@, v)))
            &&& (q.modified_since matches Some(v) ==> ps.contains(("modified_since"@, v)))
            &&& (q.institution matches Some(n) ==> ps.contains(("institution"@, decimal(n as nat))))
            &&& (q.group matches Some(n) ==> ps.contains(("group"@, decimal(n as nat))))
            &&& (q.item_type matches Some(t) ==> (defined_type_id(t) matches Some(n) ==> ps.contains(("item_type"@, decimal(n as nat)))))
            &&& (q.resource_doi matches Some(v) ==> ps.contains(("resource_doi"@, v)))
            &&& (q.doi matches Some(v) ==> ps.contains(("doi"@, v)))
            &&& (q.handle matches Some(v) ==> ps.contains(("handle"@, v)))
            &&& (q.order matches Some(o) ==> ps.contains(("order"@, order_name(o))))
            &&& (q.order_direction matches Some(d) ==> ps.contains(("order_direction"@, direction_name(d))))
            &&& (q.page matches Some(n) ==> ps.contains(("page"@, decimal(n as nat))))
            &&& (q.page_size matches Some(n) ==> ps.contains(("page_size"@, decimal(n as nat))))
            &&& (q.offset matches Some(n) ==> ps.contains(("offset"@, decimal(n as nat))))
            &&& (q.limit matches Some(n) ==> ps.contains(("limit"@, decimal(n as nat))))
            &&& (forall|i: int| 0 <= i < q.custom.len() ==> ps.contains(#[trigger] q.custom[i]))
        }),
{
    lemma_public_list_dates_and_owners(q);
    lemma_public_list_identifiers(q);
    lemma_public_list_sorting(q);
    lemma_public_list_pagination(q);
    lemma_public_list_extras(q);
}

/// Every pagination setting and extra pair of a query reaches the own
/// listing.
pub proof fn lemma_own_list_carries_every_filter(q: ArticleQueryView)
    ensures
        ({
            let ps = own_list_pairs(q);
            &&& (q.page matches Some(n) ==> ps.contains(("page"@, decimal(n as nat))))
            &&& (q.page_size matches Some(n) ==> ps.contains(("page_size"@, decimal(n as nat))))
            &&& (q.offset matches Some(n) ==> ps.contains(("offset"@, decimal(n as nat))))
            &&& (q.limit matches Some(n) ==> ps.contains(("limit"@, decimal(n as nat))))
            &&& (forall|i: int| 0 <= i < q.custom.len() ==> ps.contains(#[trigger] q.custom[i]))
        }),
{
    broadcast use crate::text::lemma_concat_contains;
    let ps = own_list_pairs(q);
    if let Some(n) = q.page {
        assert(seq![("page"@, decimal(n as nat))][0] == ("page"@, decimal(n as nat)));
    }
    if let Some(n) = q.page_size {
        assert(seq![("page_size"@, decimal(n as nat))][0] == ("page_size"@, decimal(n as nat)));
    }
    if let Some(n) = q.offset {
        assert(seq![("offset"@, decimal(n as nat))][0] == ("offset"@, decimal(n as nat)));
    }
    if let Some(n) = q.limit {
        assert(seq![("limit"@, decimal(n as nat))][0] == ("limit"@, decimal(n as nat)));
    }
    assert forall|i: int| 0 <= i < q.custom.len() implies ps.contains(#[trigger] q.custom[i]) by {
        assert(ps[ps.len() - q.custom.len() + i] == q.custom[i]);
    }
}

/// The API names of the sort fields and directions.
pub proof fn lemma_order_names()
    ensures
        order_name(ArticleOrder::CreatedDate) == "created_date"@,
        order_name(ArticleOrder::PublishedDate) == "published_date"@,
        order_name(ArticleOrder::ModifiedDate) == "modified_date"@,
        order_name(ArticleOrder::Views) == "views"@,
        order_name(ArticleOrder::Shares) == "shares"@,
        order_name(ArticleOrder::Downloads) == "downloads"@,
        order_name(ArticleOrder::Cites) == "cites"@,
        direction_name(OrderDirection::Asc) == "asc"@,
        direction_name(OrderDirection::Desc) == "desc"@,
{
}

/// The query pairs of an own article listing, in order.
pub open spec fn own_list_pairs(q: ArticleQueryView) -> Seq<(Seq<char>, Seq<char>)> {
    pagination_pairs(q) + q.custom
}

/// Whether the query mixes page-based and offset-based pagination.
pub open spec fn mixes_pagination(q: ArticleQueryView) -> bool {
    (q.page is Some || q.page_size is Some) && (q.limit is Some || q.offset is Some)
}

/// The names of the fields that are set, in order.
pub open spec fn set_field_names(f: Seq<(Seq<char>, bool)>, n: int) -> Seq<Seq<char>>
    decreases n,
{
    if n <= 0 || n > f.len() {
        Seq::empty()
    } else if f[n - 1].1 {
        set_field_names(f, n - 1).push(f[n - 1].0)
    } else {
        set_field_names(f, n - 1)
    }
}

/// Joins names with a separator.
pub open spec fn join(names: Seq<Seq<char>>, sep: Seq<char>) -> Seq<char>
    decreases names.len(),
{
    if names.len() == 0 {
        Seq::empty()
    } else if names.len() == 1 {
        names[0]
    } else {
        join(names.drop_last(), sep) + sep + names.last()
    }
}

/// The rejection message for fields an endpoint does not support.
pub open spec fn unsupported_message(f: Seq<(Seq<char>, bool)>, endpoint: Seq<char>) -> Seq<char> {
    join(set_field_names(f, f.len() as int), ", "@) + " not supported for "@ + endpoint
}

/// What a query conversion returns: the pagination error, the unsupported-field
/// error, or the converted value.
pub open spec fn checked<T>(q: ArticleQueryView, f: Seq<(Seq<char>, bool)>, endpoint: Seq<char>, ok: T) -> Result<T, Seq<char>> {
    if mixes_pagination(q) {
        Err("cannot mix page/page_size with limit/offset pagination"@)
    } else if exists|i: int| 0 <= i < f.len() && #[trigger] f[i].1 {
        Err(unsupported_message(f, endpoint))
    } else {
        Ok(ok)
    }
}

/// Filters that public listing does not support.
pub open spec fn public_list_unsupported(q: ArticleQueryView) -> Seq<(Seq<char>, bool)> {
    seq![
        ("search_for"@, q.search_for is Some),
        ("project_id"@, q.project_id is Some),
        ("resource_title"@, q.resource_title is Some),
    ]
}

/// Filters that own listing does not support.
pub open spec fn own_list_unsupported(q: ArticleQueryView) -> Seq<(Seq<char>, bool)> {
    seq![
        ("search_for"@, q.search_for is Some),
        ("published_since"@, q.published_since is Some),
        ("modified_since"@, q.modified_since is Some),
        ("institution"@, q.institution is Some),
        ("group"@, q.group is Some),
        ("item_type"@, q.item_type is Some),
        ("resource_doi"@, q.resource_doi is Some),
        ("resource_title"@, q.resource_title is Some),
        ("order"@, q.order is Some),
        ("order_direction"@, q.order_direction is Some),
        ("doi"@, q.doi is Some),
        ("handle"@, q.handle is Some),
        ("project_id"@, q.project_id is Some),
    ]
}

/// Filters that search does not support.
pub open spec fn search_unsupported(q: ArticleQueryView) -> Seq<(Seq<char>, bool)> {
    seq![("resource_title"@, q.resource_title is Some)]
}

/// A search body member for an optional text value.
pub open spec fn text_member(k: Seq<char>, o: Option<Seq<char>>) -> Seq<(Seq<char>, JsonView)> {
    match o {
        Some(v) => seq![(k, JsonView::String(v))],
        None => Seq::empty(),
    }
}

/// A search body member for an optional number.
pub open spec fn num_member(k: Seq<char>, o: Option<u64>) -> Seq<(Seq<char>, JsonView)> {
    match o {
        Some(n) => seq![(k, JsonView::Number(decimal(n as nat)))],
        None => Seq::empty(),
    }
}

/// The custom pairs as string members.
pub open spec fn custom_members(c: Seq<(Seq<char>, Seq<char>)>) -> Seq<(Seq<char>, JsonView)> {
    c.map_values(|p: (Seq<char>, Seq<char>)| (p.0, JsonView::String(p.1)))
}

/// The members inserted, in order, into a search body.
pub open spec fn search_inserts(q: ArticleQueryView) -> Seq<(Seq<char>, JsonView)> {
    text_member("search_for"@, q.search_for) + text_member("published_since"@, q.published_since)
        + text_member("modified_since"@, q.modified_since) + num_member("institution"@, q.institution)
        + num_member("group"@, q.group) + num_member("item_type"@, item_type_number(q))
        + text_member("resource_doi"@, q.resource_doi) + text_member("doi"@, q.doi)
        + text_member("handle"@, q.handle) + num_member("project_id"@, q.project_id)
        + text_member("order"@, order_text(q)) + text_member("order_direction"@, direction_text(q))
        + num_member("page"@, q.page) + num_member("page_size"@, q.page_size)
        + num_member("offset"@, q.offset) + num_member("limit"@, q.limit) + custom_members(q.custom)
}

/// Whether some extra pair uses key `k`.
pub open spec fn custom_uses(c: Seq<(Seq<char>, Seq<char>)>, k: Seq<char>) -> bool {
    exists|i: int| 0 <= i < c.len() && #[trigger] c[i].0 == k
}

/// The value of the last insertion with key `k`, if any.
pub open spec fn last_inserted(ins: Seq<(Seq<char>, JsonView)>, k: Seq<char>) -> Option<JsonView>
    decreases ins.len(),
{
    if ins.len() == 0 {
        None
    } else if ins.last().0 == k {
        Some(ins.last().1)
    } else {
        last_inserted(ins.drop_last(), k)
    }
}

proof fn lemma_get_is_first_index(es: Seq<(Seq<char>, JsonView)>, k: Seq<char>, i: int)
    requires
        0 <= i,
    ensures
        obj_get_from(es, k, i) == (match key_index_from(es, k, i) {
            Some(j) => Some(es[j].1),
            None => None,
        }),
    decreases es.len() - i,
{
    if i < es.len() && es[i].0 != k {
        lemma_get_is_first_index(es, k, i + 1);
    }
}

/// Inserting members in turn leaves each key with the value inserted last.
pub proof fn lemma_insert_all_get(ins: Seq<(Seq<char>, JsonView)>, k: Seq<char>)
    ensures
        json_get(JsonView::Object(insert_all(ins)), k) == last_inserted(ins, k),
    decreases ins.len(),
{
    lemma_get_is_first_index(insert_all(ins), k, 0);
    if ins.len() > 0 {
        let prev = insert_all(ins.drop_last());
        lemma_insert_all_get(ins.drop_last(), k);
        lemma_get_is_first_index(prev, k, 0);
        lemma_insert_then_get(prev, ins.last().0, ins.last().1, k);
        lemma_key_index_from_found(prev, k, 0);
        lemma_key_index_from_found(prev, ins.last().0, 0);
        if k != ins.last().0 {
            if let Some(j) = key_index_from(prev, k, 0) {
                assert(insert_all(ins)[j] == prev[j]);
            }
        }
    }
}

proof fn lemma_last_inserted_concat(a: Seq<(Seq<char>, JsonView)>, b: Seq<(Seq<char>, JsonView)>, k: Seq<char>)
    ensures
        last_inserted(a + b, k) == (if last_inserted(b, k) is Some {
            last_inserted(b, k)
        } else {
            last_inserted(a, k)
        }),
    decreases b.len(),
{
    if b.len() == 0 {
        assert(a + b =~= a);
    } else {
        lemma_last_inserted_concat(a, b.drop_last(), k);
        assert((a + b).drop_last() =~= a + b.drop_last());
        assert((a + b).last() == b.last());
    }
}

proof fn lemma_text_member_last(k1: Seq<char>, o: Option<Seq<char>>, k: Seq<char>)
    ensures
        last_inserted(text_member(k1, o), k) == (match o {
            Some(v) => if k1 == k {
                Some(JsonView::String(v))
            } else {
                None
            },
            None => None,
        }),
{
    let e = Seq::<(Seq<char>, JsonView)>::empty();
    assert(last_inserted(e, k) is None);
    if let Some(v) = o {
        let s1 = seq![(k1, JsonView::String(v))];
        assert(s1.drop_last() =~= e);
        assert(s1.last() == (k1, JsonView::String(v)));
        assert(last_inserted(s1, k) == (if k1 == k { Some(JsonView::String(v)) } else { None }));
    }
}

proof fn lemma_num_member_last(k1: Seq<char>, o: Option<u64>, k: Seq<char>)
    ensures
        last_inserted(num_member(k1, o), k) == (match o {
            Some(n) => if k1 == k {
                Some(JsonView::Number(decimal(n as nat)))
            } else {
                None
            },
            None => None,
        }),
{
    let e = Seq::<(Seq<char>, JsonView)>::empty();
    assert(last_inserted(e, k) is None);
    if let Some(n) = o {
        let s1 = seq![(k1, JsonView::Number(decimal(n as nat)))];
        assert(s1.drop_last() =~= e);
        assert(s1.last() == (k1, JsonView::Number(decimal(n as nat))));
        assert(last_inserted(s1, k) == (if k1 == k { Some(JsonView::Number(decimal(n as nat))) } else { None }));
    }
}

proof fn lemma_custom_unused(c: Seq<(Seq<char>, Seq<char>)>, k: Seq<char>)
    ensures
        !custom_uses(c, k) ==> last_inserted(custom_members(c), k) is None,
    decreases c.len(),
{
    if c.len() > 0 && !custom_uses(c, k) {
        let init = c.drop_last();
        assert(custom_members(c).drop_last() =~= custom_members(init));
        assert(c[c.len() - 1].0 != k);
        assert(!custom_uses(init, k)) by {
            if custom_uses(init, k) {
                let i = choose|i: int| 0 <= i < init.len() && #[trigger] init[i].0 == k;
                assert(c[i] == init[i]);
            }
        }
        lemma_custom_unused(init, k);
    }
}

proof fn lemma_search_key_search_for(q: ArticleQueryView)
    ensures
        (q.search_for matches Some(v) ==> (!custom_uses(q.custom, "search_for"@) ==> json_get(search_body(q), "search_for"@) == Some(JsonView::String(v)))),
{
    reveal_strlit("search_for");
    reveal_strlit("published_since");
    reveal_strlit("modified_since");
    reveal_strlit("institution");
    reveal_strlit("group");
    reveal_strlit("item_type");
    reveal_strlit("resource_doi");
    reveal_strlit("doi");
    reveal_strlit("handle");
    reveal_strlit("project_id");
    reveal_strlit("order");
    reveal_strlit("order_direction");
    reveal_strlit("page");
    reveal_strlit("page_size");
    reveal_strlit("offset");
    reveal_strlit("limit");
    assert("project_id"@[0] != "search_for"@[0]);
    assert("published_since"@.len() != "search_for"@.len());
    assert("modified_since"@.len() != "search_for"@.len());
    assert("institution"@.len() != "search_for"@.len());
    assert("group"@.len() != "search_for"@.len());
    assert("item_type"@.len() != "search_for"@.len());
    assert("resource_doi"@.len() != "search_for"@.len());
    assert("doi"@.len() != "search_for"@.len());
    assert("handle"@.len() != "search_for"@.len());
    assert("order"@.len() != "search_for"@.len());
    assert("order_direction"@.len() != "search_for"@.len());
    assert("page"@.len() != "search_for"@.len());
    assert("page_size"@.len() != "search_for"@.len());
    assert("offset"@.len() != "search_for"@.len());
    assert("limit"@.len() != "search_for"@.len());
    lemma_custom_unused(q.custom, "search_for"@);
    lemma_insert_all_get(search_inserts(q), "search_for"@);
    let a = (((((((((((((((text_member("search_for"@, q.search_for)) + text_member("published_since"@, q.published_since)) + text_member("modified_since"@, q.modified_since)) + num_member("institution"@, q.institution)) + num_member("group"@, q.group)) + num_member("item_type"@, item_type_number(q))) + text_member("resource_doi"@, q.resource_doi)) + text_member("doi"@, q.doi)) + text_member("handle"@, q.handle)) + num_member("project_id"@, q.project_id)) + text_member("order"@, order_text(q))) + text_member("order_direction"@, direction_text(q))) + num_member("page"@, q.page)) + num_member("page_size"@, q.page_size)) + num_member("offset"@, q.offset)) + num_member("limit"@, q.limit);
    assert(search_inserts(q) == a + custom_members(q.custom));
    lemma_last_inserted_concat(a, custom_members(q.custom), "search_for"@);
    lemma_last_inserted_concat(((((((((((((((text_member("search_for"@, q.search_for)) + text_member("published_since"@, q.published_since)) + text_member("modified_since"@, q.modified_since)) + num_member("institution"@, q.institution)) + num_member("group"@, q.group)) + num_member("item_type"@, item_type_number(q))) + text_member("resource_doi"@, q.resource_doi)) + text_member("doi"@, q.doi)) + text_member("handle"@, q.handle)) + num_member("project_id"@, q.project_id)) + text_member("order"@, order_text(q))) + text_member("order_direction"@, direction_text(q))) + num_member("page"@, q.page)) + num_member("page_size"@, q.page_size)) + num_member("offset"@, q.offset), num_member("limit"@, q.limit), "search_for"@);
    lemma_num_member_last("limit"@, q.limit, "search_for"@);
    lemma_last_inserted_concat((((((((((((((text_member("search_for"@, q.search_for)) + text_member("published_since"@, q.published_since)) + text_member("modified_since"@, q.modified_since)) + num_member("institution"@, q.institution)) + num_member("group"@, q.group)) + num_member("item_type"@, item_type_number(q))) + text_member("resource_doi"@, q.resource_doi)) + text_member("doi"@, q.doi)) + text_member("handle"@, q.handle)) + num_member("project_id"@, q.project_id)) + text_member("order"@, order_text(q))) + text_member("order_direction"@, direction_text(q))) + num_member("page"@, q.page)) + num_member("page_size"@, q.page_size), num_member("offset"@, q.offset), "search_for"@);
    lemma_num_member_last("offset"@, q.offset, "search_for"@);
    lemma_last_inserted_concat(((((((((((((text_member("search_for"@, q.search_for)) + text_member("published_since"@, q.published_since)) + text_member("modified_since"@, q.modified_since)) + num_member("institution"@, q.institution)) + num_member("group"@, q.group)) + num_member("item_type"@, item_type_number(q))) + text_member("resource_doi"@, q.resource_doi)) + text_member("doi"@, q.doi)) + text_member("handle"@, q.handle)) + num_member("project_id"@, q.project_id)) + text_member("order"@, order_text(q))) + text_member("order_direction"@, direction_text(q))) + num_member("page"@, q.page), num_member("page_size"@, q.page_size), "search_for"@);
    lemma_num_member_last("page_size"@, q.page_size, "search_for"@);
    lemma_last_inserted_concat((((((((((((text_member("search_for"@, q.search_for)) + text_member("published_since"@, q.published_since)) + text_member("modified_since"@, q.modified_since)) + num_member("institution"@, q.institution)) + num_member("group"@, q.group)) + num_member("item_type"@, item_type_number(q))) + text_member("resource_doi"@, q.resource_doi)) + text_member("doi"@, q.doi)) + text_member("handle"@, q.handle)) + num_member("project_id"@, q.project_id)) + text_member("order"@, order_text(q))) + text_member("order_direction"@, direction_text(q)), num_member("page"@, q.page), "search_for"@);
    lemma_num_member_last("page"@, q.page, "search_for"@);
    lemma_last_inserted_concat(((((((((((text_member("search_for"@, q.search_for)) + text_member("published_since"@, q.published_since)) + text_member("modified_since"@, q.modified_since)) + num_member("institution"@, q.institution)) + num_member("group"@, q.group)) + num_member("item_type"@, item_type_number(q))) + text_member("resource_doi"@, q.resource_doi)) + text_member("doi"@, q.doi)) + text_member("handle"@, q.handle)) + num_member("project_id"@, q.project_id)) + text_member("order"@, order_text(q)), text_member("order_direction"@, direction_text(q)), "search_for"@);
    lemma_text_member_last("order_direction"@, direction_text(q), "search_for"@);
    lemma_last_inserted_concat((((((((((text_member("search_for"@, q.search_for)) + text_member("published_since"@, q.published_since)) + text_member("modified_since"@, q.modified_since)) + num_member("institution"@, q.institution)) + num_member("group"@, q.group)) + num_member("item_type"@, item_type_number(q))) + text_member("resource_doi"@, q.resource_doi)) + text_member("doi"@, q.doi)) + text_member("handle"@, q.handle)) + num_member("project_id"@, q.project_id), text_member("order"@, order_text(q)), "search_for"@);
    lemma_text_member_last("order"@, order_text(q), "search_for"@);
    lemma_last_inserted_concat(((((((((text_member("search_for"@, q.search_for)) + text_member("published_since"@, q.published_since)) + text_member("modified_since"@, q.modified_since)) + num_member("institution"@, q.institution)) + num_member("group"@, q.group)) + num_member("item_type"@, item_type_number(q))) + text_member("resource_doi"@, q.resource_doi)) + text_member("doi"@, q.doi)) + text_member("handle"@, q.handle), num_member("project_id"@, q.project_id), "search_for"@);
    lemma_num_member_last("project_id"@, q.project_id, "search_for"@);
    lemma_last_inserted_concat((((((((text_member("search_for"@, q.search_for)) + text_member("published_since"@, q.published_since)) + text_member("modified_since"@, q.modified_since)) + num_member("institution"@, q.institution)) + num_member("group"@, q.group)) + num_member("item_type"@, item_type_number(q))) + text_member("resource_doi"@, q.resource_doi)) + text_member("doi"@, q.doi), text_member("handle"@, q.handle), "search_for"@);
    lemma_text_member_last("handle"@, q.handle, "search_for"@);
    lemma_last_inserted_concat(((((((text_member("search_for"@, q.search_for)) + text_member("published_since"@, q.published_since)) + text_member("modified_since"@, q.modified_since)) + num_member("institution"@, q.institution)) + num_member("group"@, q.group)) + num_member("item_type"@, item_type_number(q))) + text_member("resource_doi"@, q.resource_doi), text_member("doi"@, q.doi), "search_for"@);
    lemma_text_member_last("doi"@, q.doi, "search_for"@);
    lemma_last_inserted_concat((((((text_member("search_for"@, q.search_for)) + text_member("published_since"@, q.published_since)) + text_member("modified_since"@, q.modified_since)) + num_member("institution"@, q.institution)) + num_member("group"@, q.group)) + num_member("item_type"@, item_type_number(q)), text_member("resource_doi"@, q.resource_doi), "search_for"@);
    lemma_text_member_last("resource_doi"@, q.resource_doi, "search_for"@);
    lemma_last_inserted_concat(((((text_member("search_for"@, q.search_for)) + text_member("published_since"@, q.published_since)) + text_member("modified_since"@, q.modified_since)) + num_member("institution"@, q.institution)) + num_member("group"@, q.group), num_member("item_type"@, item_type_number(q)), "search_for"@);
    lemma_num_member_last("item_type"@, item_type_number(q), "search_for"@);
    lemma_last_inserted_concat((((text_member("search_for"@, q.search_for)) + text_member("published_since"@, q.published_since)) + text_member("modified_since"@, q.modified_since)) + num_member("institution"@, q.institution), num_member("group"@, q.group), "search_for"@);
    lemma_num_member_last("group"@, q.group, "search_for"@);
    lemma_last_inserted_concat(((text_member("search_for"@, q.search_for)) + text_member("published_since"@, q.published_since)) + text_member("modified_since"@, q.modified_since), num_member("institution"@, q.institution), "search_for"@);
    lemma_num_member_last("institution"@, q.institution, "search_for"@);
    lemma_last_inserted_concat((text_member("search_for"@, q.search_for)) + text_member("published_since"@, q.published_since), text_member("modified_since"@, q.modified_since), "search_for"@);
    lemma_text_member_last("modified_since"@, q.modified_since, "search_for"@);
    lemma_last_inserted_concat(text_member("search_for"@, q.search_for), text_member("published_since"@, q.published_since), "search_for"@);
    lemma_text_member_last("published_since"@, q.published_since, "search_for"@);
}

proof fn lemma_search_key_published_since(q: ArticleQueryView)
    ensures
        (q.published_since matches Some(v) ==> (!custom_uses(q.custom, "published_since"@) ==> json_get(search_body(q), "published_since"@) == Some(JsonView::String(v)))),
{
    reveal_strlit("search_for");
    reveal_strlit("published_since");
    reveal_strlit("modified_since");
    reveal_strlit("institution");
    reveal_strlit("group");
    reveal_strlit("item_type");
    reveal_strlit("resource_doi");
    reveal_strlit("doi");
    reveal_strlit("handle");
    reveal_strlit("project_id");
    reveal_strlit("order");
    reveal_strlit("order_direction");
    reveal_strlit("page");
    reveal_strlit("page_size");
    reveal_strlit("offset");
    reveal_strlit("limit");
    assert("order_direction"@[0] != "published_since"@[0]);
    assert("search_for"@.len() != "published_since"@.len());
    assert("modified_since"@.len() != "published_since"@.len());
    assert("institution"@.len() != "published_since"@.len());
    assert("group"@.len() != "published_since"@.len());
    assert("item_type"@.len() != "published_since"@.len());
    assert("resource_doi"@.len() != "published_since"@.len());
    assert("doi"@.len() != "published_since"@.len());
    assert("handle"@.len() != "published_since"@.len());
    assert("project_id"@.len() != "published_since"@.len());
    assert("order"@.len() != "published_since"@.len());
    assert("page"@.len() != "published_since"@.len());
    assert("page_size"@.len() != "published_since"@.len());
    assert("offset"@.len() != "published_since"@.len());
    assert("limit"@.len() != "published_since"@.len());
    lemma_custom_unused(q.custom, "published_since"@);
    lemma_insert_all_get(search_inserts(q), "published_since"@);
    let a = (((((((((((((((text_member("search_for"@, q.search_for)) + text_member("published_since"@, q.published_since)) + text_member("modified_since"@, q.modified_since)) + num_member("institution"@, q.institution)) + num_member("group"@, q.group)) + num_member("item_type"@, item_type_number(q))) + text_member("resource_doi"@, q.resource_doi)) + text_member("doi"@, q.doi)) + text_member("handle"@, q.handle)) + num_member("project_id"@, q.project_id)) + text_member("order"@, order_text(q))) + text_member("order_direction"@, direction_text(q))) + num_member("page"@, q.page)) + num_member("page_size"@, q.page_size)) + num_member("offset"@, q.offset)) + num_member("limit"@, q.limit);
    assert(search_inserts(q) == a + custom_members(q.custom));
    lemma_last_inserted_concat(a, custom_members(q.custom), "published_since"@);
    lemma_last_inserted_concat(((((((((((((((text_member("search_for"@, q.search_for)) + text_member("published_since"@, q.published_since)) + text_member("modified_since"@, q.modified_since)) + num_member("institution"@, q.institution)) + num_member("group"@, q.group)) + num_member("item_type"@, item_type_number(q))) + text_member("resource_doi"@, q.resource_doi)) + text_member("doi"@, q.doi)) + text_member("handle"@, q.handle)) + num_member("project_id"@, q.project_id)) + text_member("order"@, order_text(q))) + text_member("order_direction"@, direction_text(q))) + num_member("page"@, q.page)) + num_member("page_size"@, q.page_size)) + num_member("offset"@, q.offset), num_member("limit"@, q.limit), "published_since"@);
    lemma_num_member_last("limit"@, q.limit, "published_since"@);
    lemma_last_inserted_concat((((((((((((((text_member("search_for"@, q.search_for)) + text_member("published_since"@, q.published_since)) + text_member("modified_since"@, q.modified_since)) + num_member("institution"@, q.institution)) + num_member("group"@, q.group)) + num_member("item_type"@, item_type_number(q))) + text_member("resource_doi"@, q.resource_doi)) + text_member("doi"@, q.doi)) + text_member("handle"@, q.handle)) + num_member("project_id"@, q.project_id)) + text_member("order"@, order_text(q))) + text_member("order_direction"@, direction_text(q))) + num_member("page"@, q.page)) + num_member("page_size"@, q.page_size), num_member("offset"@, q.offset), "published_since"@);
    lemma_num_member_last("offset"@, q.offset, "published_since"@);
    lemma_last_inserted_concat(((((((((((((text_member("search_for"@, q.search_for)) + text_member("published_since"@, q.published_since)) + text_member("modified_since"@, q.modified_since)) + num_member("institution"@, q.institution)) + num_member("group"@, q.group)) + num_member("item_type"@, item_type_number(q))) + text_member("resource_doi"@, q.resource_doi)) + text_member("doi"@, q.doi)) + text_member("handle"@, q.handle)) + num_member("project_id"@, q.project_id)) + text_member("order"@, order_text(q))) + text_member("order_direction"@, direction_text(q))) + num_member("page"@, q.page), num_member("page_size"@, q.page_size), "published_since"@);
    lemma_num_member_last("page_size"@, q.page_size, "published_since"@);
    lemma_last_inserted_concat((((((((((((text_member("search_for"@, q.search_for)) + text_member("published_since"@, q.published_since)) + text_member("modified_since"@, q.modified_since)) + num_member("institution"@, q.institution)) + num_member("group"@, q.group)) + num_member("item_type"@, item_type_number(q))) + text_member("resource_doi"@, q.resource_doi)) + text_member("doi"@, q.doi)) + text_member("handle"@, q.handle)) + num_member("project_id"@, q.project_id)) + text_member("order"@, order_text(q))) + text_member("order_direction"@, direction_text(q)), num_member("page"@, q.page), "published_since"@);
    lemma_num_member_last("page"@, q.page, "published_since"@);
    lemma_last_inserted_concat(((((((((((text_member("search_for"@, q.search_for)) + text_member("published_since"@, q.published_since)) + text_member("modified_since"@, q.modified_since)) + num_member("institution"@, q.institution)) + num_member("group"@, q.group)) + num_member("item_type"@, item_type_number(q))) + text_member("resource_doi"@, q.resource_doi)) + text_member("doi"@, q.doi)) + text_member("handle"@, q.handle)) + num_member("project_id"@, q.project_id)) + text_member("order"@, order_text(q)), text_member("order_direction"@, direction_text(q)), "published_since"@);
    lemma_text_member_last("order_direction"@, direction_text(q), "published_since"@);
    lemma_last_inserted_concat((((((((((text_member("search_for"@, q.search_for)) + text_member("published_since"@, q.published_since)) + text_member("modified_since"@, q.modified_since)) + num_member("institution"@, q.institution)) + num_member("group"@, q.group)) + num_member("item_type"@, item_type_number(q))) + text_member("resource_doi"@, q.resource_doi)) + text_member("doi"@, q.doi)) + text_member("handle"@, q.handle)) + num_member("project_id"@, q.project_id), text_member("order"@, order_text(q)), "published_since"@);
    lemma_text_member_last("order"@, order_text(q), "published_since"@);
    lemma_last_inserted_concat(((((((((text_member("search_for"@, q.search_for)) + text_member("published_since"@, q.published_since)) + text_member("modified_since"@, q.modified_since)) + num_member("institution"@, q.institution)) + num_member("group"@, q.group)) + num_member("item_type"@, item_type_number(q))) + text_member("resource_doi"@, q.resource_doi)) + text_member("doi"@, q.doi)) + text_member("handle"@, q.handle), num_member("project_id"@, q.project_id), "published_since"@);
    lemma_num_member_last("project_id"@, q.project_id, "published_since"@);
    lemma_last_inserted_concat((((((((text_member("search_for"@, q.search_for)) + text_member("published_since"@, q.published_since)) + text_member("modified_since"@, q.modified_since)) + num_member("institution"@, q.institution)) + num_member("group"@, q.group)) + num_member("item_type"@, item_type_number(q))) + text_member("resource_doi"@, q.resource_doi)) + text_member("doi"@, q.doi), text_member("handle"@, q.handle), "published_since"@);
    lemma_text_member_last("handle"@, q.handle, "published_since"@);
    lemma_last_inserted_concat(((((((text_member("search_for"@, q.search_for)) + text_member("published_since"@, q.published_since)) + text_member("modified_since"@, q.modified_since)) + num_member("institution"@, q.institution)) + num_member("group"@, q.group)) + num_member("item_type"@, item_type_number(q))) + text_member("resource_doi"@, q.resource_doi), text_member("doi"@, q.doi), "published_since"@);
    lemma_text_member_last("doi"@, q.doi, "published_since"@);
    lemma_last_inserted_concat((((((text_member("search_for"@, q.search_for)) + text_member("published_since"@, q.published_since)) + text_member("modified_since"@, q.modified_since)) + num_member("institution"@, q.institution)) + num_member("group"@, q.group)) + num_member("item_type"@, item_type_number(q)), text_member("resource_doi"@, q.resource_doi), "published_since"@);
    lemma_text_member_last("resource_doi"@, q.resource_doi, "published_since"@);
    lemma_last_inserted_concat(((((text_member("search_for"@, q.search_for)) + text_member("published_since"@, q.published_since)) + text_member("modified_since"@, q.modified_since)) + num_member("institution"@, q.institution)) + num_member("group"@, q.group), num_member("item_type"@, item_type_number(q)), "published_since"@);
    lemma_num_member_last("item_type"@, item_type_number(q), "published_since"@);
    lemma_last_inserted_concat((((text_member("search_for"@, q.search_for)) + text_member("published_since"@, q.published_since)) + text_member("modified_since"@, q.modified_since)) + num_member("institution"@, q.institution), num_member("group"@, q.group), "published_since"@);
    lemma_num_member_last("group"@, q.group, "published_since"@);
    lemma_last_inserted_concat(((text_member("search_for"@, q.search_for)) + text_member("published_since"@, q.published_since)) + text_member("modified_since"@, q.modified_since), num_member("institution"@, q.institution), "published_since"@);
    lemma_num_member_last("institution"@, q.institution, "published_since"@);
    lemma_last_inserted_concat((text_member("search_for"@, q.search_for)) + text_member("published_since"@, q.published_since), text_member("modified_since"@, q.modified_since), "published_since"@);
    lemma_text_member_last("modified_since"@, q.modified_since, "published_since"@);
    lemma_last_inserted_concat(text_member("search_for"@, q.search_for), text_member("published_since"@, q.published_since), "published_since"@);
    lemma_text_member_last("published_since"@, q.published_since, "published_since"@);
}

proof fn lemma_search_key_modified_since(q: ArticleQueryView)
    ensures
        (q.modified_since matches Some(v) ==> (!custom_uses(q.custom, "modified_since"@) ==> json_get(search_body(q), "modified_since"@) == Some(JsonView::String(v)))),
{
    reveal_strlit("search_for");
    reveal_strlit("published_since");
    reveal_strlit("modified_since");
    reveal_strlit("institution");
    reveal_strlit("group");
    reveal_strlit("item_type");
    reveal_strlit("resource_doi");
    reveal_strlit("doi");
    reveal_strlit("handle");
    reveal_strlit("project_id");
    reveal_strlit("order");
    reveal_strlit("order_direction");
    reveal_strlit("page");
    reveal_strlit("page_size");
    reveal_strlit("offset");
    reveal_strlit("limit");
    assert("search_for"@.len() != "modified_since"@.len());
    assert("published_since"@.len() != "modified_since"@.len());
    assert("institution"@.len() != "modified_since"@.len());
    assert("group"@.len() != "modified_since"@.len());
    assert("item_type"@.len() != "modified_since"@.len());
    assert("resource_doi"@.len() != "modified_since"@.len());
    assert("doi"@.len() != "modified_since"@.len());
    assert("handle"@.len() != "modified_since"@.len());
    assert("project_id"@.len() != "modified_since"@.len());
    assert("order"@.len() != "modified_since"@.len());
    assert("order_direction"@.len() != "modified_since"@.len());
    assert("page"@.len() != "modified_since"@.len());
    assert("page_size"@.len() != "modified_since"@.len());
    assert("offset"@.len() != "modified_since"@.len());
    assert("limit"@.len() != "modified_since"@.len());
    lemma_custom_unused(q.custom, "modified_since"@);
    lemma_insert_all_get(search_inserts(q), "modified_since"@);
    let a = (((((((((((((((text_member("search_for"@, q.search_for)) + text_member("published_since"@, q.published_since)) + text_member("modified_since"@, q.modified_since)) + num_member("institution"@, q.institution)) + num_member("group"@, q.group)) + num_member("item_type"@, item_type_number(q))) + text_member("resource_doi"@, q.resource_doi)) + text_member("doi"@, q.doi)) + text_member("handle"@, q.handle)) + num_member("project_id"@, q.project_id)) + text_member("order"@, order_text(q))) + text_member("order_direction"@, direction_text(q))) + num_member("page"@, q.page)) + num_member("page_size"@, q.page_size)) + num_member("offset"@, q.offset)) + num_member("limit"@, q.limit);
    assert(search_inserts(q) == a + custom_members(q.custom));
    lemma_last_inserted_concat(a, custom_members(q.custom), "modified_since"@);
    lemma_last_inserted_concat(((((((((((((((text_member("search_for"@, q.search_for)) + text_member("published_since"@, q.published_since)) + text_member("modified_since"@, q.modified_since)) + num_member("institution"@, q.institution)) + num_member("group"@, q.group)) + num_member("item_type"@, item_type_number(q))) + text_member("resource_doi"@, q.resource_doi)) + text_member("doi"@, q.doi)) + text_member("handle"@, q.handle)) + num_member("project_id"@, q.project_id)) + text_member("order"@, order_text(q))) + text_member("order_direction"@, direction_text(q))) + num_member("page"@, q.page)) + num_member("page_size"@, q.page_size)) + num_member("offset"@, q.offset), num_member("limit"@, q.limit), "modified_since"@);
    lemma_num_member_last("limit"@, q.limit, "modified_since"@);
    lemma_last_inserted_concat((((((((((((((text_member("search_for"@, q.search_for)) + text_member("published_since"@, q.published_since)) + text_member("modified_since"@, q.modified_since)) + num_member("institution"@, q.institution)) + num_member("group"@, q.group)) + num_member("item_type"@, item_type_number(q))) + text_member("resource_doi"@, q.resource_doi)) + text_member("doi"@, q.doi)) + text_member("handle"@, q.handle)) + num_member("project_id"@, q.project_id)) + text_member("order"@, order_text(q))) + text_member("order_direction"@, direction_text(q))) + num_member("page"@, q.page)) + num_member("page_size"@, q.page_size), num_member("offset"@, q.offset), "modified_since"@);
    lemma_num_member_last("offset"@, q.offset, "modified_since"@);
    lemma_last_inserted_concat(((((((((((((text_member("search_for"@, q.search_for)) + text_member("published_since"@, q.published_since)) + text_member("modified_since"@, q.modified_since)) + num_member("institution"@, q.institution)) + num_member("group"@, q.group)) + num_member("item_type"@, item_type_number(q))) + text_member("resource_doi"@, q.resource_doi)) + text_member("doi"@, q.doi)) + text_member("handle"@, q.handle)) + num_member("project_id"@, q.project_id)) + text_member("order"@, order_text(q))) + text_member("order_direction"@, direction_text(q))) + num_member("page"@, q.page), num_member("page_size"@, q.page_size), "modified_since"@);
    lemma_num_member_last("page_size"@, q.page_size, "modified_since"@);
    lemma_last_inserted_concat((((((((((((text_member("search_for"@, q.search_for)) + text_member("published_since"@, q.published_since)) + text_member("modified_since"@, q.modified_since)) + num_member("institution"@, q.institution)) + num_member("group"@, q.group)) + num_member("item_type"@, item_type_number(q))) + text_member("resource_doi"@, q.resource_doi)) + text_member("doi"@, q.doi)) + text_member("handle"@, q.handle)) + num_member("project_id"@, q.project_id)) + text_member("order"@, order_text(q))) + text_member("order_direction"@, direction_text(q)), num_member("page"@, q.page), "modified_since"@);
    lemma_num_member_last("page"@, q.page, "modified_since"@);
    lemma_last_inserted_concat(((((((((((text_member("search_for"@, q.search_for)) + text_member("published_since"@, q.published_since)) + text_member("modified_since"@, q.modified_since)) + num_member("institution"@, q.institution)) + num_member("group"@, q.group)) + num_member("item_type"@, item_type_number(q))) + text_member("resource_doi"@, q.resource_doi)) + text_member("doi"@, q.doi)) + text_member("handle"@, q.handle)) + num_member("project_id"@, q.project_id)) + text_member("order"@, order_text(q)), text_member("order_direction"@, direction_text(q)), "modified_since"@);
    lemma_text_member_last("order_direction"@, direction_text(q), "modified_since"@);
    lemma_last_inserted_concat((((((((((text_member("search_for"@, q.search_for)) + text_member("published_since"@, q.published_since)) + text_member("modified_since"@, q.modified_since)) + num_member("institution"@, q.institution)) + num_member("group"@, q.group)) + num_member("item_type"@, item_type_number(q))) + text_member("resource_doi"@, q.resource_doi)) + text_member("doi"@, q.doi)) + text_member("handle"@, q.handle)) + num_member("project_id"@, q.project_id), text_member("order"@, order_text(q)), "modified_since"@);
    lemma_text_member_last("order"@, order_text(q), "modified_since"@);
    lemma_last_inserted_concat(((((((((text_member("search_for"@, q.search_for)) + text_member("published_since"@, q.published_since)) + text_member("modified_since"@, q.modified_since)) + num_member("institution"@, q.institution)) + num_member("group"@, q.group)) + num_member("item_type"@, item_type_number(q))) + text_member("resource_doi"@, q.resource_doi)) + text_member("doi"@, q.doi)) + text_member("handle"@, q.handle), num_member("project_id"@, q.project_id), "modified_since"@);
    lemma_num_member_last("project_id"@, q.project_id, "modified_since"@);
    lemma_last_inserted_concat((((((((text_member("search_for"@, q.search_for)) + text_member("published_since"@, q.published_since)) + text_member("modified_since"@, q.modified_since)) + num_member("institution"@, q.institution)) + num_member("group"@, q.group)) + num_member("item_type"@, item_type_number(q))) + text_member("resource_doi"@, q.resource_doi)) + text_member("doi"@, q.doi), text_member("handle"@, q.handle), "modified_since"@);
    lemma_text_member_last("handle"@, q.handle, "modified_since"@);
    lemma_last_inserted_concat(((((((text_member("search_for"@, q.search_for)) + text_member("published_since"@, q.published_since)) + text_member("modified_since"@, q.modified_since)) + num_member("institution"@, q.institution)) + num_member("group"@, q.group)) + num_member("item_type"@, item_type_number(q))) + text_member("resource_doi"@, q.resource_doi), text_member("doi"@, q.doi), "modified_since"@);
    lemma_text_member_last("doi"@, q.doi, "modified_since"@);
    lemma_last_inserted_concat((((((text_member("search_for"@, q.search_for)) + text_member("published_since"@, q.published_since)) + text_member("modified_since"@, q.modified_since)) + num_member("institution"@, q.institution)) + num_member("group"@, q.group)) + num_member("item_type"@, item_type_number(q)), text_member("resource_doi"@, q.resource_doi), "modified_since"@);
    lemma_text_member_last("resource_doi"@, q.resource_doi, "modified_since"@);
    lemma_last_inserted_concat(((((text_member("search_for"@, q.search_for)) + text_member("published_since"@, q.published_since)) + text_member("modified_since"@, q.modified_since)) + num_member("institution"@, q.institution)) + num_member("group"@, q.group), num_member("item_type"@, item_type_number(q)), "modified_since"@);
    lemma_num_member_last("item_type"@, item_type_number(q), "modified_since"@);
    lemma_last_inserted_concat((((text_member("search_for"@, q.search_for)) + text_member("published_since"@, q.published_since)) + text_member("modified_since"@, q.modified_since)) + num_member("institution"@, q.institution), num_member("group"@, q.group), "modified_since"@);
    lemma_num_member_last("group"@, q.group, "modified_since"@);
    lemma_last_inserted_concat(((text_member("search_for"@, q.search_for)) + text_member("published_since"@, q.published_since)) + text_member("modified_since"@, q.modified_since), num_member("institution"@, q.institution), "modified_since"@);
    lemma_num_member_last("institution"@, q.institution, "modified_since"@);
    lemma_last_inserted_concat((text_member("search_for"@, q.search_for)) + text_member("published_since"@, q.published_since), text_member("modified_since"@, q.modified_since), "modified_since"@);
    lemma_text_member_last("modified_since"@, q.modified_since, "modified_since"@);
}

proof fn lemma_search_key_institution(q: ArticleQueryView)
    ensures
        (q.institution matches Some(n) ==> (!custom_uses(q.custom, "institution"@) ==> json_get(search_body(q), "institution"@) == Some(JsonView::Number(decimal(n as nat))))),
{
    reveal_strlit("search_for");
    reveal_strlit("published_since");
    reveal_strlit("modified_since");
    reveal_strlit("institution");
    reveal_strlit("group");
    reveal_strlit("item_type");
    reveal_strlit("resource_doi");
    reveal_strlit("doi");
    reveal_strlit("handle");
    reveal_strlit("project_id");
    reveal_strlit("order");
    reveal_strlit("order_direction");
    reveal_strlit("page");
    reveal_strlit("page_size");
    reveal_strlit("offset");
    reveal_strlit("limit");
    assert("search_for"@.len() != "institution"@.len());
    assert("published_since"@.len() != "institution"@.len());
    assert("modified_since"@.len() != "institution"@.len());
    assert("group"@.len() != "institution"@.len());
    assert("item_type"@.len() != "institution"@.len());
    assert("resource_doi"@.len() != "institution"@.len());
    assert("doi"@.len() != "institution"@.len());
    assert("handle"@.len() != "institution"@.len());
    assert("project_id"@.len() != "institution"@.len());
    assert("order"@.len() != "institution"@.len());
    assert("order_direction"@.len() != "institution"@.len());
    assert("page"@.len() != "institution"@.len());
    assert("page_size"@.len() != "institution"@.len());
    assert("offset"@.len() != "institution"@.len());
    assert("limit"@.len() != "institution"@.len());
    lemma_custom_unused(q.custom, "institution"@);
    lemma_insert_all_get(search_inserts(q), "institution"@);
    let a = (((((((((((((((text_member("search_for"@, q.search_for)) + text_member("published_since"@, q.published_since)) + text_member("modified_since"@, q.modified_since)) + num_member("institution"@, q.institution)) + num_member("group"@, q.group)) + num_member("item_type"@, item_type_number(q))) + text_member("resource_doi"@, q.resource_doi)) + text_member("doi"@, q.doi)) + text_member("handle"@, q.handle)) + num_member("project_id"@, q.project_id)) + text_member("order"@, order_text(q))) + text_member("order_direction"@, direction_text(q))) + num_member("page"@, q.page)) + num_member("page_size"@, q.page_size)) + num_member("offset"@, q.offset)) + num_member("limit"@, q.limit);
    assert(search_inserts(q) == a + custom_members(q.custom));
    lemma_last_inserted_concat(a, custom_members(q.custom), "institution"@);
    lemma_last_inserted_concat(((((((((((((((text_member("search_for"@, q.search_for)) + text_member("published_since"@, q.published_since)) + text_member("modified_since"@, q.modified_since)) + num_member("institution"@, q.institution)) + num_member("group"@, q.group)) + num_member("item_type"@, item_type_number(q))) + text_member("resource_doi"@, q.resource_doi)) + text_member("doi"@, q.doi)) + text_member("handle"@, q.handle)) + num_member("project_id"@, q.project_id)) + text_member("order"@, order_text(q))) + text_member("order_direction"@, direction_text(q))) + num_member("page"@, q.page)) + num_member("page_size"@, q.page_size)) + num_member("offset"@, q.offset), num_member("limit"@, q.limit), "institution"@);
    lemma_num_member_last("limit"@, q.limit, "institution"@);
    lemma_last_inserted_concat((((((((((((((text_member("search_for"@, q.search_for)) + text_member("published_since"@, q.published_since)) + text_member("modified_since"@, q.modified_since)) + num_member("institution"@, q.institution)) + num_member("group"@, q.group)) + num_member("item_type"@, item_type_number(q))) + text_member("resource_doi"@, q.resource_doi)) + text_member("doi"@, q.doi)) + text_member("handle"@, q.handle)) + num_member("project_id"@, q.project_id)) + text_member("order"@, order_text(q))) + text_member("order_direction"@, direction_text(q))) + num_member("page"@, q.page)) + num_member("page_size"@, q.page_size), num_member("offset"@, q.offset), "institution"@);
    lemma_num_member_last("offset"@, q.offset, "institution"@);
    lemma_last_inserted_concat(((((((((((((text_member("search_for"@, q.search_for)) + text_member("published_since"@, q.published_since)) + text_member("modified_since"@, q.modified_since)) + num_member("institution"@, q.institution)) + num_member("group"@, q.group)) + num_member("item_type"@, item_type_number(q))) + text_member("resource_doi"@, q.resource_doi)) + text_member("doi"@, q.doi)) + text_member("handle"@, q.handle)) + num_member("project_id"@, q.project_id)) + text_member("order"@, order_text(q))) + text_member("order_direction"@, direction_text(q))) + num_member("page"@, q.page), num_member("page_size"@, q.page_size), "institution"@);
    lemma_num_member_last("page_size"@, q.page_size, "institution"@);
    lemma_last_inserted_concat((((((((((((text_member("search_for"@, q.search_for)) + text_member("published_since"@, q.published_since)) + text_member("modified_since"@, q.modified_since)) + num_member("institution"@, q.institution)) + num_member("group"@, q.group)) + num_member("item_type"@, item_type_number(q))) + text_member("resource_doi"@, q.resource_doi)) + text_member("doi"@, q.doi)) + text_member("handle"@, q.handle)) + num_member("project_id"@, q.project_id)) + text_member("order"@, order_text(q))) + text_member("order_direction"@, direction_text(q)), num_member("page"@, q.page), "institution"@);
    lemma_num_member_last("page"@, q.page, "institution"@);
    lemma_last_inserted_concat(((((((((((text_member("search_for"@, q.search_for)) + text_member("published_since"@, q.published_since)) + text_member("modified_since"@, q.modified_since)) + num_member("institution"@, q.institution)) + num_member("group"@, q.group)) + num_member("item_type"@, item_type_number(q))) + text_member("resource_doi"@, q.resource_doi)) + text_member("doi"@, q.doi)) + text_member("handle"@, q.handle)) + num_member("project_id"@, q.project_id)) + text_member("order"@, order_text(q)), text_member("order_direction"@, direction_text(q)), "institution"@);
    lemma_text_member_last("order_direction"@, direction_text(q), "institution"@);
    lemma_last_inserted_concat((((((((((text_member("search_for"@, q.search_for)) + text_member("published_since"@, q.published_since)) + text_member("modified_since"@, q.modified_since)) + num_member("institution"@, q.institution)) + num_member("group"@, q.group)) + num_member("item_type"@, item_type_number(q))) + text_member("resource_doi"@, q.resource_doi)) + text_member("doi"@, q.doi)) + text_member("handle"@, q.handle)) + num_member("project_id"@, q.project_id), text_member("order"@, order_text(q)), "institution"@);
    lemma_text_member_last("order"@, order_text(q), "institution"@);
    lemma_last_inserted_concat(((((((((text_member("search_for"@, q.search_for)) + text_member("published_since"@, q.published_since)) + text_member("modified_since"@, q.modified_since)) + num_member("institution"@, q.institution)) + num_member("group"@, q.group)) + num_member("item_type"@, item_type_number(q))) + text_member("resource_doi"@, q.resource_doi)) + text_member("doi"@, q.doi)) + text_member("handle"@, q.handle), num_member("project_id"@, q.project_id), "institution"@);
    lemma_num_member_last("project_id"@, q.project_id, "institution"@);
    lemma_last_inserted_concat((((((((text_member("search_for"@, q.search_for)) + text_member("published_since"@, q.published_since)) + text_member("modified_since"@, q.modified_since)) + num_member("institution"@, q.institution)) + num_member("group"@, q.group)) + num_member("item_type"@, item_type_number(q))) + text_member("resource_doi"@, q.resource_doi)) + text_member("doi"@, q.doi), text_member("handle"@, q.handle), "institution"@);
    lemma_text_member_last("handle"@, q.handle, "institution"@);
    lemma_last_inserted_concat(((((((text_member("search_for"@, q.search_for)) + text_member("published_since"@, q.published_since)) + text_member("modified_since"@, q.modified_since)) + num_member("institution"@, q.institution)) + num_member("group"@, q.group)) + num_member("item_type"@, item_type_number(q))) + text_member("resource_doi"@, q.resource_doi), text_member("doi"@, q.doi), "institution"@);
    lemma_text_member_last("doi"@, q.doi, "institution"@);
    lemma_last_inserted_concat((((((text_member("search_for"@, q.search_for)) + text_member("published_since"@, q.published_since)) + text_member("modified_since"@, q.modified_since)) + num_member("institution"@, q.institution)) + num_member("group"@, q.group)) + num_member("item_type"@, item_type_number(q)), text_member("resource_doi"@, q.resource_doi), "institution"@);
    lemma_text_member_last("resource_doi"@, q.resource_doi, "institution"@);
    lemma_last_inserted_concat(((((text_member("search_for"@, q.search_for)) + text_member("published_since"@, q.published_since)) + text_member("modified_since"@, q.modified_since)) + num_member("institution"@, q.institution)) + num_member("group"@, q.group), num_member("item_type"@, item_type_number(q)), "institution"@);
    lemma_num_member_last("item_type"@, item_type_number(q), "institution"@);
    lemma_last_inserted_concat((((text_member("search_for"@, q.search_for)) + text_member("published_since"@, q.published_since)) + text_member("modified_since"@, q.modified_since)) + num_member("institution"@, q.institution), num_member("group"@, q.group), "institution"@);
    lemma_num_member_last("group"@, q.group, "institution"@);
    lemma_last_inserted_concat(((text_member("search_for"@, q.search_for)) + text_member("published_since"@, q.published_since)) + text_member("modified_since"@, q.modified_since), num_member("institution"@, q.institution), "institution"@);
    lemma_num_member_last("institution"@, q.institution, "institution"@);
}

proof fn lemma_search_key_group(q: ArticleQueryView)
    ensures
        (q.group matches Some(n) ==> (!custom_uses(q.custom, "group"@) ==> json_get(search_body(q), "group"@) == Some(JsonView::Number(decimal(n as nat))))),
{
    reveal_strlit("search_for");
    reveal_strlit("published_since");
    reveal_strlit("modified_since");
    reveal_strlit("institution");
    reveal_strlit("group");
    reveal_strlit("item_type");
    reveal_strlit("resource_doi");
    reveal_strlit("doi");
    reveal_strlit("handle");
    reveal_strlit("project_id");
    reveal_strlit("order");
    reveal_strlit("order_direction");
    reveal_strlit("page");
    reveal_strlit("page_size");
    reveal_strlit("offset");
    reveal_strlit("limit");
    assert("order"@[0] != "group"@[0]);
    assert("limit"@[0] != "group"@[0]);
    assert("search_for"@.len() != "group"@.len());
    assert("published_since"@.len() != "group"@.len());
    assert("modified_since"@.len() != "group"@.len());
    assert("institution"@.len() != "group"@.len());
    assert("item_type"@.len() != "group"@.len());
    assert("resource_doi"@.len() != "group"@.len());
    assert("doi"@.len() != "group"@.len());
    assert("handle"@.len() != "group"@.len());
    assert("project_id"@.len() != "group"@.len());
    assert("order_direction"@.len() != "group"@.len());
    assert("page"@.len() != "group"@.len());
    assert("page_size"@.len() != "group"@.len());
    assert("offset"@.len() != "group"@.len());
    lemma_custom_unused(q.custom, "group"@);
    lemma_insert_all_get(search_inserts(q), "group"@);
    let a = (((((((((((((((text_member("search_for"@, q.search_for)) + text_member("published_since"@, q.published_since)) + text_member("modified_since"@, q.modified_since)) + num_member("institution"@, q.institution)) + num_member("group"@, q.group)) + num_member("item_type"@, item_type_number(q))) + text_member("resource_doi"@, q.resource_doi)) + text_member("doi"@, q.doi)) + text_member("handle"@, q.handle)) + num_member("project_id"@, q.project_id)) + text_member("order"@, order_text(q))) + text_member("order_direction"@, direction_text(q))) + num_member("page"@, q.page)) + num_member("page_size"@, q.page_size)) + num_member("offset"@, q.offset)) + num_member("limit"@, q.limit);
    assert(search_inserts(q) == a + custom_members(q.custom));
    lemma_last_inserted_concat(a, custom_members(q.custom), "group"@);
    lemma_last_inserted_concat(((((((((((((((text_member("search_for"@, q.search_for)) + text_member("published_since"@, q.published_since)) + text_member("modified_since"@, q.modified_since)) + num_member("institution"@, q.institution)) + num_member("group"@, q.group)) + num_member("item_type"@, item_type_number(q))) + text_member("resource_doi"@, q.resource_doi)) + text_member("doi"@, q.doi)) + text_member("handle"@, q.handle)) + num_member("project_id"@, q.project_id)) + text_member("order"@, order_text(q))) + text_member("order_direction"@, direction_text(q))) + num_member("page"@, q.page)) + num_member("page_size"@, q.page_size)) + num_member("offset"@, q.offset), num_member("limit"@, q.limit), "group"@);
    lemma_num_member_last("limit"@, q.limit, "group"@);
    lemma_last_inserted_concat((((((((((((((text_member("search_for"@, q.search_for)) + text_member("published_since"@, q.published_since)) + text_member("modified_since"@, q.modified_since)) + num_member("institution"@, q.institution)) + num_member("group"@, q.group)) + num_member("item_type"@, item_type_number(q))) + text_member("resource_doi"@, q.resource_doi)) + text_member("doi"@, q.doi)) + text_member("handle"@, q.handle)) + num_member("project_id"@, q.project_id)) + text_member("order"@, order_text(q))) + text_member("order_direction"@, direction_text(q))) + num_member("page"@, q.page)) + num_member("page_size"@, q.page_size), num_member("offset"@, q.offset), "group"@);
    lemma_num_member_last("offset"@, q.offset, "group"@);
    lemma_last_inserted_concat(((((((((((((text_member("search_for"@, q.search_for)) + text_member("published_since"@, q.published_since)) + text_member("modified_since"@, q.modified_since)) + num_member("institution"@, q.institution)) + num_member("group"@, q.group)) + num_member("item_type"@, item_type_number(q))) + text_member("resource_doi"@, q.resource_doi)) + text_member("doi"@, q.doi)) + text_member("handle"@, q.handle)) + num_member("project_id"@, q.project_id)) + text_member("order"@, order_text(q))) + text_member("order_direction"@, direction_text(q))) + num_member("page"@, q.page), num_member("page_size"@, q.page_size), "group"@);
    lemma_num_member_last("page_size"@, q.page_size, "group"@);
    lemma_last_inserted_concat((((((((((((text_member("search_for"@, q.search_for)) + text_member("published_since"@, q.published_since)) + text_member("modified_since"@, q.modified_since)) + num_member("institution"@, q.institution)) + num_member("group"@, q.group)) + num_member("item_type"@, item_type_number(q))) + text_member("resource_doi"@, q.resource_doi)) + text_member("doi"@, q.doi)) + text_member("handle"@, q.handle)) + num_member("project_id"@, q.project_id)) + text_member("order"@, order_text(q))) + text_member("order_direction"@, direction_text(q)), num_member("page"@, q.page), "group"@);
    lemma_num_member_last("page"@, q.page, "group"@);
    lemma_last_inserted_concat(((((((((((text_member("search_for"@, q.search_for)) + text_member("published_since"@, q.published_since)) + text_member("modified_since"@, q.modified_since)) + num_member("institution"@, q.institution)) + num_member("group"@, q.group)) + num_member("item_type"@, item_type_number(q))) + text_member("resource_doi"@, q.resource_doi)) + text_member("doi"@, q.doi)) + text_member("handle"@, q.handle)) + num_member("project_id"@, q.project_id)) + text_member("order"@, order_text(q)), text_member("order_direction"@, direction_text(q)), "group"@);
    lemma_text_member_last("order_direction"@, direction_text(q), "group"@);
    lemma_last_inserted_concat((((((((((text_member("search_for"@, q.search_for)) + text_member("published_since"@, q.published_since)) + text_member("modified_since"@, q.modified_since)) + num_member("institution"@, q.institution)) + num_member("group"@, q.group)) + num_member("item_type"@, item_type_number(q))) + text_member("resource_doi"@, q.resource_doi)) + text_member("doi"@, q.doi)) + text_member("handle"@, q.handle)) + num_member("project_id"@, q.project_id), text_member("order"@, order_text(q)), "group"@);
    lemma_text_member_last("order"@, order_text(q), "group"@);
    lemma_last_inserted_concat(((((((((text_member("search_for"@, q.search_for)) + text_member("published_since"@, q.published_since)) + text_member("modified_since"@, q.modified_since)) + num_member("institution"@, q.institution)) + num_member("group"@, q.group)) + num_member("item_type"@, item_type_number(q))) + text_member("resource_doi"@, q.resource_doi)) + text_member("doi"@, q.doi)) + text_member("handle"@, q.handle), num_member("project_id"@, q.project_id), "group"@);
    lemma_num_member_last("project_id"@, q.project_id, "group"@);
    lemma_last_inserted_concat((((((((text_member("search_for"@, q.search_for)) + text_member("published_since"@, q.published_since)) + text_member("modified_since"@, q.modified_since)) + num_member("institution"@, q.institution)) + num_member("group"@, q.group)) + num_member("item_type"@, item_type_number(q))) + text_member("resource_doi"@, q.resource_doi)) + text_member("doi"@, q.doi), text_member("handle"@, q.handle), "group"@);
    lemma_text_member_last("handle"@, q.handle, "group"@);
    lemma_last_inserted_concat(((((((text_member("search_for"@, q.search_for)) + text_member("published_since"@, q.published_since)) + text_member("modified_since"@, q.modified_since)) + num_member("institution"@, q.institution)) + num_member("group"@, q.group)) + num_member("item_type"@, item_type_number(q))) + text_member("resource_doi"@, q.resource_doi), text_member("doi"@, q.doi), "group"@);
    lemma_text_member_last("doi"@, q.doi, "group"@);
    lemma_last_inserted_concat((((((text_member("search_for"@, q.search_for)) + text_member("published_since"@, q.published_since)) + text_member("modified_since"@, q.modified_since)) + num_member("institution"@, q.institution)) + num_member("group"@, q.group)) + num_member("item_type"@, item_type_number(q)), text_member("resource_doi"@, q.resource_doi), "group"@);
    lemma_text_member_last("resource_doi"@, q.resource_doi, "group"@);
    lemma_last_inserted_concat(((((text_member("search_for"@, q.search_for)) + text_member("published_since"@, q.published_since)) + text_member("modified_since"@, q.modified_since)) + num_member("institution"@, q.institution)) + num_member("group"@, q.group), num_member("item_type"@, item_type_number(q)), "group"@);
    lemma_num_member_last("item_type"@, item_type_number(q), "group"@);
    lemma_last_inserted_concat((((text_member("search_for"@, q.search_for)) + text_member("published_since"@, q.published_since)) + text_member("modified_since"@, q.modified_since)) + num_member("institution"@, q.institution), num_member("group"@, q.group), "group"@);
    lemma_num_member_last("group"@, q.group, "group"@);
}

proof fn lemma_search_key_item_type(q: ArticleQueryView)
    ensures
        (item_type_number(q) matches Some(n) ==> (!custom_uses(q.custom, "item_type"@) ==> json_get(search_body(q), "item_type"@) == Some(JsonView::Number(decimal(n as nat))))),
{
    reveal_strlit("search_for");
    reveal_strlit("published_since");
    reveal_strlit("modified_since");
    reveal_strlit("institution");
    reveal_strlit("group");
    reveal_strlit("item_type");
    reveal_strlit("resource_doi");
    reveal_strlit("doi");
    reveal_strlit("handle");
    reveal_strlit("project_id");
    reveal_strlit("order");
    reveal_strlit("order_direction");
    reveal_strlit("page");
    reveal_strlit("page_size");
    reveal_strlit("offset");
    reveal_strlit("limit");
    assert("page_size"@[0] != "item_type"@[0]);
    assert("search_for"@.len() != "item_type"@.len());
    assert("published_since"@.len() != "item_type"@.len());
    assert("modified_since"@.len() != "item_type"@.len());
    assert("institution"@.len() != "item_type"@.len());
    assert("group"@.len() != "item_type"@.len());
    assert("resource_doi"@.len() != "item_type"@.len());
    assert("doi"@.len() != "item_type"@.len());
    assert("handle"@.len() != "item_type"@.len());
    assert("project_id"@.len() != "item_type"@.len());
    assert("order"@.len() != "item_type"@.len());
    assert("order_direction"@.len() != "item_type"@.len());
    assert("page"@.len() != "item_type"@.len());
    assert("offset"@.len() != "item_type"@.len());
    assert("limit"@.len() != "item_type"@.len());
    lemma_custom_unused(q.custom, "item_type"@);
    lemma_insert_all_get(search_inserts(q), "item_type"@);
    let a = (((((((((((((((text_member("search_for"@, q.search_for)) + text_member("published_since"@, q.published_since)) + text_member("modified_since"@, q.modified_since)) + num_member("institution"@, q.institution)) + num_member("group"@, q.group)) + num_member("item_type"@, item_type_number(q))) + text_member("resource_doi"@, q.resource_doi)) + text_member("doi"@, q.doi)) + text_member("handle"@, q.handle)) + num_member("project_id"@, q.project_id)) + text_member("order"@, order_text(q))) + text_member("order_direction"@, direction_text(q))) + num_member("page"@, q.page)) + num_member("page_size"@, q.page_size)) + num_member("offset"@, q.offset)) + num_member("limit"@, q.limit);
    assert(search_inserts(q) == a + custom_members(q.custom));
    lemma_last_inserted_concat(a, custom_members(q.custom), "item_type"@);
    lemma_last_inserted_concat(((((((((((((((text_member("search_for"@, q.search_for)) + text_member("published_since"@, q.published_since)) + text_member("modified_since"@, q.modified_since)) + num_member("institution"@, q.institution)) + num_member("group"@, q.group)) + num_member("item_type"@, item_type_number(q))) + text_member("resource_doi"@, q.resource_doi)) + text_member("doi"@, q.doi)) + text_member("handle"@, q.handle)) + num_member("project_id"@, q.project_id)) + text_member("order"@, order_text(q))) + text_member("order_direction"@, direction_text(q))) + num_member("page"@, q.page)) + num_member("page_size"@, q.page_size)) + num_member("offset"@, q.offset), num_member("limit"@, q.limit), "item_type"@);
    lemma_num_member_last("limit"@, q.limit, "item_type"@);
    lemma_last_inserted_concat((((((((((((((text_member("search_for"@, q.search_for)) + text_member("published_since"@, q.published_since)) + text_member("modified_since"@, q.modified_since)) + num_member("institution"@, q.institution)) + num_member("group"@, q.group)) + num_member("item_type"@, item_type_number(q))) + text_member("resource_doi"@, q.resource_doi)) + text_member("doi"@, q.doi)) + text_member("handle"@, q.handle)) + num_member("project_id"@, q.project_id)) + text_member("order"@, order_text(q))) + text_member("order_direction"@, direction_text(q))) + num_member("page"@, q.page)) + num_member("page_size"@, q.page_size), num_member("offset"@, q.offset), "item_type"@);
    lemma_num_member_last("offset"@, q.offset, "item_type"@);
    lemma_last_inserted_concat(((((((((((((text_member("search_for"@, q.search_for)) + text_member("published_since"@, q.published_since)) + text_member("modified_since"@, q.modified_since)) + num_member("institution"@, q.institution)) + num_member("group"@, q.group)) + num_member("item_type"@, item_type_number(q))) + text_member("resource_doi"@, q.resource_doi)) + text_member("doi"@, q.doi)) + text_member("handle"@, q.handle)) + num_member("project_id"@, q.project_id)) + text_member("order"@, order_text(q))) + text_member("order_direction"@, direction_text(q))) + num_member("page"@, q.page), num_member("page_size"@, q.page_size), "item_type"@);
    lemma_num_member_last("page_size"@, q.page_size, "item_type"@);
    lemma_last_inserted_concat((((((((((((text_member("search_for"@, q.search_for)) + text_member("published_since"@, q.published_since)) + text_member("modified_since"@, q.modified_since)) + num_member("institution"@, q.institution)) + num_member("group"@, q.group)) + num_member("item_type"@, item_type_number(q))) + text_member("resource_doi"@, q.resource_doi)) + text_member("doi"@, q.doi)) + text_member("handle"@, q.handle)) + num_member("project_id"@, q.project_id)) + text_member("order"@, order_text(q))) + text_member("order_direction"@, direction_text(q)), num_member("page"@, q.page), "item_type"@);
    lemma_num_member_last("page"@, q.page, "item_type"@);
    lemma_last_inserted_concat(((((((((((text_member("search_for"@, q.search_for)) + text_member("published_since"@, q.published_since)) + text_member("modified_since"@, q.modified_since)) + num_member("institution"@, q.institution)) + num_member("group"@, q.group)) + num_member("item_type"@, item_type_number(q))) + text_member("resource_doi"@, q.resource_doi)) + text_member("doi"@, q.doi)) + text_member("handle"@, q.handle)) + num_member("project_id"@, q.project_id)) + text_member("order"@, order_text(q)), text_member("order_direction"@, direction_text(q)), "item_type"@);
    lemma_text_member_last("order_direction"@, direction_text(q), "item_type"@);
    lemma_last_inserted_concat((((((((((text_member("search_for"@, q.search_for)) + text_member("published_since"@, q.published_since)) + text_member("modified_since"@, q.modified_since)) + num_member("institution"@, q.institution)) + num_member("group"@, q.group)) + num_member("item_type"@, item_type_number(q))) + text_member("resource_doi"@, q.resource_doi)) + text_member("doi"@, q.doi)) + text_member("handle"@, q.handle)) + num_member("project_id"@, q.project_id), text_member("order"@, order_text(q)), "item_type"@);
    lemma_text_member_last("order"@, order_text(q), "item_type"@);
    lemma_last_inserted_concat(((((((((text_member("search_for"@, q.search_for)) + text_member("published_since"@, q.published_since)) + text_member("modified_since"@, q.modified_since)) + num_member("institution"@, q.institution)) + num_member("group"@, q.group)) + num_member("item_type"@, item_type_number(q))) + text_member("resource_doi"@, q.resource_doi)) + text_member("doi"@, q.doi)) + text_member("handle"@, q.handle), num_member("project_id"@, q.project_id), "item_type"@);
    lemma_num_member_last("project_id"@, q.project_id, "item_type"@);
    lemma_last_inserted_concat((((((((text_member("search_for"@, q.search_for)) + text_member("published_since"@, q.published_since)) + text_member("modified_since"@, q.modified_since)) + num_member("institution"@, q.institution)) + num_member("group"@, q.group)) + num_member("item_type"@, item_type_number(q))) + text_member("resource_doi"@, q.resource_doi)) + text_member("doi"@, q.doi), text_member("handle"@, q.handle), "item_type"@);
    lemma_text_member_last("handle"@, q.handle, "item_type"@);
    lemma_last_inserted_concat(((((((text_member("search_for"@, q.search_for)) + text_member("published_since"@, q.published_since)) + text_member("modified_since"@, q.modified_since)) + num_member("institution"@, q.institution)) + num_member("group"@, q.group)) + num_member("item_type"@, item_type_number(q))) + text_member("resource_doi"@, q.resource_doi), text_member("doi"@, q.doi), "item_type"@);
    lemma_text_member_last("doi"@, q.doi, "item_type"@);
    lemma_last_inserted_concat((((((text_member("search_for"@, q.search_for)) + text_member("published_since"@, q.published_since)) + text_member("modified_since"@, q.modified_since)) + num_member("institution"@, q.institution)) + num_member("group"@, q.group)) + num_member("item_type"@, item_type_number(q)), text_member("resource_doi"@, q.resource_doi), "item_type"@);
    lemma_text_member_last("resource_doi"@, q.resource_doi, "item_type"@);
    lemma_last_inserted_concat(((((text_member("search_for"@, q.search_for)) + text_member("published_since"@, q.published_since)) + text_member("modified_since"@, q.modified_since)) + num_member("institution"@, q.institution)) + num_member("group"@, q.group), num_member("item_type"@, item_type_number(q)), "item_type"@);
    lemma_num_member_last("item_type"@, item_type_number(q), "item_type"@);
}

proof fn lemma_search_key_resource_doi(q: ArticleQueryView)
    ensures
        (q.resource_doi matches Some(v) ==> (!custom_uses(q.custom, "resource_doi"@) ==> json_get(search_body(q), "resource_doi"@) == Some(JsonView::String(v)))),
{
    reveal_strlit("search_for");
    reveal_strlit("published_since");
    reveal_strlit("modified_since");
    reveal_strlit("institution");
    reveal_strlit("group");
    reveal_strlit("item_type");
    reveal_strlit("resource_doi");
    reveal_strlit("doi");
    reveal_strlit("handle");
    reveal_strlit("project_id");
    reveal_strlit("order");
    reveal_strlit("order_direction");
    reveal_strlit("page");
    reveal_strlit("page_size");
    reveal_strlit("offset");
    reveal_strlit("limit");
    assert("search_for"@.len() != "resource_doi"@.len());
    assert("published_since"@.len() != "resource_doi"@.len());
    assert("modified_since"@.len() != "resource_doi"@.len());
    assert("institution"@.len() != "resource_doi"@.len());
    assert("group"@.len() != "resource_doi"@.len());
    assert("item_type"@.len() != "resource_doi"@.len());
    assert("doi"@.len() != "resource_doi"@.len());
    assert("handle"@.len() != "resource_doi"@.len());
    assert("project_id"@.len() != "resource_doi"@.len());
    assert("order"@.len() != "resource_doi"@.len());
    assert("order_direction"@.len() != "resource_doi"@.len());
    assert("page"@.len() != "resource_doi"@.len());
    assert("page_size"@.len() != "resource_doi"@.len());
    assert("offset"@.len() != "resource_doi"@.len());
    assert("limit"@.len() != "resource_doi"@.len());
    lemma_custom_unused(q.custom, "resource_doi"@);
    lemma_insert_all_get(search_inserts(q), "resource_doi"@);
    let a = (((((((((((((((text_member("search_for"@, q.search_for)) + text_member("published_since"@, q.published_since)) + text_member("modified_since"@, q.modified_since)) + num_member("institution"@, q.institution)) + num_member("group"@, q.group)) + num_member("item_type"@, item_type_number(q))) + text_member("resource_doi"@, q.resource_doi)) + text_member("doi"@, q.doi)) + text_member("handle"@, q.handle)) + num_member("project_id"@, q.project_id)) + text_member("order"@, order_text(q))) + text_member("order_direction"@, direction_text(q))) + num_member("page"@, q.page)) + num_member("page_size"@, q.page_size)) + num_member("offset"@, q.offset)) + num_member("limit"@, q.limit);
    assert(search_inserts(q) == a + custom_members(q.custom));
    lemma_last_inserted_concat(a, custom_members(q.custom), "resource_doi"@);
    lemma_last_inserted_concat(((((((((((((((text_member("search_for"@, q.search_for)) + text_member("published_since"@, q.published_since)) + text_member("modified_since"@, q.modified_since)) + num_member("institution"@, q.institution)) + num_member("group"@, q.group)) + num_member("item_type"@, item_type_number(q))) + text_member("resource_doi"@, q.resource_doi)) + text_member("doi"@, q.doi)) + text_member("handle"@, q.handle)) + num_member("project_id"@, q.project_id)) + text_member("order"@, order_text(q))) + text_member("order_direction"@, direction_text(q))) + num_member("page"@, q.page)) + num_member("page_size"@, q.page_size)) + num_member("offset"@, q.offset), num_member("limit"@, q.limit), "resource_doi"@);
    lemma_num_member_last("limit"@, q.limit, "resource_doi"@);
    lemma_last_inserted_concat((((((((((((((text_member("search_for"@, q.search_for)) + text_member("published_since"@, q.published_since)) + text_member("modified_since"@, q.modified_since)) + num_member("institution"@, q.institution)) + num_member("group"@, q.group)) + num_member("item_type"@, item_type_number(q))) + text_member("resource_doi"@, q.resource_doi)) + text_member("doi"@, q.doi)) + text_member("handle"@, q.handle)) + num_member("project_id"@, q.project_id)) + text_member("order"@, order_text(q))) + text_member("order_direction"@, direction_text(q))) + num_member("page"@, q.page)) + num_member("page_size"@, q.page_size), num_member("offset"@, q.offset), "resource_doi"@);
    lemma_num_member_last("offset"@, q.offset, "resource_doi"@);
    lemma_last_inserted_concat(((((((((((((text_member("search_for"@, q.search_for)) + text_member("published_since"@, q.published_since)) + text_member("modified_since"@, q.modified_since)) + num_member("institution"@, q.institution)) + num_member("group"@, q.group)) + num_member("item_type"@, item_type_number(q))) + text_member("resource_doi"@, q.resource_doi)) + text_member("doi"@, q.doi)) + text_member("handle"@, q.handle)) + num_member("project_id"@, q.project_id)) + text_member("order"@, order_text(q))) + text_member("order_direction"@, direction_text(q))) + num_member("page"@, q.page), num_member("page_size"@, q.page_size), "resource_doi"@);
    lemma_num_member_last("page_size"@, q.page_size, "resource_doi"@);
    lemma_last_inserted_concat((((((((((((text_member("search_for"@, q.search_for)) + text_member("published_since"@, q.published_since)) + text_member("modified_since"@, q.modified_since)) + num_member("institution"@, q.institution)) + num_member("group"@, q.group)) + num_member("item_type"@, item_type_number(q))) + text_member("resource_doi"@, q.resource_doi)) + text_member("doi"@, q.doi)) + text_member("handle"@, q.handle)) + num_member("project_id"@, q.project_id)) + text_member("order"@, order_text(q))) + text_member("order_direction"@, direction_text(q)), num_member("page"@, q.page), "resource_doi"@);
    lemma_num_member_last("page"@, q.page, "resource_doi"@);
    lemma_last_inserted_concat(((((((((((text_member("search_for"@, q.search_for)) + text_member("published_since"@, q.published_since)) + text_member("modified_since"@, q.modified_since)) + num_member("institution"@, q.institution)) + num_member("group"@, q.group)) + num_member("item_type"@, item_type_number(q))) + text_member("resource_doi"@, q.resource_doi)) + text_member("doi"@, q.doi)) + text_member("handle"@, q.handle)) + num_member("project_id"@, q.project_id)) + text_member("order"@, order_text(q)), text_member("order_direction"@, direction_text(q)), "resource_doi"@);
    lemma_text_member_last("order_direction"@, direction_text(q), "resource_doi"@);
    lemma_last_inserted_concat((((((((((text_member("search_for"@, q.search_for)) + text_member("published_since"@, q.published_since)) + text_member("modified_since"@, q.modified_since)) + num_member("institution"@, q.institution)) + num_member("group"@, q.group)) + num_member("item_type"@, item_type_number(q))) + text_member("resource_doi"@, q.resource_doi)) + text_member("doi"@, q.doi)) + text_member("handle"@, q.handle)) + num_member("project_id"@, q.project_id), text_member("order"@, order_text(q)), "resource_doi"@);
    lemma_text_member_last("order"@, order_text(q), "resource_doi"@);
    lemma_last_inserted_concat(((((((((text_member("search_for"@, q.search_for)) + text_member("published_since"@, q.published_since)) + text_member("modified_since"@, q.modified_since)) + num_member("institution"@, q.institution)) + num_member("group"@, q.group)) + num_member("item_type"@, item_type_number(q))) + text_member("resource_doi"@, q.resource_doi)) + text_member("doi"@, q.doi)) + text_member("handle"@, q.handle), num_member("project_id"@, q.project_id), "resource_doi"@);
    lemma_num_member_last("project_id"@, q.project_id, "resource_doi"@);
    lemma_last_inserted_concat((((((((text_member("search_for"@, q.search_for)) + text_member("published_since"@, q.published_since)) + text_member("modified_since"@, q.modified_since)) + num_member("institution"@, q.institution)) + num_member("group"@, q.group)) + num_member("item_type"@, item_type_number(q))) + text_member("resource_doi"@, q.resource_doi)) + text_member("doi"@, q.doi), text_member("handle"@, q.handle), "resource_doi"@);
    lemma_text_member_last("handle"@, q.handle, "resource_doi"@);
    lemma_last_inserted_concat(((((((text_member("search_for"@, q.search_for)) + text_member("published_since"@, q.published_since)) + text_member("modified_since"@, q.modified_since)) + num_member("institution"@, q.institution)) + num_member("group"@, q.group)) + num_member("item_type"@, item_type_number(q))) + text_member("resource_doi"@, q.resource_doi), text_member("doi"@, q.doi), "resource_doi"@);
    lemma_text_member_last("doi"@, q.doi, "resource_doi"@);
    lemma_last_inserted_concat((((((text_member("search_for"@, q.search_for)) + text_member("published_since"@, q.published_since)) + text_member("modified_since"@, q.modified_since)) + num_member("institution"@, q.institution)) + num_member("group"@, q.group)) + num_member("item_type"@, item_type_number(q)), text_member("resource_doi"@, q.resource_doi), "resource_doi"@);
    lemma_text_member_last("resource_doi"@, q.resource_doi, "resource_doi"@);
}

proof fn lemma_search_key_doi(q: ArticleQueryView)
    ensures
        (q.doi matches Some(v) ==> (!custom_uses(q.custom, "doi"@) ==> json_get(search_body(q), "doi"@) == Some(JsonView::String(v)))),
{
    reveal_strlit("search_for");
    reveal_strlit("published_since");
    reveal_strlit("modified_since");
    reveal_strlit("institution");
    reveal_strlit("group");
    reveal_strlit("item_type");
    reveal_strlit("resource_doi");
    reveal_strlit("doi");
    reveal_strlit("handle");
    reveal_strlit("project_id");
    reveal_strlit("order");
    reveal_strlit("order_direction");
    reveal_strlit("page");
    reveal_strlit("page_size");
    reveal_strlit("offset");
    reveal_strlit("limit");
    assert("search_for"@.len() != "doi"@.len());
    assert("published_since"@.len() != "doi"@.len());
    assert("modified_since"@.len() != "doi"@.len());
    assert("institution"@.len() != "doi"@.len());
    assert("group"@.len() != "doi"@.len());
    assert("item_type"@.len() != "doi"@.len());
    assert("resource_doi"@.len() != "doi"@.len());
    assert("handle"@.len() != "doi"@.len());
    assert("project_id"@.len() != "doi"@.len());
    assert("order"@.len() != "doi"@.len());
    assert("order_direction"@.len() != "doi"@.len());
    assert("page"@.len() != "doi"@.len());
    assert("page_size"@.len() != "doi"@.len());
    assert("offset"@.len() != "doi"@.len());
    assert("limit"@.len() != "doi"@.len());
    lemma_custom_unused(q.custom, "doi"@);
    lemma_insert_all_get(search_inserts(q), "doi"@);
    let a = (((((((((((((((text_member("search_for"@, q.search_for)) + text_member("published_since"@, q.published_since)) + text_member("modified_since"@, q.modified_since)) + num_member("institution"@, q.institution)) + num_member("group"@, q.group)) + num_member("item_type"@, item_type_number(q))) + text_member("resource_doi"@, q.resource_doi)) + text_member("doi"@, q.doi)) + text_member("handle"@, q.handle)) + num_member("project_id"@, q.project_id)) + text_member("order"@, order_text(q))) + text_member("order_direction"@, direction_text(q))) + num_member("page"@, q.page)) + num_member("page_size"@, q.page_size)) + num_member("offset"@, q.offset)) + num_member("limit"@, q.limit);
    assert(search_inserts(q) == a + custom_members(q.custom));
    lemma_last_inserted_concat(a, custom_members(q.custom), "doi"@);
    lemma_last_inserted_concat(((((((((((((((text_member("search_for"@, q.search_for)) + text_member("published_since"@, q.published_since)) + text_member("modified_since"@, q.modified_since)) + num_member("institution"@, q.institution)) + num_member("group"@, q.group)) + num_member("item_type"@, item_type_number(q))) + text_member("resource_doi"@, q.resource_doi)) + text_member("doi"@, q.doi)) + text_member("handle"@, q.handle)) + num_member("project_id"@, q.project_id)) + text_member("order"@, order_text(q))) + text_member("order_direction"@, direction_text(q))) + num_member("page"@, q.page)) + num_member("page_size"@, q.page_size)) + num_member("offset"@, q.offset), num_member("limit"@, q.limit), "doi"@);
    lemma_num_member_last("limit"@, q.limit, "doi"@);
    lemma_last_inserted_concat((((((((((((((text_member("search_for"@, q.search_for)) + text_member("published_since"@, q.published_since)) + text_member("modified_since"@, q.modified_since)) + num_member("institution"@, q.institution)) + num_member("group"@, q.group)) + num_member("item_type"@, item_type_number(q))) + text_member("resource_doi"@, q.resource_doi)) + text_member("doi"@, q.doi)) + text_member("handle"@, q.handle)) + num_member("project_id"@, q.project_id)) + text_member("order"@, order_text(q))) + text_member("order_direction"@, direction_text(q))) + num_member("page"@, q.page)) + num_member("page_size"@, q.page_size), num_member("offset"@, q.offset), "doi"@);
    lemma_num_member_last("offset"@, q.offset, "doi"@);
    lemma_last_inserted_concat(((((((((((((text_member("search_for"@, q.search_for)) + text_member("published_since"@, q.published_since)) + text_member("modified_since"@, q.modified_since)) + num_member("institution"@, q.institution)) + num_member("group"@, q.group)) + num_member("item_type"@, item_type_number(q))) + text_member("resource_doi"@, q.resource_doi)) + text_member("doi"@, q.doi)) + text_member("handle"@, q.handle)) + num_member("project_id"@, q.project_id)) + text_member("order"@, order_text(q))) + text_member("order_direction"@, direction_text(q))) + num_member("page"@, q.page), num_member("page_size"@, q.page_size), "doi"@);
    lemma_num_member_last("page_size"@, q.page_size, "doi"@);
    lemma_last_inserted_concat((((((((((((text_member("search_for"@, q.search_for)) + text_member("published_since"@, q.published_since)) + text_member("modified_since"@, q.modified_since)) + num_member("institution"@, q.institution)) + num_member("group"@, q.group)) + num_member("item_type"@, item_type_number(q))) + text_member("resource_doi"@, q.resource_doi)) + text_member("doi"@, q.doi)) + text_member("handle"@, q.handle)) + num_member("project_id"@, q.project_id)) + text_member("order"@, order_text(q))) + text_member("order_direction"@, direction_text(q)), num_member("page"@, q.page), "doi"@);
    lemma_num_member_last("page"@, q.page, "doi"@);
    lemma_last_inserted_concat(((((((((((text_member("search_for"@, q.search_for)) + text_member("published_since"@, q.published_since)) + text_member("modified_since"@, q.modified_since)) + num_member("institution"@, q.institution)) + num_member("group"@, q.group)) + num_member("item_type"@, item_type_number(q))) + text_member("resource_doi"@, q.resource_doi)) + text_member("doi"@, q.doi)) + text_member("handle"@, q.handle)) + num_member("project_id"@, q.project_id)) + text_member("order"@, order_text(q)), text_member("order_direction"@, direction_text(q)), "doi"@);
    lemma_text_member_last("order_direction"@, direction_text(q), "doi"@);
    lemma_last_inserted_concat((((((((((text_member("search_for"@, q.search_for)) + text_member("published_since"@, q.published_since)) + text_member("modified_since"@, q.modified_since)) + num_member("institution"@, q.institution)) + num_member("group"@, q.group)) + num_member("item_type"@, item_type_number(q))) + text_member("resource_doi"@, q.resource_doi)) + text_member("doi"@, q.doi)) + text_member("handle"@, q.handle)) + num_member("project_id"@, q.project_id), text_member("order"@, order_text(q)), "doi"@);
    lemma_text_member_last("order"@, order_text(q), "doi"@);
    lemma_last_inserted_concat(((((((((text_member("search_for"@, q.search_for)) + text_member("published_since"@, q.published_since)) + text_member("modified_since"@, q.modified_since)) + num_member("institution"@, q.institution)) + num_member("group"@, q.group)) + num_member("item_type"@, item_type_number(q))) + text_member("resource_doi"@, q.resource_doi)) + text_member("doi"@, q.doi)) + text_member("handle"@, q.handle), num_member("project_id"@, q.project_id), "doi"@);
    lemma_num_member_last("project_id"@, q.project_id, "doi"@);
    lemma_last_inserted_concat((((((((text_member("search_for"@, q.search_for)) + text_member("published_since"@, q.published_since)) + text_member("modified_since"@, q.modified_since)) + num_member("institution"@, q.institution)) + num_member("group"@, q.group)) + num_member("item_type"@, item_type_number(q))) + text_member("resource_doi"@, q.resource_doi)) + text_member("doi"@, q.doi), text_member("handle"@, q.handle), "doi"@);
    lemma_text_member_last("handle"@, q.handle, "doi"@);
    lemma_last_inserted_concat(((((((text_member("search_for"@, q.search_for)) + text_member("published_since"@, q.published_since)) + text_member("modified_since"@, q.modified_since)) + num_member("institution"@, q.institution)) + num_member("group"@, q.group)) + num_member("item_type"@, item_type_number(q))) + text_member("resource_doi"@, q.resource_doi), text_member("doi"@, q.doi), "doi"@);
    lemma_text_member_last("doi"@, q.doi, "doi"@);
}

proof fn lemma_search_key_handle(q: ArticleQueryView)
    ensures
        (q.handle matches Some(v) ==> (!custom_uses(q.custom, "handle"@) ==> json_get(search_body(q), "handle"@) == Some(JsonView::String(v)))),
{
    reveal_strlit("search_for");
    reveal_strlit("published_since");
    reveal_strlit("modified_since");
    reveal_strlit("institution");
    reveal_strlit("group");
    reveal_strlit("item_type");
    reveal_strlit("resource_doi");
    reveal_strlit("doi");
    reveal_strlit("handle");
    reveal_strlit("project_id");
    reveal_strlit("order");
    reveal_strlit("order_direction");
    reveal_strlit("page");
    reveal_strlit("page_size");
    reveal_strlit("offset");
    reveal_strlit("limit");
    assert("offset"@[0] != "handle"@[0]);
    assert("search_for"@.len() != "handle"@.len());
    assert("published_since"@.len() != "handle"@.len());
    assert("modified_since"@.len() != "handle"@.len());
    assert("institution"@.len() != "handle"@.len());
    assert("group"@.len() != "handle"@.len());
    assert("item_type"@.len() != "handle"@.len());
    assert("resource_doi"@.len() != "handle"@.len());
    assert("doi"@.len() != "handle"@.len());
    assert("project_id"@.len() != "handle"@.len());
    assert("order"@.len() != "handle"@.len());
    assert("order_direction"@.len() != "handle"@.len());
    assert("page"@.len() != "handle"@.len());
    assert("page_size"@.len() != "handle"@.len());
    assert("limit"@.len() != "handle"@.len());
    lemma_custom_unused(q.custom, "handle"@);
    lemma_insert_all_get(search_inserts(q), "handle"@);
    let a = (((((((((((((((text_member("search_for"@, q.search_for)) + text_member("published_since"@, q.published_since)) + text_member("modified_since"@, q.modified_since)) + num_member("institution"@, q.institution)) + num_member("group"@, q.group)) + num_member("item_type"@, item_type_number(q))) + text_member("resource_doi"@, q.resource_doi)) + text_member("doi"@, q.doi)) + text_member("handle"@, q.handle)) + num_member("project_id"@, q.project_id)) + text_member("order"@, order_text(q))) + text_member("order_direction"@, direction_text(q))) + num_member("page"@, q.page)) + num_member("page_size"@, q.page_size)) + num_member("offset"@, q.offset)) + num_member("limit"@, q.limit);
    assert(search_inserts(q) == a + custom_members(q.custom));
    lemma_last_inserted_concat(a, custom_members(q.custom), "handle"@);
    lemma_last_inserted_concat(((((((((((((((text_member("search_for"@, q.search_for)) + text_member("published_since"@, q.published_since)) + text_member("modified_since"@, q.modified_since)) + num_member("institution"@, q.institution)) + num_member("group"@, q.group)) + num_member("item_type"@, item_type_number(q))) + text_member("resource_doi"@, q.resource_doi)) + text_member("doi"@, q.doi)) + text_member("handle"@, q.handle)) + num_member("project_id"@, q.project_id)) + text_member("order"@, order_text(q))) + text_member("order_direction"@, direction_text(q))) + num_member("page"@, q.page)) + num_member("page_size"@, q.page_size)) + num_member("offset"@, q.offset), num_member("limit"@, q.limit), "handle"@);
    lemma_num_member_last("limit"@, q.limit, "handle"@);
    lemma_last_inserted_concat((((((((((((((text_member("search_for"@, q.search_for)) + text_member("published_since"@, q.published_since)) + text_member("modified_since"@, q.modified_since)) + num_member("institution"@, q.institution)) + num_member("group"@, q.group)) + num_member("item_type"@, item_type_number(q))) + text_member("resource_doi"@, q.resource_doi)) + text_member("doi"@, q.doi)) + text_member("handle"@, q.handle)) + num_member("project_id"@, q.project_id)) + text_member("order"@, order_text(q))) + text_member("order_direction"@, direction_text(q))) + num_member("page"@, q.page)) + num_member("page_size"@, q.page_size), num_member("offset"@, q.offset), "handle"@);
    lemma_num_member_last("offset"@, q.offset, "handle"@);
    lemma_last_inserted_concat(((((((((((((text_member("search_for"@, q.search_for)) + text_member("published_since"@, q.published_since)) + text_member("modified_since"@, q.modified_since)) + num_member("institution"@, q.institution)) + num_member("group"@, q.group)) + num_member("item_type"@, item_type_number(q))) + text_member("resource_doi"@, q.resource_doi)) + text_member("doi"@, q.doi)) + text_member("handle"@, q.handle)) + num_member("project_id"@, q.project_id)) + text_member("order"@, order_text(q))) + text_member("order_direction"@, direction_text(q))) + num_member("page"@, q.page), num_member("page_size"@, q.page_size), "handle"@);
    lemma_num_member_last("page_size"@, q.page_size, "handle"@);
    lemma_last_inserted_concat((((((((((((text_member("search_for"@, q.search_for)) + text_member("published_since"@, q.published_since)) + text_member("modified_since"@, q.modified_since)) + num_member("institution"@, q.institution)) + num_member("group"@, q.group)) + num_member("item_type"@, item_type_number(q))) + text_member("resource_doi"@, q.resource_doi)) + text_member("doi"@, q.doi)) + text_member("handle"@, q.handle)) + num_member("project_id"@, q.project_id)) + text_member("order"@, order_text(q))) + text_member("order_direction"@, direction_text(q)), num_member("page"@, q.page), "handle"@);
    lemma_num_member_last("page"@, q.page, "handle"@);
    lemma_last_inserted_concat(((((((((((text_member("search_for"@, q.search_for)) + text_member("published_since"@, q.published_since)) + text_member("modified_since"@, q.modified_since)) + num_member("institution"@, q.institution)) + num_member("group"@, q.group)) + num_member("item_type"@, item_type_number(q))) + text_member("resource_doi"@, q.resource_doi)) + text_member("doi"@, q.doi)) + text_member("handle"@, q.handle)) + num_member("project_id"@, q.project_id)) + text_member("order"@, order_text(q)), text_member("order_direction"@, direction_text(q)), "handle"@);
    lemma_text_member_last("order_direction"@, direction_text(q), "handle"@);
    lemma_last_inserted_concat((((((((((text_member("search_for"@, q.search_for)) + text_member("published_since"@, q.published_since)) + text_member("modified_since"@, q.modified_since)) + num_member("institution"@, q.institution)) + num_member("group"@, q.group)) + num_member("item_type"@, item_type_number(q))) + text_member("resource_doi"@, q.resource_doi)) + text_member("doi"@, q.doi)) + text_member("handle"@, q.handle)) + num_member("project_id"@, q.project_id), text_member("order"@, order_text(q)), "handle"@);
    lemma_text_member_last("order"@, order_text(q), "handle"@);
    lemma_last_inserted_concat(((((((((text_member("search_for"@, q.search_for)) + text_member("published_since"@, q.published_since)) + text_member("modified_since"@, q.modified_since)) + num_member("institution"@, q.institution)) + num_member("group"@, q.group)) + num_member("item_type"@, item_type_number(q))) + text_member("resource_doi"@, q.resource_doi)) + text_member("doi"@, q.doi)) + text_member("handle"@, q.handle), num_member("project_id"@, q.project_id), "handle"@);
    lemma_num_member_last("project_id"@, q.project_id, "handle"@);
    lemma_last_inserted_concat((((((((text_member("search_for"@, q.search_for)) + text_member("published_since"@, q.published_since)) + text_member("modified_since"@, q.modified_since)) + num_member("institution"@, q.institution)) + num_member("group"@, q.group)) + num_member("item_type"@, item_type_number(q))) + text_member("resource_doi"@, q.resource_doi)) + text_member("doi"@, q.doi), text_member("handle"@, q.handle), "handle"@);
    lemma_text_member_last("handle"@, q.handle, "handle"@);
}

proof fn lemma_search_key_project_id(q: ArticleQueryView)
    ensures
        (q.project_id matches Some(n) ==> (!custom_uses(q.custom, "project_id"@) ==> json_get(search_body(q), "project_id"@) == Some(JsonView::Number(decimal(n as nat))))),
{
    reveal_strlit("search_for");
    reveal_strlit("published_since");
    reveal_strlit("modified_since");
    reveal_strlit("institution");
    reveal_strlit("group");
    reveal_strlit("item_type");
    reveal_strlit("resource_doi");
    reveal_strlit("doi");
    reveal_strlit("handle");
    reveal_strlit("project_id");
    reveal_strlit("order");
    reveal_strlit("order_direction");
    reveal_strlit("page");
    reveal_strlit("page_size");
    reveal_strlit("offset");
    reveal_strlit("limit");
    assert("search_for"@[0] != "project_id"@[0]);
    assert("published_since"@.len() != "project_id"@.len());
    assert("modified_since"@.len() != "project_id"@.len());
    assert("institution"@.len() != "project_id"@.len());
    assert("group"@.len() != "project_id"@.len());
    assert("item_type"@.len() != "project_id"@.len());
    assert("resource_doi"@.len() != "project_id"@.len());
    assert("doi"@.len() != "project_id"@.len());
    assert("handle"@.len() != "project_id"@.len());
    assert("order"@.len() != "project_id"@.len());
    assert("order_direction"@.len() != "project_id"@.len());
    assert("page"@.len() != "project_id"@.len());
    assert("page_size"@.len() != "project_id"@.len());
    assert("offset"@.len() != "project_id"@.len());
    assert("limit"@.len() != "project_id"@.len());
    lemma_custom_unused(q.custom, "project_id"@);
    lemma_insert_all_get(search_inserts(q), "project_id"@);
    let a = (((((((((((((((text_member("search_for"@, q.search_for)) + text_member("published_since"@, q.published_since)) + text_member("modified_since"@, q.modified_since)) + num_member("institution"@, q.institution)) + num_member("group"@, q.group)) + num_member("item_type"@, item_type_number(q))) + text_member("resource_doi"@, q.resource_doi)) + text_member("doi"@, q.doi)) + text_member("handle"@, q.handle)) + num_member("project_id"@, q.project_id)) + text_member("order"@, order_text(q))) + text_member("order_direction"@, direction_text(q))) + num_member("page"@, q.page)) + num_member("page_size"@, q.page_size)) + num_member("offset"@, q.offset)) + num_member("limit"@, q.limit);
    assert(search_inserts(q) == a + custom_members(q.custom));
    lemma_last_inserted_concat(a, custom_members(q.custom), "project_id"@);
    lemma_last_inserted_concat(((((((((((((((text_member("search_for"@, q.search_for)) + text_member("published_since"@, q.published_since)) + text_member("modified_since"@, q.modified_since)) + num_member("institution"@, q.institution)) + num_member("group"@, q.group)) + num_member("item_type"@, item_type_number(q))) + text_member("resource_doi"@, q.resource_doi)) + text_member("doi"@, q.doi)) + text_member("handle"@, q.handle)) + num_member("project_id"@, q.project_id)) + text_member("order"@, order_text(q))) + text_member("order_direction"@, direction_text(q))) + num_member("page"@, q.page)) + num_member("page_size"@, q.page_size)) + num_member("offset"@, q.offset), num_member("limit"@, q.limit), "project_id"@);
    lemma_num_member_last("limit"@, q.limit, "project_id"@);
    lemma_last_inserted_concat((((((((((((((text_member("search_for"@, q.search_for)) + text_member("published_since"@, q.published_since)) + text_member("modified_since"@, q.modified_since)) + num_member("institution"@, q.institution)) + num_member("group"@, q.group)) + num_member("item_type"@, item_type_number(q))) + text_member("resource_doi"@, q.resource_doi)) + text_member("doi"@, q.doi)) + text_member("handle"@, q.handle)) + num_member("project_id"@, q.project_id)) + text_member("order"@, order_text(q))) + text_member("order_direction"@, direction_text(q))) + num_member("page"@, q.page)) + num_member("page_size"@, q.page_size), num_member("offset"@, q.offset), "project_id"@);
    lemma_num_member_last("offset"@, q.offset, "project_id"@);
    lemma_last_inserted_concat(((((((((((((text_member("search_for"@, q.search_for)) + text_member("published_since"@, q.published_since)) + text_member("modified_since"@, q.modified_since)) + num_member("institution"@, q.institution)) + num_member("group"@, q.group)) + num_member("item_type"@, item_type_number(q))) + text_member("resource_doi"@, q.resource_doi)) + text_member("doi"@, q.doi)) + text_member("handle"@, q.handle)) + num_member("project_id"@, q.project_id)) + text_member("order"@, order_text(q))) + text_member("order_direction"@, direction_text(q))) + num_member("page"@, q.page), num_member("page_size"@, q.page_size), "project_id"@);
    lemma_num_member_last("page_size"@, q.page_size, "project_id"@);
    lemma_last_inserted_concat((((((((((((text_member("search_for"@, q.search_for)) + text_member("published_since"@, q.published_since)) + text_member("modified_since"@, q.modified_since)) + num_member("institution"@, q.institution)) + num_member("group"@, q.group)) + num_member("item_type"@, item_type_number(q))) + text_member("resource_doi"@, q.resource_doi)) + text_member("doi"@, q.doi)) + text_member("handle"@, q.handle)) + num_member("project_id"@, q.project_id)) + text_member("order"@, order_text(q))) + text_member("order_direction"@, direction_text(q)), num_member("page"@, q.page), "project_id"@);
    lemma_num_member_last("page"@, q.page, "project_id"@);
    lemma_last_inserted_concat(((((((((((text_member("search_for"@, q.search_for)) + text_member("published_since"@, q.published_since)) + text_member("modified_since"@, q.modified_since)) + num_member("institution"@, q.institution)) + num_member("group"@, q.group)) + num_member("item_type"@, item_type_number(q))) + text_member("resource_doi"@, q.resource_doi)) + text_member("doi"@, q.doi)) + text_member("handle"@, q.handle)) + num_member("project_id"@, q.project_id)) + text_member("order"@, order_text(q)), text_member("order_direction"@, direction_text(q)), "project_id"@);
    lemma_text_member_last("order_direction"@, direction_text(q), "project_id"@);
    lemma_last_inserted_concat((((((((((text_member("search_for"@, q.search_for)) + text_member("published_since"@, q.published_since)) + text_member("modified_since"@, q.modified_since)) + num_member("institution"@, q.institution)) + num_member("group"@, q.group)) + num_member("item_type"@, item_type_number(q))) + text_member("resource_doi"@, q.resource_doi)) + text_member("doi"@, q.doi)) + text_member("handle"@, q.handle)) + num_member("project_id"@, q.project_id), text_member("order"@, order_text(q)), "project_id"@);
    lemma_text_member_last("order"@, order_text(q), "project_id"@);
    lemma_last_inserted_concat(((((((((text_member("search_for"@, q.search_for)) + text_member("published_since"@, q.published_since)) + text_member("modified_since"@, q.modified_since)) + num_member("institution"@, q.institution)) + num_member("group"@, q.group)) + num_member("item_type"@, item_type_number(q))) + text_member("resource_doi"@, q.resource_doi)) + text_member("doi"@, q.doi)) + text_member("handle"@, q.handle), num_member("project_id"@, q.project_id), "project_id"@);
    lemma_num_member_last("project_id"@, q.project_id, "project_id"@);
}

proof fn lemma_search_key_order(q: ArticleQueryView)
    ensures
        (q.order matches Some(o) ==> (!custom_uses(q.custom, "order"@) ==> json_get(search_body(q), "order"@) == Some(JsonView::String(order_name(o))))),
{
    reveal_strlit("search_for");
    reveal_strlit("published_since");
    reveal_strlit("modified_since");
    reveal_strlit("institution");
    reveal_strlit("group");
    reveal_strlit("item_type");
    reveal_strlit("resource_doi");
    reveal_strlit("doi");
    reveal_strlit("handle");
    reveal_strlit("project_id");
    reveal_strlit("order");
    reveal_strlit("order_direction");
    reveal_strlit("page");
    reveal_strlit("page_size");
    reveal_strlit("offset");
    reveal_strlit("limit");
    assert("group"@[0] != "order"@[0]);
    assert("limit"@[0] != "order"@[0]);
    assert("search_for"@.len() != "order"@.len());
    assert("published_since"@.len() != "order"@.len());
    assert("modified_since"@.len() != "order"@.len());
    assert("institution"@.len() != "order"@.len());
    assert("item_type"@.len() != "order"@.len());
    assert("resource_doi"@.len() != "order"@.len());
    assert("doi"@.len() != "order"@.len());
    assert("handle"@.len() != "order"@.len());
    assert("project_id"@.len() != "order"@.len());
    assert("order_direction"@.len() != "order"@.len());
    assert("page"@.len() != "order"@.len());
    assert("page_size"@.len() != "order"@.len());
    assert("offset"@.len() != "order"@.len());
    lemma_custom_unused(q.custom, "order"@);
    lemma_insert_all_get(search_inserts(q), "order"@);
    let a = (((((((((((((((text_member("search_for"@, q.search_for)) + text_member("published_since"@, q.published_since)) + text_member("modified_since"@, q.modified_since)) + num_member("institution"@, q.institution)) + num_member("group"@, q.group)) + num_member("item_type"@, item_type_number(q))) + text_member("resource_doi"@, q.resource_doi)) + text_member("doi"@, q.doi)) + text_member("handle"@, q.handle)) + num_member("project_id"@, q.project_id)) + text_member("order"@, order_text(q))) + text_member("order_direction"@, direction_text(q))) + num_member("page"@, q.page)) + num_member("page_size"@, q.page_size)) + num_member("offset"@, q.offset)) + num_member("limit"@, q.limit);
    assert(search_inserts(q) == a + custom_members(q.custom));
    lemma_last_inserted_concat(a, custom_members(q.custom), "order"@);
    lemma_last_inserted_concat(((((((((((((((text_member("search_for"@, q.search_for)) + text_member("published_since"@, q.published_since)) + text_member("modified_since"@, q.modified_since)) + num_member("institution"@, q.institution)) + num_member("group"@, q.group)) + num_member("item_type"@, item_type_number(q))) + text_member("resource_doi"@, q.resource_doi)) + text_member("doi"@, q.doi)) + text_member("handle"@, q.handle)) + num_member("project_id"@, q.project_id)) + text_member("order"@, order_text(q))) + text_member("order_direction"@, direction_text(q))) + num_member("page"@, q.page)) + num_member("page_size"@, q.page_size)) + num_member("offset"@, q.offset), num_member("limit"@, q.limit), "order"@);
    lemma_num_member_last("limit"@, q.limit, "order"@);
    lemma_last_inserted_concat((((((((((((((text_member("search_for"@, q.search_for)) + text_member("published_since"@, q.published_since)) + text_member("modified_since"@, q.modified_since)) + num_member("institution"@, q.institution)) + num_member("group"@, q.group)) + num_member("item_type"@, item_type_number(q))) + text_member("resource_doi"@, q.resource_doi)) + text_member("doi"@, q.doi)) + text_member("handle"@, q.handle)) + num_member("project_id"@, q.project_id)) + text_member("order"@, order_text(q))) + text_member("order_direction"@, direction_text(q))) + num_member("page"@, q.page)) + num_member("page_size"@, q.page_size), num_member("offset"@, q.offset), "order"@);
    lemma_num_member_last("offset"@, q.offset, "order"@);
    lemma_last_inserted_concat(((((((((((((text_member("search_for"@, q.search_for)) + text_member("published_since"@, q.published_since)) + text_member("modified_since"@, q.modified_since)) + num_member("institution"@, q.institution)) + num_member("group"@, q.group)) + num_member("item_type"@, item_type_number(q))) + text_member("resource_doi"@, q.resource_doi)) + text_member("doi"@, q.doi)) + text_member("handle"@, q.handle)) + num_member("project_id"@, q.project_id)) + text_member("order"@, order_text(q))) + text_member("order_direction"@, direction_text(q))) + num_member("page"@, q.page), num_member("page_size"@, q.page_size), "order"@);
    lemma_num_member_last("page_size"@, q.page_size, "order"@);
    lemma_last_inserted_concat((((((((((((text_member("search_for"@, q.search_for)) + text_member("published_since"@, q.published_since)) + text_member("modified_since"@, q.modified_since)) + num_member("institution"@, q.institution)) + num_member("group"@, q.group)) + num_member("item_type"@, item_type_number(q))) + text_member("resource_doi"@, q.resource_doi)) + text_member("doi"@, q.doi)) + text_member("handle"@, q.handle)) + num_member("project_id"@, q.project_id)) + text_member("order"@, order_text(q))) + text_member("order_direction"@, direction_text(q)), num_member("page"@, q.page), "order"@);
    lemma_num_member_last("page"@, q.page, "order"@);
    lemma_last_inserted_concat(((((((((((text_member("search_for"@, q.search_for)) + text_member("published_since"@, q.published_since)) + text_member("modified_since"@, q.modified_since)) + num_member("institution"@, q.institution)) + num_member("group"@, q.group)) + num_member("item_type"@, item_type_number(q))) + text_member("resource_doi"@, q.resource_doi)) + text_member("doi"@, q.doi)) + text_member("handle"@, q.handle)) + num_member("project_id"@, q.project_id)) + text_member("order"@, order_text(q)), text_member("order_direction"@, direction_text(q)), "order"@);
    lemma_text_member_last("order_direction"@, direction_text(q), "order"@);
    lemma_last_inserted_concat((((((((((text_member("search_for"@, q.search_for)) + text_member("published_since"@, q.published_since)) + text_member("modified_since"@, q.modified_since)) + num_member("institution"@, q.institution)) + num_member("group"@, q.group)) + num_member("item_type"@, item_type_number(q))) + text_member("resource_doi"@, q.resource_doi)) + text_member("doi"@, q.doi)) + text_member("handle"@, q.handle)) + num_member("project_id"@, q.project_id), text_member("order"@, order_text(q)), "order"@);
    lemma_text_member_last("order"@, order_text(q), "order"@);
}

proof fn lemma_search_key_order_direction(q: ArticleQueryView)
    ensures
        (q.order_direction matches Some(d) ==> (!custom_uses(q.custom, "order_direction"@) ==> json_get(search_body(q), "order_direction"@) == Some(JsonView::String(direction_name(d))))),
{
    reveal_strlit("search_for");
    reveal_strlit("published_since");
    reveal_strlit("modified_since");
    reveal_strlit("institution");
    reveal_strlit("group");
    reveal_strlit("item_type");
    reveal_strlit("resource_doi");
    reveal_strlit("doi");
    reveal_strlit("handle");
    reveal_strlit("project_id");
    reveal_strlit("order");
    reveal_strlit("order_direction");
    reveal_strlit("page");
    reveal_strlit("page_size");
    reveal_strlit("offset");
    reveal_strlit("limit");
    assert("published_since"@[0] != "order_direction"@[0]);
    assert("search_for"@.len() != "order_direction"@.len());
    assert("modified_since"@.len() != "order_direction"@.len());
    assert("institution"@.len() != "order_direction"@.len());
    assert("group"@.len() != "order_direction"@.len());
    assert("item_type"@.len() != "order_direction"@.len());
    assert("resource_doi"@.len() != "order_direction"@.len());
    assert("doi"@.len() != "order_direction"@.len());
    assert("handle"@.len() != "order_direction"@.len());
    assert("project_id"@.len() != "order_direction"@.len());
    assert("order"@.len() != "order_direction"@.len());
    assert("page"@.len() != "order_direction"@.len());
    assert("page_size"@.len() != "order_direction"@.len());
    assert("offset"@.len() != "order_direction"@.len());
    assert("limit"@.len() != "order_direction"@.len());
    lemma_custom_unused(q.custom, "order_direction"@);
    lemma_insert_all_get(search_inserts(q), "order_direction"@);
    let a = (((((((((((((((text_member("search_for"@, q.search_for)) + text_member("published_since"@, q.published_since)) + text_member("modified_since"@, q.modified_since)) + num_member("institution"@, q.institution)) + num_member("group"@, q.group)) + num_member("item_type"@, item_type_number(q))) + text_member("resource_doi"@, q.resource_doi)) + text_member("doi"@, q.doi)) + text_member("handle"@, q.handle)) + num_member("project_id"@, q.project_id)) + text_member("order"@, order_text(q))) + text_member("order_direction"@, direction_text(q))) + num_member("page"@, q.page)) + num_member("page_size"@, q.page_size)) + num_member("offset"@, q.offset)) + num_member("limit"@, q.limit);
    assert(search_inserts(q) == a + custom_members(q.custom));
    lemma_last_inserted_concat(a, custom_members(q.custom), "order_direction"@);
    lemma_last_inserted_concat(((((((((((((((text_member("search_for"@, q.search_for)) + text_member("published_since"@, q.published_since)) + text_member("modified_since"@, q.modified_since)) + num_member("institution"@, q.institution)) + num_member("group"@, q.group)) + num_member("item_type"@, item_type_number(q))) + text_member("resource_doi"@, q.resource_doi)) + text_member("doi"@, q.doi)) + text_member("handle"@, q.handle)) + num_member("project_id"@, q.project_id)) + text_member("order"@, order_text(q))) + text_member("order_direction"@, direction_text(q))) + num_member("page"@, q.page)) + num_member("page_size"@, q.page_size)) + num_member("offset"@, q.offset), num_member("limit"@, q.limit), "order_direction"@);
    lemma_num_member_last("limit"@, q.limit, "order_direction"@);
    lemma_last_inserted_concat((((((((((((((text_member("search_for"@, q.search_for)) + text_member("published_since"@, q.published_since)) + text_member("modified_since"@, q.modified_since)) + num_member("institution"@, q.institution)) + num_member("group"@, q.group)) + num_member("item_type"@, item_type_number(q))) + text_member("resource_doi"@, q.resource_doi)) + text_member("doi"@, q.doi)) + text_member("handle"@, q.handle)) + num_member("project_id"@, q.project_id)) + text_member("order"@, order_text(q))) + text_member("order_direction"@, direction_text(q))) + num_member("page"@, q.page)) + num_member("page_size"@, q.page_size), num_member("offset"@, q.offset), "order_direction"@);
    lemma_num_member_last("offset"@, q.offset, "order_direction"@);
    lemma_last_inserted_concat(((((((((((((text_member("search_for"@, q.search_for)) + text_member("published_since"@, q.published_since)) + text_member("modified_since"@, q.modified_since)) + num_member("institution"@, q.institution)) + num_member("group"@, q.group)) + num_member("item_type"@, item_type_number(q))) + text_member("resource_doi"@, q.resource_doi)) + text_member("doi"@, q.doi)) + text_member("handle"@, q.handle)) + num_member("project_id"@, q.project_id)) + text_member("order"@, order_text(q))) + text_member("order_direction"@, direction_text(q))) + num_member("page"@, q.page), num_member("page_size"@, q.page_size), "order_direction"@);
    lemma_num_member_last("page_size"@, q.page_size, "order_direction"@);
    lemma_last_inserted_concat((((((((((((text_member("search_for"@, q.search_for)) + text_member("published_since"@, q.published_since)) + text_member("modified_since"@, q.modified_since)) + num_member("institution"@, q.institution)) + num_member("group"@, q.group)) + num_member("item_type"@, item_type_number(q))) + text_member("resource_doi"@, q.resource_doi)) + text_member("doi"@, q.doi)) + text_member("handle"@, q.handle)) + num_member("project_id"@, q.project_id)) + text_member("order"@, order_text(q))) + text_member("order_direction"@, direction_text(q)), num_member("page"@, q.page), "order_direction"@);
    lemma_num_member_last("page"@, q.page, "order_direction"@);
    lemma_last_inserted_concat(((((((((((text_member("search_for"@, q.search_for)) + text_member("published_since"@, q.published_since)) + text_member("modified_since"@, q.modified_since)) + num_member("institution"@, q.institution)) + num_member("group"@, q.group)) + num_member("item_type"@, item_type_number(q))) + text_member("resource_doi"@, q.resource_doi)) + text_member("doi"@, q.doi)) + text_member("handle"@, q.handle)) + num_member("project_id"@, q.project_id)) + text_member("order"@, order_text(q)), text_member("order_direction"@, direction_text(q)), "order_direction"@);
    lemma_text_member_last("order_direction"@, direction_text(q), "order_direction"@);
}

proof fn lemma_search_key_page(q: ArticleQueryView)
    ensures
        (q.page matches Some(n) ==> (!custom_uses(q.custom, "page"@) ==> json_get(search_body(q), "page"@) == Some(JsonView::Number(decimal(n as nat))))),
{
    reveal_strlit("search_for");
    reveal_strlit("published_since");
    reveal_strlit("modified_since");
    reveal_strlit("institution");
    reveal_strlit("group");
    reveal_strlit("item_type");
    reveal_strlit("resource_doi");
    reveal_strlit("doi");
    reveal_strlit("handle");
    reveal_strlit("project_id");
    reveal_strlit("order");
    reveal_strlit("order_direction");
    reveal_strlit("page");
    reveal_strlit("page_size");
    reveal_strlit("offset");
    reveal_strlit("limit");
    assert("search_for"@.len() != "page"@.len());
    assert("published_since"@.len() != "page"@.len());
    assert("modified_since"@.len() != "page"@.len());
    assert("institution"@.len() != "page"@.len());
    assert("group"@.len() != "page"@.len());
    assert("item_type"@.len() != "page"@.len());
    assert("resource_doi"@.len() != "page"@.len());
    assert("doi"@.len() != "page"@.len());
    assert("handle"@.len() != "page"@.len());
    assert("project_id"@.len() != "page"@.len());
    assert("order"@.len() != "page"@.len());
    assert("order_direction"@.len() != "page"@.len());
    assert("page_size"@.len() != "page"@.len());
    assert("offset"@.len() != "page"@.len());
    assert("limit"@.len() != "page"@.len());
    lemma_custom_unused(q.custom, "page"@);
    lemma_insert_all_get(search_inserts(q), "page"@);
    let a = (((((((((((((((text_member("search_for"@, q.search_for)) + text_member("published_since"@, q.published_since)) + text_member("modified_since"@, q.modified_since)) + num_member("institution"@, q.institution)) + num_member("group"@, q.group)) + num_member("item_type"@, item_type_number(q))) + text_member("resource_doi"@, q.resource_doi)) + text_member("doi"@, q.doi)) + text_member("handle"@, q.handle)) + num_member("project_id"@, q.project_id)) + text_member("order"@, order_text(q))) + text_member("order_direction"@, direction_text(q))) + num_member("page"@, q.page)) + num_member("page_size"@, q.page_size)) + num_member("offset"@, q.offset)) + num_member("limit"@, q.limit);
    assert(search_inserts(q) == a + custom_members(q.custom));
    lemma_last_inserted_concat(a, custom_members(q.custom), "page"@);
    lemma_last_inserted_concat(((((((((((((((text_member("search_for"@, q.search_for)) + text_member("published_since"@, q.published_since)) + text_member("modified_since"@, q.modified_since)) + num_member("institution"@, q.institution)) + num_member("group"@, q.group)) + num_member("item_type"@, item_type_number(q))) + text_member("resource_doi"@, q.resource_doi)) + text_member("doi"@, q.doi)) + text_member("handle"@, q.handle)) + num_member("project_id"@, q.project_id)) + text_member("order"@, order_text(q))) + text_member("order_direction"@, direction_text(q))) + num_member("page"@, q.page)) + num_member("page_size"@, q.page_size)) + num_member("offset"@, q.offset), num_member("limit"@, q.limit), "page"@);
    lemma_num_member_last("limit"@, q.limit, "page"@);
    lemma_last_inserted_concat((((((((((((((text_member("search_for"@, q.search_for)) + text_member("published_since"@, q.published_since)) + text_member("modified_since"@, q.modified_since)) + num_member("institution"@, q.institution)) + num_member("group"@, q.group)) + num_member("item_type"@, item_type_number(q))) + text_member("resource_doi"@, q.resource_doi)) + text_member("doi"@, q.doi)) + text_member("handle"@, q.handle)) + num_member("project_id"@, q.project_id)) + text_member("order"@, order_text(q))) + text_member("order_direction"@, direction_text(q))) + num_member("page"@, q.page)) + num_member("page_size"@, q.page_size), num_member("offset"@, q.offset), "page"@);
    lemma_num_member_last("offset"@, q.offset, "page"@);
    lemma_last_inserted_concat(((((((((((((text_member("search_for"@, q.search_for)) + text_member("published_since"@, q.published_since)) + text_member("modified_since"@, q.modified_since)) + num_member("institution"@, q.institution)) + num_member("group"@, q.group)) + num_member("item_type"@, item_type_number(q))) + text_member("resource_doi"@, q.resource_doi)) + text_member("doi"@, q.doi)) + text_member("handle"@, q.handle)) + num_member("project_id"@, q.project_id)) + text_member("order"@, order_text(q))) + text_member("order_direction"@, direction_text(q))) + num_member("page"@, q.page), num_member("page_size"@, q.page_size), "page"@);
    lemma_num_member_last("page_size"@, q.page_size, "page"@);
    lemma_last_inserted_concat((((((((((((text_member("search_for"@, q.search_for)) + text_member("published_since"@, q.published_since)) + text_member("modified_since"@, q.modified_since)) + num_member("institution"@, q.institution)) + num_member("group"@, q.group)) + num_member("item_type"@, item_type_number(q))) + text_member("resource_doi"@, q.resource_doi)) + text_member("doi"@, q.doi)) + text_member("handle"@, q.handle)) + num_member("project_id"@, q.project_id)) + text_member("order"@, order_text(q))) + text_member("order_direction"@, direction_text(q)), num_member("page"@, q.page), "page"@);
    lemma_num_member_last("page"@, q.page, "page"@);
}

proof fn lemma_search_key_page_size(q: ArticleQueryView)
    ensures
        (q.page_size matches Some(n) ==> (!custom_uses(q.custom, "page_size"@) ==> json_get(search_body(q), "page_size"@) == Some(JsonView::Number(decimal(n as nat))))),
{
    reveal_strlit("search_for");
    reveal_strlit("published_since");
    reveal_strlit("modified_since");
    reveal_strlit("institution");
    reveal_strlit("group");
    reveal_strlit("item_type");
    reveal_strlit("resource_doi");
    reveal_strlit("doi");
    reveal_strlit("handle");
    reveal_strlit("project_id");
    reveal_strlit("order");
    reveal_strlit("order_direction");
    reveal_strlit("page");
    reveal_strlit("page_size");
    reveal_strlit("offset");
    reveal_strlit("limit");
    assert("item_type"@[0] != "page_size"@[0]);
    assert("search_for"@.len() != "page_size"@.len());
    assert("published_since"@.len() != "page_size"@.len());
    assert("modified_since"@.len() != "page_size"@.len());
    assert("institution"@.len() != "page_size"@.len());
    assert("group"@.len() != "page_size"@.len());
    assert("resource_doi"@.len() != "page_size"@.len());
    assert("doi"@.len() != "page_size"@.len());
    assert("handle"@.len() != "page_size"@.len());
    assert("project_id"@.len() != "page_size"@.len());
    assert("order"@.len() != "page_size"@.len());
    assert("order_direction"@.len() != "page_size"@.len());
    assert("page"@.len() != "page_size"@.len());
    assert("offset"@.len() != "page_size"@.len());
    assert("limit"@.len() != "page_size"@.len());
    lemma_custom_unused(q.custom, "page_size"@);
    lemma_insert_all_get(search_inserts(q), "page_size"@);
    let a = (((((((((((((((text_member("search_for"@, q.search_for)) + text_member("published_since"@, q.published_since)) + text_member("modified_since"@, q.modified_since)) + num_member("institution"@, q.institution)) + num_member("group"@, q.group)) + num_member("item_type"@, item_type_number(q))) + text_member("resource_doi"@, q.resource_doi)) + text_member("doi"@, q.doi)) + text_member("handle"@, q.handle)) + num_member("project_id"@, q.project_id)) + text_member("order"@, order_text(q))) + text_member("order_direction"@, direction_text(q))) + num_member("page"@, q.page)) + num_member("page_size"@, q.page_size)) + num_member("offset"@, q.offset)) + num_member("limit"@, q.limit);
    assert(search_inserts(q) == a + custom_members(q.custom));
    lemma_last_inserted_concat(a, custom_members(q.custom), "page_size"@);
    lemma_last_inserted_concat(((((((((((((((text_member("search_for"@, q.search_for)) + text_member("published_since"@, q.published_since)) + text_member("modified_since"@, q.modified_since)) + num_member("institution"@, q.institution)) + num_member("group"@, q.group)) + num_member("item_type"@, item_type_number(q))) + text_member("resource_doi"@, q.resource_doi)) + text_member("doi"@, q.doi)) + text_member("handle"@, q.handle)) + num_member("project_id"@, q.project_id)) + text_member("order"@, order_text(q))) + text_member("order_direction"@, direction_text(q))) + num_member("page"@, q.page)) + num_member("page_size"@, q.page_size)) + num_member("offset"@, q.offset), num_member("limit"@, q.limit), "page_size"@);
    lemma_num_member_last("limit"@, q.limit, "page_size"@);
    lemma_last_inserted_concat((((((((((((((text_member("search_for"@, q.search_for)) + text_member("published_since"@, q.published_since)) + text_member("modified_since"@, q.modified_since)) + num_member("institution"@, q.institution)) + num_member("group"@, q.group)) + num_member("item_type"@, item_type_number(q))) + text_member("resource_doi"@, q.resource_doi)) + text_member("doi"@, q.doi)) + text_member("handle"@, q.handle)) + num_member("project_id"@, q.project_id)) + text_member("order"@, order_text(q))) + text_member("order_direction"@, direction_text(q))) + num_member("page"@, q.page)) + num_member("page_size"@, q.page_size), num_member("offset"@, q.offset), "page_size"@);
    lemma_num_member_last("offset"@, q.offset, "page_size"@);
    lemma_last_inserted_concat(((((((((((((text_member("search_for"@, q.search_for)) + text_member("published_since"@, q.published_since)) + text_member("modified_since"@, q.modified_since)) + num_member("institution"@, q.institution)) + num_member("group"@, q.group)) + num_member("item_type"@, item_type_number(q))) + text_member("resource_doi"@, q.resource_doi)) + text_member("doi"@, q.doi)) + text_member("handle"@, q.handle)) + num_member("project_id"@, q.project_id)) + text_member("order"@, order_text(q))) + text_member("order_direction"@, direction_text(q))) + num_member("page"@, q.page), num_member("page_size"@, q.page_size), "page_size"@);
    lemma_num_member_last("page_size"@, q.page_size, "page_size"@);
}

proof fn lemma_search_key_offset(q: ArticleQueryView)
    ensures
        (q.offset matches Some(n) ==> (!custom_uses(q.custom, "offset"@) ==> json_get(search_body(q), "offset"@) == Some(JsonView::Number(decimal(n as nat))))),
{
    reveal_strlit("search_for");
    reveal_strlit("published_since");
    reveal_strlit("modified_since");
    reveal_strlit("institution");
    reveal_strlit("group");
    reveal_strlit("item_type");
    reveal_strlit("resource_doi");
    reveal_strlit("doi");
    reveal_strlit("handle");
    reveal_strlit("project_id");
    reveal_strlit("order");
    reveal_strlit("order_direction");
    reveal_strlit("page");
    reveal_strlit("page_size");
    reveal_strlit("offset");
    reveal_strlit("limit");
    assert("handle"@[0] != "offset"@[0]);
    assert("search_for"@.len() != "offset"@.len());
    assert("published_since"@.len() != "offset"@.len());
    assert("modified_since"@.len() != "offset"@.len());
    assert("institution"@.len() != "offset"@.len());
    assert("group"@.len() != "offset"@.len());
    assert("item_type"@.len() != "offset"@.len());
    assert("resource_doi"@.len() != "offset"@.len());
    assert("doi"@.len() != "offset"@.len());
    assert("project_id"@.len() != "offset"@.len());
    assert("order"@.len() != "offset"@.len());
    assert("order_direction"@.len() != "offset"@.len());
    assert("page"@.len() != "offset"@.len());
    assert("page_size"@.len() != "offset"@.len());
    assert("limit"@.len() != "offset"@.len());
    lemma_custom_unused(q.custom, "offset"@);
    lemma_insert_all_get(search_inserts(q), "offset"@);
    let a = (((((((((((((((text_member("search_for"@, q.search_for)) + text_member("published_since"@, q.published_since)) + text_member("modified_since"@, q.modified_since)) + num_member("institution"@, q.institution)) + num_member("group"@, q.group)) + num_member("item_type"@, item_type_number(q))) + text_member("resource_doi"@, q.resource_doi)) + text_member("doi"@, q.doi)) + text_member("handle"@, q.handle)) + num_member("project_id"@, q.project_id)) + text_member("order"@, order_text(q))) + text_member("order_direction"@, direction_text(q))) + num_member("page"@, q.page)) + num_member("page_size"@, q.page_size)) + num_member("offset"@, q.offset)) + num_member("limit"@, q.limit);
    assert(search_inserts(q) == a + custom_members(q.custom));
    lemma_last_inserted_concat(a, custom_members(q.custom), "offset"@);
    lemma_last_inserted_concat(((((((((((((((text_member("search_for"@, q.search_for)) + text_member("published_since"@, q.published_since)) + text_member("modified_since"@, q.modified_since)) + num_member("institution"@, q.institution)) + num_member("group"@, q.group)) + num_member("item_type"@, item_type_number(q))) + text_member("resource_doi"@, q.resource_doi)) + text_member("doi"@, q.doi)) + text_member("handle"@, q.handle)) + num_member("project_id"@, q.project_id)) + text_member("order"@, order_text(q))) + text_member("order_direction"@, direction_text(q))) + num_member("page"@, q.page)) + num_member("page_size"@, q.page_size)) + num_member("offset"@, q.offset), num_member("limit"@, q.limit), "offset"@);
    lemma_num_member_last("limit"@, q.limit, "offset"@);
    lemma_last_inserted_concat((((((((((((((text_member("search_for"@, q.search_for)) + text_member("published_since"@, q.published_since)) + text_member("modified_since"@, q.modified_since)) + num_member("institution"@, q.institution)) + num_member("group"@, q.group)) + num_member("item_type"@, item_type_number(q))) + text_member("resource_doi"@, q.resource_doi)) + text_member("doi"@, q.doi)) + text_member("handle"@, q.handle)) + num_member("project_id"@, q.project_id)) + text_member("order"@, order_text(q))) + text_member("order_direction"@, direction_text(q))) + num_member("page"@, q.page)) + num_member("page_size"@, q.page_size), num_member("offset"@, q.offset), "offset"@);
    lemma_num_member_last("offset"@, q.offset, "offset"@);
}

proof fn lemma_search_key_limit(q: ArticleQueryView)
    ensures
        (q.limit matches Some(n) ==> (!custom_uses(q.custom, "limit"@) ==> json_get(search_body(q), "limit"@) == Some(JsonView::Number(decimal(n as nat))))),
{
    reveal_strlit("search_for");
    reveal_strlit("published_since");
    reveal_strlit("modified_since");
    reveal_strlit("institution");
    reveal_strlit("group");
    reveal_strlit("item_type");
    reveal_strlit("resource_doi");
    reveal_strlit("doi");
    reveal_strlit("handle");
    reveal_strlit("project_id");
    reveal_strlit("order");
    reveal_strlit("order_direction");
    reveal_strlit("page");
    reveal_strlit("page_size");
    reveal_strlit("offset");
    reveal_strlit("limit");
    assert("group"@[0] != "limit"@[0]);
    assert("order"@[0] != "limit"@[0]);
    assert("search_for"@.len() != "limit"@.len());
    assert("published_since"@.len() != "limit"@.len());
    assert("modified_since"@.len() != "limit"@.len());
    assert("institution"@.len() != "limit"@.len());
    assert("item_type"@.len() != "limit"@.len());
    assert("resource_doi"@.len() != "limit"@.len());
    assert("doi"@.len() != "limit"@.len());
    assert("handle"@.len() != "limit"@.len());
    assert("project_id"@.len() != "limit"@.len());
    assert("order_direction"@.len() != "limit"@.len());
    assert("page"@.len() != "limit"@.len());
    assert("page_size"@.len() != "limit"@.len());
    assert("offset"@.len() != "limit"@.len());
    lemma_custom_unused(q.custom, "limit"@);
    lemma_insert_all_get(search_inserts(q), "limit"@);
    let a = (((((((((((((((text_member("search_for"@, q.search_for)) + text_member("published_since"@, q.published_since)) + text_member("modified_since"@, q.modified_since)) + num_member("institution"@, q.institution)) + num_member("group"@, q.group)) + num_member("item_type"@, item_type_number(q))) + text_member("resource_doi"@, q.resource_doi)) + text_member("doi"@, q.doi)) + text_member("handle"@, q.handle)) + num_member("project_id"@, q.project_id)) + text_member("order"@, order_text(q))) + text_member("order_direction"@, direction_text(q))) + num_member("page"@, q.page)) + num_member("page_size"@, q.page_size)) + num_member("offset"@, q.offset)) + num_member("limit"@, q.limit);
    assert(search_inserts(q) == a + custom_members(q.custom));
    lemma_last_inserted_concat(a, custom_members(q.custom), "limit"@);
    lemma_last_inserted_concat(((((((((((((((text_member("search_for"@, q.search_for)) + text_member("published_since"@, q.published_since)) + text_member("modified_since"@, q.modified_since)) + num_member("institution"@, q.institution)) + num_member("group"@, q.group)) + num_member("item_type"@, item_type_number(q))) + text_member("resource_doi"@, q.resource_doi)) + text_member("doi"@, q.doi)) + text_member("handle"@, q.handle)) + num_member("project_id"@, q.project_id)) + text_member("order"@, order_text(q))) + text_member("order_direction"@, direction_text(q))) + num_member("page"@, q.page)) + num_member("page_size"@, q.page_size)) + num_member("offset"@, q.offset), num_member("limit"@, q.limit), "limit"@);
    lemma_num_member_last("limit"@, q.limit, "limit"@);
}

/// Every filter set on a query reaches the search body under its key: texts
/// as strings, numbers and the item type's numeric form as numbers, the sort
/// field and direction by their API names; an extra pair with the same key
/// replaces it, and every extra pair's key holds the value of its last pair.
pub proof fn lemma_search_body_carries_every_filter(q: ArticleQueryView, k: Seq<char>)
    ensures
        (q.search_for matches Some(v) ==> (!custom_uses(q.custom, "search_for"@) ==> json_get(search_body(q), "search_for"@) == Some(JsonView::String(v)))),
        (q.published_since matches Some(v) ==> (!custom_uses(q.custom, "published_since"@) ==> json_get(search_body(q), "published_since"@) == Some(JsonView::String(v)))),
        (q.modified_since matches Some(v) ==> (!custom_uses(q.custom, "modified_since"@) ==> json_get(search_body(q), "modified_since"@) == Some(JsonView::String(v)))),
        (q.institution matches Some(n) ==> (!custom_uses(q.custom, "institution"@) ==> json_get(search_body(q), "institution"@) == Some(JsonView::Number(decimal(n as nat))))),
        (q.group matches Some(n) ==> (!custom_uses(q.custom, "group"@) ==> json_get(search_body(q), "group"@) == Some(JsonView::Number(decimal(n as nat))))),
        (item_type_number(q) matches Some(n) ==> (!custom_uses(q.custom, "item_type"@) ==> json_get(search_body(q), "item_type"@) == Some(JsonView::Number(decimal(n as nat))))),
        (q.resource_doi matches Some(v) ==> (!custom_uses(q.custom, "resource_doi"@) ==> json_get(search_body(q), "resource_doi"@) == Some(JsonView::String(v)))),
        (q.doi matches Some(v) ==> (!custom_uses(q.custom, "doi"@) ==> json_get(search_body(q), "doi"@) == Some(JsonView::String(v)))),
        (q.handle matches Some(v) ==> (!custom_uses(q.custom, "handle"@) ==> json_get(search_body(q), "handle"@) == Some(JsonView::String(v)))),
        (q.project_id matches Some(n) ==> (!custom_uses(q.custom, "project_id"@) ==> json_get(search_body(q), "project_id"@) == Some(JsonView::Number(decimal(n as nat))))),
        (q.order matches Some(o) ==> (!custom_uses(q.custom, "order"@) ==> json_get(search_body(q), "order"@) == Some(JsonView::String(order_name(o))))),
        (q.order_direction matches Some(d) ==> (!custom_uses(q.custom, "order_direction"@) ==> json_get(search_body(q), "order_direction"@) == Some(JsonView::String(direction_name(d))))),
        (q.page matches Some(n) ==> (!custom_uses(q.custom, "page"@) ==> json_get(search_body(q), "page"@) == Some(JsonView::Number(decimal(n as nat))))),
        (q.page_size matches Some(n) ==> (!custom_uses(q.custom, "page_size"@) ==> json_get(search_body(q), "page_size"@) == Some(JsonView::Number(decimal(n as nat))))),
        (q.offset matches Some(n) ==> (!custom_uses(q.custom, "offset"@) ==> json_get(search_body(q), "offset"@) == Some(JsonView::Number(decimal(n as nat))))),
        (q.limit matches Some(n) ==> (!custom_uses(q.custom, "limit"@) ==> json_get(search_body(q), "limit"@) == Some(JsonView::Number(decimal(n as nat))))),
        last_inserted(custom_members(q.custom), k) matches Some(v) ==> json_get(search_body(q), k) == Some(v),
{
    lemma_search_key_search_for(q);
    lemma_search_key_published_since(q);
    lemma_search_key_modified_since(q);
    lemma_search_key_institution(q);
    lemma_search_key_group(q);
    lemma_search_key_item_type(q);
    lemma_search_key_resource_doi(q);
    lemma_search_key_doi(q);
    lemma_search_key_handle(q);
    lemma_search_key_project_id(q);
    lemma_search_key_order(q);
    lemma_search_key_order_direction(q);
    lemma_search_key_page(q);
    lemma_search_key_page_size(q);
    lemma_search_key_offset(q);
    lemma_search_key_limit(q);
    lemma_insert_all_get(search_inserts(q), k);
    let ins = search_inserts(q);
    lemma_last_inserted_concat(ins.subrange(0, ins.len() - q.custom.len()), custom_members(q.custom), k);
    assert(ins.subrange(0, ins.len() - q.custom.len()) + custom_members(q.custom) =~= ins);
}

/// The search body of a query: a JSON object built by inserting the members in
/// order, later custom keys replacing earlier values.
pub open spec fn search_body(q: ArticleQueryView) -> JsonView {
    JsonView::Object(insert_all(search_inserts(q)))
}

/// The characters of a borrowed field name list.
pub open spec fn fields_view(f: Seq<(&'static str, bool)>) -> Seq<(Seq<char>, bool)> {
    f.map_values(|p: (&'static str, bool)| (p.0@, p.1))
}

fn push_text_pair(pairs: &mut Vec<(String, String)>, key: &str, value: &Option<String>)
    ensures
        pairs_view(final(pairs)@) == pairs_view(old(pairs)@) + text_pair(key@, opt_chars(*value)),
{
    if let Some(v) = value {
        pairs.push((key.to_owned(), v.clone()));
        assert(pairs_view(pairs@) =~= pairs_view(old(pairs)@) + text_pair(key@, opt_chars(*value)));
    } else {
        assert(pairs_view(pairs@) =~= pairs_view(old(pairs)@) + text_pair(key@, opt_chars(*value)));
    }
}

fn push_num_pair(pairs: &mut Vec<(String, String)>, key: &str, value: Option<u64>)
    ensures
        pairs_view(final(pairs)@) == pairs_view(old(pairs)@) + num_pair(key@, value),
{
    if let Some(v) = value {
        pairs.push((key.to_owned(), decimal_string(v)));
    }
    assert(pairs_view(pairs@) =~= pairs_view(old(pairs)@) + num_pair(key@, value));
}

fn push_custom_pairs(pairs: &mut Vec<(String, String)>, custom: &Vec<(String, String)>)
    ensures
        pairs_view(final(pairs)@) == pairs_view(old(pairs)@) + pairs_view(custom@),
{
    let mut i: usize = 0;
    while i < custom.len()
        invariant
            i <= custom.len(),
            pairs_view(pairs@) == pairs_view(old(pairs)@) + pairs_view(custom@.take(i as int)),
        decreases custom.len() - i,
    {
        let (k, v) = &custom[i];
        let ghost before = pairs@;
        pairs.push((k.clone(), v.clone()));
        proof {
            assert(custom@.take(i + 1) =~= custom@.take(i as int).push(custom@[i as int]));
            assert(custom@[i as int].0@ == k@ && custom@[i as int].1@ == v@);
            assert(pairs_view(pairs@) =~= pairs_view(before).push((k@, v@)));
            assert(pairs_view(custom@.take(i + 1)) =~= pairs_view(custom@.take(i as int)).push((k@, v@)));
        }
        i = i + 1;
        assert(pairs_view(pairs@) =~= pairs_view(old(pairs)@) + pairs_view(custom@.take(i as int)));
    }
    assert(custom@.take(custom@.len() as int) =~= custom@);
}

fn push_text_member(object: &mut Vec<(String, JsonValue)>, key: &str, value: &Option<String>)
    ensures
        entries_view(final(object)@, final(object)@.len() as int) == insert_all_onto(
            entries_view(old(object)@, old(object)@.len() as int),
            text_member(key@, opt_chars(*value)),
        ),
{
    if let Some(v) = value {
        object_insert(object, key.to_owned(), JsonValue::String(v.clone()));
        proof {
            lemma_insert_all_onto_one(entries_view(old(object)@, old(object)@.len() as int), (key@, JsonView::String(v@)));
        }
    } else {
        assert(text_member(key@, opt_chars(*value)) =~= Seq::<(Seq<char>, JsonView)>::empty());
    }
}

fn push_num_member(object: &mut Vec<(String, JsonValue)>, key: &str, value: Option<u64>)
    ensures
        entries_view(final(object)@, final(object)@.len() as int) == insert_all_onto(
            entries_view(old(object)@, old(object)@.len() as int),
            num_member(key@, value),
        ),
{
    if let Some(v) = value {
        object_insert(object, key.to_owned(), JsonValue::Number(decimal_string(v)));
        proof {
            lemma_insert_all_onto_one(entries_view(old(object)@, old(object)@.len() as int), (key@, JsonView::Number(decimal(v as nat))));
        }
    } else {
        assert(num_member(key@, value) =~= Seq::<(Seq<char>, JsonView)>::empty());
    }
}

/// Inserting a sequence of members into existing entries.
pub open spec fn insert_all_onto(es: Seq<(Seq<char>, JsonView)>, inserts: Seq<(Seq<char>, JsonView)>) -> Seq<(Seq<char>, JsonView)>
    decreases inserts.len(),
{
    if inserts.len() == 0 {
        es
    } else {
        insert_entry(insert_all_onto(es, inserts.drop_last()), inserts.last().0, inserts.last().1)
    }
}

proof fn lemma_insert_all_onto_one(es: Seq<(Seq<char>, JsonView)>, m: (Seq<char>, JsonView))
    ensures
        insert_all_onto(es, seq![m]) == insert_entry(es, m.0, m.1),
{
    assert(seq![m].drop_last() =~= Seq::<(Seq<char>, JsonView)>::empty());
    assert(insert_all_onto(es, Seq::<(Seq<char>, JsonView)>::empty()) == es);
}

proof fn lemma_insert_all_onto_concat(es: Seq<(Seq<char>, JsonView)>, a: Seq<(Seq<char>, JsonView)>, b: Seq<(Seq<char>, JsonView)>)
    ensures
        insert_all_onto(insert_all_onto(es, a), b) == insert_all_onto(es, a + b),
    decreases b.len(),
{
    if b.len() == 0 {
        assert(a + b =~= a);
    } else {
        lemma_insert_all_onto_concat(es, a, b.drop_last());
        assert((a + b).drop_last() =~= a + b.drop_last());
    }
}

proof fn lemma_insert_all_empty(inserts: Seq<(Seq<char>, JsonView)>)
    ensures
        insert_all_onto(Seq::empty(), inserts) == insert_all(inserts),
    decreases inserts.len(),
{
    if inserts.len() > 0 {
        lemma_insert_all_empty(inserts.drop_last());
    }
}

fn push_custom_members(object: &mut Vec<(String, JsonValue)>, custom: &Vec<(String, String)>)
    ensures
        entries_view(final(object)@, final(object)@.len() as int) == insert_all_onto(
            entries_view(old(object)@, old(object)@.len() as int),
            custom_members(pairs_view(custom@)),
        ),
{
    let ghost start = entries_view(object@, object@.len() as int);
    let mut i: usize = 0;
    while i < custom.len()
        invariant
            i <= custom.len(),
            start == entries_view(old(object)@, old(object)@.len() as int),
            entries_view(object@, object@.len() as int) == insert_all_onto(start, custom_members(pairs_view(custom@.take(i as int)))),
        decreases custom.len() - i,
    {
        let (k, v) = &custom[i];
        let ghost before = entries_view(object@, object@.len() as int);
        object_insert(object, k.clone(), JsonValue::String(v.clone()));
        proof {
            let prev = custom_members(pairs_view(custom@.take(i as int)));
            let next = custom_members(pairs_view(custom@.take(i + 1)));
            assert(next.drop_last() =~= prev);
            assert(next.last() == (k@, JsonView::String(v@)));
        }
        i = i + 1;
    }
    assert(custom@.take(custom@.len() as int) =~= custom@);
}

fn unsupported_fields_error(endpoint: &str, fields: &[(&'static str, bool)]) -> (r: Result<(), FigshareError>)
    ensures
        match r {
            Ok(()) => !(exists|i: int| 0 <= i < fields@.len() && #[trigger] fields@[i].1),
            Err(e) => (exists|i: int| 0 <= i < fields@.len() && #[trigger] fields@[i].1) && (e matches FigshareError::InvalidState(m)
                && m@ == unsupported_message(fields_view(fields@), endpoint@)),
        },
{
    let ghost fv = fields_view(fields@);
    let mut out: Vec<char> = Vec::new();
    let mut count: usize = 0;
    let mut i: usize = 0;
    while i < fields.len()
        invariant
            i <= fields.len(),
            fv == fields_view(fields@),
            fv.len() == fields@.len(),
            count as int == set_field_names(fv, i as int).len(),
            count <= i,
            out@ == join(set_field_names(fv, i as int), ", "@),
            count == 0 <==> !(exists|k: int| 0 <= k < i && #[trigger] fields@[k].1),
        decreases fields.len() - i,
    {
        let (name, set) = fields[i];
        let ghost names = set_field_names(fv, i as int);
        if set {
            if count > 0 {
                let sep = chars_of(", ");
                push_chars(&mut out, &sep);
            }
            let nc = chars_of(name);
            push_chars(&mut out, &nc);
            proof {
                assert(set_field_names(fv, i + 1) == names.push(name@));
                assert(names.push(name@).drop_last() =~= names);
                if count == 0 {
                    assert(names.len() == 0);
                    assert(out@ =~= join(names.push(name@), ", "@));
                } else {
                    assert(out@ =~= join(names.push(name@), ", "@));
                }
            }
            count = count + 1;
        } else {
            assert(set_field_names(fv, i + 1) == names);
        }
        i = i + 1;
    }
    if count == 0 {
        return Ok(());
    }
    let tail = chars_of(" not supported for ");
    push_chars(&mut out, &tail);
    let ep = chars_of(endpoint);
    push_chars(&mut out, &ep);
    Err(FigshareError::InvalidState(string_of(out.as_slice())))
}

fn push_chars(out: &mut Vec<char>, s: &Vec<char>)
    ensures
        final(out)@ == old(out)@ + s@,
{
    let mut i: usize = 0;
    while i < s.len()
        invariant
            i <= s.len(),
            out@ == old(out)@ + s@.take(i as int),
        decreases s.len() - i,
    {
        out.push(s[i]);
        i = i + 1;
        assert(out@ =~= old(out)@ + s@.take(i as int));
    }
    assert(s@.take(s.len() as int) =~= s@);
}

impl ArticleQuery {
    /// Starts building a query.
    pub fn builder() -> (r: ArticleQueryBuilder)
        ensures
            r@ == empty_query_view(),
    {
        ArticleQueryBuilder { query: ArticleQuery::empty() }
    }

    /// A query with no option set.
    pub fn empty() -> (r: ArticleQuery)
        ensures
            r@ == empty_query_view(),
    {
        let r = ArticleQuery {
            search_for: None,
            published_since: None,
            modified_since: None,
            institution: None,
            group: None,
            item_type: None,
            resource_doi: None,
            doi: None,
            handle: None,
            project_id: None,
            resource_title: None,
            order: None,
            order_direction: None,
            page: None,
            page_size: None,
            offset: None,
            limit: None,
            custom: Vec::new(),
        };
        assert(pairs_view(r.custom@) =~= Seq::<(Seq<char>, Seq<char>)>::empty());
        r
    }

    /// Rejects queries that mix page/page-size with limit/offset pagination.
    pub fn validate_pagination(&self) -> (r: Result<(), FigshareError>)
        ensures
            r is Ok <==> !mixes_pagination(self@),
            r matches Err(e) ==> e matches FigshareError::InvalidState(m)
                && m@ == "cannot mix page/page_size with limit/offset pagination"@,
    {
        let uses_page = self.page.is_some() || self.page_size.is_some();
        let uses_offset = self.limit.is_some() || self.offset.is_some();
        if uses_page && uses_offset {
            return Err(
                FigshareError::InvalidState(
                    "cannot mix page/page_size with limit/offset pagination".to_owned(),
                ),
            );
        }
        Ok(())
    }

    /// Rejects set fields that an endpoint does not support, naming them in order.
    pub fn ensure_unsupported_fields(endpoint: &str, fields: &[(&'static str, bool)]) -> (r: Result<(), FigshareError>)
        ensures
            r is Ok <==> !(exists|i: int| 0 <= i < fields@.len() && #[trigger] fields@[i].1),
            r matches Err(e) ==> e matches FigshareError::InvalidState(m)
                && m@ == unsupported_message(fields_view(fields@), endpoint@),
    {
        unsupported_fields_error(endpoint, fields)
    }

    /// Appends the date, institution and group pairs.
    pub fn push_common_pairs(&self, pairs: &mut Vec<(String, String)>)
        ensures
            pairs_view(final(pairs)@) == pairs_view(old(pairs)@) + common_pairs(self@),
    {
        push_text_pair(pairs, "published_since", &self.published_since);
        push_text_pair(pairs, "modified_since", &self.modified_since);
        push_num_pair(pairs, "institution", self.institution);
        push_num_pair(pairs, "group", self.group);
        assert(pairs_view(pairs@) =~= pairs_view(old(pairs)@) + common_pairs(self@));
    }

    /// Appends the pagination pairs.
    pub fn push_pagination_pairs(&self, pairs: &mut Vec<(String, String)>)
        ensures
            pairs_view(final(pairs)@) == pairs_view(old(pairs)@) + pagination_pairs(self@),
    {
        push_num_pair(pairs, "page", self.page);
        push_num_pair(pairs, "page_size", self.page_size);
        push_num_pair(pairs, "offset", self.offset);
        push_num_pair(pairs, "limit", self.limit);
        assert(pairs_view(pairs@) =~= pairs_view(old(pairs)@) + pagination_pairs(self@));
    }

    fn item_type_id(&self) -> (r: Option<u64>)
        ensures
            r == item_type_number(self@),
    {
        match &self.item_type {
            Some(t) => t.api_id(),
            None => None,
        }
    }

    fn order_str(&self) -> (r: Option<String>)
        ensures
            opt_chars(r) == order_text(self@),
    {
        match self.order {
            Some(o) => Some(o.as_api_str().to_owned()),
            None => None,
        }
    }

    fn direction_str(&self) -> (r: Option<String>)
        ensures
            opt_chars(r) == direction_text(self@),
    {
        match self.order_direction {
            Some(d) => Some(d.as_api_str().to_owned()),
            None => None,
        }
    }

    /// Query pairs for the public article listing endpoint.
    pub fn as_public_list_query_pairs(&self) -> (r: Result<Vec<(String, String)>, FigshareError>)
        ensures
            match r {
                Ok(p) => checked(self@, public_list_unsupported(self@), "list_public_articles"@, public_list_pairs(self@))
                    == Ok::<Seq<(Seq<char>, Seq<char>)>, Seq<char>>(pairs_view(p@)),
                Err(e) => e matches FigshareError::InvalidState(m) && checked(self@, public_list_unsupported(self@), "list_public_articles"@, public_list_pairs(self@))
                    == Err::<Seq<(Seq<char>, Seq<char>)>, Seq<char>>(m@),
            },
    {
        if let Err(e) = self.validate_pagination() {
            return Err(e);
        }
        let fields = [
            ("search_for", self.search_for.is_some()),
            ("project_id", self.project_id.is_some()),
            ("resource_title", self.resource_title.is_some()),
        ];
        proof {
            assert(fields_view(fields@) =~= public_list_unsupported(self@));
        }
        if let Err(e) = Self::ensure_unsupported_fields("list_public_articles", &fields) {
            proof {
                let i = choose|i: int| 0 <= i < fields@.len() && #[trigger] fields@[i].1;
                assert(fields_view(fields@)[i].1);
                assert(public_list_unsupported(self@)[i].1);
            }
            return Err(e);
        }
        proof {
            assert(!(exists|i: int| 0 <= i < public_list_unsupported(self@).len() && #[trigger] public_list_unsupported(self@)[i].1)) by {
                assert forall|i: int| 0 <= i < public_list_unsupported(self@).len() implies !#[trigger] public_list_unsupported(self@)[i].1 by {
                    assert(fields@[i].1 == public_list_unsupported(self@)[i].1);
                }
            }
        }
        let mut pairs: Vec<(String, String)> = Vec::new();
        assert(pairs_view(pairs@) =~= Seq::<(Seq<char>, Seq<char>)>::empty());
        self.push_common_pairs(&mut pairs);
        push_num_pair(&mut pairs, "item_type", self.item_type_id());
        push_text_pair(&mut pairs, "resource_doi", &self.resource_doi);
        push_text_pair(&mut pairs, "doi", &self.doi);
        push_text_pair(&mut pairs, "handle", &self.handle);
        push_text_pair(&mut pairs, "order", &self.order_str());
        push_text_pair(&mut pairs, "order_direction", &self.direction_str());
        self.push_pagination_pairs(&mut pairs);
        push_custom_pairs(&mut pairs, &self.custom);
        assert(pairs_view(pairs@) =~= public_list_pairs(self@));
        Ok(pairs)
    }

    /// Query pairs for the own article listing endpoint, which accepts only
    /// pagination and custom pairs.
    pub fn as_own_list_query_pairs(&self) -> (r: Result<Vec<(String, String)>, FigshareError>)
        ensures
            match r {
                Ok(p) => checked(self@, own_list_unsupported(self@), "list_own_articles"@, own_list_pairs(self@))
                    == Ok::<Seq<(Seq<char>, Seq<char>)>, Seq<char>>(pairs_view(p@)),
                Err(e) => e matches FigshareError::InvalidState(m) && checked(self@, own_list_unsupported(self@), "list_own_articles"@, own_list_pairs(self@))
                    == Err::<Seq<(Seq<char>, Seq<char>)>, Seq<char>>(m@),
            },
    {
        if let Err(e) = self.validate_pagination() {
            return Err(e);
        }
        let fields = [
            ("search_for", self.search_for.is_some()),
            ("published_since", self.published_since.is_some()),
            ("modified_since", self.modified_since.is_some()),
            ("institution", self.institution.is_some()),
            ("group", self.group.is_some()),
            ("item_type", self.item_type.is_some()),
            ("resource_doi", self.resource_doi.is_some()),
            ("resource_title", self.resource_title.is_some()),
            ("order", self.order.is_some()),
            ("order_direction", self.order_direction.is_some()),
            ("doi", self.doi.is_some()),
            ("handle", self.handle.is_some()),
            ("project_id", self.project_id.is_some()),
        ];
        proof {
            assert(fields_view(fields@) =~= own_list_unsupported(self@));
        }
        if let Err(e) = Self::ensure_unsupported_fields("list_own_articles", &fields) {
            proof {
                let i = choose|i: int| 0 <= i < fields@.len() && #[trigger] fields@[i].1;
                assert(fields_view(fields@)[i].1);
                assert(own_list_unsupported(self@)[i].1);
            }
            return Err(e);
        }
        proof {
            assert(!(exists|i: int| 0 <= i < own_list_unsupported(self@).len() && #[trigger] own_list_unsupported(self@)[i].1)) by {
                assert forall|i: int| 0 <= i < own_list_unsupported(self@).len() implies !#[trigger] own_list_unsupported(self@)[i].1 by {
                    assert(fields@[i].1 == own_list_unsupported(self@)[i].1);
                }
            }
        }
        let mut pairs: Vec<(String, String)> = Vec::new();
        assert(pairs_view(pairs@) =~= Seq::<(Seq<char>, Seq<char>)>::empty());
        self.push_pagination_pairs(&mut pairs);
        push_custom_pairs(&mut pairs, &self.custom);
        assert(pairs_view(pairs@) =~= own_list_pairs(self@));
        Ok(pairs)
    }

    fn search_object(&self) -> (r: JsonValue)
        ensures
            json_view(r) == search_body(self@),
    {
        let mut object: Vec<(String, JsonValue)> = Vec::new();
        let ghost q = self@;
        proof {
            lemma_entries_view_len(object@, 0);
            assert(entries_view(object@, 0) =~= Seq::<(Seq<char>, JsonView)>::empty());
        }
        let ghost mut acc: Seq<(Seq<char>, JsonView)> = Seq::empty();
        push_text_member(&mut object, "search_for", &self.search_for);
        proof { lemma_insert_all_onto_concat(Seq::empty(), acc, text_member("search_for"@, q.search_for)); acc = acc + text_member("search_for"@, q.search_for); }
        push_text_member(&mut object, "published_since", &self.published_since);
        proof { lemma_insert_all_onto_concat(Seq::empty(), acc, text_member("published_since"@, q.published_since)); acc = acc + text_member("published_since"@, q.published_since); }
        push_text_member(&mut object, "modified_since", &self.modified_since);
        proof { lemma_insert_all_onto_concat(Seq::empty(), acc, text_member("modified_since"@, q.modified_since)); acc = acc + text_member("modified_since"@, q.modified_since); }
        push_num_member(&mut object, "institution", self.institution);
        proof { lemma_insert_all_onto_concat(Seq::empty(), acc, num_member("institution"@, q.institution)); acc = acc + num_member("institution"@, q.institution); }
        push_num_member(&mut object, "group", self.group);
        proof { lemma_insert_all_onto_concat(Seq::empty(), acc, num_member("group"@, q.group)); acc = acc + num_member("group"@, q.group); }
        push_num_member(&mut object, "item_type", self.item_type_id());
        proof { lemma_insert_all_onto_concat(Seq::empty(), acc, num_member("item_type"@, item_type_number(q))); acc = acc + num_member("item_type"@, item_type_number(q)); }
        push_text_member(&mut object, "resource_doi", &self.resource_doi);
        proof { lemma_insert_all_onto_concat(Seq::empty(), acc, text_member("resource_doi"@, q.resource_doi)); acc = acc + text_member("resource_doi"@, q.resource_doi); }
        push_text_member(&mut object, "doi", &self.doi);
        proof { lemma_insert_all_onto_concat(Seq::empty(), acc, text_member("doi"@, q.doi)); acc = acc + text_member("doi"@, q.doi); }
        push_text_member(&mut object, "handle", &self.handle);
        proof { lemma_insert_all_onto_concat(Seq::empty(), acc, text_member("handle"@, q.handle)); acc = acc + text_member("handle"@, q.handle); }
        push_num_member(&mut object, "project_id", self.project_id);
        proof { lemma_insert_all_onto_concat(Seq::empty(), acc, num_member("project_id"@, q.project_id)); acc = acc + num_member("project_id"@, q.project_id); }
        push_text_member(&mut object, "order", &self.order_str());
        proof { lemma_insert_all_onto_concat(Seq::empty(), acc, text_member("order"@, order_text(q))); acc = acc + text_member("order"@, order_text(q)); }
        push_text_member(&mut object, "order_direction", &self.direction_str());
        proof { lemma_insert_all_onto_concat(Seq::empty(), acc, text_member("order_direction"@, direction_text(q))); acc = acc + text_member("order_direction"@, direction_text(q)); }
        push_num_member(&mut object, "page", self.page);
        proof { lemma_insert_all_onto_concat(Seq::empty(), acc, num_member("page"@, q.page)); acc = acc + num_member("page"@, q.page); }
        push_num_member(&mut object, "page_size", self.page_size);
        proof { lemma_insert_all_onto_concat(Seq::empty(), acc, num_member("page_size"@, q.page_size)); acc = acc + num_member("page_size"@, q.page_size); }
        push_num_member(&mut object, "offset", self.offset);
        proof { lemma_insert_all_onto_concat(Seq::empty(), acc, num_member("offset"@, q.offset)); acc = acc + num_member("offset"@, q.offset); }
        push_num_member(&mut object, "limit", self.limit);
        proof { lemma_insert_all_onto_concat(Seq::empty(), acc, num_member("limit"@, q.limit)); acc = acc + num_member("limit"@, q.limit); }
        push_custom_members(&mut object, &self.custom);
        proof {
            lemma_insert_all_onto_concat(Seq::empty(), acc, custom_members(q.custom));
            acc = acc + custom_members(q.custom);
            assert(acc =~= search_inserts(q));
            lemma_insert_all_empty(search_inserts(q));
        }
        JsonValue::Object(object)
    }

    /// JSON body for the public article search endpoint.
    pub fn as_public_search_body(&self) -> (r: Result<JsonValue, FigshareError>)
        ensures
            match r {
                Ok(b) => checked(self@, search_unsupported(self@), "search_public_articles"@, search_body(self@))
                    == Ok::<JsonView, Seq<char>>(json_view(b)),
                Err(e) => e matches FigshareError::InvalidState(m) && checked(self@, search_unsupported(self@), "search_public_articles"@, search_body(self@))
                    == Err::<JsonView, Seq<char>>(m@),
            },
    {
        if let Err(e) = self.validate_pagination() {
            return Err(e);
        }
        let fields = [("resource_title", self.resource_title.is_some())];
        proof {
            assert(fields_view(fields@) =~= search_unsupported(self@));
        }
        if let Err(e) = Self::ensure_unsupported_fields("search_public_articles", &fields) {
            return Err(e);
        }
        proof {
            assert(fields@[0].1 == search_unsupported(self@)[0].1);
        }
        Ok(self.search_object())
    }

    /// JSON body for the own article search endpoint.
    pub fn as_own_search_body(&self) -> (r: Result<JsonValue, FigshareError>)
        ensures
            match r {
                Ok(b) => checked(self@, search_unsupported(self@), "search_own_articles"@, search_body(self@))
                    == Ok::<JsonView, Seq<char>>(json_view(b)),
                Err(e) => e matches FigshareError::InvalidState(m) && checked(self@, search_unsupported(self@), "search_own_articles"@, search_body(self@))
                    == Err::<JsonView, Seq<char>>(m@),
            },
    {
        if let Err(e) = self.validate_pagination() {
            return Err(e);
        }
        let fields = [("resource_title", self.resource_title.is_some())];
        proof {
            assert(fields_view(fields@) =~= search_unsupported(self@));
        }
        if let Err(e) = Self::ensure_unsupported_fields("search_own_articles", &fields) {
            return Err(e);
        }
        proof {
            assert(fields@[0].1 == search_unsupported(self@)[0].1);
        }
        Ok(self.search_object())
    }
}

/// The view of a query with nothing set.
pub open spec fn empty_query_view() -> ArticleQueryView {
    ArticleQueryView {
        search_for: None,
        published_since: None,
        modified_since: None,
        institution: None,
        group: None,
        item_type: None,
        resource_doi: None,
        doi: None,
        handle: None,
        project_id: None,
        resource_title: None,
        order: None,
        order_direction: None,
        page: None,
        page_size: None,
        offset: None,
        limit: None,
        custom: Seq::empty(),
    }
}

/// Builder for article queries.
#[derive(Clone, Debug, Default)]
pub struct ArticleQueryBuilder {
    query: ArticleQuery,
}

impl View for ArticleQueryBuilder {
    type V = ArticleQueryView;

    closed spec fn view(&self) -> ArticleQueryView {
        self.query@
    }
}

impl ArticleQueryBuilder {
    /// Sets the free-form search string used by search endpoints.
    pub fn search_for(self, search_for: &str) -> (r: Self)
        ensures
            r@ == (ArticleQueryView { search_for: Some(search_for@), ..self@ }),
    {
        let mut b = self;
        b.query.search_for = Some(search_for.to_owned());
        b
    }

    /// Sets the publication lower bound.
    pub fn published_since(self, published_since: &str) -> (r: Self)
        ensures
            r@ == (ArticleQueryView { published_since: Some(published_since@), ..self@ }),
    {
        let mut b = self;
        b.query.published_since = Some(published_since.to_owned());
        b
    }

    /// Sets the modification lower bound.
    pub fn modified_since(self, modified_since: &str) -> (r: Self)
        ensures
            r@ == (ArticleQueryView { modified_since: Some(modified_since@), ..self@ }),
    {
        let mut b = self;
        b.query.modified_since = Some(modified_since.to_owned());
        b
    }

    /// Restricts results to one institution.
    pub fn institution(self, institution: u64) -> (r: Self)
        ensures
            r@ == (ArticleQueryView { institution: Some(institution), ..self@ }),
    {
        let mut b = self;
        b.query.institution = Some(institution);
        b
    }

    /// Restricts results to one group.
    pub fn group(self, group: u64) -> (r: Self)
        ensures
            r@ == (ArticleQueryView { group: Some(group), ..self@ }),
    {
        let mut b = self;
        b.query.group = Some(group);
        b
    }

    /// Restricts results to one defined type.
    pub fn item_type(self, item_type: DefinedType) -> (r: Self)
        ensures
            r@ == (ArticleQueryView { item_type: Some(item_type), ..self@ }),
    {
        let mut b = self;
        b.query.item_type = Some(item_type);
        b
    }

    /// Filters by resource DOI.
    pub fn resource_doi(self, resource_doi: &str) -> (r: Self)
        ensures
            r@ == (ArticleQueryView { resource_doi: Some(resource_doi@), ..self@ }),
    {
        let mut b = self;
        b.query.resource_doi = Some(resource_doi.to_owned());
        b
    }

    /// Filters by DOI.
    pub fn doi(self, doi: &str) -> (r: Self)
        ensures
            r@ == (ArticleQueryView { doi: Some(doi@), ..self@ }),
    {
        let mut b = self;
        b.query.doi = Some(doi.to_owned());
        b
    }

    /// Filters by handle.
    pub fn handle(self, handle: &str) -> (r: Self)
        ensures
            r@ == (ArticleQueryView { handle: Some(handle@), ..self@ }),
    {
        let mut b = self;
        b.query.handle = Some(handle.to_owned());
        b
    }

    /// Filters by project ID.
    pub fn project_id(self, project_id: u64) -> (r: Self)
        ensures
            r@ == (ArticleQueryView { project_id: Some(project_id), ..self@ }),
    {
        let mut b = self;
        b.query.project_id = Some(project_id);
        b
    }

    /// Legacy resource title filter retained only for compatibility checks.
    pub fn resource_title(self, resource_title: &str) -> (r: Self)
        ensures
            r@ == (ArticleQueryView { resource_title: Some(resource_title@), ..self@ }),
    {
        let mut b = self;
        b.query.resource_title = Some(resource_title.to_owned());
        b
    }

    /// Sets the sort field.
    pub fn order(self, order: ArticleOrder) -> (r: Self)
        ensures
            r@ == (ArticleQueryView { order: Some(order), ..self@ }),
    {
        let mut b = self;
        b.query.order = Some(order);
        b
    }

    /// Sets the sort direction.
    pub fn order_direction(self, order_direction: OrderDirection) -> (r: Self)
        ensures
            r@ == (ArticleQueryView { order_direction: Some(order_direction), ..self@ }),
    {
        let mut b = self;
        b.query.order_direction = Some(order_direction);
        b
    }

    /// Uses page-based pagination.
    pub fn page(self, page: u64) -> (r: Self)
        ensures
            r@ == (ArticleQueryView { page: Some(page), ..self@ }),
    {
        let mut b = self;
        b.query.page = Some(page);
        b
    }

    /// Uses page-size pagination.
    pub fn page_size(self, page_size: u64) -> (r: Self)
        ensures
            r@ == (ArticleQueryView { page_size: Some(page_size), ..self@ }),
    {
        let mut b = self;
        b.query.page_size = Some(page_size);
        b
    }

    /// Uses offset-based pagination.
    pub fn offset(self, offset: u64) -> (r: Self)
        ensures
            r@ == (ArticleQueryView { offset: Some(offset), ..self@ }),
    {
        let mut b = self;
        b.query.offset = Some(offset);
        b
    }

    /// Uses limit-based pagination.
    pub fn limit(self, limit: u64) -> (r: Self)
        ensures
            r@ == (ArticleQueryView { limit: Some(limit), ..self@ }),
    {
        let mut b = self;
        b.query.limit = Some(limit);
        b
    }

    /// Adds a raw custom key-value pair.
    pub fn custom(self, key: &str, value: &str) -> (r: Self)
        ensures
            r@ == (ArticleQueryView { custom: self@.custom.push((key@, value@)), ..self@ }),
    {
        let mut b = self;
        let ghost before = b.query.custom@;
        b.query.custom.push((key.to_owned(), value.to_owned()));
        assert(pairs_view(b.query.custom@) =~= pairs_view(before).push((key@, value@)));
        b
    }

    /// Finishes the builder.
    pub fn build(self) -> (r: ArticleQuery)
        ensures
            r@ == self@,
    {
        self.query
    }
}

} // verus!
