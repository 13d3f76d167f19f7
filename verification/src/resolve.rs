//! Choosing articles, versions and files out of listing responses.

use url::Url;
use vstd::prelude::*;

use crate::error::FigshareError;
use crate::ids::{ArticleId, Doi, FileId};
use crate::model::{Article, ArticleFile, ArticleVersion};
use crate::text::{chars_of, decimal, decimal_string, str_eq, string_of};

verus! {

/// The largest version number among `versions`, if there is any.
pub open spec fn max_version(versions: Seq<ArticleVersion>) -> Option<u64>
    decreases versions.len(),
{
    if versions.len() == 0 {
        None
    } else {
        let last = versions.last().version;
        match max_version(versions.drop_last()) {
            Some(m) => Some(if m >= last { m } else { last }),
            None => Some(last),
        }
    }
}

/// `max_version` is one of the listed numbers and no listed number exceeds it.
pub proof fn lemma_max_version_is_max(versions: Seq<ArticleVersion>)
    ensures
        versions.len() == 0 <==> max_version(versions) is None,
        max_version(versions) matches Some(m) ==> (exists|i: int|
            0 <= i < versions.len() && #[trigger] versions[i].version == m),
        max_version(versions) matches Some(m) ==> (forall|i: int|
            0 <= i < versions.len() ==> #[trigger] versions[i].version <= m),
    decreases versions.len(),
{
    if versions.len() > 0 {
        let rest = versions.drop_last();
        lemma_max_version_is_max(rest);
        let m = max_version(versions)->0;
        assert forall|i: int| 0 <= i < versions.len() implies #[trigger] versions[i].version <= m by {
            if i < rest.len() {
                assert(versions[i] == rest[i]);
            }
        }
        match max_version(rest) {
            Some(r) => {
                if r >= versions.last().version {
                    let j = choose|j: int| 0 <= j < rest.len() && #[trigger] rest[j].version == r;
                    assert(versions[j] == rest[j]);
                } else {
                    assert(versions[versions.len() - 1].version == m);
                }
            },
            None => {
                assert(versions[versions.len() - 1].version == m);
            },
        }
    }
}

/// The largest version number in a version listing.
pub fn latest_version(versions: &Vec<ArticleVersion>) -> (r: Option<u64>)
    ensures
        r == max_version(versions@),
{
    let mut best: Option<u64> = None;
    let mut i: usize = 0;
    while i < versions.len()
        invariant
            i <= versions.len(),
            best == max_version(versions@.take(i as int)),
        decreases versions.len() - i,
    {
        let v = versions[i].version;
        assert(versions@.take(i + 1).drop_last() =~= versions@.take(i as int));
        best = match best {
            Some(m) => Some(if m >= v { m } else { v }),
            None => Some(v),
        };
        i = i + 1;
    }
    assert(versions@.take(versions.len() as int) =~= versions@);
    best
}

/// Which version to fetch to reach the latest public version: none when the
/// listing is empty or the article already is the latest version.
pub open spec fn version_to_fetch_spec(article_version: Option<u64>, versions: Seq<ArticleVersion>) -> Option<u64> {
    match max_version(versions) {
        None => None,
        Some(m) => if article_version == Some(m) {
            None
        } else {
            Some(m)
        },
    }
}

/// The version to fetch is the largest listed version number, and there is
/// none to fetch exactly when nothing is listed or the article already is
/// that version.
pub proof fn lemma_version_to_fetch_is_latest(article_version: Option<u64>, versions: Seq<ArticleVersion>)
    ensures
        version_to_fetch_spec(article_version, versions) matches Some(m) ==> {
            &&& article_version != Some(m)
            &&& exists|i: int| 0 <= i < versions.len() && #[trigger] versions[i].version == m
            &&& forall|i: int| 0 <= i < versions.len() ==> #[trigger] versions[i].version <= m
        },
        version_to_fetch_spec(article_version, versions) is None <==> versions.len() == 0 || (
        article_version matches Some(a) && (exists|i: int| 0 <= i < versions.len() && #[trigger] versions[i].version
            == a) && forall|i: int| 0 <= i < versions.len() ==> #[trigger] versions[i].version <= a),
{
    lemma_max_version_is_max(versions);
    if let Some(a) = article_version {
        if versions.len() > 0 && (exists|i: int| 0 <= i < versions.len() && #[trigger] versions[i].version == a)
            && forall|i: int| 0 <= i < versions.len() ==> #[trigger] versions[i].version <= a {
            let m = max_version(versions)->0;
            let i = choose|i: int| 0 <= i < versions.len() && #[trigger] versions[i].version == a;
            let j = choose|j: int| 0 <= j < versions.len() && #[trigger] versions[j].version == m;
            assert(versions[i].version <= m);
            assert(versions[j].version <= a);
        }
    }
}

/// Decides whether resolving the latest public version needs another fetch,
/// and of which version.
pub fn version_to_fetch(article_version: Option<u64>, versions: &Vec<ArticleVersion>) -> (r: Option<u64>)
    ensures
        r == version_to_fetch_spec(article_version, versions@),
{
    match latest_version(versions) {
        None => None,
        Some(m) => match article_version {
            Some(a) => if a == m {
                None
            } else {
                Some(m)
            },
            None => Some(m),
        },
    }
}

/// The version whose files a download lists when the article itself names
/// none: the latest listed version, or `1` when none is listed.
pub fn listed_version_or_first(versions: &Vec<ArticleVersion>) -> (r: u64)
    ensures
        r == match max_version(versions@) {
            Some(m) => m,
            None => 1,
        },
{
    match latest_version(versions) {
        Some(m) => m,
        None => 1,
    }
}

/// Whether an article carries exactly the DOI `doi`.
pub open spec fn has_doi(article: Article, doi: Seq<char>) -> bool {
    article.doi matches Some(d) && d.0@ == doi
}

/// `no public article matched DOI ` followed by the DOI.
pub open spec fn no_doi_match_message(doi: Seq<char>) -> Seq<char> {
    seq![
        'n', 'o', ' ', 'p', 'u', 'b', 'l', 'i', 'c', ' ', 'a', 'r', 't', 'i', 'c', 'l', 'e', ' ', 'm', 'a', 't',
        'c', 'h', 'e', 'd', ' ', 'D', 'O', 'I', ' ',
    ] + doi
}

fn concat_chars(a: &[char], b: &[char]) -> (r: String)
    ensures
        r@ == a@ + b@,
{
    let mut out: Vec<char> = Vec::new();
    let mut i: usize = 0;
    while i < a.len()
        invariant
            i <= a.len(),
            out@ == a@.take(i as int),
        decreases a.len() - i,
    {
        out.push(a[i]);
        i = i + 1;
        assert(out@ =~= a@.take(i as int));
    }
    let mut j: usize = 0;
    while j < b.len()
        invariant
            j <= b.len(),
            i == a.len(),
            out@ == a@ + b@.take(j as int),
        decreases b.len() - j,
    {
        out.push(b[j]);
        j = j + 1;
        assert(out@ =~= a@ + b@.take(j as int));
    }
    assert(a@.take(a.len() as int) =~= a@);
    assert(b@.take(b.len() as int) =~= b@);
    string_of(out.as_slice())
}

/// Picks, out of DOI search hits, the first article whose DOI is exactly
/// `doi`.
///
/// # Errors
///
/// Returns `UnsupportedSelector` when no hit carries the DOI.
pub fn article_with_doi(hits: Vec<Article>, doi: &Doi) -> (r: Result<Article, FigshareError>)
    ensures
        (exists|i: int| 0 <= i < hits@.len() && has_doi(#[trigger] hits@[i], doi.0@)) <==> r is Ok,
        r matches Ok(a) ==> exists|i: int|
            0 <= i < hits@.len() && hits@[i] == a && has_doi(a, doi.0@) && forall|j: int|
                0 <= j < i ==> !has_doi(#[trigger] hits@[j], doi.0@),
        r matches Err(e) ==> e matches FigshareError::UnsupportedSelector(m) && m@ == no_doi_match_message(
            doi.0@,
        ),
{
    let mut i: usize = 0;
    let mut found = false;
    while i < hits.len()
        invariant_except_break
            i <= hits.len(),
            !found,
            forall|j: int| 0 <= j < i ==> !has_doi(#[trigger] hits@[j], doi.0@),
        ensures
            i <= hits.len(),
            forall|j: int| 0 <= j < i ==> !has_doi(#[trigger] hits@[j], doi.0@),
            found ==> i < hits.len() && has_doi(hits@[i as int], doi.0@),
            !found ==> i == hits.len(),
        decreases hits.len() - i,
    {
        let matches = match &hits[i].doi {
            Some(d) => str_eq(d.0.as_str(), doi.0.as_str()),
            None => false,
        };
        if matches {
            found = true;
            break;
        }
        i = i + 1;
    }
    if found {
        let ghost original = hits@;
        let mut rest = hits;
        let a = rest.remove(i);
        assert(a == original[i as int]);
        return Ok(a);
    }
    let prefix = [
        'n', 'o', ' ', 'p', 'u', 'b', 'l', 'i', 'c', ' ', 'a', 'r', 't', 'i', 'c', 'l', 'e', ' ', 'm', 'a', 't',
        'c', 'h', 'e', 'd', ' ', 'D', 'O', 'I', ' ',
    ];
    let dc = chars_of(doi.0.as_str());
    let m = concat_chars(prefix.as_slice(), dc.as_slice());
    assert(prefix@ + dc@ =~= no_doi_match_message(doi.0@));
    Err(FigshareError::UnsupportedSelector(m))
}

/// Picks, out of a file listing, the first file named exactly `name`.
///
/// # Errors
///
/// Returns `MissingFile` with the requested name when no file has it.
pub fn file_named(files: Vec<ArticleFile>, name: &str) -> (r: Result<ArticleFile, FigshareError>)
    ensures
        (exists|i: int| 0 <= i < files@.len() && #[trigger] files@[i].name@ == name@) <==> r is Ok,
        r matches Ok(f) ==> exists|i: int|
            0 <= i < files@.len() && files@[i] == f && f.name@ == name@ && forall|j: int|
                0 <= j < i ==> #[trigger] files@[j].name@ != name@,
        r matches Err(e) ==> e matches FigshareError::MissingFile { name: n } && n@ == name@,
{
    let mut i: usize = 0;
    let mut found = false;
    while i < files.len()
        invariant_except_break
            i <= files.len(),
            !found,
            forall|j: int| 0 <= j < i ==> #[trigger] files@[j].name@ != name@,
        ensures
            i <= files.len(),
            forall|j: int| 0 <= j < i ==> #[trigger] files@[j].name@ != name@,
            found ==> i < files.len() && files@[i as int].name@ == name@,
            !found ==> i == files.len(),
        decreases files.len() - i,
    {
        if str_eq(files[i].name.as_str(), name) {
            found = true;
            break;
        }
        i = i + 1;
    }
    if found {
        let ghost original = files@;
        let mut rest = files;
        let f = rest.remove(i);
        assert(f == original[i as int]);
        return Ok(f);
    }
    Err(FigshareError::MissingFile { name: name.to_owned() })
}

/// Resolved information about a completed or opened download.
#[derive(Clone, Debug, PartialEq)]
pub struct ResolvedDownload {
    /// Article that ultimately supplied the file.
    pub resolved_article: ArticleId,
    /// File identifier selected for download.
    pub resolved_file_id: FileId,
    /// File name selected for download.
    pub resolved_name: String,
    /// Final download URL.
    pub download_url: Url,
    /// Number of bytes written when downloading to disk.
    pub bytes_written: u64,
}

/// The download that a selected file leads to, before any byte is written.
///
/// # Errors
///
/// Returns `MissingLink("download_url")` when the file has no download URL.
pub fn download_for_file(article_id: ArticleId, file: ArticleFile) -> (r: Result<ResolvedDownload, FigshareError>)
    ensures
        file.download_url is None <==> r is Err,
        r matches Err(e) ==> e == FigshareError::MissingLink("download_url"),
        r matches Ok(d) ==> d.resolved_article == article_id && d.resolved_file_id == file.id
            && d.resolved_name == file.name && Some(d.download_url) == file.download_url && d.bytes_written
            == 0,
{
    match file.download_url {
        Some(url) => Ok(
            ResolvedDownload {
                resolved_article: article_id,
                resolved_file_id: file.id,
                resolved_name: file.name,
                download_url: url,
                bytes_written: 0,
            },
        ),
        None => Err(FigshareError::MissingLink("download_url")),
    }
}

/// The page size used when listing article files.
pub const FILE_PAGE_SIZE: u64 = 1000;

/// The files gathered so far while listing an article's files page by page.
pub struct FilePages {
    /// The next page to request, counting from 1.
    pub page: u64,
    /// Files from the pages received so far, in order.
    pub files: Vec<ArticleFile>,
    /// Whether a page shorter than the page size has arrived.
    pub done: bool,
}

/// `page`.
pub open spec fn page_key() -> Seq<char> {
    seq!['p', 'a', 'g', 'e']
}

/// `page_size`.
pub open spec fn page_size_key() -> Seq<char> {
    seq!['p', 'a', 'g', 'e', '_', 's', 'i', 'z', 'e']
}

/// A file listing asks for pages of a thousand files under the keys `page`
/// and `page_size`, starting at page one.
pub proof fn lemma_file_page_request()
    ensures
        page_key() == "page"@,
        page_size_key() == "page_size"@,
        FILE_PAGE_SIZE == 1000,
        pages_state(Seq::empty()).0 == 1,
{
    reveal_strlit("page");
    reveal_strlit("page_size");
    assert(page_key() =~= "page"@);
    assert(page_size_key() =~= "page_size"@);
}

impl FilePages {
    /// Starts a listing at the first page.
    pub fn new() -> (r: Self)
        ensures
            r.page == 1,
            r.files@ == Seq::<ArticleFile>::empty(),
            !r.done,
    {
        FilePages { page: 1, files: Vec::new(), done: false }
    }

    /// The query pairs of the next page request: the page number and the page
    /// size, both in decimal.
    pub fn query_pairs(&self) -> (r: Vec<(String, String)>)
        ensures
            r@.len() == 2,
            r@[0].0@ == page_key() && r@[0].1@ == decimal(self.page as nat),
            r@[1].0@ == page_size_key() && r@[1].1@ == decimal(FILE_PAGE_SIZE as nat),
    {
        let mut r: Vec<(String, String)> = Vec::new();
        let pk = ['p', 'a', 'g', 'e'];
        let sk = ['p', 'a', 'g', 'e', '_', 's', 'i', 'z', 'e'];
        assert(pk@ =~= page_key());
        assert(sk@ =~= page_size_key());
        r.push((string_of(pk.as_slice()), decimal_string(self.page)));
        r.push((string_of(sk.as_slice()), decimal_string(FILE_PAGE_SIZE)));
        r
    }

    /// Takes in one page of files. The listing is done once a page holds fewer
    /// files than the page size; otherwise the next page is due.
    pub fn push_batch(&mut self, batch: Vec<ArticleFile>)
        requires
            !old(self).done,
            old(self).page < u64::MAX,
        ensures
            final(self).files@ == old(self).files@ + batch@,
            final(self).done == (batch@.len() < FILE_PAGE_SIZE),
            final(self).page == if batch@.len() < FILE_PAGE_SIZE {
                old(self).page as int
            } else {
                old(self).page + 1
            },
    {
        let n = batch.len();
        let mut batch = batch;
        self.files.append(&mut batch);
        if (n as u64) < FILE_PAGE_SIZE {
            self.done = true;
        } else {
            self.page = self.page + 1;
        }
    }
}

/// All files of a sequence of pages, in order.
pub open spec fn concat_pages(batches: Seq<Seq<ArticleFile>>) -> Seq<ArticleFile>
    decreases batches.len(),
{
    if batches.len() == 0 {
        Seq::empty()
    } else {
        concat_pages(batches.drop_last()) + batches.last()
    }
}

/// The listing state `(next page, files, done)` after the given pages arrived,
/// starting from the first page, as `FilePages::push_batch` moves it.
pub open spec fn pages_state(batches: Seq<Seq<ArticleFile>>) -> (int, Seq<ArticleFile>, bool)
    decreases batches.len(),
{
    if batches.len() == 0 {
        (1, Seq::empty(), false)
    } else {
        let prev = pages_state(batches.drop_last());
        let b = batches.last();
        (if b.len() < FILE_PAGE_SIZE { prev.0 } else { prev.0 + 1 }, prev.1 + b, b.len() < FILE_PAGE_SIZE)
    }
}

/// Listing files page by page: when every page but the last is full and the
/// last is short, the listing ends after exactly those pages, having asked for
/// pages `1..=n`, and holds every page's files in order.
pub proof fn lemma_file_pages_gather_all(batches: Seq<Seq<ArticleFile>>)
    requires
        batches.len() >= 1,
        forall|i: int| 0 <= i < batches.len() - 1 ==> #[trigger] batches[i].len() >= FILE_PAGE_SIZE,
        batches.last().len() < FILE_PAGE_SIZE,
    ensures
        pages_state(batches) == (batches.len() as int, concat_pages(batches), true),
        forall|k: int| 0 <= k < batches.len() ==> #[trigger] pages_state(batches.take(k)).0 == k + 1
            && !pages_state(batches.take(k)).2,
{
    lemma_full_pages(batches.drop_last());
    assert(batches.drop_last() =~= batches.take(batches.len() - 1));
    assert forall|k: int| 0 <= k < batches.len() implies #[trigger] pages_state(batches.take(k)).0 == k + 1
        && !pages_state(batches.take(k)).2 by {
        assert(batches.take(k) =~= batches.drop_last().take(k));
    }
}

/// After `k` full pages the listing asks for page `k + 1` and is not done.
proof fn lemma_full_pages(batches: Seq<Seq<ArticleFile>>)
    requires
        forall|i: int| 0 <= i < batches.len() ==> #[trigger] batches[i].len() >= FILE_PAGE_SIZE,
    ensures
        pages_state(batches) == ((batches.len() + 1) as int, concat_pages(batches), false),
        forall|k: int| 0 <= k <= batches.len() ==> #[trigger] pages_state(batches.take(k)) == (k + 1,
            concat_pages(batches.take(k)), false),
    decreases batches.len(),
{
    if batches.len() > 0 {
        let rest = batches.drop_last();
        assert forall|i: int| 0 <= i < rest.len() implies #[trigger] rest[i].len() >= FILE_PAGE_SIZE by {
            assert(rest[i] == batches[i]);
        }
        lemma_full_pages(rest);
        assert forall|k: int| 0 <= k <= batches.len() implies #[trigger] pages_state(batches.take(k)) == (k
            + 1, concat_pages(batches.take(k)), false) by {
            if k < batches.len() {
                assert(batches.take(k) =~= rest.take(k));
            } else {
                assert(batches.take(k) =~= batches);
            }
        }
    }
}

} // verus!
