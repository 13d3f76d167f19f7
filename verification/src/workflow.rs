//! Higher-level workflow decisions: validating an upload set, reconciling an
//! article's files with it, and the publish sequence with its cleanup.
//!
//! The network calls are made by the caller; these types say which call comes
//! next and how each outcome moves the workflow on.

use vstd::prelude::*;

use crate::error::FigshareError;
use crate::ids::FileId;
use crate::model::{Article, ArticleFile};
use crate::text::str_eq;
use crate::upload::{FileReplacePolicy, UploadSpec};

verus! {

/// Result of a complete publish workflow.
#[derive(Clone, Debug, PartialEq)]
pub struct PublishedArticle {
    /// Private article payload after publication.
    pub article: Article,
    /// Published public article payload.
    pub public_article: Article,
}

/// The texts of a list of strings.
pub open spec fn texts(v: Seq<String>) -> Seq<Seq<char>> {
    v.map_values(|s: String| s@)
}

/// The filenames of an upload set, in order.
pub open spec fn upload_names(uploads: Seq<UploadSpec>) -> Seq<Seq<char>> {
    uploads.map_values(|u: UploadSpec| u.filename@)
}

/// What is wrong with a list of upload filenames, scanning in order: the first
/// name that is empty (`Some(None)`) or that repeats an earlier one
/// (`Some(Some(name))`); `None` when every name is non-empty and unique.
pub open spec fn name_issue(names: Seq<Seq<char>>) -> Option<Option<Seq<char>>>
    decreases names.len(),
{
    if names.len() == 0 {
        None
    } else {
        match name_issue(names.drop_last()) {
            Some(issue) => Some(issue),
            None => {
                let n = names.last();
                if n.len() == 0 {
                    Some(None)
                } else if names.drop_last().contains(n) {
                    Some(Some(n))
                } else {
                    None
                }
            },
        }
    }
}

/// `upload filename cannot be empty`.
pub open spec fn empty_filename_message() -> Seq<char> {
    seq![
        'u', 'p', 'l', 'o', 'a', 'd', ' ', 'f', 'i', 'l', 'e', 'n', 'a', 'm', 'e', ' ', 'c', 'a', 'n', 'n',
        'o', 't', ' ', 'b', 'e', ' ', 'e', 'm', 'p', 't', 'y',
    ]
}

/// A list of names in which no name is empty and no name appears twice.
pub open spec fn names_valid(names: Seq<Seq<char>>) -> bool {
    &&& forall|i: int| 0 <= i < names.len() ==> #[trigger] names[i].len() > 0
    &&& forall|i: int, j: int| 0 <= i < j < names.len() ==> names[i] != names[j]
}

/// An upload set passes validation exactly when its names are non-empty and
/// pairwise distinct.
pub proof fn lemma_name_issue_iff_invalid(names: Seq<Seq<char>>)
    ensures
        name_issue(names) is None <==> names_valid(names),
    decreases names.len(),
{
    if names.len() > 0 {
        let rest = names.drop_last();
        lemma_name_issue_iff_invalid(rest);
        let n = names.last();
        if name_issue(rest) is None {
            if n.len() == 0 {
                assert(names[names.len() - 1].len() == 0);
            } else if rest.contains(n) {
                let k = choose|k: int| 0 <= k < rest.len() && rest[k] == n;
                assert(names[k] == names[names.len() - 1]);
            } else {
                assert forall|i: int, j: int| 0 <= i < j < names.len() implies names[i] != names[j] by {
                    if j == names.len() - 1 {
                        assert(names[i] == rest[i]);
                    } else {
                        assert(names[i] == rest[i] && names[j] == rest[j]);
                    }
                }
                assert forall|i: int| 0 <= i < names.len() implies #[trigger] names[i].len() > 0 by {
                    if i < rest.len() {
                        assert(names[i] == rest[i]);
                    }
                }
            }
        } else {
            assert(!names_valid(rest));
            if !(forall|i: int| 0 <= i < rest.len() ==> #[trigger] rest[i].len() > 0) {
                let i = choose|i: int| 0 <= i < rest.len() && !(#[trigger] rest[i].len() > 0);
                assert(names[i] == rest[i]);
            } else {
                let (i, j) = choose|i: int, j: int| 0 <= i < j < rest.len() && rest[i] == rest[j];
                assert(names[i] == rest[i] && names[j] == rest[j]);
            }
        }
    }
}

fn contains_name(seen: &Vec<String>, name: &str) -> (r: bool)
    ensures
        r == texts(seen@).contains(name@),
{
    let mut i: usize = 0;
    while i < seen.len()
        invariant
            i <= seen.len(),
            forall|j: int| 0 <= j < i ==> #[trigger] seen@[j]@ != name@,
        decreases seen.len() - i,
    {
        if str_eq(seen[i].as_str(), name) {
            assert(texts(seen@)[i as int] == name@);
            return true;
        }
        i = i + 1;
    }
    assert forall|k: int| 0 <= k < texts(seen@).len() implies texts(seen@)[k] != name@ by {
        assert(texts(seen@)[k] == seen@[k]@);
    }
    false
}

/// Checks that upload filenames are non-empty and unique, and returns them in
/// upload order.
///
/// # Errors
///
/// Returns `InvalidState("upload filename cannot be empty")` for the first
/// empty name, or `DuplicateUploadFilename` for the first repeated name,
/// whichever comes first.
pub fn validate_upload_filenames(uploads: &[UploadSpec]) -> (r: Result<Vec<String>, FigshareError>)
    ensures
        match name_issue(upload_names(uploads@)) {
            None => r matches Ok(v) && texts(v@) == upload_names(uploads@),
            Some(None) => r matches Err(FigshareError::InvalidState(m)) && m@ == empty_filename_message(),
            Some(Some(n)) => r matches Err(FigshareError::DuplicateUploadFilename { filename }) && filename@
                == n,
        },
{
    let mut seen: Vec<String> = Vec::new();
    let mut i: usize = 0;
    while i < uploads.len()
        invariant
            i <= uploads.len(),
            name_issue(upload_names(uploads@).take(i as int)) is None,
            texts(seen@) == upload_names(uploads@).take(i as int),
        decreases uploads.len() - i,
    {
        let ghost names = upload_names(uploads@);
        assert(names.take(i + 1).drop_last() =~= names.take(i as int));
        assert(names.take(i + 1).last() == uploads@[i as int].filename@);
        let name = uploads[i].filename.as_str();
        let name_chars = crate::text::chars_of(name);
        if name_chars.len() == 0 {
            assert(name_issue(names.take(i + 1)) == Some(None::<Seq<char>>));
            proof {
                lemma_name_issue_prefix(names, i as int + 1);
            }
            let msg = [
                'u', 'p', 'l', 'o', 'a', 'd', ' ', 'f', 'i', 'l', 'e', 'n', 'a', 'm', 'e', ' ', 'c', 'a', 'n',
                'n', 'o', 't', ' ', 'b', 'e', ' ', 'e', 'm', 'p', 't', 'y',
            ];
            assert(msg@ =~= empty_filename_message());
            return Err(FigshareError::InvalidState(crate::text::string_of(msg.as_slice())));
        }
        if contains_name(&seen, name) {
            assert(name_issue(names.take(i + 1)) == Some(Some(name@)));
            proof {
                lemma_name_issue_prefix(names, i as int + 1);
            }
            return Err(FigshareError::DuplicateUploadFilename { filename: name.to_owned() });
        }
        seen.push(name.to_owned());
        i = i + 1;
        assert(texts(seen@) =~= names.take(i as int));
    }
    assert(upload_names(uploads@).take(uploads.len() as int) =~= upload_names(uploads@));
    Ok(seen)
}

/// Once a prefix of the names shows an issue, the whole list shows the same one.
proof fn lemma_name_issue_prefix(names: Seq<Seq<char>>, k: int)
    requires
        0 <= k <= names.len(),
        name_issue(names.take(k)) is Some,
    ensures
        name_issue(names) == name_issue(names.take(k)),
    decreases names.len() - k,
{
    if k < names.len() {
        lemma_name_issue_prefix_step(names, k);
        lemma_name_issue_prefix(names, k + 1);
    } else {
        assert(names.take(k) =~= names);
    }
}

proof fn lemma_name_issue_prefix_step(names: Seq<Seq<char>>, k: int)
    requires
        0 <= k < names.len(),
        name_issue(names.take(k)) is Some,
    ensures
        name_issue(names.take(k + 1)) == name_issue(names.take(k)),
{
    assert(names.take(k + 1).drop_last() =~= names.take(k));
}

/// The first upload name, in upload order, that an existing file already has.
pub open spec fn first_conflict(names: Seq<Seq<char>>, existing: Seq<ArticleFile>) -> Option<Seq<char>>
    decreases names.len(),
{
    if names.len() == 0 {
        None
    } else {
        match first_conflict(names.drop_last(), existing) {
            Some(n) => Some(n),
            None => if exists|i: int| 0 <= i < existing.len() && #[trigger] existing[i].name@ == names.last() {
                Some(names.last())
            } else {
                None
            },
        }
    }
}

/// The existing files that a reconciliation deletes once every upload has
/// succeeded: all of them when replacing everything, those sharing a name with
/// an upload when upserting by filename, none when keeping existing files.
pub open spec fn deletions_for(
    policy: FileReplacePolicy,
    existing: Seq<ArticleFile>,
    names: Seq<Seq<char>>,
) -> Seq<FileId>
    decreases existing.len(),
{
    if existing.len() == 0 {
        Seq::empty()
    } else {
        let prev = deletions_for(policy, existing.drop_last(), names);
        let f = existing.last();
        match policy {
            FileReplacePolicy::ReplaceAll => prev.push(f.id),
            FileReplacePolicy::UpsertByFilename => if names.contains(f.name@) {
                prev.push(f.id)
            } else {
                prev
            },
            FileReplacePolicy::KeepExistingAndAdd => prev,
        }
    }
}


/// The first upload name, in upload order, that an existing file already has.
fn first_conflicting_name(existing: &Vec<ArticleFile>, names: &Vec<String>) -> (r: Option<String>)
    ensures
        match first_conflict(texts(names@), existing@) {
            Some(n) => r matches Some(s) && s@ == n,
            None => r is None,
        },
{
    let mut i: usize = 0;
    while i < names.len()
        invariant
            i <= names.len(),
            first_conflict(texts(names@).take(i as int), existing@) is None,
        decreases names.len() - i,
    {
        let ghost ns = texts(names@);
        assert(ns.take(i + 1).drop_last() =~= ns.take(i as int));
        assert(ns.take(i + 1).last() == names@[i as int]@);
        let mut j: usize = 0;
        while j < existing.len()
            invariant
                i < names.len(),
                ns == texts(names@),
                first_conflict(ns.take(i as int), existing@) is None,
                j <= existing.len(),
                forall|k: int| 0 <= k < j ==> #[trigger] existing@[k].name@ != names@[i as int]@,
            decreases existing.len() - j,
        {
            if str_eq(existing[j].name.as_str(), names[i].as_str()) {
                proof {
                    assert(existing@[j as int].name@ == ns[i as int]);
                    lemma_first_conflict_prefix(ns, existing@, i as int + 1);
                }
                return Some(names[i].as_str().to_owned());
            }
            j = j + 1;
        }
        assert(first_conflict(ns.take(i + 1), existing@) is None);
        i = i + 1;
    }
    assert(texts(names@).take(names.len() as int) =~= texts(names@));
    None
}

/// The existing files to delete under `policy`, in listing order.
fn deletions(policy: FileReplacePolicy, existing: &Vec<ArticleFile>, names: &Vec<String>) -> (r: Vec<FileId>)
    ensures
        r@ == deletions_for(policy, existing@, texts(names@)),
{
    let mut to_delete: Vec<FileId> = Vec::new();
    let mut k: usize = 0;
    while k < existing.len()
        invariant
            k <= existing.len(),
            to_delete@ == deletions_for(policy, existing@.take(k as int), texts(names@)),
        decreases existing.len() - k,
    {
        assert(existing@.take(k + 1).drop_last() =~= existing@.take(k as int));
        let f = &existing[k];
        let keep = match policy {
            FileReplacePolicy::ReplaceAll => true,
            FileReplacePolicy::UpsertByFilename => contains_name(names, f.name.as_str()),
            FileReplacePolicy::KeepExistingAndAdd => false,
        };
        if keep {
            to_delete.push(f.id);
        }
        k = k + 1;
    }
    assert(existing@.take(existing.len() as int) =~= existing@);
    to_delete
}

/// The next network call of a file reconciliation.
#[derive(Clone, Copy, Debug, PartialEq, Eq, Structural)]
pub enum ReconcileAction {
    /// Upload the upload at this position of the upload set.
    Upload(usize),
    /// An upload failed: delete this file that the run uploaded, ignoring the
    /// outcome.
    Cleanup(FileId),
    /// Delete this existing file; a failure ends the run with that error.
    DeleteExisting(FileId),
    /// List the article's files; the listing is the run's result.
    ListFiles,
    /// An upload failed and the cleanup is over: end with the upload's error.
    Fail,
}

/// The progress of reconciling an article's files with an upload set.
pub struct Reconcile {
    upload_count: usize,
    uploaded: Vec<FileId>,
    to_delete: Vec<FileId>,
    deleted: usize,
    cleaned: usize,
    failed: bool,
}

/// The mathematical state of a reconciliation.
pub struct ReconcileView {
    /// How many uploads the set holds.
    pub upload_count: nat,
    /// Files this run uploaded, in order.
    pub uploaded: Seq<FileId>,
    /// Existing files to delete once every upload succeeded, in order.
    pub to_delete: Seq<FileId>,
    /// How many of `to_delete` are deleted.
    pub deleted: nat,
    /// How many of `uploaded` were cleaned up after a failure.
    pub cleaned: nat,
    /// Whether an upload failed.
    pub failed: bool,
}

/// The call that a reconciliation in state `s` makes next.
pub open spec fn next_reconcile_action(s: ReconcileView) -> ReconcileAction {
    if s.failed {
        if s.cleaned < s.uploaded.len() {
            ReconcileAction::Cleanup(s.uploaded[s.cleaned as int])
        } else {
            ReconcileAction::Fail
        }
    } else if s.uploaded.len() < s.upload_count {
        ReconcileAction::Upload(s.uploaded.len() as usize)
    } else if s.deleted < s.to_delete.len() {
        ReconcileAction::DeleteExisting(s.to_delete[s.deleted as int])
    } else {
        ReconcileAction::ListFiles
    }
}

impl Reconcile {
    /// The mathematical state.
    pub closed spec fn view(&self) -> ReconcileView {
        ReconcileView {
            upload_count: self.upload_count as nat,
            uploaded: self.uploaded@,
            to_delete: self.to_delete@,
            deleted: self.deleted as nat,
            cleaned: self.cleaned as nat,
            failed: self.failed,
        }
    }

    /// The counters stay within the lists they count.
    pub closed spec fn wf(&self) -> bool {
        &&& self.uploaded@.len() <= self.upload_count
        &&& self.deleted <= self.to_delete@.len()
        &&& self.cleaned <= self.uploaded@.len()
        &&& (self.deleted > 0 ==> !self.failed && self.uploaded@.len() == self.upload_count)
        &&& (self.cleaned > 0 ==> self.failed)
    }

    /// Starts reconciling the existing files of an article with an upload set
    /// whose validated names are `names`.
    ///
    /// # Errors
    ///
    /// With `KeepExistingAndAdd`, returns `ConflictingDraftFile` for the first
    /// upload name that an existing file already has.
    pub fn start(policy: FileReplacePolicy, existing: &Vec<ArticleFile>, names: &Vec<String>) -> (r: Result<
        Reconcile,
        FigshareError,
    >)
        ensures
            (policy == FileReplacePolicy::KeepExistingAndAdd && first_conflict(texts(names@), existing@) is Some)
                <==> r is Err,
            r matches Err(e) ==> e matches FigshareError::ConflictingDraftFile { filename } && Some(filename@)
                == first_conflict(texts(names@), existing@),
            r matches Ok(run) ==> run.wf() && run@ == (ReconcileView {
                upload_count: names@.len(),
                uploaded: Seq::empty(),
                to_delete: deletions_for(policy, existing@, texts(names@)),
                deleted: 0,
                cleaned: 0,
                failed: false,
            }),
    {
        if policy == FileReplacePolicy::KeepExistingAndAdd {
            if let Some(filename) = first_conflicting_name(existing, names) {
                return Err(FigshareError::ConflictingDraftFile { filename });
            }
        }
        let to_delete = deletions(policy, existing, names);
        Ok(Reconcile {
            upload_count: names.len(),
            uploaded: Vec::new(),
            to_delete,
            deleted: 0,
            cleaned: 0,
            failed: false,
        })
    }

    /// The call to make next.
    pub fn next_action(&self) -> (r: ReconcileAction)
        requires
            self.wf(),
        ensures
            r == next_reconcile_action(self@),
    {
        if self.failed {
            if self.cleaned < self.uploaded.len() {
                ReconcileAction::Cleanup(self.uploaded[self.cleaned])
            } else {
                ReconcileAction::Fail
            }
        } else if self.uploaded.len() < self.upload_count {
            ReconcileAction::Upload(self.uploaded.len())
        } else if self.deleted < self.to_delete.len() {
            ReconcileAction::DeleteExisting(self.to_delete[self.deleted])
        } else {
            ReconcileAction::ListFiles
        }
    }

    /// The pending upload succeeded and created `file`.
    pub fn upload_succeeded(&mut self, file: FileId)
        requires
            old(self).wf(),
            next_reconcile_action(old(self)@) is Upload,
        ensures
            final(self).wf(),
            final(self)@ == (ReconcileView { uploaded: old(self)@.uploaded.push(file), ..old(self)@ }),
    {
        self.uploaded.push(file);
    }

    /// The pending upload failed.
    pub fn upload_failed(&mut self)
        requires
            old(self).wf(),
            next_reconcile_action(old(self)@) is Upload,
        ensures
            final(self).wf(),
            final(self)@ == (ReconcileView { failed: true, ..old(self)@ }),
    {
        self.failed = true;
    }

    /// The pending cleanup call returned, whatever its outcome.
    pub fn cleanup_done(&mut self)
        requires
            old(self).wf(),
            next_reconcile_action(old(self)@) is Cleanup,
        ensures
            final(self).wf(),
            final(self)@ == (ReconcileView { cleaned: old(self)@.cleaned + 1, ..old(self)@ }),
    {
        self.cleaned = self.cleaned + 1;
    }

    /// The pending deletion of an existing file succeeded.
    pub fn delete_done(&mut self)
        requires
            old(self).wf(),
            next_reconcile_action(old(self)@) is DeleteExisting,
        ensures
            final(self).wf(),
            final(self)@ == (ReconcileView { deleted: old(self)@.deleted + 1, ..old(self)@ }),
    {
        let n = self.to_delete.len();
        assert(self.deleted < n);
        self.deleted = self.deleted + 1;
    }
}

proof fn lemma_first_conflict_prefix(names: Seq<Seq<char>>, existing: Seq<ArticleFile>, k: int)
    requires
        1 <= k <= names.len(),
        first_conflict(names.take(k - 1), existing) is None,
        exists|i: int| 0 <= i < existing.len() && #[trigger] existing[i].name@ == names[k - 1],
    ensures
        first_conflict(names, existing) == Some(names[k - 1]),
    decreases names.len() - k,
{
    assert(names.take(k).drop_last() =~= names.take(k - 1));
    assert(names.take(k).last() == names[k - 1]);
    assert(first_conflict(names.take(k), existing) == Some(names[k - 1]));
    lemma_first_conflict_settled(names, existing, k);
}

proof fn lemma_first_conflict_settled(names: Seq<Seq<char>>, existing: Seq<ArticleFile>, k: int)
    requires
        0 <= k <= names.len(),
        first_conflict(names.take(k), existing) is Some,
    ensures
        first_conflict(names, existing) == first_conflict(names.take(k), existing),
    decreases names.len() - k,
{
    if k < names.len() {
        assert(names.take(k + 1).drop_last() =~= names.take(k));
        lemma_first_conflict_settled(names, existing, k + 1);
    } else {
        assert(names.take(k) =~= names);
    }
}

/// A reconciliation deletes no existing file before every upload succeeded:
/// whenever the next call is a deletion of an existing file, no upload failed
/// and all uploads are done.
pub proof fn lemma_no_deletion_before_uploads(s: ReconcileView)
    requires
        next_reconcile_action(s) is DeleteExisting,
    ensures
        !s.failed,
        s.uploaded.len() >= s.upload_count,
{
}

/// After an upload failure the run deletes exactly the files it uploaded, in
/// upload order, touches no existing file, and then fails.
pub proof fn lemma_failure_cleans_up_own_uploads(s: ReconcileView)
    requires
        s.failed,
        s.cleaned <= s.uploaded.len(),
    ensures
        s.cleaned < s.uploaded.len() ==> next_reconcile_action(s) == ReconcileAction::Cleanup(
            s.uploaded[s.cleaned as int],
        ),
        s.cleaned == s.uploaded.len() ==> next_reconcile_action(s) == ReconcileAction::Fail,
        !(next_reconcile_action(s) is DeleteExisting),
{
}

/// Keeping existing files deletes none of them.
pub proof fn lemma_keep_existing_deletes_nothing(existing: Seq<ArticleFile>, names: Seq<Seq<char>>)
    ensures
        deletions_for(FileReplacePolicy::KeepExistingAndAdd, existing, names) == Seq::<FileId>::empty(),
    decreases existing.len(),
{
    if existing.len() > 0 {
        lemma_keep_existing_deletes_nothing(existing.drop_last(), names);
    }
}

/// Replacing everything deletes every existing file, in listing order.
pub proof fn lemma_replace_all_deletes_everything(existing: Seq<ArticleFile>, names: Seq<Seq<char>>)
    ensures
        deletions_for(FileReplacePolicy::ReplaceAll, existing, names) == existing.map_values(
            |f: ArticleFile| f.id,
        ),
    decreases existing.len(),
{
    if existing.len() > 0 {
        lemma_replace_all_deletes_everything(existing.drop_last(), names);
        assert(existing.map_values(|f: ArticleFile| f.id) =~= existing.drop_last().map_values(
            |f: ArticleFile| f.id,
        ).push(existing.last().id));
    }
}

/// Upserting by filename deletes an existing file exactly when an upload has
/// its name.
pub proof fn lemma_upsert_deletes_same_names(existing: Seq<ArticleFile>, names: Seq<Seq<char>>, id: FileId)
    requires
        forall|i: int, j: int| 0 <= i < j < existing.len() ==> existing[i].id != existing[j].id,
    ensures
        deletions_for(FileReplacePolicy::UpsertByFilename, existing, names).contains(id) <==> exists|i: int|
            0 <= i < existing.len() && #[trigger] existing[i].id == id && names.contains(existing[i].name@),
    decreases existing.len(),
{
    if existing.len() > 0 {
        let rest = existing.drop_last();
        assert forall|i: int, j: int| 0 <= i < j < rest.len() implies rest[i].id != rest[j].id by {
            assert(rest[i] == existing[i] && rest[j] == existing[j]);
        }
        lemma_upsert_deletes_same_names(rest, names, id);
        let prev = deletions_for(FileReplacePolicy::UpsertByFilename, rest, names);
        let f = existing.last();
        if exists|i: int| 0 <= i < rest.len() && #[trigger] rest[i].id == id && names.contains(rest[i].name@) {
            let i = choose|i: int| 0 <= i < rest.len() && #[trigger] rest[i].id == id && names.contains(
                rest[i].name@,
            );
            assert(existing[i] == rest[i]);
        }
        if exists|i: int| 0 <= i < existing.len() && #[trigger] existing[i].id == id && names.contains(
            existing[i].name@,
        ) {
            let i = choose|i: int| 0 <= i < existing.len() && #[trigger] existing[i].id == id && names.contains(
                existing[i].name@,
            );
            if i < rest.len() {
                assert(rest[i] == existing[i]);
            }
        }
        if names.contains(f.name@) {
            assert(prev.push(f.id).contains(id) <==> (prev.contains(id) || f.id == id)) by {
                if prev.push(f.id).contains(id) {
                    let k = choose|k: int| 0 <= k < prev.push(f.id).len() && prev.push(f.id)[k] == id;
                    if k < prev.len() {
                        assert(prev[k] == id);
                    }
                }
                if prev.contains(id) {
                    let k = choose|k: int| 0 <= k < prev.len() && prev[k] == id;
                    assert(prev.push(f.id)[k] == id);
                }
                if f.id == id {
                    assert(prev.push(f.id)[prev.len() as int] == id);
                }
            }
        }
        if f.id == id {
            assert(existing[existing.len() - 1].id == id);
        }
    }
}

/// The stage a publish workflow has reached.
#[derive(Clone, Copy, Debug, PartialEq, Eq, Structural)]
pub enum PublishStage {
    /// Create a new draft, or update the existing article's metadata.
    Prepare,
    /// Reconcile the article's files with the upload set.
    ReconcileFiles,
    /// Publish the article.
    Publish,
    /// Wait until the private view of the article shows it public.
    AwaitPublic,
    /// Delete the draft this run created, ignoring the outcome, then fail.
    DeleteDraft,
    /// The run is over.
    Done,
}

/// The next network call of a publish workflow.
#[derive(Clone, Copy, Debug, PartialEq, Eq, Structural)]
pub enum PublishAction {
    /// Create the draft (or update the existing article).
    Prepare,
    /// Reconcile files.
    ReconcileFiles,
    /// Publish.
    Publish,
    /// Wait for the article to show public.
    AwaitPublic,
    /// Delete the draft this run created.
    DeleteDraft,
    /// Stop: return the published article, or the error that ended the run.
    Finish,
}

/// A publish workflow: creating a new draft (`creates_draft`) or updating an
/// existing article, then reconciling files, publishing, and waiting for the
/// article to show public.
#[derive(Clone, Copy, Debug, PartialEq, Eq, Structural)]
pub struct PublishRun {
    /// Whether the run creates its own draft (and so cleans it up on failure).
    pub creates_draft: bool,
    /// The stage reached.
    pub stage: PublishStage,
    /// Whether a step failed.
    pub failed: bool,
}

/// The call a publish run makes next.
pub open spec fn next_publish_action(run: PublishRun) -> PublishAction {
    match run.stage {
        PublishStage::Prepare => PublishAction::Prepare,
        PublishStage::ReconcileFiles => PublishAction::ReconcileFiles,
        PublishStage::Publish => PublishAction::Publish,
        PublishStage::AwaitPublic => PublishAction::AwaitPublic,
        PublishStage::DeleteDraft => PublishAction::DeleteDraft,
        PublishStage::Done => PublishAction::Finish,
    }
}

/// How a publish run moves on when its pending step ends: on success to the
/// next step; on failure of the file reconciliation or the publication of a
/// draft this run created, to deleting that draft; on any other failure, to
/// the end.
pub open spec fn publish_step(run: PublishRun, succeeded: bool) -> PublishRun {
    match run.stage {
        PublishStage::Prepare => if succeeded {
            PublishRun { stage: PublishStage::ReconcileFiles, ..run }
        } else {
            PublishRun { stage: PublishStage::Done, failed: true, ..run }
        },
        PublishStage::ReconcileFiles => if succeeded {
            PublishRun { stage: PublishStage::Publish, ..run }
        } else if run.creates_draft {
            PublishRun { stage: PublishStage::DeleteDraft, failed: true, ..run }
        } else {
            PublishRun { stage: PublishStage::Done, failed: true, ..run }
        },
        PublishStage::Publish => if succeeded {
            PublishRun { stage: PublishStage::AwaitPublic, ..run }
        } else if run.creates_draft {
            PublishRun { stage: PublishStage::DeleteDraft, failed: true, ..run }
        } else {
            PublishRun { stage: PublishStage::Done, failed: true, ..run }
        },
        PublishStage::AwaitPublic => if succeeded {
            PublishRun { stage: PublishStage::Done, ..run }
        } else {
            PublishRun { stage: PublishStage::Done, failed: true, ..run }
        },
        PublishStage::DeleteDraft => PublishRun { stage: PublishStage::Done, ..run },
        PublishStage::Done => run,
    }
}

impl PublishRun {
    /// A run that creates a new draft and publishes it.
    pub fn create_and_publish() -> (r: Self)
        ensures
            r == (PublishRun { creates_draft: true, stage: PublishStage::Prepare, failed: false }),
    {
        PublishRun { creates_draft: true, stage: PublishStage::Prepare, failed: false }
    }

    /// A run that updates an existing article and publishes a new version.
    pub fn publish_existing() -> (r: Self)
        ensures
            r == (PublishRun { creates_draft: false, stage: PublishStage::Prepare, failed: false }),
    {
        PublishRun { creates_draft: false, stage: PublishStage::Prepare, failed: false }
    }

    /// The call to make next.
    pub fn next_action(&self) -> (r: PublishAction)
        ensures
            r == next_publish_action(*self),
    {
        match self.stage {
            PublishStage::Prepare => PublishAction::Prepare,
            PublishStage::ReconcileFiles => PublishAction::ReconcileFiles,
            PublishStage::Publish => PublishAction::Publish,
            PublishStage::AwaitPublic => PublishAction::AwaitPublic,
            PublishStage::DeleteDraft => PublishAction::DeleteDraft,
            PublishStage::Done => PublishAction::Finish,
        }
    }

    /// Records how the pending step ended.
    pub fn step(&mut self, succeeded: bool)
        ensures
            *final(self) == publish_step(*old(self), succeeded),
    {
        match self.stage {
            PublishStage::Prepare => {
                if succeeded {
                    self.stage = PublishStage::ReconcileFiles;
                } else {
                    self.stage = PublishStage::Done;
                    self.failed = true;
                }
            },
            PublishStage::ReconcileFiles => {
                if succeeded {
                    self.stage = PublishStage::Publish;
                } else {
                    self.stage = if self.creates_draft {
                        PublishStage::DeleteDraft
                    } else {
                        PublishStage::Done
                    };
                    self.failed = true;
                }
            },
            PublishStage::Publish => {
                if succeeded {
                    self.stage = PublishStage::AwaitPublic;
                } else {
                    self.stage = if self.creates_draft {
                        PublishStage::DeleteDraft
                    } else {
                        PublishStage::Done
                    };
                    self.failed = true;
                }
            },
            PublishStage::AwaitPublic => {
                if !succeeded {
                    self.failed = true;
                }
                self.stage = PublishStage::Done;
            },
            PublishStage::DeleteDraft => {
                self.stage = PublishStage::Done;
            },
            PublishStage::Done => {},
        }
    }
}

/// A publish run deletes an article only when it created that draft itself and
/// the file reconciliation or the publication failed; updating an existing
/// article never deletes it.
pub proof fn lemma_only_own_failed_drafts_are_deleted(run: PublishRun, succeeded: bool)
    ensures
        publish_step(run, succeeded).stage == PublishStage::DeleteDraft && run.stage != PublishStage::DeleteDraft
            <==> (run.creates_draft && !succeeded && (run.stage == PublishStage::ReconcileFiles || run.stage
            == PublishStage::Publish)),
        !run.creates_draft ==> publish_step(run, succeeded).stage != PublishStage::DeleteDraft
            || run.stage == PublishStage::DeleteDraft,
{
}

/// A run that starts at preparation and sees every step succeed goes through
/// preparing, reconciling, publishing and waiting, and ends without failure.
pub proof fn lemma_publish_happy_path(run: PublishRun)
    requires
        run.stage == PublishStage::Prepare,
        !run.failed,
    ensures
        ({
            let s1 = publish_step(run, true);
            let s2 = publish_step(s1, true);
            let s3 = publish_step(s2, true);
            let s4 = publish_step(s3, true);
            &&& next_publish_action(s1) == PublishAction::ReconcileFiles
            &&& next_publish_action(s2) == PublishAction::Publish
            &&& next_publish_action(s3) == PublishAction::AwaitPublic
            &&& next_publish_action(s4) == PublishAction::Finish
            &&& !s4.failed
        }),
{
}

} // verus!
