//! Hosted uploads: the byte ranges of upload parts, the checks on staged and
//! finished uploads, and the order of the upload calls with their cleanup.

use vstd::prelude::*;

use crate::error::{json_get, obj_get_from, FigshareError};
use crate::json::{json_view, JsonValue, JsonView};
use crate::model::{UploadPart, UploadSession, UploadStatus};
use crate::text::{decimal, decimal_string, string_of};

verus! {

/// The body that registers a hosted file: its name, size in bytes and MD5.
pub open spec fn file_upload_body(name: Seq<char>, size: u64, md5: Seq<char>) -> JsonView {
    JsonView::Object(
        seq![
            (seq!['n', 'a', 'm', 'e'], JsonView::String(name)),
            (seq!['s', 'i', 'z', 'e'], JsonView::Number(decimal(size as nat))),
            (seq!['m', 'd', '5'], JsonView::String(md5)),
        ],
    )
}

/// The registration body names the file, gives its size in decimal and its
/// MD5, each under its own key; the link body holds the link.
pub proof fn lemma_upload_bodies(name: Seq<char>, size: u64, md5: Seq<char>, link: Seq<char>)
    ensures
        json_get(file_upload_body(name, size, md5), "name"@) == Some(JsonView::String(name)),
        json_get(file_upload_body(name, size, md5), "size"@) == Some(JsonView::Number(decimal(size as nat))),
        json_get(file_upload_body(name, size, md5), "md5"@) == Some(JsonView::String(md5)),
        json_get(link_file_body(link), "link"@) == Some(JsonView::String(link)),
{
    reveal_strlit("name");
    reveal_strlit("size");
    reveal_strlit("md5");
    reveal_strlit("link");
    let es = seq![
        (seq!['n', 'a', 'm', 'e'], JsonView::String(name)),
        (seq!['s', 'i', 'z', 'e'], JsonView::Number(decimal(size as nat))),
        (seq!['m', 'd', '5'], JsonView::String(md5)),
    ];
    assert(es[0].0 != "size"@ && es[0].0 != "md5"@);
    assert(es[1].0 != "md5"@);
    assert(es[1].0 == "size"@);
    assert(es[2].0 == "md5"@);
    assert(es[0].0 == "name"@);
    assert(obj_get_from(es, "md5"@, 2) == Some(JsonView::String(md5)));
    assert(obj_get_from(es, "md5"@, 1) == Some(JsonView::String(md5)));
    assert(obj_get_from(es, "size"@, 1) == Some(JsonView::Number(decimal(size as nat))));
    assert(seq!['l', 'i', 'n', 'k'] == "link"@);
}

/// The JSON body that registers a hosted file with an article.
pub fn file_upload_payload(name: &str, size: u64, md5: &str) -> (r: JsonValue)
    ensures
        json_view(r) == file_upload_body(name@, size, md5@),
{
    let mut entries: Vec<(String, JsonValue)> = Vec::new();
    let nk = ['n', 'a', 'm', 'e'];
    let sk = ['s', 'i', 'z', 'e'];
    let mk = ['m', 'd', '5'];
    entries.push((string_of(nk.as_slice()), JsonValue::String(name.to_owned())));
    entries.push((string_of(sk.as_slice()), JsonValue::Number(decimal_string(size))));
    entries.push((string_of(mk.as_slice()), JsonValue::String(md5.to_owned())));
    proof {
        crate::json::lemma_entries_view_index(entries@, 0);
        crate::json::lemma_entries_view_index(entries@, 1);
        crate::json::lemma_entries_view_index(entries@, 2);
    }
    let r = JsonValue::Object(entries);
    assert(crate::json::entries_view(entries@, 3) =~= seq![
        (seq!['n', 'a', 'm', 'e'], JsonView::String(name@)),
        (seq!['s', 'i', 'z', 'e'], JsonView::Number(decimal(size as nat))),
        (seq!['m', 'd', '5'], JsonView::String(md5@)),
    ]);
    r
}

/// The body that attaches a link-only file.
pub open spec fn link_file_body(link: Seq<char>) -> JsonView {
    JsonView::Object(seq![(seq!['l', 'i', 'n', 'k'], JsonView::String(link))])
}

/// The JSON body that attaches a link-only file to an article.
pub fn link_file_payload(link: &str) -> (r: JsonValue)
    ensures
        json_view(r) == link_file_body(link@),
{
    let mut entries: Vec<(String, JsonValue)> = Vec::new();
    let lk = ['l', 'i', 'n', 'k'];
    entries.push((string_of(lk.as_slice()), JsonValue::String(link.to_owned())));
    proof {
        crate::json::lemma_entries_view_index(entries@, 0);
    }
    let r = JsonValue::Object(entries);
    assert(crate::json::entries_view(entries@, 1) =~= seq![(seq!['l', 'i', 'n', 'k'], JsonView::String(link@))]);
    r
}

/// The bytes one upload part carries: `len` bytes of the source from `offset`.
#[derive(Clone, Copy, Debug, PartialEq, Eq, Structural)]
pub struct PartRange {
    /// Part number to send the bytes under.
    pub part_no: u64,
    /// Offset of the first byte in the source.
    pub offset: u64,
    /// Number of bytes.
    pub len: u64,
}

/// Whether an upload part names a non-empty inclusive byte range whose length
/// fits in a `u64`.
pub open spec fn part_valid(part: UploadPart) -> bool {
    part.start_offset <= part.end_offset && part.end_offset - part.start_offset < u64::MAX
}

/// The byte range of a valid part.
pub open spec fn part_range(part: UploadPart) -> PartRange {
    PartRange {
        part_no: part.part_no,
        offset: part.start_offset,
        len: (part.end_offset - part.start_offset + 1) as u64,
    }
}

/// Whether an upload part's range can be read (see `part_valid`).
pub fn part_has_valid_range(part: &UploadPart) -> (r: bool)
    ensures
        r == part_valid(*part),
{
    part.start_offset <= part.end_offset && part.end_offset - part.start_offset < u64::MAX
}

/// The byte ranges of an upload session's parts, in the session's order.
pub fn part_ranges(session: &UploadSession) -> (r: Vec<PartRange>)
    requires
        forall|i: int| 0 <= i < session.parts@.len() ==> part_valid(#[trigger] session.parts@[i]),
    ensures
        r@ == session.parts@.map_values(|p: UploadPart| part_range(p)),
{
    let mut r: Vec<PartRange> = Vec::new();
    let mut i: usize = 0;
    while i < session.parts.len()
        invariant
            i <= session.parts.len(),
            forall|k: int| 0 <= k < session.parts@.len() ==> part_valid(#[trigger] session.parts@[k]),
            r@ == session.parts@.take(i as int).map_values(|p: UploadPart| part_range(p)),
        decreases session.parts.len() - i,
    {
        let part = &session.parts[i];
        assert(part_valid(session.parts@[i as int]));
        r.push(PartRange { part_no: part.part_no, offset: part.start_offset, len: part.len() });
        i = i + 1;
        assert(r@ =~= session.parts@.take(i as int).map_values(|p: UploadPart| part_range(p)));
    }
    assert(session.parts@.take(session.parts.len() as int) =~= session.parts@);
    r
}

/// Whether each part begins right after the previous one ends, the first at
/// offset `start`, so that the parts cover `start..end` without gap or
/// overlap.
pub open spec fn ranges_cover(ranges: Seq<PartRange>, start: int, end: int) -> bool
    decreases ranges.len(),
{
    if ranges.len() == 0 {
        start == end
    } else {
        ranges[0].offset == start && ranges_cover(ranges.drop_first(), start + ranges[0].len, end)
    }
}

/// Contiguous parts that cover a file carry, together, exactly as many bytes
/// as the file holds.
pub proof fn lemma_covering_ranges_carry_every_byte(ranges: Seq<PartRange>, start: int, end: int)
    requires
        ranges_cover(ranges, start, end),
    ensures
        end - start == ranges.fold_left(0int, |acc: int, p: PartRange| acc + p.len),
    decreases ranges.len(),
{
    if ranges.len() > 0 {
        lemma_covering_ranges_carry_every_byte(ranges.drop_first(), start + ranges[0].len, end);
        ranges.lemma_fold_left_alt(0int, |acc: int, p: PartRange| acc + p.len);
        ranges.drop_first().lemma_fold_left_alt(0int, |acc: int, p: PartRange| acc + p.len);
        lemma_fold_shift(ranges.drop_first(), ranges[0].len as int);
        assert(ranges.fold_left_alt(0int, |acc: int, p: PartRange| acc + p.len) == ranges.drop_first().fold_left_alt(
            ranges[0].len as int,
            |acc: int, p: PartRange| acc + p.len,
        ));
    }
}

/// Summing lengths from `a` is summing from zero and adding `a`.
proof fn lemma_fold_shift(ranges: Seq<PartRange>, a: int)
    ensures
        ranges.fold_left_alt(a, |acc: int, p: PartRange| acc + p.len) == a + ranges.fold_left_alt(
            0int,
            |acc: int, p: PartRange| acc + p.len,
        ),
    decreases ranges.len(),
{
    if ranges.len() > 0 {
        lemma_fold_shift(ranges.drop_first(), a + ranges[0].len);
        lemma_fold_shift(ranges.drop_first(), 0 + ranges[0].len);
    }
}

/// `Figshare upload was aborted`.
pub open spec fn aborted_message() -> Seq<char> {
    seq![
        'F', 'i', 'g', 's', 'h', 'a', 'r', 'e', ' ', 'u', 'p', 'l', 'o', 'a', 'd', ' ', 'w', 'a', 's', ' ', 'a',
        'b', 'o', 'r', 't', 'e', 'd',
    ]
}

/// The verdict on a finished upload session: an aborted upload is an error.
///
/// # Errors
///
/// Returns `InvalidState("Figshare upload was aborted")` for an aborted
/// session.
pub fn finished_upload_outcome(session: &UploadSession) -> (r: Result<(), FigshareError>)
    ensures
        session.status is Aborted <==> r is Err,
        r matches Err(e) ==> e matches FigshareError::InvalidState(m) && m@ == aborted_message(),
{
    match session.status {
        UploadStatus::Aborted => {
            let msg = [
                'F', 'i', 'g', 's', 'h', 'a', 'r', 'e', ' ', 'u', 'p', 'l', 'o', 'a', 'd', ' ', 'w', 'a', 's', ' ',
                'a', 'b', 'o', 'r', 't', 'e', 'd',
            ];
            assert(msg@ =~= aborted_message());
            Err(FigshareError::InvalidState(string_of(msg.as_slice())))
        },
        _ => Ok(()),
    }
}

/// `reader produced <written> bytes but <declared> were declared`.
pub open spec fn short_reader_message(written: u64, declared: u64) -> Seq<char> {
    seq!['r', 'e', 'a', 'd', 'e', 'r', ' ', 'p', 'r', 'o', 'd', 'u', 'c', 'e', 'd', ' '] + decimal(written as nat)
        + seq![' ', 'b', 'y', 't', 'e', 's', ' ', 'b', 'u', 't', ' '] + decimal(declared as nat) + seq![
        ' ', 'w', 'e', 'r', 'e', ' ', 'd', 'e', 'c', 'l', 'a', 'r', 'e', 'd',
    ]
}

fn push_all(out: &mut Vec<char>, s: &[char])
    ensures
        final(out)@ == old(out)@ + s@,
{
    let mut i: usize = 0;
    while i < s.len()
        invariant
            i <= s.len(),
            out@ == old(out)@ + s@.take(i as int),
        decreases s.len() - i,
    {
        out.push(s[i]);
        i = i + 1;
        assert(out@ =~= old(out)@ + s@.take(i as int));
    }
    assert(s@.take(s.len() as int) =~= s@);
}

/// Checks that staging a reader copied as many bytes as were declared.
///
/// # Errors
///
/// Returns `InvalidState` naming both counts when they differ.
pub fn check_staged_length(written: u64, declared: u64) -> (r: Result<(), FigshareError>)
    ensures
        written != declared <==> r is Err,
        r matches Err(e) ==> e matches FigshareError::InvalidState(m) && m@ == short_reader_message(
            written,
            declared,
        ),
{
    if written == declared {
        return Ok(());
    }
    let mut out: Vec<char> = Vec::new();
    push_all(&mut out, &['r', 'e', 'a', 'd', 'e', 'r', ' ', 'p', 'r', 'o', 'd', 'u', 'c', 'e', 'd', ' ']);
    let w = crate::text::decimal_chars(written);
    push_all(&mut out, w.as_slice());
    push_all(&mut out, &[' ', 'b', 'y', 't', 'e', 's', ' ', 'b', 'u', 't', ' ']);
    let d = crate::text::decimal_chars(declared);
    push_all(&mut out, d.as_slice());
    push_all(&mut out, &[' ', 'w', 'e', 'r', 'e', ' ', 'd', 'e', 'c', 'l', 'a', 'r', 'e', 'd']);
    assert(out@ =~= short_reader_message(written, declared));
    Err(FigshareError::InvalidState(string_of(out.as_slice())))
}

/// The step a hosted upload has reached.
#[derive(Clone, Copy, Debug, PartialEq, Eq, Structural)]
pub enum UploadStage {
    /// Register the file (name, size and MD5) with the article.
    Initiate,
    /// Read the upload session behind the file's upload URL.
    FetchSession,
    /// Send the part at this position of the session's part list.
    SendPart(usize),
    /// Mark the upload complete.
    Complete,
    /// Wait until the upload service finishes assembling the file.
    AwaitAssembly,
    /// Read back the finished file.
    FetchFile,
    /// Delete the registered file after a failure, ignoring the outcome.
    DeleteFile,
    /// The upload is over.
    Done,
}

/// The progress of one hosted upload.
#[derive(Clone, Copy, Debug, PartialEq, Eq, Structural)]
pub struct HostedUpload {
    /// The step reached.
    pub stage: UploadStage,
    /// How many parts the upload session holds (known once it is read).
    pub part_count: usize,
    /// Whether a step failed.
    pub failed: bool,
}

/// How a hosted upload moves on when its pending step ends. A failure before
/// the file is registered ends the upload; a failure after it deletes the
/// registered file first.
pub open spec fn upload_step(u: HostedUpload, succeeded: bool, part_count: usize) -> HostedUpload {
    if !succeeded {
        match u.stage {
            UploadStage::Initiate => HostedUpload { stage: UploadStage::Done, failed: true, ..u },
            UploadStage::DeleteFile => HostedUpload { stage: UploadStage::Done, ..u },
            UploadStage::Done => u,
            _ => HostedUpload { stage: UploadStage::DeleteFile, failed: true, ..u },
        }
    } else {
        match u.stage {
            UploadStage::Initiate => HostedUpload { stage: UploadStage::FetchSession, ..u },
            UploadStage::FetchSession => if part_count == 0 {
                HostedUpload { stage: UploadStage::Complete, part_count, ..u }
            } else {
                HostedUpload { stage: UploadStage::SendPart(0), part_count, ..u }
            },
            UploadStage::SendPart(i) => if i + 1 < u.part_count {
                HostedUpload { stage: UploadStage::SendPart((i + 1) as usize), ..u }
            } else {
                HostedUpload { stage: UploadStage::Complete, ..u }
            },
            UploadStage::Complete => HostedUpload { stage: UploadStage::AwaitAssembly, ..u },
            UploadStage::AwaitAssembly => HostedUpload { stage: UploadStage::FetchFile, ..u },
            UploadStage::FetchFile => HostedUpload { stage: UploadStage::Done, ..u },
            UploadStage::DeleteFile => HostedUpload { stage: UploadStage::Done, ..u },
            UploadStage::Done => u,
        }
    }
}

impl HostedUpload {
    /// An upload about to register its file.
    pub fn new() -> (r: Self)
        ensures
            r == (HostedUpload { stage: UploadStage::Initiate, part_count: 0, failed: false }),
    {
        HostedUpload { stage: UploadStage::Initiate, part_count: 0, failed: false }
    }

    /// Records how the pending step ended. `part_count` is the number of
    /// parts of the upload session when the pending step read it, and is
    /// ignored otherwise. A step counts as failed when its call failed, and
    /// also when the registered file has no upload URL or the finished
    /// session was aborted.
    pub fn step(&mut self, succeeded: bool, part_count: usize)
        requires
            old(self).stage matches UploadStage::SendPart(i) ==> i < old(self).part_count,
        ensures
            *final(self) == upload_step(*old(self), succeeded, part_count),
            final(self).stage matches UploadStage::SendPart(i) ==> i < final(self).part_count,
    {
        if !succeeded {
            match self.stage {
                UploadStage::Initiate => {
                    self.stage = UploadStage::Done;
                    self.failed = true;
                },
                UploadStage::DeleteFile => {
                    self.stage = UploadStage::Done;
                },
                UploadStage::Done => {},
                _ => {
                    self.stage = UploadStage::DeleteFile;
                    self.failed = true;
                },
            }
            return;
        }
        match self.stage {
            UploadStage::Initiate => {
                self.stage = UploadStage::FetchSession;
            },
            UploadStage::FetchSession => {
                self.part_count = part_count;
                self.stage = if part_count == 0 {
                    UploadStage::Complete
                } else {
                    UploadStage::SendPart(0)
                };
            },
            UploadStage::SendPart(i) => {
                self.stage = if i + 1 < self.part_count {
                    UploadStage::SendPart(i + 1)
                } else {
                    UploadStage::Complete
                };
            },
            UploadStage::Complete => {
                self.stage = UploadStage::AwaitAssembly;
            },
            UploadStage::AwaitAssembly => {
                self.stage = UploadStage::FetchFile;
            },
            UploadStage::FetchFile => {
                self.stage = UploadStage::Done;
            },
            UploadStage::DeleteFile => {
                self.stage = UploadStage::Done;
            },
            UploadStage::Done => {},
        }
    }
}

/// Once the file is registered, a failure of any later step deletes it before
/// the upload ends, and a failure to register leaves nothing to delete.
pub proof fn lemma_failed_upload_deletes_registered_file(u: HostedUpload, part_count: usize)
    ensures
        u.stage == UploadStage::Initiate ==> upload_step(u, false, part_count).stage == UploadStage::Done,
        (u.stage != UploadStage::Initiate && u.stage != UploadStage::DeleteFile && u.stage
            != UploadStage::Done) ==> upload_step(u, false, part_count).stage == UploadStage::DeleteFile,
        upload_step(u, true, part_count).stage != UploadStage::DeleteFile || u.stage == UploadStage::DeleteFile,
{
}

/// When every step succeeds, the parts are sent one after the other in the
/// session's order: part `i` comes right after part `i - 1`, and the upload is
/// completed right after the last part.
pub proof fn lemma_parts_sent_in_order(u: HostedUpload, i: usize)
    requires
        u.stage == UploadStage::SendPart(i),
        i < u.part_count,
    ensures
        i + 1 < u.part_count ==> upload_step(u, true, 0).stage == UploadStage::SendPart((i + 1) as usize),
        i + 1 == u.part_count ==> upload_step(u, true, 0).stage == UploadStage::Complete,
{
}

/// The upload after `k` more steps that all succeed. The part count passed
/// with a step is only read when the session is read, so these pass none.
pub open spec fn run_ok(u: HostedUpload, k: nat) -> HostedUpload
    decreases k,
{
    if k == 0 {
        u
    } else {
        upload_step(run_ok(u, (k - 1) as nat), true, 0)
    }
}

proof fn lemma_run_ok_sends_parts(u: HostedUpload, n: usize, j: nat)
    requires
        u.stage == UploadStage::SendPart(0),
        u.part_count == n,
        j < n,
    ensures
        run_ok(u, j) == (HostedUpload { stage: UploadStage::SendPart(j as usize), ..u }),
    decreases j,
{
    if j > 0 {
        lemma_run_ok_sends_parts(u, n, (j - 1) as nat);
    }
}

/// When every step succeeds, reading a session of `n` parts leads to sending
/// each part exactly once, part `j` at the `j`-th step after the read, and
/// to completing the upload right after the last part (at once when there
/// are no parts); nothing counts as failed on the way.
pub proof fn lemma_every_part_sent_before_complete(u: HostedUpload, n: usize, j: nat)
    requires
        u.stage == UploadStage::FetchSession,
        !u.failed,
    ensures
        j < n ==> run_ok(upload_step(u, true, n), j).stage == UploadStage::SendPart(j as usize),
        run_ok(upload_step(u, true, n), n as nat).stage == UploadStage::Complete,
        !run_ok(upload_step(u, true, n), j).failed || j > n,
        upload_step(u, true, n).part_count == n,
{
    let s0 = upload_step(u, true, n);
    if n > 0 && s0.stage == UploadStage::SendPart(0) && s0.part_count == n {
        if j < n {
            lemma_run_ok_sends_parts(s0, n, j);
        }
        lemma_run_ok_sends_parts(s0, n, (n - 1) as nat);
        assert(run_ok(s0, n as nat) == upload_step(run_ok(s0, (n - 1) as nat), true, 0));
        if j == n {
            assert(!run_ok(s0, n as nat).failed);
        }
    }
}

} // verus!
