//! The per-job orchestration rules: strategy selection by size, the fixed
//! engine constants, the single-shot session, the outer retry budget, and
//! the shape of a batch's outcomes.

use vstd::prelude::*;
use vstd::arithmetic::div_mod::lemma_div_is_ordered;
use vstd::arithmetic::div_mod::lemma_div_by_multiple;
use vstd::arithmetic::div_mod::lemma_fundamental_div_mod;
use vstd::string::StrSliceExecFns;
use vstd::string::StringExecFns;
use vstd::string::StringSliceAdditionalSpecFns;
use crate::encoding::percent_encode;
use crate::encoding::percent_encoding_of;
use crate::encoding::push_char;
use crate::plan::PartPlan;
use crate::plan::spec_part_count;
use crate::structs::B2BasicError;
use crate::structs::B2File;

verus! {

/// Fixed part size of the multipart engine: 20 MiB.
pub const PART_SIZE: u64 = 20 * 1024 * 1024;

/// Files above this size take the multipart path: 200 MiB.
pub const LARGE_FILE_THRESHOLD: u64 = 200 * 1024 * 1024;

/// How many parts one worker takes per batch.
pub const PART_BATCH_SIZE: usize = 10;

/// The sub-chunk size a part body streams in while the shared counter
/// advances.
pub const SUB_CHUNK_SIZE: usize = 80 * 1024;

/// How many consecutive failures of one whole job its retry budget allows.
pub const RETRY_CAP: u32 = 50;

/// The fixed pause before the whole job is retried.
pub const RETRY_BACKOFF_MILLIS: u64 = 750;

/// One file handed to the uploader.
#[derive(Clone, Debug)]
pub struct UploadFile {
    pub path: String,
}

/// A metadata map with every key and value percent-encoded, as the wire
/// carries it.
pub open spec fn spec_encoded_metadata(raw: Seq<(Seq<char>, Seq<char>)>) -> Seq<
    (Seq<char>, Seq<char>),
> {
    Seq::new(
        raw.len(),
        |i: int|
            (
                percent_encoding_of(vstd::utf8::encode_utf8(raw[i].0)),
                percent_encoding_of(vstd::utf8::encode_utf8(raw[i].1)),
            ),
    )
}

/// Percent-encodes a metadata map, key and value alike.
pub fn encode_metadata(raw: &Vec<(String, String)>) -> (r: Vec<(String, String)>)
    ensures
        r.deep_view() == spec_encoded_metadata(raw.deep_view()),
{
    let mut out: Vec<(String, String)> = Vec::new();
    let n = raw.len();
    let mut i: usize = 0;
    while i < n
        invariant
            i <= n == raw@.len(),
            out.deep_view() == spec_encoded_metadata(raw.deep_view().take(i as int)),
        decreases n - i,
    {
        let key = percent_encode(raw[i].0.as_str());
        let value = percent_encode(raw[i].1.as_str());
        let pair = (key, value);
        proof {
            let ghost dv = raw.deep_view();
            assert(dv[i as int] == (raw@[i as int].0@, raw@[i as int].1@));
            assert(pair.deep_view() == (
                percent_encoding_of(vstd::utf8::encode_utf8(dv[i as int].0)),
                percent_encoding_of(vstd::utf8::encode_utf8(dv[i as int].1)),
            ));
        }
        let ghost prev = out.deep_view();
        let ghost entry = pair.deep_view();
        out.push(pair);
        proof {
            let ghost dv = raw.deep_view();
            assert(out.deep_view() =~= prev.push(entry));
            assert(dv.take(i + 1 as int) =~= dv.take(i as int).push(dv[i as int]));
            assert(spec_encoded_metadata(dv.take(i + 1 as int)) =~= prev.push(entry));
        }
        i = i + 1;
    }
    proof {
        assert(raw.deep_view().take(n as int) =~= raw.deep_view());
    }
    out
}

/// One upload job: the source path, the encoded destination name, the
/// encoded metadata, and the target bucket. Immutable once created; one per
/// file submitted.
#[derive(Clone, Debug)]
pub struct UploadJob {
    pub path: String,
    pub object_name: String,
    pub metadata: Vec<(String, String)>,
    pub bucket_id: String,
}

impl UploadJob {
    /// Builds a job: the destination name and the metadata are encoded
    /// here, once, and never touched again.
    pub fn new(
        path: String,
        name_prefix: &str,
        file_name: &str,
        metadata: &Vec<(String, String)>,
        bucket_id: String,
    ) -> (r: UploadJob)
        ensures
            r.path == path,
            r.bucket_id == bucket_id,
            r.object_name@ == percent_encoding_of(name_prefix.spec_bytes()) + seq!['/']
                + percent_encoding_of(file_name.spec_bytes()),
            r.metadata.deep_view() == spec_encoded_metadata(metadata.deep_view()),
    {
        UploadJob {
            path,
            object_name: object_name(name_prefix, file_name),
            metadata: encode_metadata(metadata),
            bucket_id,
        }
    }
}

/// Which upload path a file takes.
#[derive(Clone, Copy, Debug, PartialEq, Eq, Structural)]
pub enum UploadStrategy {
    SingleShot,
    Multipart,
}

/// Strategy selection: at most the threshold goes single shot, anything
/// larger goes multipart.
pub fn choose_strategy(file_size: u64) -> (r: UploadStrategy)
    ensures
        r == UploadStrategy::Multipart <==> file_size > LARGE_FILE_THRESHOLD,
{
    if file_size > LARGE_FILE_THRESHOLD {
        UploadStrategy::Multipart
    } else {
        UploadStrategy::SingleShot
    }
}

/// Plans a multipart file with the engine's fixed part size.
pub fn plan_for_file(file_size: u64) -> (r: PartPlan)
    requires
        file_size > LARGE_FILE_THRESHOLD,
        file_size <= 0xffff * PART_SIZE,
    ensures
        r.wf(),
        r.file_size == file_size,
        r.part_size == PART_SIZE,
{
    proof {
        let size = file_size as int;
        let ps = PART_SIZE as int;
        lemma_fundamental_div_mod(size, ps);
        lemma_div_is_ordered(size, 0xffff * ps, ps);
        lemma_div_by_multiple(0xffff, ps);
        assert(size / ps <= 0xffff);
        if size % ps != 0 && size / ps == 0xffff {
            assert(size == ps * (size / ps) + size % ps);
            assert(ps * 0xffff == 0xffff * ps) by (nonlinear_arith);
            assert(size > 0xffff * ps);
            assert(false);
        }
        assert(spec_part_count(size, ps) <= 0xffff);
    }
    PartPlan::new(file_size, PART_SIZE)
}

/// The destination object name: the bucket path prefix and the file name,
/// each percent-encoded, joined by a path separator.
pub fn object_name(prefix: &str, file_name: &str) -> (r: String)
    ensures
        r@ == percent_encoding_of(prefix.spec_bytes()) + seq!['/'] + percent_encoding_of(
            file_name.spec_bytes(),
        ),
{
    let mut out = percent_encode(prefix);
    push_char(&mut out, '/');
    let encoded_name = percent_encode(file_name);
    out.append(encoded_name.as_str());
    out
}

/// The phases of one single-shot upload.
#[derive(Clone, Copy, Debug, PartialEq, Eq, Structural)]
pub enum SingleShotPhase {
    Ready,
    UrlIssued,
    Uploaded,
    Failed,
}

/// One single-shot upload in flight: the whole file's digest is computed up
/// front, one upload URL is requested, and the body goes out in one
/// request while the counter advances.
pub struct SingleShotSession {
    pub file_size: u64,
    /// Hex SHA-1 of the whole file, computed before any request.
    pub content_sha1: String,
    pub phase: SingleShotPhase,
    pub uploaded_bytes: u64,
    pub url_requests: u64,
    pub upload_requests: u64,
}

impl SingleShotSession {
    pub open spec fn wf(self) -> bool {
        &&& self.content_sha1@.len() == 40
        &&& self.uploaded_bytes <= self.file_size
        &&& match self.phase {
            SingleShotPhase::Ready => self.uploaded_bytes == 0 && self.url_requests == 0
                && self.upload_requests == 0,
            SingleShotPhase::UrlIssued => self.url_requests == 1 && self.upload_requests == 0,
            SingleShotPhase::Uploaded => self.url_requests == 1 && self.upload_requests == 1,
            SingleShotPhase::Failed => true,
        }
    }

    pub fn new(file_size: u64, content_sha1: String) -> (r: SingleShotSession)
        requires
            content_sha1@.len() == 40,
        ensures
            r.wf(),
            r.file_size == file_size,
            r.content_sha1 == content_sha1,
            r.phase == SingleShotPhase::Ready,
            r.uploaded_bytes == 0,
            r.url_requests == 0,
            r.upload_requests == 0,
    {
        SingleShotSession {
            file_size,
            content_sha1,
            phase: SingleShotPhase::Ready,
            uploaded_bytes: 0,
            url_requests: 0,
            upload_requests: 0,
        }
    }

    /// Records the one get-upload-url answer. Only a fresh session asks, so
    /// exactly one URL request is ever issued.
    pub fn on_url_issued(&mut self)
        requires
            old(self).wf(),
            old(self).phase == SingleShotPhase::Ready,
        ensures
            final(self).wf(),
            final(self).phase == SingleShotPhase::UrlIssued,
            final(self).url_requests == 1,
            final(self).file_size == old(self).file_size,
            final(self).content_sha1 == old(self).content_sha1,
            final(self).uploaded_bytes == old(self).uploaded_bytes,
            final(self).upload_requests == old(self).upload_requests,
    {
        self.phase = SingleShotPhase::UrlIssued;
        self.url_requests = 1;
    }

    /// Advances the progress counter while the body streams out.
    pub fn add_uploaded_bytes(&mut self, n: u64)
        requires
            old(self).wf(),
            old(self).phase == SingleShotPhase::UrlIssued,
            old(self).uploaded_bytes + n <= old(self).file_size,
        ensures
            final(self).wf(),
            final(self).uploaded_bytes == old(self).uploaded_bytes + n,
            final(self).phase == old(self).phase,
            final(self).file_size == old(self).file_size,
            final(self).content_sha1 == old(self).content_sha1,
            final(self).url_requests == old(self).url_requests,
            final(self).upload_requests == old(self).upload_requests,
    {
        self.uploaded_bytes = self.uploaded_bytes + n;
    }

    /// Records the stored-object acknowledgement of the one body request.
    pub fn on_uploaded(&mut self)
        requires
            old(self).wf(),
            old(self).phase == SingleShotPhase::UrlIssued,
        ensures
            final(self).wf(),
            final(self).phase == SingleShotPhase::Uploaded,
            final(self).upload_requests == 1,
            final(self).file_size == old(self).file_size,
            final(self).content_sha1 == old(self).content_sha1,
            final(self).uploaded_bytes == old(self).uploaded_bytes,
            final(self).url_requests == old(self).url_requests,
    {
        self.phase = SingleShotPhase::Uploaded;
        self.upload_requests = 1;
    }

    pub fn on_fatal(&mut self)
        requires
            old(self).wf(),
            old(self).phase != SingleShotPhase::Uploaded,
        ensures
            final(self).wf(),
            final(self).phase == SingleShotPhase::Failed,
            final(self).file_size == old(self).file_size,
            final(self).content_sha1 == old(self).content_sha1,
            final(self).uploaded_bytes == old(self).uploaded_bytes,
            final(self).url_requests == old(self).url_requests,
            final(self).upload_requests == old(self).upload_requests,
    {
        self.phase = SingleShotPhase::Failed;
    }
}

/// A completed single-shot upload asked for exactly one upload URL and sent
/// exactly one body, carrying the one digest computed over the whole file.
pub proof fn lemma_single_shot_request_counts(s: SingleShotSession)
    requires
        s.wf(),
        s.phase == SingleShotPhase::Uploaded,
    ensures
        s.url_requests == 1,
        s.upload_requests == 1,
        s.content_sha1@.len() == 40,
{
}

/// What the outer retry loop decides after one failed attempt of a job.
#[derive(Clone, Copy, Debug, PartialEq, Eq, Structural)]
pub enum RetryDecision {
    RetryAfterMillis(u64),
    GiveUp,
}

/// The outer retry budget of one job: consecutive failures against a fixed
/// cap.
#[derive(Clone, Copy, Debug, PartialEq, Eq, Structural)]
pub struct RetryPolicy {
    pub failures: u32,
    pub cap: u32,
}

impl RetryPolicy {
    pub fn new(cap: u32) -> (r: RetryPolicy)
        ensures
            r.failures == 0,
            r.cap == cap,
    {
        RetryPolicy { failures: 0, cap }
    }

    /// Counts one failed attempt of the whole job. The job is retried after
    /// the fixed backoff while the count stays under the cap, and gives up
    /// the moment it reaches it; nothing from the failed attempt is reused.
    pub fn on_failure(&mut self) -> (d: RetryDecision)
        requires
            old(self).failures < u32::MAX,
        ensures
            final(self).failures == old(self).failures + 1,
            final(self).cap == old(self).cap,
            d == (if final(self).failures < final(self).cap {
                RetryDecision::RetryAfterMillis(RETRY_BACKOFF_MILLIS)
            } else {
                RetryDecision::GiveUp
            }),
    {
        self.failures = self.failures + 1;
        if self.failures < self.cap {
            RetryDecision::RetryAfterMillis(RETRY_BACKOFF_MILLIS)
        } else {
            RetryDecision::GiveUp
        }
    }

    /// A successful attempt clears the consecutive-failure count.
    pub fn on_success(&mut self)
        ensures
            final(self).failures == 0,
            final(self).cap == old(self).cap,
    {
        self.failures = 0;
    }
}

/// The outcome of one file of a batch, in submission order: stored, failed
/// with its typed error, or aborted because a sibling exhausted its retry
/// budget.
pub enum FileOutcome {
    Stored(B2File),
    Failed(B2BasicError),
    Aborted,
}

/// Settles a batch when a give-up cancelled its unfinished siblings: every
/// finished file keeps its own outcome in its own position, and every file
/// still unfinished is reported aborted. One outcome per submitted file,
/// in submission order.
pub fn resolve_batch_outcomes(partial: Vec<Option<FileOutcome>>) -> (r: Vec<FileOutcome>)
    ensures
        r@.len() == partial@.len(),
        forall|i: int|
            0 <= i < partial@.len() ==> ((#[trigger] partial@[i]) matches Some(o) ==> r@[i] == o),
        forall|i: int|
            0 <= i < partial@.len() ==> ((#[trigger] partial@[i]) is None ==> r@[i]
                == FileOutcome::Aborted),
{
    let ghost orig = partial@;
    let mut rest = partial;
    let mut out: Vec<FileOutcome> = Vec::new();
    while rest.len() > 0
        invariant
            out@.len() + rest@.len() == orig.len(),
            rest@ == orig.skip(out@.len() as int),
            forall|j: int| 0 <= j < out@.len() ==> ((#[trigger] orig[j]) matches Some(o) ==> out@[j] == o),
            forall|j: int|
                0 <= j < out@.len() ==> ((#[trigger] orig[j]) is None ==> out@[j]
                    == FileOutcome::Aborted),
        decreases rest@.len(),
    {
        let ghost k = out@.len() as int;
        let head = rest.remove(0);
        proof {
            assert(orig.skip(k)[0] == orig[k]);
            assert(rest@ =~= orig.skip(k + 1));
        }
        match head {
            Some(o) => out.push(o),
            None => out.push(FileOutcome::Aborted),
        }
        proof {
            assert(out@[k] == (match orig[k] {
                Some(o) => o,
                None => FileOutcome::Aborted,
            }));
        }
    }
    out
}

} // verus!
