//! The per-file multipart session: a state machine over the part plan, the
//! digest slots, the shared uploaded-byte counter with its rollback rule,
//! and the request accounting.
//!
//! The driver performs the network calls and hands each outcome back; the
//! transitions here decide what the session may do next, and their
//! contracts pin down the accounting exactly.

use vstd::prelude::*;
use vstd::pervasive::VecAdditionalExecFns;
use crate::plan::PartPlan;

verus! {

/// The digest record of one acknowledged part.
#[derive(Clone, Debug)]
pub struct PartResult {
    pub part_number: u16,
    pub sha1_hex: String,
    pub length: u64,
}

/// The phases of one multipart upload. `Failed` is reachable from every
/// phase but `Finalized`.
#[derive(Clone, Copy, Debug, PartialEq, Eq, Structural)]
pub enum UploadPhase {
    Planned,
    Started,
    PartsInFlight,
    AllPartsAcked,
    Finalized,
    Failed,
}

/// How many digest slots are filled.
pub open spec fn count_filled(s: Seq<Option<PartResult>>) -> int
    decreases s.len(),
{
    if s.len() == 0 {
        0int
    } else {
        count_filled(s.drop_last()) + if s.last() is Some {
            1int
        } else {
            0int
        }
    }
}

pub proof fn lemma_count_filled_bounds(s: Seq<Option<PartResult>>)
    ensures
        0 <= count_filled(s) <= s.len(),
    decreases s.len(),
{
    if s.len() > 0 {
        lemma_count_filled_bounds(s.drop_last());
    }
}

/// Filling one empty slot raises the filled count by exactly one.
pub proof fn lemma_count_filled_fill(s: Seq<Option<PartResult>>, i: int, v: PartResult)
    requires
        0 <= i < s.len(),
        s[i] is None,
    ensures
        count_filled(s.update(i, Some(v))) == count_filled(s) + 1,
    decreases s.len(),
{
    let t = s.update(i, Some(v));
    if i == s.len() - 1 {
        assert(t.drop_last() =~= s.drop_last());
        assert(t.last() == Some(v));
        assert(s.last() is None);
    } else {
        assert(t.drop_last() =~= s.drop_last().update(i, Some(v)));
        assert(t.last() == s.last());
        lemma_count_filled_fill(s.drop_last(), i, v);
    }
}

/// A full count means every slot is filled.
pub proof fn lemma_count_filled_full(s: Seq<Option<PartResult>>)
    requires
        count_filled(s) == s.len(),
    ensures
        forall|i: int| 0 <= i < s.len() ==> s[i] is Some,
    decreases s.len(),
{
    if s.len() > 0 {
        lemma_count_filled_bounds(s.drop_last());
        assert(s.last() is Some);
        lemma_count_filled_full(s.drop_last());
        assert forall|i: int| 0 <= i < s.len() implies s[i] is Some by {
            if i < s.len() - 1 {
                assert(s.drop_last()[i] is Some);
            }
        }
    }
}

pub proof fn lemma_count_filled_none(s: Seq<Option<PartResult>>)
    requires
        forall|i: int| 0 <= i < s.len() ==> s[i] is None,
    ensures
        count_filled(s) == 0,
    decreases s.len(),
{
    if s.len() > 0 {
        assert(s.drop_last().len() == s.len() - 1);
        assert(forall|i: int| 0 <= i < s.drop_last().len() ==> s.drop_last()[i] is None);
        lemma_count_filled_none(s.drop_last());
    }
}

/// One multipart upload in flight: the plan, the current phase, the
/// server-side file handle, the slot-indexed digest records, the shared
/// uploaded-byte counter, and how many requests of each kind were issued.
pub struct MultipartSession {
    pub plan: PartPlan,
    pub phase: UploadPhase,
    pub file_id: Option<String>,
    pub slots: Vec<Option<PartResult>>,
    pub acked: usize,
    pub uploaded_bytes: u64,
    pub start_requests: u64,
    pub finish_requests: u64,
    pub part_url_requests: u64,
}

impl MultipartSession {
    /// The session invariant: one slot per planned part, each filled slot
    /// recording its own part's number and length, the counter within the
    /// file size, and the request accounting tied to the phase.
    pub open spec fn wf(self) -> bool {
        let n = self.slots@.len() as int;
        &&& self.plan.wf()
        &&& n == self.plan.parts@.len()
        &&& self.acked as int == count_filled(self.slots@)
        &&& forall|i: int|
            0 <= i < n ==> ((#[trigger] self.slots@[i]) matches Some(p) ==> p.part_number
                == self.plan.parts@[i].part_number && p.length == self.plan.parts@[i].length
                && p.sha1_hex@.len() == 40)
        &&& self.uploaded_bytes <= self.plan.file_size
        &&& match self.phase {
            UploadPhase::Planned => self.file_id is None && self.acked == 0 && self.uploaded_bytes
                == 0 && self.start_requests == 0 && self.finish_requests == 0
                && self.part_url_requests == 0,
            UploadPhase::Started => self.file_id is Some && self.acked == 0 && self.start_requests
                == 1 && self.finish_requests == 0,
            UploadPhase::PartsInFlight => self.file_id is Some && 1 <= self.acked < n
                && self.start_requests == 1 && self.finish_requests == 0,
            UploadPhase::AllPartsAcked => self.file_id is Some && self.acked == n
                && self.start_requests == 1 && self.finish_requests == 0,
            UploadPhase::Finalized => self.file_id is Some && self.acked == n
                && self.start_requests == 1 && self.finish_requests == 1,
            UploadPhase::Failed => true,
        }
    }

    /// A fresh session over a plan: nothing requested, nothing counted.
    pub fn new(plan: PartPlan) -> (r: MultipartSession)
        requires
            plan.wf(),
        ensures
            r.wf(),
            r.plan == plan,
            r.phase == UploadPhase::Planned,
            r.uploaded_bytes == 0,
            r.start_requests == 0,
            r.finish_requests == 0,
            r.part_url_requests == 0,
            r.slots@.len() == plan.parts@.len(),
            forall|i: int| 0 <= i < r.slots@.len() ==> r.slots@[i] is None,
    {
        let n = plan.parts.len();
        let mut slots: Vec<Option<PartResult>> = Vec::new();
        let mut i: usize = 0;
        while i < n
            invariant
                i <= n,
                slots@.len() == i,
                forall|j: int| 0 <= j < i ==> slots@[j] is None,
            decreases n - i,
        {
            slots.push(None);
            i = i + 1;
        }
        proof {
            lemma_count_filled_none(slots@);
        }
        MultipartSession {
            plan,
            phase: UploadPhase::Planned,
            file_id: None,
            slots,
            acked: 0,
            uploaded_bytes: 0,
            start_requests: 0,
            finish_requests: 0,
            part_url_requests: 0,
        }
    }

    /// Records the start-large-file acknowledgement that opened the
    /// server-side session. Only a planned session starts, so a session
    /// issues exactly one start request.
    pub fn on_started(&mut self, file_id: String)
        requires
            old(self).wf(),
            old(self).phase == UploadPhase::Planned,
        ensures
            final(self).wf(),
            final(self).phase == UploadPhase::Started,
            final(self).file_id == Some(file_id),
            final(self).start_requests == 1,
            final(self).plan == old(self).plan,
            final(self).slots == old(self).slots,
            final(self).acked == old(self).acked,
            final(self).uploaded_bytes == old(self).uploaded_bytes,
            final(self).finish_requests == old(self).finish_requests,
            final(self).part_url_requests == old(self).part_url_requests,
    {
        self.phase = UploadPhase::Started;
        self.file_id = Some(file_id);
        self.start_requests = 1;
    }

    /// Counts one get-upload-part-url request: a worker takes one per
    /// batch, and one more for every service-busy retry.
    pub fn on_part_url_requested(&mut self)
        requires
            old(self).wf(),
            old(self).phase == UploadPhase::Started || old(self).phase
                == UploadPhase::PartsInFlight,
            old(self).part_url_requests < u64::MAX,
        ensures
            final(self).wf(),
            final(self).part_url_requests == old(self).part_url_requests + 1,
            final(self).phase == old(self).phase,
            final(self).plan == old(self).plan,
            final(self).file_id == old(self).file_id,
            final(self).slots == old(self).slots,
            final(self).acked == old(self).acked,
            final(self).uploaded_bytes == old(self).uploaded_bytes,
            final(self).start_requests == old(self).start_requests,
            final(self).finish_requests == old(self).finish_requests,
    {
        self.part_url_requests = self.part_url_requests + 1;
    }

    /// Adds one sub-chunk's length to the shared uploaded-byte counter.
    pub fn add_uploaded_bytes(&mut self, n: u64)
        requires
            old(self).wf(),
            old(self).phase == UploadPhase::Started || old(self).phase
                == UploadPhase::PartsInFlight,
            old(self).uploaded_bytes + n <= old(self).plan.file_size,
        ensures
            final(self).wf(),
            final(self).uploaded_bytes == old(self).uploaded_bytes + n,
            final(self).uploaded_bytes >= old(self).uploaded_bytes,
            final(self).phase == old(self).phase,
            final(self).plan == old(self).plan,
            final(self).file_id == old(self).file_id,
            final(self).slots == old(self).slots,
            final(self).acked == old(self).acked,
            final(self).start_requests == old(self).start_requests,
            final(self).finish_requests == old(self).finish_requests,
            final(self).part_url_requests == old(self).part_url_requests,
    {
        self.uploaded_bytes = self.uploaded_bytes + n;
    }

    /// Rolls a failed part attempt's bytes back out of the counter, so that
    /// progress never over-reports across a service-busy retry.
    pub fn rollback_uploaded_bytes(&mut self, n: u64)
        requires
            old(self).wf(),
            old(self).phase == UploadPhase::Started || old(self).phase
                == UploadPhase::PartsInFlight,
            n <= old(self).uploaded_bytes,
        ensures
            final(self).wf(),
            final(self).uploaded_bytes == old(self).uploaded_bytes - n,
            final(self).phase == old(self).phase,
            final(self).plan == old(self).plan,
            final(self).file_id == old(self).file_id,
            final(self).slots == old(self).slots,
            final(self).acked == old(self).acked,
            final(self).start_requests == old(self).start_requests,
            final(self).finish_requests == old(self).finish_requests,
            final(self).part_url_requests == old(self).part_url_requests,
    {
        self.uploaded_bytes = self.uploaded_bytes - n;
    }

    /// Records the acknowledgement of one part: writes its digest into its
    /// own slot, which must still be empty, so no part is ever recorded
    /// twice. The session leaves the in-flight phase exactly when every
    /// slot is filled.
    pub fn record_part(&mut self, index: usize, sha1_hex: String, length: u64)
        requires
            old(self).wf(),
            old(self).phase == UploadPhase::Started || old(self).phase
                == UploadPhase::PartsInFlight,
            index < old(self).slots@.len(),
            old(self).slots@[index as int] is None,
            length == old(self).plan.parts@[index as int].length,
            sha1_hex@.len() == 40,
        ensures
            final(self).wf(),
            final(self).slots@ == old(self).slots@.update(
                index as int,
                Some(
                    PartResult {
                        part_number: old(self).plan.parts@[index as int].part_number,
                        sha1_hex,
                        length,
                    },
                ),
            ),
            final(self).acked == old(self).acked + 1,
            final(self).phase == if final(self).acked == final(self).slots@.len() {
                UploadPhase::AllPartsAcked
            } else {
                UploadPhase::PartsInFlight
            },
            final(self).plan == old(self).plan,
            final(self).file_id == old(self).file_id,
            final(self).uploaded_bytes == old(self).uploaded_bytes,
            final(self).start_requests == old(self).start_requests,
            final(self).finish_requests == old(self).finish_requests,
            final(self).part_url_requests == old(self).part_url_requests,
    {
        let part_number = self.plan.parts[index].part_number;
        let record = PartResult { part_number, sha1_hex, length };
        proof {
            lemma_count_filled_fill(self.slots@, index as int, record);
            lemma_count_filled_bounds(self.slots@);
        }
        self.slots.set(index, Some(record));
        self.acked = self.acked + 1;
        if self.acked == self.slots.len() {
            self.phase = UploadPhase::AllPartsAcked;
        } else {
            self.phase = UploadPhase::PartsInFlight;
        }
    }

    /// The digest list the finalize call sends: one digest per part, in
    /// ascending part-number order, read out of the slots.
    pub fn finish_digest_list(&self) -> (r: Vec<String>)
        requires
            self.wf(),
            self.phase == UploadPhase::AllPartsAcked,
        ensures
            r@.len() == self.slots@.len(),
            forall|i: int| 0 <= i < r@.len() ==> r@[i]@ == self.slots@[i]->0.sha1_hex@,
    {
        proof {
            lemma_count_filled_full(self.slots@);
        }
        let n = self.slots.len();
        let mut r: Vec<String> = Vec::new();
        let mut i: usize = 0;
        while i < n
            invariant
                i <= n == self.slots@.len(),
                forall|j: int| 0 <= j < n ==> self.slots@[j] is Some,
                r@.len() == i,
                forall|j: int| 0 <= j < i ==> r@[j]@ == self.slots@[j]->0.sha1_hex@,
            decreases n - i,
        {
            match &self.slots[i] {
                Some(p) => {
                    r.push(p.sha1_hex.clone());
                },
                None => {
                    proof {
                        assert(false);
                    }
                },
            }
            i = i + 1;
        }
        r
    }

    /// Records the finish-large-file acknowledgement. Only a session with
    /// every part acknowledged finalizes, and it does so exactly once.
    pub fn on_finished(&mut self)
        requires
            old(self).wf(),
            old(self).phase == UploadPhase::AllPartsAcked,
        ensures
            final(self).wf(),
            final(self).phase == UploadPhase::Finalized,
            final(self).finish_requests == 1,
            final(self).plan == old(self).plan,
            final(self).file_id == old(self).file_id,
            final(self).slots == old(self).slots,
            final(self).acked == old(self).acked,
            final(self).uploaded_bytes == old(self).uploaded_bytes,
            final(self).start_requests == old(self).start_requests,
            final(self).part_url_requests == old(self).part_url_requests,
    {
        self.phase = UploadPhase::Finalized;
        self.finish_requests = 1;
    }

    /// A non-retryable failure anywhere fails the whole file: the
    /// in-progress large file is discarded, never finalized.
    pub fn on_fatal(&mut self)
        requires
            old(self).wf(),
            old(self).phase != UploadPhase::Finalized,
        ensures
            final(self).wf(),
            final(self).phase == UploadPhase::Failed,
            final(self).plan == old(self).plan,
            final(self).file_id == old(self).file_id,
            final(self).slots == old(self).slots,
            final(self).acked == old(self).acked,
            final(self).uploaded_bytes == old(self).uploaded_bytes,
            final(self).start_requests == old(self).start_requests,
            final(self).finish_requests == old(self).finish_requests,
            final(self).part_url_requests == old(self).part_url_requests,
    {
        self.phase = UploadPhase::Failed;
    }
}

/// Every filled slot of a session with all parts acknowledged holds the
/// digest of its own part: slot `i` carries part number `i + 1`, so the
/// finalize list is in ascending part-number order with no gaps and no
/// duplicates.
pub proof fn lemma_digest_slots_ordered(s: MultipartSession)
    requires
        s.wf(),
        s.phase == UploadPhase::AllPartsAcked,
    ensures
        forall|i: int|
            0 <= i < s.slots@.len() ==> ((#[trigger] s.slots@[i]) matches Some(p) && p.part_number
                == i + 1),
{
    lemma_count_filled_full(s.slots@);
}

/// A session that reached the finalize acknowledgement issued exactly one
/// start request and one finish request, and acknowledged exactly one part
/// upload for each of the ceiling of size over part size planned parts.
pub proof fn lemma_finalized_request_counts(s: MultipartSession)
    requires
        s.wf(),
        s.phase == UploadPhase::Finalized,
    ensures
        s.start_requests == 1,
        s.finish_requests == 1,
        s.acked as int == s.plan.parts@.len(),
        s.acked as int == crate::plan::spec_part_count(
            s.plan.file_size as int,
            s.plan.part_size as int,
        ),
{
}

/// A service-busy retry first rolls the failed attempt's bytes back out of
/// the shared counter, so counting the successful attempt leaves the same
/// total as an upload that never failed: the counter has no net change
/// from the retry.
pub proof fn lemma_rollback_then_retry_counts_once(before: int, attempt: int, part_len: int)
    ensures
        before + attempt - attempt + part_len == before + part_len,
{
}

} // verus!
