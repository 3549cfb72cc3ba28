//! Aggregate statistics over a snapshot collection: distribution of the two
//! snapshot kinds and per-kind frame coverage, computed in one linear pass.

use vstd::prelude::*;
use crate::group::{
    any_pred, contains_id, frame_order, frame_order_by, lemma_distinct_subset_len,
    lemma_frame_order_by_contains, lemma_frame_order_by_no_dup,
};
use crate::snapshot::{ExecutionFrameId, Snapshot, SnapshotDetail, Snapshots};

verus! {

/// Statistics about snapshot distribution and frame coverage.
#[derive(Debug, Clone)]
pub struct SnapshotStats {
    /// Total number of snapshots
    pub total_snapshots: usize,
    /// Number of hook-based snapshots
    pub hook_snapshots: usize,
    /// Number of opcode-level snapshots
    pub opcode_snapshots: usize,
    /// Total number of unique execution frames
    pub total_frames: usize,
    /// Number of frames that have hook snapshots
    pub frames_with_hooks: usize,
    /// Number of frames that have opcode snapshots
    pub frames_with_opcodes: usize,
}

/// How many entries carry a hook snapshot.
pub open spec fn hook_count_of(s: Seq<(ExecutionFrameId, Snapshot)>) -> nat
    decreases s.len(),
{
    if s.len() == 0 {
        0
    } else {
        hook_count_of(s.drop_last()) + (if s.last().1.detail is Hook {
            1nat
        } else {
            0nat
        })
    }
}

/// How many entries carry an opcode snapshot.
pub open spec fn opcode_count_of(s: Seq<(ExecutionFrameId, Snapshot)>) -> nat
    decreases s.len(),
{
    if s.len() == 0 {
        0
    } else {
        opcode_count_of(s.drop_last()) + (if s.last().1.detail is Opcode {
            1nat
        } else {
            0nat
        })
    }
}

/// The predicate selecting hook snapshots.
pub open spec fn hook_pred() -> spec_fn(Snapshot) -> bool {
    |snapshot: Snapshot| snapshot.detail is Hook
}

/// The predicate selecting opcode snapshots.
pub open spec fn opcode_pred() -> spec_fn(Snapshot) -> bool {
    |snapshot: Snapshot| snapshot.detail is Opcode
}

/// The distinct frames owning at least one hook snapshot, in order of their
/// first hook entry.
pub open spec fn hook_frame_order(s: Seq<(ExecutionFrameId, Snapshot)>) -> Seq<ExecutionFrameId> {
    frame_order_by(s, hook_pred())
}

/// The distinct frames owning at least one opcode snapshot, in order of
/// their first opcode entry.
pub open spec fn opcode_frame_order(
    s: Seq<(ExecutionFrameId, Snapshot)>,
) -> Seq<ExecutionFrameId> {
    frame_order_by(s, opcode_pred())
}

/// Every snapshot is exactly one of the two kinds, so the two counts
/// partition the collection: they always sum to its length.
pub proof fn lemma_kind_partition(s: Seq<(ExecutionFrameId, Snapshot)>)
    ensures
        hook_count_of(s) + opcode_count_of(s) == s.len(),
    decreases s.len(),
{
    if s.len() == 0 {
    } else {
        lemma_kind_partition(s.drop_last());
    }
}

/// Frames with hooks and frames with opcodes are each drawn from the frames
/// of the collection, so neither per-kind count exceeds the number of
/// distinct frames observed.
pub proof fn lemma_frame_coverage(s: Seq<(ExecutionFrameId, Snapshot)>)
    ensures
        hook_frame_order(s).len() <= frame_order(s).len(),
        opcode_frame_order(s).len() <= frame_order(s).len(),
{
    lemma_frame_order_by_contains(s, hook_pred());
    lemma_frame_order_by_contains(s, opcode_pred());
    lemma_frame_order_by_contains(s, any_pred());
    lemma_frame_order_by_no_dup(s, hook_pred());
    lemma_frame_order_by_no_dup(s, opcode_pred());
    assert forall|x: ExecutionFrameId| hook_frame_order(s).contains(x) implies frame_order(
        s,
    ).contains(x) by {
        let i = choose|i: int| 0 <= i < s.len() && (#[trigger] s[i]).0 == x && hook_pred()(s[i].1);
        assert(s[i].0 == x && any_pred()(s[i].1));
    };
    assert forall|x: ExecutionFrameId| opcode_frame_order(s).contains(x) implies frame_order(
        s,
    ).contains(x) by {
        let i = choose|i: int|
            0 <= i < s.len() && (#[trigger] s[i]).0 == x && opcode_pred()(s[i].1);
        assert(s[i].0 == x && any_pred()(s[i].1));
    };
    lemma_distinct_subset_len(hook_frame_order(s), frame_order(s));
    lemma_distinct_subset_len(opcode_frame_order(s), frame_order(s));
}

impl Snapshots {
    /// Computes the distribution and coverage statistics in one pass.
    ///
    /// The two kind counts always sum to the total; under the collection's
    /// invariant neither coverage count exceeds the total frame count.
    pub fn get_snapshot_stats(&self) -> (r: SnapshotStats)
        ensures
            r.total_snapshots == self@.len(),
            r.hook_snapshots == hook_count_of(self@),
            r.opcode_snapshots == opcode_count_of(self@),
            r.hook_snapshots + r.opcode_snapshots == r.total_snapshots,
            r.total_frames == self.spec_frame_count(),
            r.frames_with_hooks == hook_frame_order(self@).len(),
            r.frames_with_opcodes == opcode_frame_order(self@).len(),
            self.wf() ==> r.frames_with_hooks <= r.total_frames && r.frames_with_opcodes
                <= r.total_frames,
    {
        let mut hook_count: usize = 0;
        let mut opcode_count: usize = 0;
        let mut hook_frames: Vec<ExecutionFrameId> = Vec::new();
        let mut opcode_frames: Vec<ExecutionFrameId> = Vec::new();
        let n = self.len();
        for i in 0..n
            invariant
                n == self@.len(),
                hook_count == hook_count_of(self@.take(i as int)),
                opcode_count == opcode_count_of(self@.take(i as int)),
                hook_frames@ == hook_frame_order(self@.take(i as int)),
                opcode_frames@ == opcode_frame_order(self@.take(i as int)),
        {
            let p = self.entry(i);
            proof {
                assert(self@.take(i + 1).drop_last() =~= self@.take(i as int));
                assert(self@.take(i + 1).last() == self@[i as int]);
                lemma_kind_partition(self@.take(i as int));
            }
            match p.1.detail {
                SnapshotDetail::Hook { .. } => {
                    hook_count = hook_count + 1;
                    if !contains_id(&hook_frames, p.0) {
                        hook_frames.push(p.0);
                    }
                },
                SnapshotDetail::Opcode { .. } => {
                    opcode_count = opcode_count + 1;
                    if !contains_id(&opcode_frames, p.0) {
                        opcode_frames.push(p.0);
                    }
                },
            }
        }
        proof {
            assert(self@.take(n as int) =~= self@);
            lemma_kind_partition(self@);
            if self.wf() {
                lemma_frame_coverage(self@);
            }
        }
        SnapshotStats {
            total_snapshots: self.len(),
            hook_snapshots: hook_count,
            opcode_snapshots: opcode_count,
            total_frames: self.frame_count(),
            frames_with_hooks: hook_frames.len(),
            frames_with_opcodes: opcode_frames.len(),
        }
    }
}

} // verus!
