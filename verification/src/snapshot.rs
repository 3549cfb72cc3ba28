//! The data model: execution frame identifiers, the two snapshot kinds, and
//! the insertion-ordered snapshot collection.

use vstd::prelude::*;
use vstd::string::StringExecFns;
use crate::group::{frame_order, lemma_frame_order_contains};
use crate::numfmt::{dec_str_usize, spec_dec};

verus! {

/// Identifies one activation of an execution context: the index of its trace
/// entry together with how many times that entry has been re-entered.
#[derive(Clone, Copy, PartialEq, Eq, Structural, Debug)]
pub struct ExecutionFrameId {
    pub trace_entry_id: usize,
    pub re_entry_count: usize,
}

impl ExecutionFrameId {
    /// The display form: trace-entry index and re-entry count joined by `#`.
    pub open spec fn spec_display(&self) -> Seq<char> {
        spec_dec(self.trace_entry_id as nat) + "#"@ + spec_dec(self.re_entry_count as nat)
    }

    pub fn new(trace_entry_id: usize, re_entry_count: usize) -> (r: ExecutionFrameId)
        ensures
            r.trace_entry_id == trace_entry_id,
            r.re_entry_count == re_entry_count,
    {
        ExecutionFrameId { trace_entry_id, re_entry_count }
    }

    pub fn display_string(&self) -> (r: String)
        ensures
            r@ == self.spec_display(),
    {
        let mut s = dec_str_usize(self.trace_entry_id);
        s.append("#");
        s.append(dec_str_usize(self.re_entry_count).as_str());
        s
    }
}

/// What a snapshot captured: either a strategic instrumentation point (with
/// its unique step identifier) or a single instruction boundary (with the
/// program counter and the operand-stack depth at that point).
#[derive(Clone, Copy, PartialEq, Eq, Structural, Debug)]
pub enum SnapshotDetail {
    Hook { usid: usize },
    Opcode { pc: usize, stack_depth: usize },
}

/// One state capture, owned by an execution frame.
#[derive(Clone, Copy, PartialEq, Eq, Structural, Debug)]
pub struct Snapshot {
    pub detail: SnapshotDetail,
    pub bytecode_address: u64,
}

impl Snapshot {
    pub open spec fn spec_is_hook(&self) -> bool {
        self.detail is Hook
    }

    pub open spec fn spec_is_opcode(&self) -> bool {
        self.detail is Opcode
    }

    pub fn is_hook(&self) -> (r: bool)
        ensures
            r == self.spec_is_hook(),
    {
        matches!(self.detail, SnapshotDetail::Hook { .. })
    }

    pub fn is_opcode(&self) -> (r: bool)
        ensures
            r == self.spec_is_opcode(),
    {
        matches!(self.detail, SnapshotDetail::Opcode { .. })
    }
}

/// An insertion-ordered collection of `(frame id, snapshot)` pairs, together
/// with an independently maintained count of execution frames.
///
/// The frame count is inherited from the capture engine and may exceed the
/// number of distinct frame ids present among the entries (frames may exist
/// that produced no snapshot); it never falls below it.
pub struct Snapshots {
    entries: Vec<(ExecutionFrameId, Snapshot)>,
    frames: usize,
}

impl View for Snapshots {
    type V = Seq<(ExecutionFrameId, Snapshot)>;

    closed spec fn view(&self) -> Seq<(ExecutionFrameId, Snapshot)> {
        self.entries@
    }
}

impl Snapshots {
    /// The externally maintained number of execution frames.
    pub closed spec fn spec_frame_count(&self) -> nat {
        self.frames as nat
    }

    /// The collection's invariant: the inherited frame count is at least the
    /// number of distinct frame ids among the entries.
    pub open spec fn wf(&self) -> bool {
        frame_order(self@).len() <= self.spec_frame_count()
    }

    pub fn new() -> (r: Snapshots)
        ensures
            r@ == Seq::<(ExecutionFrameId, Snapshot)>::empty(),
            r.spec_frame_count() == 0,
            r.wf(),
    {
        let r = Snapshots { entries: Vec::new(), frames: 0 };
        proof {
            assert(r@ =~= Seq::<(ExecutionFrameId, Snapshot)>::empty());
        }
        r
    }

    /// Whether some entry already carries this frame id.
    fn seen_frame(&self, frame_id: ExecutionFrameId) -> (r: bool)
        ensures
            r == frame_order(self@).contains(frame_id),
    {
        let n = self.entries.len();
        let mut found = false;
        for i in 0..n
            invariant
                n == self@.len(),
                found == (exists|j: int| 0 <= j < i && (#[trigger] self@[j]).0 == frame_id),
        {
            if self.entries[i].0 == frame_id {
                proof {
                    assert(self@[i as int].0 == frame_id);
                }
                found = true;
            }
        }
        proof {
            lemma_frame_order_contains(self@);
        }
        found
    }

    /// Appends a snapshot for a frame; a frame id not seen before also raises
    /// the frame count by one, so the invariant is preserved.
    pub fn push(&mut self, frame_id: ExecutionFrameId, snapshot: Snapshot)
        requires
            old(self).spec_frame_count() < usize::MAX,
        ensures
            final(self)@ == old(self)@.push((frame_id, snapshot)),
            frame_order(old(self)@).contains(frame_id) ==> final(self).spec_frame_count()
                == old(self).spec_frame_count(),
            !frame_order(old(self)@).contains(frame_id) ==> final(self).spec_frame_count()
                == old(self).spec_frame_count() + 1,
            old(self).wf() ==> final(self).wf(),
    {
        let seen = self.seen_frame(frame_id);
        self.entries.push((frame_id, snapshot));
        if !seen {
            self.frames = self.frames + 1;
        }
        proof {
            let s0 = old(self)@;
            let p = (frame_id, snapshot);
            assert(s0.push(p).drop_last() =~= s0);
            assert(s0.push(p).last() == p);
        }
    }

    /// Records one more execution frame that produced no snapshot, keeping
    /// the inherited frame count ahead of the entries.
    pub fn record_frame(&mut self)
        requires
            old(self).spec_frame_count() < usize::MAX,
        ensures
            final(self)@ == old(self)@,
            final(self).spec_frame_count() == old(self).spec_frame_count() + 1,
            old(self).wf() ==> final(self).wf(),
    {
        self.frames = self.frames + 1;
    }

    pub fn len(&self) -> (r: usize)
        ensures
            r == self@.len(),
    {
        self.entries.len()
    }

    pub fn is_empty(&self) -> (r: bool)
        ensures
            r == (self@.len() == 0),
    {
        self.entries.len() == 0
    }

    pub fn frame_count(&self) -> (r: usize)
        ensures
            r == self.spec_frame_count(),
    {
        self.frames
    }

    /// The `i`th `(frame id, snapshot)` pair, in insertion order.
    pub fn entry(&self, i: usize) -> (r: (ExecutionFrameId, Snapshot))
        requires
            i < self@.len(),
        ensures
            r == self@[i as int],
    {
        self.entries[i]
    }
}

} // verus!
