//! Stable grouping of a snapshot collection by frame id, preserving the
//! first-occurrence order of the frames and the arrival order of the
//! snapshots within each frame.

use vstd::prelude::*;
use vstd::set_lib::lemma_len_subset;
use crate::snapshot::{ExecutionFrameId, Snapshot, Snapshots};

verus! {

/// The distinct frame ids among the entries whose snapshot satisfies `pred`,
/// in order of each id's first such entry.
pub open spec fn frame_order_by(
    s: Seq<(ExecutionFrameId, Snapshot)>,
    pred: spec_fn(Snapshot) -> bool,
) -> Seq<ExecutionFrameId>
    decreases s.len(),
{
    if s.len() == 0 {
        Seq::empty()
    } else {
        let prev = frame_order_by(s.drop_last(), pred);
        if pred(s.last().1) && !prev.contains(s.last().0) {
            prev.push(s.last().0)
        } else {
            prev
        }
    }
}

/// The predicate satisfied by every snapshot.
pub open spec fn any_pred() -> spec_fn(Snapshot) -> bool {
    |snapshot: Snapshot| true
}

/// The distinct frame ids of the entries, in first-occurrence order.
pub open spec fn frame_order(s: Seq<(ExecutionFrameId, Snapshot)>) -> Seq<ExecutionFrameId> {
    frame_order_by(s, any_pred())
}

/// The snapshots belonging to one frame, in their original relative order.
pub open spec fn frame_snaps(
    s: Seq<(ExecutionFrameId, Snapshot)>,
    frame_id: ExecutionFrameId,
) -> Seq<Snapshot>
    decreases s.len(),
{
    if s.len() == 0 {
        Seq::empty()
    } else {
        let prev = frame_snaps(s.drop_last(), frame_id);
        if s.last().0 == frame_id {
            prev.push(s.last().1)
        } else {
            prev
        }
    }
}

/// A frame id holds a place in `frame_order_by` exactly when some entry
/// carries that id and a snapshot satisfying the predicate.
pub proof fn lemma_frame_order_by_contains(
    s: Seq<(ExecutionFrameId, Snapshot)>,
    pred: spec_fn(Snapshot) -> bool,
)
    ensures
        forall|id: ExecutionFrameId| #[trigger]
            frame_order_by(s, pred).contains(id) <==> (exists|i: int|
                0 <= i < s.len() && (#[trigger] s[i]).0 == id && pred(s[i].1)),
    decreases s.len(),
{
    if s.len() == 0 {
    } else {
        let t = s.drop_last();
        lemma_frame_order_by_contains(t, pred);
        let prev = frame_order_by(t, pred);
        let cur = frame_order_by(s, pred);
        assert forall|id: ExecutionFrameId| #[trigger]
            cur.contains(id) implies (exists|i: int|
            0 <= i < s.len() && (#[trigger] s[i]).0 == id && pred(s[i].1)) by {
            if prev.contains(id) {
                let i = choose|i: int| 0 <= i < t.len() && (#[trigger] t[i]).0 == id && pred(t[i].1);
                assert(s[i] == t[i]);
                assert(s[i].0 == id && pred(s[i].1));
            } else {
                let k = choose|k: int| 0 <= k < cur.len() && cur[k] == id;
                assert(cur == prev.push(s.last().0));
                if k < prev.len() {
                    assert(prev[k] == id);
                    assert(prev.contains(id));
                } else {
                    assert(id == s.last().0);
                    assert(s[s.len() - 1].0 == id && pred(s[s.len() - 1].1));
                }
            }
        };
        assert forall|id: ExecutionFrameId|
            (exists|i: int|
                0 <= i < s.len() && (#[trigger] s[i]).0 == id && pred(s[i].1)) implies #[trigger]
            cur.contains(id) by {
            let i = choose|i: int| 0 <= i < s.len() && (#[trigger] s[i]).0 == id && pred(s[i].1);
            if i < s.len() - 1 {
                assert(t[i] == s[i]);
                assert(prev.contains(id));
                if pred(s.last().1) && !prev.contains(s.last().0) {
                    let k = choose|k: int| 0 <= k < prev.len() && prev[k] == id;
                    assert(cur[k] == id);
                    assert(cur.contains(id));
                }
            } else {
                if prev.contains(id) {
                    let k = choose|k: int| 0 <= k < prev.len() && prev[k] == id;
                    if pred(s.last().1) && !prev.contains(s.last().0) {
                        assert(cur[k] == id);
                    }
                    assert(cur.contains(id));
                } else {
                    assert(cur == prev.push(id));
                    assert(cur[cur.len() - 1] == id);
                    assert(cur.contains(id));
                }
            }
        };
    }
}

/// Specialization to the full collection: a frame id appears in
/// `frame_order` exactly when some entry carries it.
pub proof fn lemma_frame_order_contains(s: Seq<(ExecutionFrameId, Snapshot)>)
    ensures
        forall|id: ExecutionFrameId| #[trigger]
            frame_order(s).contains(id) <==> (exists|i: int|
                0 <= i < s.len() && (#[trigger] s[i]).0 == id),
{
    lemma_frame_order_by_contains(s, any_pred());
}

/// `frame_order_by` never repeats a frame id.
pub proof fn lemma_frame_order_by_no_dup(
    s: Seq<(ExecutionFrameId, Snapshot)>,
    pred: spec_fn(Snapshot) -> bool,
)
    ensures
        frame_order_by(s, pred).no_duplicates(),
    decreases s.len(),
{
    if s.len() == 0 {
    } else {
        let t = s.drop_last();
        lemma_frame_order_by_no_dup(t, pred);
        let prev = frame_order_by(t, pred);
        let cur = frame_order_by(s, pred);
        if pred(s.last().1) && !prev.contains(s.last().0) {
            assert forall|i: int, j: int| 0 <= i < cur.len() && 0 <= j < cur.len() && i != j
                implies cur[i] != cur[j] by {
                if i < prev.len() && j < prev.len() {
                } else if i == prev.len() {
                    if cur[i] == cur[j] {
                        assert(prev[j] == s.last().0);
                        assert(prev.contains(s.last().0));
                    }
                } else if j == prev.len() {
                    if cur[i] == cur[j] {
                        assert(prev[i] == s.last().0);
                        assert(prev.contains(s.last().0));
                    }
                }
            };
        }
    }
}

/// Two sequences without duplicates, one contained in the other, relate in
/// length: the contained one is no longer.
pub proof fn lemma_distinct_subset_len<A>(a: Seq<A>, b: Seq<A>)
    requires
        a.no_duplicates(),
        forall|x: A| a.contains(x) ==> b.contains(x),
    ensures
        a.len() <= b.len(),
{
    broadcast use vstd::seq_lib::seq_to_set_is_finite;

    a.unique_seq_to_set();
    b.lemma_cardinality_of_set();
    assert(a.to_set().subset_of(b.to_set())) by {
        assert forall|x: A| a.to_set().contains(x) implies b.to_set().contains(x) by {
            assert(a.contains(x));
            assert(b.contains(x));
        };
    };
    lemma_len_subset(a.to_set(), b.to_set());
}

/// A frame id that holds a place in the order owns at least one snapshot.
pub proof fn lemma_frame_snaps_nonempty(
    s: Seq<(ExecutionFrameId, Snapshot)>,
    frame_id: ExecutionFrameId,
)
    requires
        exists|i: int| 0 <= i < s.len() && (#[trigger] s[i]).0 == frame_id,
    ensures
        frame_snaps(s, frame_id).len() > 0,
    decreases s.len(),
{
    let i = choose|i: int| 0 <= i < s.len() && (#[trigger] s[i]).0 == frame_id;
    if i == s.len() - 1 {
    } else {
        let t = s.drop_last();
        assert(t[i] == s[i]);
        lemma_frame_snaps_nonempty(t, frame_id);
    }
}

/// A frame identifier paired with the ordered snapshots belonging to it.
pub struct FrameGroup {
    pub frame_id: ExecutionFrameId,
    pub snapshots: Vec<Snapshot>,
}

/// Whether a vector of frame ids holds the given id.
pub(crate) fn contains_id(ids: &Vec<ExecutionFrameId>, frame_id: ExecutionFrameId) -> (r: bool)
    ensures
        r == ids@.contains(frame_id),
{
    let n = ids.len();
    let mut found = false;
    for i in 0..n
        invariant
            n == ids@.len(),
            found == (exists|j: int| 0 <= j < i && ids@[j] == frame_id),
    {
        if ids[i] == frame_id {
            proof {
                assert(ids@[i as int] == frame_id);
            }
            found = true;
        }
    }
    found
}

impl Snapshots {
    /// The distinct frame ids of the collection, in first-occurrence order.
    pub fn frame_ids_in_order(&self) -> (r: Vec<ExecutionFrameId>)
        ensures
            r@ == frame_order(self@),
    {
        let mut order: Vec<ExecutionFrameId> = Vec::new();
        let n = self.len();
        for i in 0..n
            invariant
                n == self@.len(),
                order@ == frame_order(self@.take(i as int)),
        {
            let p = self.entry(i);
            proof {
                assert(self@.take(i + 1).drop_last() =~= self@.take(i as int));
                assert(self@.take(i + 1).last() == self@[i as int]);
            }
            if !contains_id(&order, p.0) {
                order.push(p.0);
            }
        }
        proof {
            assert(self@.take(n as int) =~= self@);
        }
        order
    }

    /// The snapshots belonging to one frame, in original relative order.
    pub fn snapshots_of_frame(&self, frame_id: ExecutionFrameId) -> (r: Vec<Snapshot>)
        ensures
            r@ == frame_snaps(self@, frame_id),
    {
        let mut snaps: Vec<Snapshot> = Vec::new();
        let n = self.len();
        for i in 0..n
            invariant
                n == self@.len(),
                snaps@ == frame_snaps(self@.take(i as int), frame_id),
        {
            let p = self.entry(i);
            proof {
                assert(self@.take(i + 1).drop_last() =~= self@.take(i as int));
                assert(self@.take(i + 1).last() == self@[i as int]);
            }
            if p.0 == frame_id {
                snaps.push(p.1);
            }
        }
        proof {
            assert(self@.take(n as int) =~= self@);
        }
        snaps
    }

    /// Groups the collection by frame id: one group per distinct frame, in
    /// first-occurrence order, each holding that frame's snapshots in their
    /// arrival order. Every group is non-empty.
    pub fn group_by_frame(&self) -> (r: Vec<FrameGroup>)
        ensures
            r@.len() == frame_order(self@).len(),
            forall|i: int| 0 <= i < r@.len() ==> (#[trigger] r@[i]).frame_id == frame_order(
                self@,
            )[i],
            forall|i: int| 0 <= i < r@.len() ==> (#[trigger] r@[i]).snapshots@ == frame_snaps(
                self@,
                frame_order(self@)[i],
            ),
            forall|i: int| 0 <= i < r@.len() ==> (#[trigger] r@[i]).snapshots@.len() > 0,
    {
        let order = self.frame_ids_in_order();
        let mut groups: Vec<FrameGroup> = Vec::new();
        let n = order.len();
        for i in 0..n
            invariant
                n == order@.len(),
                order@ == frame_order(self@),
                groups@.len() == i,
                forall|j: int| 0 <= j < i ==> (#[trigger] groups@[j]).frame_id == order@[j],
                forall|j: int| 0 <= j < i ==> (#[trigger] groups@[j]).snapshots@ == frame_snaps(
                    self@,
                    order@[j],
                ),
                forall|j: int| 0 <= j < i ==> (#[trigger] groups@[j]).snapshots@.len() > 0,
        {
            let id = order[i];
            let snaps = self.snapshots_of_frame(id);
            proof {
                assert(order@.contains(id)) by {
                    assert(order@[i as int] == id);
                }
                lemma_frame_order_contains(self@);
                lemma_frame_snaps_nonempty(self@, id);
            }
            groups.push(FrameGroup { frame_id: id, snapshots: snaps });
        }
        groups
    }
}

} // verus!
