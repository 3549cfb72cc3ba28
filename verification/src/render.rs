//! The hierarchical textual report: overall statistics, one section per
//! frame in first-occurrence order, and a legend. Every piece of the text is
//! pinned down by a spec function; the renderer is total, with explicit
//! zero-guards where the original data admits an empty denominator.

use vstd::prelude::*;
use vstd::string::StringExecFns;
use crate::group::{frame_order, frame_snaps};
use crate::numfmt::{
    addr_str, avg_tenths, dec_str_usize, one_decimal_str, percent_tenths, spec_addr,
    spec_avg_tenths, spec_dec, spec_one_decimal, spec_percent_tenths,
};
use crate::snapshot::{ExecutionFrameId, Snapshot, SnapshotDetail, Snapshots};
use crate::stats::{hook_count_of, hook_frame_order, opcode_count_of, opcode_frame_order};

verus! {

/// How many of a frame's snapshots are hook snapshots.
pub open spec fn snaps_hook_count(snaps: Seq<Snapshot>) -> nat
    decreases snaps.len(),
{
    if snaps.len() == 0 {
        0
    } else {
        snaps_hook_count(snaps.drop_last()) + (if snaps.last().detail is Hook {
            1nat
        } else {
            0nat
        })
    }
}

/// How many of a frame's snapshots are opcode snapshots.
pub open spec fn snaps_opcode_count(snaps: Seq<Snapshot>) -> nat
    decreases snaps.len(),
{
    if snaps.len() == 0 {
        0
    } else {
        snaps_opcode_count(snaps.drop_last()) + (if snaps.last().detail is Opcode {
            1nat
        } else {
            0nat
        })
    }
}

/// Within one frame the two kind counts also partition the snapshot list.
pub proof fn lemma_snaps_kind_partition(snaps: Seq<Snapshot>)
    ensures
        snaps_hook_count(snaps) + snaps_opcode_count(snaps) == snaps.len(),
    decreases snaps.len(),
{
    if snaps.len() == 0 {
    } else {
        lemma_snaps_kind_partition(snaps.drop_last());
    }
}

/// A frame holding both kinds at once: unexpected, reported, not fatal.
pub open spec fn spec_is_mixed(snaps: Seq<Snapshot>) -> bool {
    snaps_hook_count(snaps) > 0 && snaps_opcode_count(snaps) > 0
}

/// The unique step identifiers of the frame's hook snapshots, in order.
pub open spec fn usids_of(snaps: Seq<Snapshot>) -> Seq<usize>
    decreases snaps.len(),
{
    if snaps.len() == 0 {
        Seq::empty()
    } else {
        let prev = usids_of(snaps.drop_last());
        match snaps.last().detail {
            SnapshotDetail::Hook { usid } => prev.push(usid),
            SnapshotDetail::Opcode { .. } => prev,
        }
    }
}

/// The program counters of the frame's opcode snapshots, in order.
pub open spec fn pcs_of(snaps: Seq<Snapshot>) -> Seq<usize>
    decreases snaps.len(),
{
    if snaps.len() == 0 {
        Seq::empty()
    } else {
        let prev = pcs_of(snaps.drop_last());
        match snaps.last().detail {
            SnapshotDetail::Hook { .. } => prev,
            SnapshotDetail::Opcode { pc, .. } => prev.push(pc),
        }
    }
}

/// The stack depths of the frame's opcode snapshots, in order.
pub open spec fn depths_of(snaps: Seq<Snapshot>) -> Seq<usize>
    decreases snaps.len(),
{
    if snaps.len() == 0 {
        Seq::empty()
    } else {
        let prev = depths_of(snaps.drop_last());
        match snaps.last().detail {
            SnapshotDetail::Hook { .. } => prev,
            SnapshotDetail::Opcode { stack_depth, .. } => prev.push(stack_depth),
        }
    }
}

/// The distinct bytecode addresses of the frame's snapshots, in
/// first-occurrence order (only the count and the single-element case are
/// ever shown, so the order carries no weight).
pub open spec fn addr_order(snaps: Seq<Snapshot>) -> Seq<u64>
    decreases snaps.len(),
{
    if snaps.len() == 0 {
        Seq::empty()
    } else {
        let prev = addr_order(snaps.drop_last());
        if prev.contains(snaps.last().bytecode_address) {
            prev
        } else {
            prev.push(snaps.last().bytecode_address)
        }
    }
}

/// The sum of a sequence of depths.
pub open spec fn sum_of(ds: Seq<usize>) -> nat
    decreases ds.len(),
{
    if ds.len() == 0 {
        0
    } else {
        sum_of(ds.drop_last()) + ds.last() as nat
    }
}

/// The least element (zero on an empty sequence, a defensive default that
/// no rendered branch reaches).
pub open spec fn min_of(ps: Seq<usize>) -> usize
    decreases ps.len(),
{
    if ps.len() == 0 {
        0
    } else if ps.len() == 1 {
        ps.last()
    } else {
        let m = min_of(ps.drop_last());
        if ps.last() < m {
            ps.last()
        } else {
            m
        }
    }
}

/// The greatest element (zero on an empty sequence).
pub open spec fn max_of(ps: Seq<usize>) -> usize
    decreases ps.len(),
{
    if ps.len() == 0 {
        0
    } else if ps.len() == 1 {
        ps.last()
    } else {
        let m = max_of(ps.drop_last());
        if ps.last() > m {
            ps.last()
        } else {
            m
        }
    }
}

/// A display index padded on the left to width three, as the frame header
/// shows it.
pub open spec fn spec_pad3(n: nat) -> Seq<char> {
    if n < 10 {
        "  "@ + spec_dec(n)
    } else if n < 100 {
        " "@ + spec_dec(n)
    } else {
        spec_dec(n)
    }
}

/// Numbers joined by a comma and a space.
pub open spec fn spec_join_dec(us: Seq<usize>) -> Seq<char>
    decreases us.len(),
{
    if us.len() == 0 {
        Seq::empty()
    } else if us.len() == 1 {
        spec_dec(us[0] as nat)
    } else {
        spec_join_dec(us.drop_last()) + ", "@ + spec_dec(us.last() as nat)
    }
}

/// The hook-detail lines of a frame: one identifier bare, up to ten as the
/// full list, more than ten as the first three and last three plus a total.
pub open spec fn spec_hook_details(snaps: Seq<Snapshot>) -> Seq<char> {
    let us = usids_of(snaps);
    if us.len() == 0 {
        Seq::empty()
    } else if us.len() == 1 {
        "          \u{2514}\u{2500} USID: \u{1b}[36m"@ + spec_dec(us[0] as nat) + "\u{1b}[0m\n"@
    } else if us.len() <= 10 {
        "          \u{2514}\u{2500} USIDs: \u{1b}[36m["@ + spec_join_dec(us) + "]\u{1b}[0m\n"@
    } else {
        "          \u{2514}\u{2500} USIDs: \u{1b}[36m["@ + spec_join_dec(us.subrange(0, 3))
            + ", ... "@ + spec_join_dec(us.subrange(us.len() - 3, us.len() as int)) + ", "@
            + spec_dec(us.len()) + " total]\u{1b}[0m\n"@
    }
}

/// The program-counter part of the opcode summary: a single value, or the
/// independent minimum and maximum over the frame.
pub open spec fn spec_pc_part(ps: Seq<usize>) -> Seq<char> {
    if ps.len() == 1 {
        "PC "@ + spec_dec(ps[0] as nat)
    } else {
        "PC "@ + spec_dec(min_of(ps) as nat) + ".."@ + spec_dec(max_of(ps) as nat)
    }
}

/// The opcode-summary lines of a frame: the program-counter range and the
/// average stack depth to one decimal place.
pub open spec fn spec_opcode_summary(snaps: Seq<Snapshot>) -> Seq<char> {
    let ps = pcs_of(snaps);
    let ds = depths_of(snaps);
    if ps.len() == 0 {
        Seq::empty()
    } else {
        "          \u{251c}\u{2500} Range: \u{1b}[36m"@ + spec_pc_part(ps) + "\u{1b}[0m\n"@
            + "          \u{2514}\u{2500} Avg stack depth: \u{1b}[36m"@ + spec_one_decimal(
            spec_avg_tenths(sum_of(ds), ds.len()),
        ) + "\u{1b}[0m\n"@
    }
}

/// The frame classification shown in the header.
pub open spec fn spec_type_name(snaps: Seq<Snapshot>) -> Seq<char> {
    if spec_is_mixed(snaps) {
        "Mixed"@
    } else if snaps_hook_count(snaps) > 0 {
        "Hook"@
    } else {
        "Opcode"@
    }
}

/// The color introducing the frame header.
pub open spec fn spec_color(snaps: Seq<Snapshot>) -> Seq<char> {
    if spec_is_mixed(snaps) {
        "\u{1b}[96m"@
    } else if snaps_hook_count(snaps) > 0 {
        "\u{1b}[92m"@
    } else {
        "\u{1b}[94m"@
    }
}

/// The icon introducing the frame header.
pub open spec fn spec_icon(snaps: Seq<Snapshot>) -> Seq<char> {
    if spec_is_mixed(snaps) {
        "\u{1f4cd}"@
    } else if snaps_hook_count(snaps) > 0 {
        "\u{1f3af}"@
    } else {
        "\u{2699}\u{fe0f}"@
    }
}

/// The frame-header line.
pub open spec fn spec_section_header(idx: nat, id: ExecutionFrameId, snaps: Seq<Snapshot>) -> Seq<
    char,
> {
    "\n  "@ + spec_color(snaps) + "["@ + spec_pad3(idx) + "] "@ + spec_icon(snaps) + " Frame "@
        + id.spec_display() + "\u{1b}[0m (trace."@ + spec_dec(id.trace_entry_id as nat)
        + ", re-entry "@ + spec_dec(id.re_entry_count as nat) + ")\n"@
}

/// The type and snapshot-count line.
pub open spec fn spec_type_line(snaps: Seq<Snapshot>) -> Seq<char> {
    "       \u{2514}\u{2500} Type: \u{1b}[33m"@ + spec_type_name(snaps)
        + "\u{1b}[0m | Snapshots: \u{1b}[32m"@ + spec_dec(snaps.len()) + "\u{1b}[0m\n"@
}

/// The per-kind block: a mixed frame shows its two counts, a hook-only frame
/// its hook details, an opcode-only frame its opcode summary.
pub open spec fn spec_kind_lines(snaps: Seq<Snapshot>) -> Seq<char> {
    if spec_is_mixed(snaps) {
        "          \u{251c}\u{2500} Hook snapshots: \u{1b}[32m"@ + spec_dec(snaps_hook_count(snaps))
            + "\u{1b}[0m\n"@ + "          \u{2514}\u{2500} Opcode snapshots: \u{1b}[32m"@
            + spec_dec(snaps_opcode_count(snaps)) + "\u{1b}[0m\n"@
    } else if snaps_hook_count(snaps) > 0 {
        spec_hook_details(snaps)
    } else {
        spec_opcode_summary(snaps)
    }
}

/// The address-coverage line: a single shared address is printed, several
/// distinct ones appear only as a count.
pub open spec fn spec_addr_part(snaps: Seq<Snapshot>) -> Seq<char> {
    let ads = addr_order(snaps);
    if ads.len() == 0 {
        Seq::empty()
    } else if ads.len() == 1 {
        "          \u{2514}\u{2500} Address: \u{1b}[36m"@ + spec_addr(ads[0] as nat)
            + "\u{1b}[0m\n"@
    } else {
        "          \u{2514}\u{2500} Addresses: \u{1b}[36m"@ + spec_dec(ads.len()) + " unique\u{1b}[0m\n"@
    }
}

/// One whole frame section.
pub open spec fn spec_frame_section(idx: nat, id: ExecutionFrameId, snaps: Seq<Snapshot>) -> Seq<
    char,
> {
    spec_section_header(idx, id, snaps) + spec_type_line(snaps) + spec_kind_lines(snaps)
        + spec_addr_part(snaps)
}

/// The title banner.
pub open spec fn spec_header() -> Seq<char> {
    "\n\u{1b}[36m\u{2554}\u{2550}\u{2550}\u{2550}\u{2550}\u{2550}\u{2550}\u{2550}\u{2550}\u{2550}\u{2550}\u{2550}\u{2550}\u{2550}\u{2550}\u{2550}\u{2550}\u{2550}\u{2550}\u{2550}\u{2550}\u{2550}\u{2550}\u{2550}\u{2550}\u{2550}\u{2550}\u{2550}\u{2550}\u{2550}\u{2550}\u{2550}\u{2550}\u{2550}\u{2550}\u{2550}\u{2550}\u{2550}\u{2550}\u{2550}\u{2550}\u{2550}\u{2550}\u{2550}\u{2550}\u{2550}\u{2550}\u{2550}\u{2550}\u{2550}\u{2550}\u{2550}\u{2550}\u{2550}\u{2550}\u{2550}\u{2550}\u{2550}\u{2550}\u{2550}\u{2550}\u{2550}\u{2550}\u{2550}\u{2550}\u{2550}\u{2550}\u{2557}\u{1b}[0m\n"@
        + "\u{1b}[36m\u{2551}                    UNIFIED SNAPSHOTS SUMMARY                     \u{2551}\u{1b}[0m\n"@
        + "\u{1b}[36m\u{255a}\u{2550}\u{2550}\u{2550}\u{2550}\u{2550}\u{2550}\u{2550}\u{2550}\u{2550}\u{2550}\u{2550}\u{2550}\u{2550}\u{2550}\u{2550}\u{2550}\u{2550}\u{2550}\u{2550}\u{2550}\u{2550}\u{2550}\u{2550}\u{2550}\u{2550}\u{2550}\u{2550}\u{2550}\u{2550}\u{2550}\u{2550}\u{2550}\u{2550}\u{2550}\u{2550}\u{2550}\u{2550}\u{2550}\u{2550}\u{2550}\u{2550}\u{2550}\u{2550}\u{2550}\u{2550}\u{2550}\u{2550}\u{2550}\u{2550}\u{2550}\u{2550}\u{2550}\u{2550}\u{2550}\u{2550}\u{2550}\u{2550}\u{2550}\u{2550}\u{2550}\u{2550}\u{2550}\u{2550}\u{2550}\u{2550}\u{2550}\u{255d}\u{1b}[0m\n\n"@
}

/// The overall-statistics and frame-coverage blocks, over the six counts
/// they show. Every percentage carries the zero-denominator guard.
pub open spec fn spec_stats_blocks(
    total: nat,
    frames: nat,
    hooks: nat,
    opcodes: nat,
    hook_frames: nat,
    opcode_frames: nat,
) -> Seq<char> {
    "\u{1b}[33m\u{1f4ca} Overall Statistics:\u{1b}[0m\n"@
        + "  Total snapshots: \u{1b}[32m"@ + spec_dec(total) + "\u{1b}[0m\n"@
        + "  Total frames: \u{1b}[32m"@ + spec_dec(frames) + "\u{1b}[0m\n"@
        + "  \u{2514}\u{2500} Hook snapshots: \u{1b}[32m"@ + spec_dec(hooks) + "\u{1b}[0m ("@
        + spec_one_decimal(spec_percent_tenths(hooks, total)) + "%)\n"@
        + "  \u{2514}\u{2500} Opcode snapshots: \u{1b}[32m"@ + spec_dec(opcodes) + "\u{1b}[0m ("@
        + spec_one_decimal(spec_percent_tenths(opcodes, total)) + "%)\n"@
        + "\n\u{1b}[33m\u{1f3af} Frame Coverage:\u{1b}[0m\n"@
        + "  Frames with hooks: \u{1b}[32m"@ + spec_dec(hook_frames) + "\u{1b}[0m ("@
        + spec_one_decimal(spec_percent_tenths(hook_frames, frames)) + "%)\n"@
        + "  Frames with opcodes: \u{1b}[32m"@ + spec_dec(opcode_frames) + "\u{1b}[0m ("@
        + spec_one_decimal(spec_percent_tenths(opcode_frames, frames)) + "%)\n"@
}

/// The notice that replaces the frame sections of an empty collection.
pub open spec fn spec_empty_notice() -> Seq<char> {
    "\n\u{1b}[90m  No snapshots were recorded.\u{1b}[0m\n"@
}

/// The heading and separator above the frame sections.
pub open spec fn spec_details_header() -> Seq<char> {
    "\n\u{1b}[33m\u{1f4cb} Frame Details:\u{1b}[0m\n"@
        + "\u{1b}[90m\u{2500}\u{2500}\u{2500}\u{2500}\u{2500}\u{2500}\u{2500}\u{2500}\u{2500}\u{2500}\u{2500}\u{2500}\u{2500}\u{2500}\u{2500}\u{2500}\u{2500}\u{2500}\u{2500}\u{2500}\u{2500}\u{2500}\u{2500}\u{2500}\u{2500}\u{2500}\u{2500}\u{2500}\u{2500}\u{2500}\u{2500}\u{2500}\u{2500}\u{2500}\u{2500}\u{2500}\u{2500}\u{2500}\u{2500}\u{2500}\u{2500}\u{2500}\u{2500}\u{2500}\u{2500}\u{2500}\u{2500}\u{2500}\u{2500}\u{2500}\u{2500}\u{2500}\u{2500}\u{2500}\u{2500}\u{2500}\u{2500}\u{2500}\u{2500}\u{2500}\u{2500}\u{2500}\u{2500}\u{2500}\u{2500}\u{1b}[0m\n"@
}

/// The separator below the frame sections.
pub open spec fn spec_footer() -> Seq<char> {
    "\n\u{1b}[90m\u{2500}\u{2500}\u{2500}\u{2500}\u{2500}\u{2500}\u{2500}\u{2500}\u{2500}\u{2500}\u{2500}\u{2500}\u{2500}\u{2500}\u{2500}\u{2500}\u{2500}\u{2500}\u{2500}\u{2500}\u{2500}\u{2500}\u{2500}\u{2500}\u{2500}\u{2500}\u{2500}\u{2500}\u{2500}\u{2500}\u{2500}\u{2500}\u{2500}\u{2500}\u{2500}\u{2500}\u{2500}\u{2500}\u{2500}\u{2500}\u{2500}\u{2500}\u{2500}\u{2500}\u{2500}\u{2500}\u{2500}\u{2500}\u{2500}\u{2500}\u{2500}\u{2500}\u{2500}\u{2500}\u{2500}\u{2500}\u{2500}\u{2500}\u{2500}\u{2500}\u{2500}\u{2500}\u{2500}\u{2500}\u{2500}\u{1b}[0m\n"@
}

/// The legend naming the two snapshot kinds.
pub open spec fn spec_legend() -> Seq<char> {
    "\n\u{1b}[33m\u{1f4d6} Legend:\u{1b}[0m\n"@
        + "  \u{1b}[92m\u{1f3af} Hook\u{1b}[0m    - Strategic instrumentation breakpoint\n"@
        + "  \u{1b}[94m\u{2699}\u{fe0f} Opcode\u{1b}[0m  - Fine-grained instruction-level snapshot\n"@
}

/// The frame sections of the first `k` frames, in first-occurrence order,
/// each numbered by its position in that order.
pub open spec fn spec_sections(s: Seq<(ExecutionFrameId, Snapshot)>, k: nat) -> Seq<char>
    decreases k,
{
    if k == 0 {
        Seq::empty()
    } else {
        spec_sections(s, (k - 1) as nat) + spec_frame_section(
            (k - 1) as nat,
            frame_order(s)[k - 1],
            frame_snaps(s, frame_order(s)[k - 1]),
        )
    }
}

/// The ids of the first `k` frames whose snapshot list holds both kinds.
pub open spec fn mixed_ids(s: Seq<(ExecutionFrameId, Snapshot)>, k: nat) -> Seq<ExecutionFrameId>
    decreases k,
{
    if k == 0 {
        Seq::empty()
    } else {
        let prev = mixed_ids(s, (k - 1) as nat);
        let id = frame_order(s)[k - 1];
        if spec_is_mixed(frame_snaps(s, id)) {
            prev.push(id)
        } else {
            prev
        }
    }
}

/// The ids of all frames holding both snapshot kinds, in first-occurrence
/// order: the anomalies the report flags.
pub open spec fn mixed_frames_of(s: Seq<(ExecutionFrameId, Snapshot)>) -> Seq<ExecutionFrameId> {
    mixed_ids(s, frame_order(s).len())
}

/// The whole report: banner, statistics, coverage, then either the
/// empty-collection notice or the frame sections framed by separators and
/// followed by the legend.
pub open spec fn spec_summary_text(s: Seq<(ExecutionFrameId, Snapshot)>, frames: nat) -> Seq<
    char,
> {
    let head = spec_header() + spec_stats_blocks(
        s.len(),
        frames,
        hook_count_of(s),
        opcode_count_of(s),
        hook_frame_order(s).len(),
        opcode_frame_order(s).len(),
    );
    if s.len() == 0 {
        head + spec_empty_notice()
    } else {
        head + spec_details_header() + spec_sections(s, frame_order(s).len()) + spec_footer()
            + spec_legend()
    }
}

fn pad3(n: usize) -> (r: String)
    ensures
        r@ == spec_pad3(n as nat),
{
    if n < 10 {
        let mut s = "  ".to_owned();
        s.append(dec_str_usize(n).as_str());
        s
    } else if n < 100 {
        let mut s = " ".to_owned();
        s.append(dec_str_usize(n).as_str());
        s
    } else {
        dec_str_usize(n)
    }
}

fn join_dec(v: &Vec<usize>, from: usize, to: usize) -> (r: String)
    requires
        from <= to,
        to <= v@.len(),
    ensures
        r@ == spec_join_dec(v@.subrange(from as int, to as int)),
{
    let mut s = String::new();
    for k in from..to
        invariant
            from <= k <= to,
            to <= v@.len(),
            s@ == spec_join_dec(v@.subrange(from as int, k as int)),
    {
        proof {
            assert(v@.subrange(from as int, k + 1).drop_last() =~= v@.subrange(
                from as int,
                k as int,
            ));
            assert(v@.subrange(from as int, k + 1).last() == v@[k as int]);
        }
        if k > from {
            s.append(", ");
        }
        s.append(dec_str_usize(v[k]).as_str());
        proof {
            if k == from {
                assert(s@ =~= spec_join_dec(v@.subrange(from as int, k + 1)));
            }
        }
    }
    s
}

fn extract_usids(snaps: &Vec<Snapshot>) -> (r: Vec<usize>)
    ensures
        r@ == usids_of(snaps@),
{
    let mut usids: Vec<usize> = Vec::new();
    let n = snaps.len();
    for i in 0..n
        invariant
            n == snaps@.len(),
            usids@ == usids_of(snaps@.take(i as int)),
    {
        proof {
            assert(snaps@.take(i + 1).drop_last() =~= snaps@.take(i as int));
            assert(snaps@.take(i + 1).last() == snaps@[i as int]);
        }
        match snaps[i].detail {
            SnapshotDetail::Hook { usid } => {
                usids.push(usid);
            },
            SnapshotDetail::Opcode { .. } => {},
        }
    }
    proof {
        assert(snaps@.take(n as int) =~= snaps@);
    }
    usids
}

fn extract_pcs_depths(snaps: &Vec<Snapshot>) -> (r: (Vec<usize>, Vec<usize>))
    ensures
        r.0@ == pcs_of(snaps@),
        r.1@ == depths_of(snaps@),
{
    let mut pcs: Vec<usize> = Vec::new();
    let mut depths: Vec<usize> = Vec::new();
    let n = snaps.len();
    for i in 0..n
        invariant
            n == snaps@.len(),
            pcs@ == pcs_of(snaps@.take(i as int)),
            depths@ == depths_of(snaps@.take(i as int)),
    {
        proof {
            assert(snaps@.take(i + 1).drop_last() =~= snaps@.take(i as int));
            assert(snaps@.take(i + 1).last() == snaps@[i as int]);
        }
        match snaps[i].detail {
            SnapshotDetail::Hook { .. } => {},
            SnapshotDetail::Opcode { pc, stack_depth } => {
                pcs.push(pc);
                depths.push(stack_depth);
            },
        }
    }
    proof {
        assert(snaps@.take(n as int) =~= snaps@);
    }
    (pcs, depths)
}

fn contains_addr(ads: &Vec<u64>, a: u64) -> (r: bool)
    ensures
        r == ads@.contains(a),
{
    let n = ads.len();
    let mut found = false;
    for i in 0..n
        invariant
            n == ads@.len(),
            found == (exists|j: int| 0 <= j < i && ads@[j] == a),
    {
        if ads[i] == a {
            proof {
                assert(ads@[i as int] == a);
            }
            found = true;
        }
    }
    found
}

fn extract_addrs(snaps: &Vec<Snapshot>) -> (r: Vec<u64>)
    ensures
        r@ == addr_order(snaps@),
{
    let mut ads: Vec<u64> = Vec::new();
    let n = snaps.len();
    for i in 0..n
        invariant
            n == snaps@.len(),
            ads@ == addr_order(snaps@.take(i as int)),
    {
        proof {
            assert(snaps@.take(i + 1).drop_last() =~= snaps@.take(i as int));
            assert(snaps@.take(i + 1).last() == snaps@[i as int]);
        }
        let a = snaps[i].bytecode_address;
        if !contains_addr(&ads, a) {
            ads.push(a);
        }
    }
    proof {
        assert(snaps@.take(n as int) =~= snaps@);
    }
    ads
}

fn count_kinds(snaps: &Vec<Snapshot>) -> (r: (usize, usize))
    ensures
        r.0 == snaps_hook_count(snaps@),
        r.1 == snaps_opcode_count(snaps@),
{
    let mut hooks: usize = 0;
    let mut opcodes: usize = 0;
    let n = snaps.len();
    for i in 0..n
        invariant
            n == snaps@.len(),
            hooks == snaps_hook_count(snaps@.take(i as int)),
            opcodes == snaps_opcode_count(snaps@.take(i as int)),
    {
        proof {
            assert(snaps@.take(i + 1).drop_last() =~= snaps@.take(i as int));
            assert(snaps@.take(i + 1).last() == snaps@[i as int]);
            lemma_snaps_kind_partition(snaps@.take(i as int));
        }
        if snaps[i].is_hook() {
            hooks = hooks + 1;
        } else {
            opcodes = opcodes + 1;
        }
    }
    proof {
        assert(snaps@.take(n as int) =~= snaps@);
    }
    (hooks, opcodes)
}

/// Renders the hook-detail lines of a frame's snapshot list.
pub fn render_hook_details(snaps: &Vec<Snapshot>) -> (r: String)
    ensures
        r@ == spec_hook_details(snaps@),
{
    let usids = extract_usids(snaps);
    let n = usids.len();
    if n == 0 {
        String::new()
    } else if n == 1 {
        let mut s = "          \u{2514}\u{2500} USID: \u{1b}[36m".to_owned();
        s.append(dec_str_usize(usids[0]).as_str());
        s.append("\u{1b}[0m\n");
        s
    } else if n <= 10 {
        let mut s = "          \u{2514}\u{2500} USIDs: \u{1b}[36m[".to_owned();
        s.append(join_dec(&usids, 0, n).as_str());
        s.append("]\u{1b}[0m\n");
        proof {
            assert(usids@.subrange(0, n as int) =~= usids@);
        }
        s
    } else {
        let mut s = "          \u{2514}\u{2500} USIDs: \u{1b}[36m[".to_owned();
        s.append(join_dec(&usids, 0, 3).as_str());
        s.append(", ... ");
        s.append(join_dec(&usids, n - 3, n).as_str());
        s.append(", ");
        s.append(dec_str_usize(n).as_str());
        s.append(" total]\u{1b}[0m\n");
        s
    }
}

/// Renders the opcode-summary lines of a frame's snapshot list.
pub fn render_opcode_summary(snaps: &Vec<Snapshot>) -> (r: String)
    ensures
        r@ == spec_opcode_summary(snaps@),
{
    let pair = extract_pcs_depths(snaps);
    let pcs = pair.0;
    let depths = pair.1;
    let n = pcs.len();
    if n == 0 {
        return String::new();
    }
    let mut pcp: String;
    if n == 1 {
        pcp = "PC ".to_owned();
        pcp.append(dec_str_usize(pcs[0]).as_str());
    } else {
        let mut minv = pcs[0];
        let mut maxv = pcs[0];
        proof {
            assert(pcs@.take(1).len() == 1);
            assert(pcs@.take(1).last() == pcs@[0]);
        }
        for i in 1..n
            invariant
                1 <= i <= n,
                n == pcs@.len(),
                minv == min_of(pcs@.take(i as int)),
                maxv == max_of(pcs@.take(i as int)),
        {
            proof {
                assert(pcs@.take(i + 1).drop_last() =~= pcs@.take(i as int));
                assert(pcs@.take(i + 1).last() == pcs@[i as int]);
            }
            let p = pcs[i];
            if p < minv {
                minv = p;
            }
            if p > maxv {
                maxv = p;
            }
        }
        proof {
            assert(pcs@.take(n as int) =~= pcs@);
        }
        pcp = "PC ".to_owned();
        pcp.append(dec_str_usize(minv).as_str());
        pcp.append("..");
        pcp.append(dec_str_usize(maxv).as_str());
    }
    let cnt = depths.len();
    let mut sum: u128 = 0;
    for k in 0..cnt
        invariant
            cnt == depths@.len(),
            sum as nat == sum_of(depths@.take(k as int)),
            sum as nat <= (k as nat) * (u64::MAX as nat),
    {
        proof {
            assert(depths@.take(k + 1).drop_last() =~= depths@.take(k as int));
            assert(depths@.take(k + 1).last() == depths@[k as int]);
            assert((k as nat) * (u64::MAX as nat) + (u64::MAX as nat) == ((k as nat) + 1) * (
            u64::MAX as nat));
            assert(((k as nat) + 1) * (u64::MAX as nat) <= (cnt as nat) * (u64::MAX as nat));
            assert((cnt as nat) * (u64::MAX as nat) <= (u64::MAX as nat) * (u64::MAX as nat));
        }
        sum = sum + (depths[k] as u128);
    }
    proof {
        assert(depths@.take(cnt as int) =~= depths@);
    }
    let avg = avg_tenths(sum, cnt);
    let mut s = "          \u{251c}\u{2500} Range: \u{1b}[36m".to_owned();
    s.append(pcp.as_str());
    s.append("\u{1b}[0m\n");
    s.append("          \u{2514}\u{2500} Avg stack depth: \u{1b}[36m");
    s.append(one_decimal_str(avg).as_str());
    s.append("\u{1b}[0m\n");
    proof {
        assert(s@ =~= spec_opcode_summary(snaps@));
    }
    s
}

/// Renders one frame section and reports whether the frame is mixed: the
/// anomalous state of holding both snapshot kinds, rendered with a fallback
/// branch rather than refused.
pub fn render_frame_section(
    display_idx: usize,
    frame_id: ExecutionFrameId,
    snapshots: &Vec<Snapshot>,
) -> (r: (String, bool))
    ensures
        r.0@ == spec_frame_section(display_idx as nat, frame_id, snapshots@),
        r.1 == spec_is_mixed(snapshots@),
{
    let counts = count_kinds(snapshots);
    let hooks = counts.0;
    let opcodes = counts.1;
    let mixed = hooks > 0 && opcodes > 0;
    let kind_label: &'static str;
    let color: &'static str;
    let icon: &'static str;
    if mixed {
        kind_label = "Mixed";
        color = "\u{1b}[96m";
        icon = "\u{1f4cd}";
    } else if hooks > 0 {
        kind_label = "Hook";
        color = "\u{1b}[92m";
        icon = "\u{1f3af}";
    } else {
        kind_label = "Opcode";
        color = "\u{1b}[94m";
        icon = "\u{2699}\u{fe0f}";
    }
    let mut s = "\n  ".to_owned();
    s.append(color);
    s.append("[");
    s.append(pad3(display_idx).as_str());
    s.append("] ");
    s.append(icon);
    s.append(" Frame ");
    s.append(frame_id.display_string().as_str());
    s.append("\u{1b}[0m (trace.");
    s.append(dec_str_usize(frame_id.trace_entry_id).as_str());
    s.append(", re-entry ");
    s.append(dec_str_usize(frame_id.re_entry_count).as_str());
    s.append(")\n");
    proof {
        assert(s@ == spec_section_header(display_idx as nat, frame_id, snapshots@));
    }
    let mut tl = "       \u{2514}\u{2500} Type: \u{1b}[33m".to_owned();
    tl.append(kind_label);
    tl.append("\u{1b}[0m | Snapshots: \u{1b}[32m");
    tl.append(dec_str_usize(snapshots.len()).as_str());
    tl.append("\u{1b}[0m\n");
    proof {
        assert(tl@ == spec_type_line(snapshots@));
    }
    s.append(tl.as_str());
    if mixed {
        let mut kl = "          \u{251c}\u{2500} Hook snapshots: \u{1b}[32m".to_owned();
        kl.append(dec_str_usize(hooks).as_str());
        kl.append("\u{1b}[0m\n");
        kl.append("          \u{2514}\u{2500} Opcode snapshots: \u{1b}[32m");
        kl.append(dec_str_usize(opcodes).as_str());
        kl.append("\u{1b}[0m\n");
        proof {
            assert(kl@ == spec_kind_lines(snapshots@));
        }
        s.append(kl.as_str());
    } else if hooks > 0 {
        s.append(render_hook_details(snapshots).as_str());
    } else {
        s.append(render_opcode_summary(snapshots).as_str());
    }
    let ads = extract_addrs(snapshots);
    if ads.len() == 1 {
        let mut al = "          \u{2514}\u{2500} Address: \u{1b}[36m".to_owned();
        al.append(addr_str(ads[0]).as_str());
        al.append("\u{1b}[0m\n");
        proof {
            assert(al@ == spec_addr_part(snapshots@));
        }
        s.append(al.as_str());
    } else if ads.len() > 1 {
        let mut al = "          \u{2514}\u{2500} Addresses: \u{1b}[36m".to_owned();
        al.append(dec_str_usize(ads.len()).as_str());
        al.append(" unique\u{1b}[0m\n");
        proof {
            assert(al@ == spec_addr_part(snapshots@));
        }
        s.append(al.as_str());
    }
    proof {
        assert(s@ =~= spec_frame_section(display_idx as nat, frame_id, snapshots@));
    }
    (s, mixed)
}

fn header_text() -> (r: String)
    ensures
        r@ == spec_header(),
{
    let mut s =
        "\n\u{1b}[36m\u{2554}\u{2550}\u{2550}\u{2550}\u{2550}\u{2550}\u{2550}\u{2550}\u{2550}\u{2550}\u{2550}\u{2550}\u{2550}\u{2550}\u{2550}\u{2550}\u{2550}\u{2550}\u{2550}\u{2550}\u{2550}\u{2550}\u{2550}\u{2550}\u{2550}\u{2550}\u{2550}\u{2550}\u{2550}\u{2550}\u{2550}\u{2550}\u{2550}\u{2550}\u{2550}\u{2550}\u{2550}\u{2550}\u{2550}\u{2550}\u{2550}\u{2550}\u{2550}\u{2550}\u{2550}\u{2550}\u{2550}\u{2550}\u{2550}\u{2550}\u{2550}\u{2550}\u{2550}\u{2550}\u{2550}\u{2550}\u{2550}\u{2550}\u{2550}\u{2550}\u{2550}\u{2550}\u{2550}\u{2550}\u{2550}\u{2550}\u{2550}\u{2557}\u{1b}[0m\n".to_owned();
    s.append(
        "\u{1b}[36m\u{2551}                    UNIFIED SNAPSHOTS SUMMARY                     \u{2551}\u{1b}[0m\n",
    );
    s.append(
        "\u{1b}[36m\u{255a}\u{2550}\u{2550}\u{2550}\u{2550}\u{2550}\u{2550}\u{2550}\u{2550}\u{2550}\u{2550}\u{2550}\u{2550}\u{2550}\u{2550}\u{2550}\u{2550}\u{2550}\u{2550}\u{2550}\u{2550}\u{2550}\u{2550}\u{2550}\u{2550}\u{2550}\u{2550}\u{2550}\u{2550}\u{2550}\u{2550}\u{2550}\u{2550}\u{2550}\u{2550}\u{2550}\u{2550}\u{2550}\u{2550}\u{2550}\u{2550}\u{2550}\u{2550}\u{2550}\u{2550}\u{2550}\u{2550}\u{2550}\u{2550}\u{2550}\u{2550}\u{2550}\u{2550}\u{2550}\u{2550}\u{2550}\u{2550}\u{2550}\u{2550}\u{2550}\u{2550}\u{2550}\u{2550}\u{2550}\u{2550}\u{2550}\u{2550}\u{255d}\u{1b}[0m\n\n",
    );
    s
}

/// Renders the overall-statistics and frame-coverage blocks from an
/// already computed `SnapshotStats` value.
pub fn stats_text(stats: &crate::stats::SnapshotStats) -> (r: String)
    ensures
        r@ == spec_stats_blocks(
            stats.total_snapshots as nat,
            stats.total_frames as nat,
            stats.hook_snapshots as nat,
            stats.opcode_snapshots as nat,
            stats.frames_with_hooks as nat,
            stats.frames_with_opcodes as nat,
        ),
{
    let mut s = "\u{1b}[33m\u{1f4ca} Overall Statistics:\u{1b}[0m\n".to_owned();
    s.append("  Total snapshots: \u{1b}[32m");
    s.append(dec_str_usize(stats.total_snapshots).as_str());
    s.append("\u{1b}[0m\n");
    s.append("  Total frames: \u{1b}[32m");
    s.append(dec_str_usize(stats.total_frames).as_str());
    s.append("\u{1b}[0m\n");
    s.append("  \u{2514}\u{2500} Hook snapshots: \u{1b}[32m");
    s.append(dec_str_usize(stats.hook_snapshots).as_str());
    s.append("\u{1b}[0m (");
    s.append(one_decimal_str(percent_tenths(stats.hook_snapshots, stats.total_snapshots)).as_str());
    s.append("%)\n");
    s.append("  \u{2514}\u{2500} Opcode snapshots: \u{1b}[32m");
    s.append(dec_str_usize(stats.opcode_snapshots).as_str());
    s.append("\u{1b}[0m (");
    s.append(
        one_decimal_str(percent_tenths(stats.opcode_snapshots, stats.total_snapshots)).as_str(),
    );
    s.append("%)\n");
    s.append("\n\u{1b}[33m\u{1f3af} Frame Coverage:\u{1b}[0m\n");
    s.append("  Frames with hooks: \u{1b}[32m");
    s.append(dec_str_usize(stats.frames_with_hooks).as_str());
    s.append("\u{1b}[0m (");
    s.append(one_decimal_str(percent_tenths(stats.frames_with_hooks, stats.total_frames)).as_str());
    s.append("%)\n");
    s.append("  Frames with opcodes: \u{1b}[32m");
    s.append(dec_str_usize(stats.frames_with_opcodes).as_str());
    s.append("\u{1b}[0m (");
    s.append(
        one_decimal_str(percent_tenths(stats.frames_with_opcodes, stats.total_frames)).as_str(),
    );
    s.append("%)\n");
    proof {
        assert(s@ =~= spec_stats_blocks(
            stats.total_snapshots as nat,
            stats.total_frames as nat,
            stats.hook_snapshots as nat,
            stats.opcode_snapshots as nat,
            stats.frames_with_hooks as nat,
            stats.frames_with_opcodes as nat,
        ));
    }
    s
}

/// A rendered report: the text to display and the ids of the frames found
/// holding both snapshot kinds, for the caller to log as anomalies.
pub struct SummaryReport {
    pub text: String,
    pub mixed_frames: Vec<ExecutionFrameId>,
}

impl Snapshots {
    /// Renders the whole summary report. Always succeeds: an empty
    /// collection yields the notice instead of frame sections, and a mixed
    /// frame is rendered through the fallback branch and reported in
    /// `mixed_frames` rather than refused.
    pub fn render_summary(&self) -> (r: SummaryReport)
        ensures
            r.text@ == spec_summary_text(self@, self.spec_frame_count()),
            r.mixed_frames@ == mixed_frames_of(self@),
    {
        let stats = self.get_snapshot_stats();
        let mut text = header_text();
        text.append(stats_text(&stats).as_str());
        if self.is_empty() {
            text.append("\n\u{1b}[90m  No snapshots were recorded.\u{1b}[0m\n");
            let mixed_frames: Vec<ExecutionFrameId> = Vec::new();
            proof {
                assert(mixed_frames@ =~= mixed_frames_of(self@));
            }
            return SummaryReport { text, mixed_frames };
        }
        text.append("\n\u{1b}[33m\u{1f4cb} Frame Details:\u{1b}[0m\n");
        text.append(
            "\u{1b}[90m\u{2500}\u{2500}\u{2500}\u{2500}\u{2500}\u{2500}\u{2500}\u{2500}\u{2500}\u{2500}\u{2500}\u{2500}\u{2500}\u{2500}\u{2500}\u{2500}\u{2500}\u{2500}\u{2500}\u{2500}\u{2500}\u{2500}\u{2500}\u{2500}\u{2500}\u{2500}\u{2500}\u{2500}\u{2500}\u{2500}\u{2500}\u{2500}\u{2500}\u{2500}\u{2500}\u{2500}\u{2500}\u{2500}\u{2500}\u{2500}\u{2500}\u{2500}\u{2500}\u{2500}\u{2500}\u{2500}\u{2500}\u{2500}\u{2500}\u{2500}\u{2500}\u{2500}\u{2500}\u{2500}\u{2500}\u{2500}\u{2500}\u{2500}\u{2500}\u{2500}\u{2500}\u{2500}\u{2500}\u{2500}\u{2500}\u{1b}[0m\n",
        );
        let ghost base: Seq<char> = text@;
        let order = self.frame_ids_in_order();
        let mut mixed_frames: Vec<ExecutionFrameId> = Vec::new();
        let n = order.len();
        proof {
            assert(text@ =~= base + spec_sections(self@, 0));
        }
        for idx in 0..n
            invariant
                n == order@.len(),
                order@ == frame_order(self@),
                text@ == base + spec_sections(self@, idx as nat),
                mixed_frames@ == mixed_ids(self@, idx as nat),
        {
            let id = order[idx];
            let snaps = self.snapshots_of_frame(id);
            let section = render_frame_section(idx, id, &snaps);
            text.append(section.0.as_str());
            if section.1 {
                mixed_frames.push(id);
            }
            proof {
                assert(text@ =~= base + spec_sections(self@, idx as nat + 1));
            }
        }
        text.append(
            "\n\u{1b}[90m\u{2500}\u{2500}\u{2500}\u{2500}\u{2500}\u{2500}\u{2500}\u{2500}\u{2500}\u{2500}\u{2500}\u{2500}\u{2500}\u{2500}\u{2500}\u{2500}\u{2500}\u{2500}\u{2500}\u{2500}\u{2500}\u{2500}\u{2500}\u{2500}\u{2500}\u{2500}\u{2500}\u{2500}\u{2500}\u{2500}\u{2500}\u{2500}\u{2500}\u{2500}\u{2500}\u{2500}\u{2500}\u{2500}\u{2500}\u{2500}\u{2500}\u{2500}\u{2500}\u{2500}\u{2500}\u{2500}\u{2500}\u{2500}\u{2500}\u{2500}\u{2500}\u{2500}\u{2500}\u{2500}\u{2500}\u{2500}\u{2500}\u{2500}\u{2500}\u{2500}\u{2500}\u{2500}\u{2500}\u{2500}\u{2500}\u{1b}[0m\n",
        );
        text.append("\n\u{1b}[33m\u{1f4d6} Legend:\u{1b}[0m\n");
        text.append("  \u{1b}[92m\u{1f3af} Hook\u{1b}[0m    - Strategic instrumentation breakpoint\n");
        text.append(
            "  \u{1b}[94m\u{2699}\u{fe0f} Opcode\u{1b}[0m  - Fine-grained instruction-level snapshot\n",
        );
        proof {
            assert(text@ =~= spec_summary_text(self@, self.spec_frame_count()));
        }
        SummaryReport { text, mixed_frames }
    }
}

} // verus!
