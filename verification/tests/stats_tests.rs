use snapshot_report::snapshot::{ExecutionFrameId, Snapshot, SnapshotDetail, Snapshots};

fn fid(trace: usize, re: usize) -> ExecutionFrameId {
    ExecutionFrameId::new(trace, re)
}

fn hook(usid: usize, addr: u64) -> Snapshot {
    Snapshot { detail: SnapshotDetail::Hook { usid }, bytecode_address: addr }
}

fn opcode(pc: usize, stack_depth: usize, addr: u64) -> Snapshot {
    Snapshot { detail: SnapshotDetail::Opcode { pc, stack_depth }, bytecode_address: addr }
}

#[test]
fn kind_counts_partition_total() {
    let mut snaps = Snapshots::new();
    snaps.push(fid(0, 0), hook(1, 0x10));
    snaps.push(fid(1, 0), opcode(5, 2, 0x20));
    snaps.push(fid(0, 0), hook(2, 0x10));
    snaps.push(fid(2, 0), opcode(9, 1, 0x30));
    snaps.push(fid(1, 0), opcode(6, 3, 0x20));
    let stats = snaps.get_snapshot_stats();
    assert_eq!(stats.total_snapshots, 5);
    assert_eq!(stats.hook_snapshots, 2);
    assert_eq!(stats.opcode_snapshots, 3);
    assert_eq!(stats.hook_snapshots + stats.opcode_snapshots, stats.total_snapshots);
}

#[test]
fn frame_coverage_within_total_frames() {
    let mut snaps = Snapshots::new();
    snaps.push(fid(0, 0), hook(1, 0x10));
    snaps.push(fid(1, 0), opcode(5, 2, 0x20));
    snaps.record_frame();
    let stats = snaps.get_snapshot_stats();
    assert_eq!(stats.total_frames, 3);
    assert_eq!(stats.frames_with_hooks, 1);
    assert_eq!(stats.frames_with_opcodes, 1);
    assert!(stats.frames_with_hooks <= stats.total_frames);
    assert!(stats.frames_with_opcodes <= stats.total_frames);
}

#[test]
fn mixed_frame_counts_in_both_coverages() {
    let mut snaps = Snapshots::new();
    snaps.push(fid(4, 1), hook(1, 0x10));
    snaps.push(fid(4, 1), opcode(5, 2, 0x10));
    let stats = snaps.get_snapshot_stats();
    assert_eq!(stats.total_frames, 1);
    assert_eq!(stats.frames_with_hooks, 1);
    assert_eq!(stats.frames_with_opcodes, 1);
}

#[test]
fn empty_collection_stats_are_zero() {
    let snaps = Snapshots::new();
    let stats = snaps.get_snapshot_stats();
    assert_eq!(stats.total_snapshots, 0);
    assert_eq!(stats.hook_snapshots, 0);
    assert_eq!(stats.opcode_snapshots, 0);
    assert_eq!(stats.total_frames, 0);
    assert_eq!(stats.frames_with_hooks, 0);
    assert_eq!(stats.frames_with_opcodes, 0);
}

#[test]
fn empty_collection_keeps_upstream_frame_count() {
    let mut snaps = Snapshots::new();
    snaps.record_frame();
    snaps.record_frame();
    let stats = snaps.get_snapshot_stats();
    assert_eq!(stats.total_snapshots, 0);
    assert_eq!(stats.total_frames, 2);
}

#[test]
fn repeated_frame_counted_once() {
    let mut snaps = Snapshots::new();
    snaps.push(fid(0, 0), hook(1, 0x10));
    snaps.push(fid(0, 0), hook(2, 0x10));
    snaps.push(fid(0, 0), hook(3, 0x10));
    assert_eq!(snaps.len(), 3);
    assert!(!snaps.is_empty());
    assert_eq!(snaps.frame_count(), 1);
}

#[test]
fn frame_order_is_first_occurrence() {
    let f2 = fid(2, 0);
    let f1 = fid(1, 0);
    let f3 = fid(3, 0);
    let mut snaps = Snapshots::new();
    snaps.push(f2, hook(1, 0x10));
    snaps.push(f1, hook(2, 0x11));
    snaps.push(f2, hook(3, 0x10));
    snaps.push(f3, hook(4, 0x12));
    let order = snaps.frame_ids_in_order();
    assert_eq!(order.len(), 3);
    assert_eq!(order[0], f2);
    assert_eq!(order[1], f1);
    assert_eq!(order[2], f3);
}

#[test]
fn groups_keep_arrival_order_within_frame() {
    let fa = fid(7, 0);
    let fb = fid(7, 1);
    let mut snaps = Snapshots::new();
    snaps.push(fa, opcode(5, 1, 0x10));
    snaps.push(fb, opcode(20, 3, 0x11));
    snaps.push(fa, opcode(9, 5, 0x10));
    let groups = snaps.group_by_frame();
    assert_eq!(groups.len(), 2);
    assert_eq!(groups[0].frame_id, fa);
    assert_eq!(groups[0].snapshots.len(), 2);
    assert_eq!(groups[0].snapshots[0], opcode(5, 1, 0x10));
    assert_eq!(groups[0].snapshots[1], opcode(9, 5, 0x10));
    assert_eq!(groups[1].frame_id, fb);
    assert_eq!(groups[1].snapshots.len(), 1);
    assert_eq!(groups[1].snapshots[0], opcode(20, 3, 0x11));
}

#[test]
fn snapshot_kind_predicates() {
    let h = hook(1, 0x10);
    let o = opcode(2, 3, 0x11);
    assert!(h.is_hook());
    assert!(!h.is_opcode());
    assert!(o.is_opcode());
    assert!(!o.is_hook());
}

#[test]
fn frame_id_display_form() {
    let id = fid(3, 1);
    assert_eq!(id.trace_entry_id, 3);
    assert_eq!(id.re_entry_count, 1);
    assert_eq!(id.display_string().as_str(), "3#1");
}
