use snapshot_report::render::{render_frame_section, render_hook_details, render_opcode_summary};
use snapshot_report::snapshot::{ExecutionFrameId, Snapshot, SnapshotDetail, Snapshots};

fn fid(trace: usize, re: usize) -> ExecutionFrameId {
    ExecutionFrameId::new(trace, re)
}

fn hook(usid: usize, addr: u64) -> Snapshot {
    Snapshot { detail: SnapshotDetail::Hook { usid }, bytecode_address: addr }
}

fn opcode(pc: usize, stack_depth: usize, addr: u64) -> Snapshot {
    Snapshot { detail: SnapshotDetail::Opcode { pc, stack_depth }, bytecode_address: addr }
}

#[test]
fn single_usid_printed_bare() {
    let snaps = vec![hook(7, 0x10)];
    let text = render_hook_details(&snaps);
    assert_eq!(text.as_str(), "          \u{2514}\u{2500} USID: \u{1b}[36m7\u{1b}[0m\n");
}

#[test]
fn few_usids_printed_in_full() {
    let snaps = vec![hook(7, 0x10), hook(9, 0x10), hook(11, 0x10)];
    let text = render_hook_details(&snaps);
    assert_eq!(text.as_str(), "          \u{2514}\u{2500} USIDs: \u{1b}[36m[7, 9, 11]\u{1b}[0m\n");
}

#[test]
fn twelve_usids_truncated_to_ends() {
    let mut snaps = Vec::new();
    for u in 1..=12 {
        snaps.push(hook(u, 0x10));
    }
    let text = render_hook_details(&snaps);
    assert_eq!(
        text.as_str(),
        "          \u{2514}\u{2500} USIDs: \u{1b}[36m[1, 2, 3, ... 10, 11, 12, 12 total]\u{1b}[0m\n"
    );
}

#[test]
fn opcode_range_and_average_depth() {
    let snaps = vec![opcode(5, 1, 0x10), opcode(20, 3, 0x10), opcode(5, 1, 0x10), opcode(9, 5, 0x10)];
    let text = render_opcode_summary(&snaps);
    assert!(text.contains("PC 5..20"));
    assert!(text.contains("Avg stack depth: \u{1b}[36m2.5\u{1b}[0m"));
}

#[test]
fn single_opcode_prints_single_pc() {
    let snaps = vec![opcode(42, 4, 0x10)];
    let text = render_opcode_summary(&snaps);
    assert!(text.contains("Range: \u{1b}[36mPC 42\u{1b}[0m"));
    assert!(!text.contains(".."));
    assert!(text.contains("Avg stack depth: \u{1b}[36m4.0\u{1b}[0m"));
}

#[test]
fn mixed_frame_renders_both_counts() {
    let snaps = vec![hook(1, 0x10), opcode(5, 2, 0x10)];
    let (text, mixed) = render_frame_section(0, fid(4, 1), &snaps);
    assert!(mixed);
    assert!(text.contains("Type: \u{1b}[33mMixed\u{1b}[0m"));
    assert!(text.contains("\u{251c}\u{2500} Hook snapshots: \u{1b}[32m1\u{1b}[0m"));
    assert!(text.contains("\u{2514}\u{2500} Opcode snapshots: \u{1b}[32m1\u{1b}[0m"));
}

#[test]
fn hook_frame_section_header() {
    let snaps = vec![hook(1, 0x10), hook(2, 0x10)];
    let (text, mixed) = render_frame_section(5, fid(3, 1), &snaps);
    assert!(!mixed);
    assert!(text.contains("[  5] \u{1f3af} Frame 3#1\u{1b}[0m (trace.3, re-entry 1)"));
    assert!(text.contains("Type: \u{1b}[33mHook\u{1b}[0m | Snapshots: \u{1b}[32m2\u{1b}[0m"));
}

#[test]
fn single_shared_address_is_printed() {
    let snaps = vec![hook(1, 0x2a), hook(2, 0x2a)];
    let (text, _) = render_frame_section(0, fid(0, 0), &snaps);
    assert!(text.contains("\u{2514}\u{2500} Address: \u{1b}[36m0x2a\u{1b}[0m"));
    assert!(!text.contains("unique"));
}

#[test]
fn three_distinct_addresses_print_count_only() {
    let snaps = vec![hook(1, 0x10), hook(2, 0x20), hook(3, 0x30), hook(4, 0x20)];
    let (text, _) = render_frame_section(0, fid(0, 0), &snaps);
    assert!(text.contains("\u{2514}\u{2500} Addresses: \u{1b}[36m3 unique\u{1b}[0m"));
    assert!(!text.contains("0x10"));
}

#[test]
fn empty_collection_report_stops_after_notice() {
    let mut snaps = Snapshots::new();
    snaps.record_frame();
    let report = snaps.render_summary();
    assert!(report.mixed_frames.is_empty());
    assert!(report.text.contains("Total snapshots: \u{1b}[32m0\u{1b}[0m"));
    assert!(report.text.contains("Total frames: \u{1b}[32m1\u{1b}[0m"));
    assert!(report.text.contains("(0.0%)"));
    assert!(report.text.ends_with("\n\u{1b}[90m  No snapshots were recorded.\u{1b}[0m\n"));
    assert!(!report.text.contains("Legend"));
    assert!(!report.text.contains("Frame Details"));
}

#[test]
fn mixed_frame_is_reported_and_report_completes() {
    let id = fid(4, 1);
    let mut snaps = Snapshots::new();
    snaps.push(id, hook(1, 0x10));
    snaps.push(id, opcode(5, 2, 0x10));
    let report = snaps.render_summary();
    assert_eq!(report.mixed_frames.len(), 1);
    assert_eq!(report.mixed_frames[0], id);
    assert!(report.text.contains("Type: \u{1b}[33mMixed\u{1b}[0m"));
    assert!(report.text.contains("Legend"));
}

#[test]
fn full_report_structure() {
    let mut snaps = Snapshots::new();
    snaps.push(fid(0, 0), hook(1, 0x10));
    snaps.push(fid(1, 0), opcode(5, 2, 0x20));
    snaps.push(fid(0, 0), hook(2, 0x10));
    let report = snaps.render_summary();
    let text = &report.text;
    assert!(report.mixed_frames.is_empty());
    assert!(text.contains("UNIFIED SNAPSHOTS SUMMARY"));
    assert!(text.contains("Total snapshots: \u{1b}[32m3\u{1b}[0m"));
    assert!(text.contains("Total frames: \u{1b}[32m2\u{1b}[0m"));
    assert!(text.contains("Hook snapshots: \u{1b}[32m2\u{1b}[0m (66.7%)"));
    assert!(text.contains("Opcode snapshots: \u{1b}[32m1\u{1b}[0m (33.3%)"));
    assert!(text.contains("Frames with hooks: \u{1b}[32m1\u{1b}[0m (50.0%)"));
    assert!(text.contains("Frames with opcodes: \u{1b}[32m1\u{1b}[0m (50.0%)"));
    assert!(text.contains("[  0] \u{1f3af} Frame 0#0"));
    assert!(text.contains("[  1] \u{2699}\u{fe0f} Frame 1#0"));
    assert!(text.contains("\u{1f4d6} Legend:"));
    let first = text.find("[  0]").unwrap();
    let second = text.find("[  1]").unwrap();
    assert!(first < second);
}
