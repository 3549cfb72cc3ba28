use snapshot_report::icons::Icons;

#[test]
fn status_icons() {
    assert_eq!(Icons::SUCCESS, "\u{2705}");
    assert_eq!(Icons::ERROR, "\u{274c}");
    assert_eq!(Icons::WARNING, "\u{26a0}\u{fe0f}");
    assert_eq!(Icons::TARGET_REACHED, "\u{1f3af}");
}

#[test]
fn tree_and_box_glyphs() {
    assert_eq!(Icons::TREE_BRANCH, "\u{251c}\u{2500}");
    assert_eq!(Icons::TREE_LAST_BRANCH, "\u{2514}\u{2500}");
    assert_eq!(Icons::BOX_TOP_LEFT, "\u{256d}");
    assert_eq!(Icons::BOX_HORIZONTAL, "\u{2500}");
}

#[test]
fn spinner_and_progress_sets() {
    let frames = Icons::spinner_frames();
    assert_eq!(frames.len(), 10);
    assert_eq!(frames[0], "\u{280b}");
    assert_eq!(frames[9], "\u{280f}");
    let partial = Icons::progress_partial();
    assert_eq!(partial.len(), 7);
    assert_eq!(partial[0], "\u{258f}");
    assert_eq!(partial[6], "\u{2589}");
}
