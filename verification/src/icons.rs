//! Unicode icons and symbols for visual enhancement: a fixed mapping from
//! symbolic names to literal glyph strings, consumed by display code and
//! never computed.

use vstd::prelude::*;

verus! {

/// Collection of Unicode icons used throughout the display layer.
#[derive(Debug, Clone)]
pub struct Icons;

impl Icons {
    /// Icon for successful operations and completed actions
    pub const SUCCESS: &'static str = "\u{2705}";

    /// Icon for errors and failed operations
    pub const ERROR: &'static str = "\u{274c}";

    /// Icon for warnings and caution messages
    pub const WARNING: &'static str = "\u{26a0}\u{fe0f}";

    /// Icon for informational messages
    pub const INFO: &'static str = "\u{2139}\u{fe0f}";

    /// Icon for ongoing processing and loading states
    pub const PROCESSING: &'static str = "\u{1f504}";

    /// Icon for function or contract calls in transaction traces
    pub const CALL: &'static str = "\u{1f4de}";

    /// Icon for function returns in transaction traces
    pub const RETURN: &'static str = "\u{21a9}\u{fe0f}";

    /// Icon for transaction reverts and failed operations
    pub const REVERT: &'static str = "\u{274c}";

    /// Icon for contract creation operations
    pub const CREATE: &'static str = "\u{1f3d7}\u{fe0f}";

    /// Icon indicating the current execution position
    pub const CURRENT_EXECUTION: &'static str = "\u{1f538}";

    /// Icon for breakpoints in the debugger
    pub const BREAKPOINT: &'static str = "\u{1f539}";

    /// Icon indicating when a target execution point is reached
    pub const TARGET_REACHED: &'static str = "\u{1f3af}";

    /// Icon for individual source files
    pub const FILE: &'static str = "\u{1f4c4}";

    /// Icon for directories and folders
    pub const FOLDER: &'static str = "\u{1f4c1}";

    /// Icon for compiled code and bytecode
    pub const CODE: &'static str = "\u{1f4be}";

    /// Icon for functions and methods
    pub const FUNCTION: &'static str = "\u{2699}\u{fe0f}";

    /// Icon for variables and storage items
    pub const VARIABLE: &'static str = "\u{1f4ca}";

    /// Icon for mappings and key-value structures
    pub const MAPPING: &'static str = "\u{1f4c8}";

    /// Icon for established RPC connections
    pub const CONNECTED: &'static str = "\u{1f517}";

    /// Icon for disconnected or failed connections
    pub const DISCONNECTED: &'static str = "\u{1f494}";

    /// Icon for connection attempts in progress
    pub const CONNECTING: &'static str = "\u{1f504}";

    /// Up arrow for navigation and scrolling
    pub const ARROW_UP: &'static str = "\u{2191}";

    /// Down arrow for navigation and scrolling
    pub const ARROW_DOWN: &'static str = "\u{2193}";

    /// Left arrow for navigation and hierarchy
    pub const ARROW_LEFT: &'static str = "\u{2190}";

    /// Right arrow for navigation and hierarchy
    pub const ARROW_RIGHT: &'static str = "\u{2192}";

    /// Indicator for the current line in code view
    pub const CURRENT_LINE: &'static str = "\u{25ba}";

    /// Top-left corner character for rounded boxes
    pub const BOX_TOP_LEFT: &'static str = "\u{256d}";

    /// Top-right corner character for rounded boxes
    pub const BOX_TOP_RIGHT: &'static str = "\u{256e}";

    /// Bottom-left corner character for rounded boxes
    pub const BOX_BOTTOM_LEFT: &'static str = "\u{2570}";

    /// Bottom-right corner character for rounded boxes
    pub const BOX_BOTTOM_RIGHT: &'static str = "\u{256f}";

    /// Horizontal line character for box borders
    pub const BOX_HORIZONTAL: &'static str = "\u{2500}";

    /// Vertical line character for box borders
    pub const BOX_VERTICAL: &'static str = "\u{2502}";

    /// Tree branch character for intermediate items
    pub const TREE_BRANCH: &'static str = "\u{251c}\u{2500}";

    /// Tree branch character for the last item in a group
    pub const TREE_LAST_BRANCH: &'static str = "\u{2514}\u{2500}";

    /// Vertical line character for tree structure continuation
    pub const TREE_VERTICAL: &'static str = "\u{2502}";

    /// Nested branch character for hierarchical structures
    pub const TREE_NESTED_BRANCH: &'static str = "\u{250c}\u{2500}";

    /// Full block character for completed progress sections
    pub const PROGRESS_FULL: &'static str = "\u{2588}";

    /// Empty block character for incomplete progress sections
    pub const PROGRESS_EMPTY: &'static str = "\u{2591}";

    /// Bullet point character for lists and emphasis
    pub const BULLET: &'static str = "\u{2022}";

    /// Diamond character for special markers
    pub const DIAMOND: &'static str = "\u{25c6}";

    /// Filled circle character for active states
    pub const CIRCLE: &'static str = "\u{25cf}";

    /// Empty circle character for inactive states
    pub const CIRCLE_EMPTY: &'static str = "\u{25cb}";

    /// Filled square character for solid indicators
    pub const SQUARE: &'static str = "\u{25a0}";

    /// Empty square character for outline indicators
    pub const SQUARE_EMPTY: &'static str = "\u{25a1}";

    /// Down arrow indicating an expanded section
    pub const EXPANDED: &'static str = "\u{25bc}";

    /// Right arrow indicating a collapsed section
    pub const COLLAPSED: &'static str = "\u{25ba}";

    /// Plus sign indicator for expandable content
    pub const EXPANDABLE: &'static str = "[+]";

    /// Minus sign indicator for collapsible content
    pub const COLLAPSIBLE: &'static str = "[-]";

    /// The animation frames of the loading spinner, in display order.
    pub fn spinner_frames() -> Vec<&'static str> {
        let mut frames: Vec<&'static str> = Vec::new();
        frames.push("\u{280b}");
        frames.push("\u{2819}");
        frames.push("\u{2839}");
        frames.push("\u{2838}");
        frames.push("\u{283c}");
        frames.push("\u{2834}");
        frames.push("\u{2826}");
        frames.push("\u{2827}");
        frames.push("\u{2807}");
        frames.push("\u{280f}");
        frames
    }

    /// The partial block characters for fractional progress display, from
    /// thinnest to widest.
    pub fn progress_partial() -> Vec<&'static str> {
        let mut blocks: Vec<&'static str> = Vec::new();
        blocks.push("\u{258f}");
        blocks.push("\u{258e}");
        blocks.push("\u{258d}");
        blocks.push("\u{258c}");
        blocks.push("\u{258b}");
        blocks.push("\u{258a}");
        blocks.push("\u{2589}");
        blocks
    }
}

} // verus!
