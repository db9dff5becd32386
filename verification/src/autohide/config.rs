//! Settings and states of the sliding sidebar.

use vstd::prelude::*;
use crate::text::{lowercase, same_text, to_lowercase};

verus! {

/// Screen edge at which the window hides.
#[derive(Clone, Copy, Debug, PartialEq, Eq, Structural)]
pub enum ScreenEdge {
    Left,
    Right,
}

impl Default for ScreenEdge {
    fn default() -> (edge: ScreenEdge)
        ensures
            edge == ScreenEdge::Left,
    {
        ScreenEdge::Left
    }
}

/// The name of the one edge that has to be asked for.
pub open spec fn right_name() -> Seq<char> {
    seq!['r', 'i', 'g', 'h', 't']
}

/// The edge that a name in lowercase stands for: the right one for `right`,
/// the left one for anything else.
pub open spec fn edge_named(lowered: Seq<char>) -> ScreenEdge {
    if lowered == right_name() {
        ScreenEdge::Right
    } else {
        ScreenEdge::Left
    }
}

impl ScreenEdge {
    /// The edge that a name stands for once it has been put in lowercase.
    pub fn from_lowercase(lowered: &str) -> (edge: ScreenEdge)
        ensures
            edge == edge_named(lowered@),
    {
        proof {
            reveal_strlit("right");
            assert("right"@ =~= right_name());
        }
        if same_text(lowered, "right") {
            ScreenEdge::Right
        } else {
            ScreenEdge::Left
        }
    }

    /// The edge that a name stands for, whatever its case.
    pub fn from_str(s: &str) -> (edge: ScreenEdge)
        ensures
            edge == edge_named(lowercase(s@)),
    {
        let lowered = to_lowercase(s);
        ScreenEdge::from_lowercase(lowered.as_str())
    }
}

/// The horizontal extent of a monitor, in whole pixels.
#[derive(Clone, Copy, Debug, PartialEq, Eq, Structural)]
pub struct MonitorBounds {
    /// Where the monitor begins.
    pub left: i32,
    /// Where it ends: its origin plus its width.
    pub right: i32,
}

/// Settings of the sliding sidebar.
#[derive(Clone, Copy, Debug, PartialEq, Eq, Structural)]
pub struct AutohideConfig {
    pub enabled: bool,
    pub edge: ScreenEdge,
    /// Whole pixels that stay in sight when the window is hidden: the handle.
    pub visible_pixels: i32,
    /// Duration of the slide in milliseconds.
    pub animation_duration_ms: u64,
}

impl Default for AutohideConfig {
    fn default() -> (config: AutohideConfig)
        ensures
            config == (AutohideConfig {
                enabled: false,
                edge: ScreenEdge::Left,
                visible_pixels: 8,
                animation_duration_ms: 200,
            }),
    {
        AutohideConfig {
            enabled: false,
            edge: ScreenEdge::Left,
            visible_pixels: 8,
            animation_duration_ms: 200,
        }
    }
}

/// Whether the window is in sight.
#[derive(Clone, Copy, Debug, PartialEq, Eq, Structural)]
pub enum WindowState {
    /// The window is hidden at the screen edge; only the handle shows.
    Hidden,
    /// The window is fully in sight.
    Visible,
}

} // verus!
