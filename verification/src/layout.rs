//! Edge/orientation resolution: a pure mapping from the configured screen
//! edge to the layout axis, the anchor pair, and the surface sizes shared by
//! the dock strip and the thin pointer-detector strip.

use vstd::prelude::*;

use crate::config::EdgeConfig;

verus! {

/// Layout axis of the launcher strip.
#[derive(Clone, Copy, Debug, PartialEq, Eq, Structural)]
pub enum Orientation {
    Horizontal,
    Vertical,
}

/// Main-axis extent of a dock or detector surface, in pixels.
pub const MAIN_AXIS_SIZE: i32 = 800;

/// Cross-axis thickness of the dock surface, in pixels.
pub const DOCK_THICKNESS: i32 = 60;

/// Cross-axis thickness of the pointer-detector strip, in pixels.
pub const DETECTOR_THICKNESS: i32 = 1;

/// A dock at the left or right edge lays its entries out vertically; at the
/// top or bottom edge, horizontally.
pub open spec fn orientation_spec(edge: EdgeConfig) -> Orientation {
    match edge {
        EdgeConfig::Left => Orientation::Vertical,
        EdgeConfig::Right => Orientation::Vertical,
        EdgeConfig::Top => Orientation::Horizontal,
        EdgeConfig::Bottom => Orientation::Horizontal,
    }
}

/// Besides its own edge, a surface is stretched between the two neighbouring
/// edges: top and bottom for a side dock, left and right otherwise.
pub open spec fn anchor_pair_spec(edge: EdgeConfig) -> (EdgeConfig, EdgeConfig) {
    match edge {
        EdgeConfig::Left => (EdgeConfig::Top, EdgeConfig::Bottom),
        EdgeConfig::Right => (EdgeConfig::Top, EdgeConfig::Bottom),
        EdgeConfig::Top => (EdgeConfig::Left, EdgeConfig::Right),
        EdgeConfig::Bottom => (EdgeConfig::Left, EdgeConfig::Right),
    }
}

/// Width and height of a surface of the given cross-axis thickness, oriented
/// for the given edge: the main axis is long, the cross axis is `thickness`.
pub open spec fn surface_size_spec(edge: EdgeConfig, thickness: i32) -> (i32, i32) {
    match orientation_spec(edge) {
        Orientation::Horizontal => (MAIN_AXIS_SIZE, thickness),
        Orientation::Vertical => (thickness, MAIN_AXIS_SIZE),
    }
}

pub fn orientation_of(edge: EdgeConfig) -> (o: Orientation)
    ensures
        o == orientation_spec(edge),
{
    match edge {
        EdgeConfig::Left | EdgeConfig::Right => Orientation::Vertical,
        EdgeConfig::Top | EdgeConfig::Bottom => Orientation::Horizontal,
    }
}

pub fn anchor_pair(edge: EdgeConfig) -> (p: (EdgeConfig, EdgeConfig))
    ensures
        p == anchor_pair_spec(edge),
{
    match edge {
        EdgeConfig::Left | EdgeConfig::Right => (EdgeConfig::Top, EdgeConfig::Bottom),
        EdgeConfig::Top | EdgeConfig::Bottom => (EdgeConfig::Left, EdgeConfig::Right),
    }
}

/// Size of the dock surface for the given edge.
pub fn dock_size(edge: EdgeConfig) -> (s: (i32, i32))
    ensures
        s == surface_size_spec(edge, DOCK_THICKNESS),
{
    match orientation_of(edge) {
        Orientation::Horizontal => (MAIN_AXIS_SIZE, DOCK_THICKNESS),
        Orientation::Vertical => (DOCK_THICKNESS, MAIN_AXIS_SIZE),
    }
}

/// Size of the thin pointer-detector strip for the given edge.
pub fn detector_size(edge: EdgeConfig) -> (s: (i32, i32))
    ensures
        s == surface_size_spec(edge, DETECTOR_THICKNESS),
{
    match orientation_of(edge) {
        Orientation::Horizontal => (MAIN_AXIS_SIZE, DETECTOR_THICKNESS),
        Orientation::Vertical => (DETECTOR_THICKNESS, MAIN_AXIS_SIZE),
    }
}

/// Inside one launcher entry, icon and label are stacked along the cross
/// axis: icon above label on a horizontal dock, icon beside label on a
/// vertical one.
pub open spec fn entry_layout_spec(strip: Orientation) -> Orientation {
    match strip {
        Orientation::Horizontal => Orientation::Vertical,
        Orientation::Vertical => Orientation::Horizontal,
    }
}

pub fn entry_layout(strip: Orientation) -> (o: Orientation)
    ensures
        o == entry_layout_spec(strip),
{
    match strip {
        Orientation::Horizontal => Orientation::Vertical,
        Orientation::Vertical => Orientation::Horizontal,
    }
}

/// Orientation resolution is total: each of the four edges maps to exactly
/// one orientation/anchor-pair combination, tabulated here in full. The
/// detector strip and the dock share the edge and the anchors; only their
/// cross-axis thickness differs.
pub proof fn lemma_orientation_resolution_total()
    ensures
        forall|e: EdgeConfig|
            (#[trigger] orientation_spec(e)) == Orientation::Vertical <==> (e == EdgeConfig::Left
                || e == EdgeConfig::Right),
        orientation_spec(EdgeConfig::Left) == Orientation::Vertical,
        orientation_spec(EdgeConfig::Right) == Orientation::Vertical,
        orientation_spec(EdgeConfig::Top) == Orientation::Horizontal,
        orientation_spec(EdgeConfig::Bottom) == Orientation::Horizontal,
        anchor_pair_spec(EdgeConfig::Left) == (EdgeConfig::Top, EdgeConfig::Bottom),
        anchor_pair_spec(EdgeConfig::Right) == (EdgeConfig::Top, EdgeConfig::Bottom),
        anchor_pair_spec(EdgeConfig::Top) == (EdgeConfig::Left, EdgeConfig::Right),
        anchor_pair_spec(EdgeConfig::Bottom) == (EdgeConfig::Left, EdgeConfig::Right),
        forall|e: EdgeConfig|
            #[trigger] surface_size_spec(e, DOCK_THICKNESS) == (if orientation_spec(e)
                == Orientation::Horizontal {
                (MAIN_AXIS_SIZE, DOCK_THICKNESS)
            } else {
                (DOCK_THICKNESS, MAIN_AXIS_SIZE)
            }),
{
}

} // verus!
