//! Where a widget window docked as an app bar goes on the layer shell.
use vstd::prelude::*;

verus! {

/// The screen edge a window is docked to.
#[derive(Debug, Clone, Copy, PartialEq, Eq, Structural)]
pub enum DockEdge {
    Top,
    Bottom,
    Left,
    Right,
}

/// How an app bar window is placed: anchored to `anchor`, reserving
/// `exclusive_zone` pixels of it, at `margin` pixels from it, and asking for
/// `width` by `height` pixels.
#[derive(Debug, Clone, Copy, PartialEq, Eq, Structural)]
pub struct AppBarPlacement {
    pub anchor: DockEdge,
    pub exclusive_zone: i32,
    pub margin: i32,
    pub width: i32,
    pub height: i32,
}

/// The absolute value of an integer.
pub open spec fn abs_value(v: int) -> int {
    if v < 0 {
        -v
    } else {
        v
    }
}

/// The placement of an app bar of the given size and thickness docked to
/// `edge`: the thickness is the exclusive zone, its absolute value the
/// margin from the edge.
pub fn app_bar_placement(width: i32, height: i32, thickness: i32, edge: DockEdge) -> (res:
    AppBarPlacement)
    requires
        thickness != i32::MIN,
    ensures
        res == (AppBarPlacement {
            anchor: edge,
            exclusive_zone: thickness,
            margin: abs_value(thickness as int) as i32,
            width,
            height,
        }),
{
    let margin = if thickness < 0 {
        -thickness
    } else {
        thickness
    };
    AppBarPlacement { anchor: edge, exclusive_zone: thickness, margin, width, height }
}

} // verus!
