//! Shared geometry and colour of the entities on the field.
//!
//! Everything is measured in whole world units. An entity is an axis-aligned box,
//! given by the position of its centre and by its size, and it is drawn in one colour.

use vstd::prelude::*;

verus! {

/// A colour by its red, green and blue part, each on the scale from 0 to 255.
#[derive(Clone, Copy, Debug, PartialEq, Eq, Structural)]
pub struct RGB {
    pub r: u32,
    pub g: u32,
    pub b: u32,
}

impl RGB {
    /// The colour with the given red, green and blue part.
    pub fn new(channels: (u32, u32, u32)) -> (color: RGB)
        ensures
            color == (RGB { r: channels.0, g: channels.1, b: channels.2 }),
    {
        RGB { r: channels.0, g: channels.1, b: channels.2 }
    }
}

/// Width and height of an entity's bounding box.
#[derive(Clone, Copy, Debug, PartialEq, Eq, Structural)]
pub struct Size {
    pub width: u32,
    pub height: u32,
}

impl Size {
    /// A square of side `x`.
    pub fn square(x: u32) -> (size: Size)
        ensures
            size == (Size { width: x, height: x }),
    {
        Size { width: x, height: x }
    }
}

/// The centre of an entity. The origin is the centre of the window, `x` grows to
/// the right and `y` grows upwards.
#[derive(Clone, Copy, Debug, PartialEq, Eq, Structural)]
pub struct Position {
    pub x: i64,
    pub y: i64,
}

impl Position {
    /// The centre of the window.
    pub fn origin() -> (position: Position)
        ensures
            position == (Position { x: 0, y: 0 }),
    {
        Position { x: 0, y: 0 }
    }
}

/// Whether a position lies on the grid of spacing `cell` around the origin.
pub open spec fn on_grid(position: Position, cell: u32) -> bool {
    &&& (position.x as int) % (cell as int) == 0
    &&& (position.y as int) % (cell as int) == 0
}

/// The dimensions of the window that the field is drawn in. The field is the window: an
/// entity is in it as long as no part of its box is outside.
#[derive(Clone, Copy, Debug, PartialEq, Eq, Structural)]
pub struct Window {
    pub width: u32,
    pub height: u32,
}

/// How far from the centre of the window the centre of a box may lie along an axis on
/// which the window measures `window_extent` and the box `size_extent`, in half units:
/// there the box touches the edge of the window from inside.
pub open spec fn doubled_reach(window_extent: u32, size_extent: u32) -> int {
    window_extent - size_extent
}

/// Whether a box lies in the field: no part of it is outside the window.
pub open spec fn in_field(window: Window, position: Position, size: Size) -> bool {
    &&& -doubled_reach(window.width, size.width) <= 2 * position.x <= doubled_reach(
        window.width,
        size.width,
    )
    &&& -doubled_reach(window.height, size.height) <= 2 * position.y <= doubled_reach(
        window.height,
        size.height,
    )
}

/// Whether a box touches the edge of the field or reaches over it.
pub open spec fn at_edge(window: Window, position: Position, size: Size) -> bool {
    ||| 2 * position.x <= -doubled_reach(window.width, size.width)
    ||| 2 * position.x >= doubled_reach(window.width, size.width)
    ||| 2 * position.y <= -doubled_reach(window.height, size.height)
    ||| 2 * position.y >= doubled_reach(window.height, size.height)
}

} // verus!
