//! Contact between axis-aligned bounding boxes.

use vstd::prelude::*;
use crate::utilities::{Position, Size};

verus! {

/// Whether the interiors of two boxes intersect. A box reaches half its size to each
/// side of its centre, so the comparison is made on doubled coordinates, where the
/// edges are whole numbers. Boxes that only share an edge or a corner do not overlap.
pub open spec fn overlaps(a_pos: Position, a_size: Size, b_pos: Position, b_size: Size) -> bool {
    &&& 2 * a_pos.x - a_size.width < 2 * b_pos.x + b_size.width
    &&& 2 * a_pos.x + a_size.width > 2 * b_pos.x - b_size.width
    &&& 2 * a_pos.y - a_size.height < 2 * b_pos.y + b_size.height
    &&& 2 * a_pos.y + a_size.height > 2 * b_pos.y - b_size.height
}

/// Tests two boxes, each given by its centre and its size, for overlap.
pub fn collide(a_pos: Position, a_size: Size, b_pos: Position, b_size: Size) -> (hit: bool)
    ensures
        hit == overlaps(a_pos, a_size, b_pos, b_size),
{
    let a_min_x: i128 = 2 * (a_pos.x as i128) - (a_size.width as i128);
    let a_max_x: i128 = 2 * (a_pos.x as i128) + (a_size.width as i128);
    let a_min_y: i128 = 2 * (a_pos.y as i128) - (a_size.height as i128);
    let a_max_y: i128 = 2 * (a_pos.y as i128) + (a_size.height as i128);
    let b_min_x: i128 = 2 * (b_pos.x as i128) - (b_size.width as i128);
    let b_max_x: i128 = 2 * (b_pos.x as i128) + (b_size.width as i128);
    let b_min_y: i128 = 2 * (b_pos.y as i128) - (b_size.height as i128);
    let b_max_y: i128 = 2 * (b_pos.y as i128) + (b_size.height as i128);
    a_min_x < b_max_x && a_max_x > b_min_x && a_min_y < b_max_y && a_max_y > b_min_y
}

/// Overlap does not depend on the order in which the two boxes are given.
pub proof fn lemma_overlaps_symmetric(a_pos: Position, a_size: Size, b_pos: Position, b_size: Size)
    ensures
        overlaps(a_pos, a_size, b_pos, b_size) == overlaps(b_pos, b_size, a_pos, a_size),
{
}

/// A box with a positive width and height overlaps itself; an empty one overlaps nothing
/// at its own place.
pub proof fn lemma_overlaps_self(pos: Position, size: Size)
    ensures
        overlaps(pos, size, pos, size) == (size.width > 0 && size.height > 0),
{
}

} // verus!
