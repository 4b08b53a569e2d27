//! Layout splitter: partitions a rectangular screen region into two equal
//! halves along a chosen axis, with zero margin.
//!
//! When the extent along the split axis is odd, the first half receives the
//! larger share, so the two halves always tile the region exactly.

use vstd::prelude::*;

verus! {

/// The axis along which a region is divided.
#[derive(Clone, Copy, PartialEq, Eq, Structural, Debug)]
pub enum Direction {
    Horizontal,
    Vertical,
}

/// A rectangular region of terminal cells, in absolute coordinates.
#[derive(Clone, Copy, PartialEq, Eq, Structural, Debug)]
pub struct Rect {
    pub x: u16,
    pub y: u16,
    pub width: u16,
    pub height: u16,
}

/// A region is well formed when it fits inside the coordinate space: its
/// far edges do not overflow `u16`.
pub open spec fn rect_well_formed(r: Rect) -> bool {
    r.x + r.width <= u16::MAX && r.y + r.height <= u16::MAX
}

/// Whether the cell at absolute coordinates `(cx, cy)` lies inside `r`.
pub open spec fn rect_contains(r: Rect, cx: int, cy: int) -> bool {
    r.x <= cx < r.x + r.width && r.y <= cy < r.y + r.height
}

/// The two halves of `r` along `direction`: the first half keeps the
/// origin and rounds its extent up, the second half takes the rest.
pub open spec fn spec_split(direction: Direction, r: Rect) -> (Rect, Rect) {
    match direction {
        Direction::Horizontal => {
            let first_width = r.width - r.width / 2;
            (
                Rect { x: r.x, y: r.y, width: first_width as u16, height: r.height },
                Rect {
                    x: (r.x + first_width) as u16,
                    y: r.y,
                    width: (r.width / 2) as u16,
                    height: r.height,
                },
            )
        },
        Direction::Vertical => {
            let first_height = r.height - r.height / 2;
            (
                Rect { x: r.x, y: r.y, width: r.width, height: first_height as u16 },
                Rect {
                    x: r.x,
                    y: (r.y + first_height) as u16,
                    width: r.width,
                    height: (r.height / 2) as u16,
                },
            )
        },
    }
}

/// Divides `rect` into exactly two sub-regions of half the extent each
/// along `direction`, with zero margin.  On an odd extent the first half
/// gets the extra cell.
pub fn split(direction: Direction, rect: Rect) -> (halves: Vec<Rect>)
    requires
        rect_well_formed(rect),
    ensures
        halves@.len() == 2,
        (halves@[0], halves@[1]) == spec_split(direction, rect),
        rect_well_formed(halves@[0]),
        rect_well_formed(halves@[1]),
{
    let mut halves: Vec<Rect> = Vec::new();
    match direction {
        Direction::Horizontal => {
            let first_width: u16 = rect.width - rect.width / 2;
            halves.push(Rect { x: rect.x, y: rect.y, width: first_width, height: rect.height });
            halves.push(
                Rect {
                    x: rect.x + first_width,
                    y: rect.y,
                    width: rect.width / 2,
                    height: rect.height,
                },
            );
        },
        Direction::Vertical => {
            let first_height: u16 = rect.height - rect.height / 2;
            halves.push(Rect { x: rect.x, y: rect.y, width: rect.width, height: first_height });
            halves.push(
                Rect {
                    x: rect.x,
                    y: rect.y + first_height,
                    width: rect.width,
                    height: rect.height / 2,
                },
            );
        },
    }
    halves
}

/// Law: splitting a region yields two disjoint sub-regions that together
/// tile the region exactly, and each sub-region covers half of the split
/// axis's extent to within one cell, the full extent of the other axis.
pub proof fn lemma_split_partitions(direction: Direction, r: Rect)
    requires
        rect_well_formed(r),
    ensures
        forall|cx: int, cy: int|
            !(rect_contains(#[trigger] spec_split(direction, r).0, cx, cy)
                && rect_contains(spec_split(direction, r).1, cx, cy)),
        forall|cx: int, cy: int|
            rect_contains(r, cx, cy) <==> (rect_contains(
                #[trigger] spec_split(direction, r).0,
                cx,
                cy,
            ) || rect_contains(spec_split(direction, r).1, cx, cy)),
        direction == Direction::Horizontal ==> {
            let (a, b) = spec_split(direction, r);
            &&& a.width + b.width == r.width
            &&& a.width - b.width <= 1
            &&& b.width <= a.width
            &&& a.height == r.height
            &&& b.height == r.height
        },
        direction == Direction::Vertical ==> {
            let (a, b) = spec_split(direction, r);
            &&& a.height + b.height == r.height
            &&& a.height - b.height <= 1
            &&& b.height <= a.height
            &&& a.width == r.width
            &&& b.width == r.width
        },
{
}

} // verus!
