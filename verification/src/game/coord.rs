//! Grid cells.

use rand::Rng;
use vstd::prelude::*;

use super::canvas::{cell_area, DrawOp, Rect};
use super::direction::Direction;

verus! {

/// A cell of the grid, by column and row. Columns grow to the right and rows
/// grow downwards.
#[derive(Debug, PartialEq, Eq, Structural, Clone, Copy)]
pub struct Coord(pub isize, pub isize);

/// Draws one integer from `0..bound` with `Rng::gen_range` on rand's
/// thread-local generator. The contract claims no more than that the result
/// lies in the range asked for, which holds of every draw. The generator
/// panics on an empty range, so the bound must be positive.
#[verifier::external_body]
fn random_below(bound: isize) -> (r: isize)
    requires
        0 < bound,
    ensures
        0 <= r < bound,
{
    rand::thread_rng().gen_range(0..bound)
}

impl Coord {
    /// Whether the cell lies on a square grid of `side` cells per axis.
    pub open spec fn within(self, side: int) -> bool {
        0 <= self.0 < side && 0 <= self.1 < side
    }

    /// Whether this cell comes before `other` when the grid is read row by
    /// row from the top, each row from the left.
    pub open spec fn reads_before(self, other: Coord) -> bool {
        self.1 < other.1 || (self.1 == other.1 && self.0 < other.0)
    }

    /// Whether the neighbour in direction `dir` has machine coordinates.
    pub open spec fn can_step(self, dir: Direction) -> bool {
        &&& isize::MIN <= self.0 + dir.dx() <= isize::MAX
        &&& isize::MIN <= self.1 + dir.dy() <= isize::MAX
    }

    /// The neighbouring cell in direction `dir`.
    pub open spec fn step(self, dir: Direction) -> Coord {
        Coord((self.0 + dir.dx()) as isize, (self.1 + dir.dy()) as isize)
    }

    /// The command that paints this cell in `color` when cells are `size`
    /// pixels wide.
    pub open spec fn fill_op<'a>(self, size: int, color: &'a str) -> DrawOp<'a> {
        DrawOp::Fill { area: cell_area(self.0 as int, self.1 as int, size), color }
    }

    /// The command that erases this cell when cells are `size` pixels wide.
    pub open spec fn clear_op(self, size: int) -> DrawOp<'static> {
        DrawOp::Clear { area: cell_area(self.0 as int, self.1 as int, size) }
    }

    /// Picks a cell at random on a grid of `max_range` cells per axis.
    ///
    /// Which cell comes back is up to the random number generator; every
    /// outcome lies on the grid.
    pub fn new_random(max_range: isize) -> (c: Coord)
        requires
            0 < max_range,
        ensures
            c.within(max_range as int),
    {
        let x: isize = random_below(max_range);
        let y: isize = random_below(max_range);
        Coord(x, y)
    }

    /// Returns the command that paints this cell in `color`: a filled square
    /// at (`x * size`, `y * size`) that is `size - 1` pixels wide and high.
    pub fn draw<'a>(&self, size: isize, color: &'a str) -> (op: DrawOp<'a>)
        ensures
            op == self.fill_op(size as int, color),
    {
        DrawOp::Fill { area: Rect::of_cell(self.0, self.1, size), color }
    }

    /// Returns the command that erases this cell: the square that `draw`
    /// fills is cleared.
    pub fn clear(&self, size: isize) -> (op: DrawOp<'static>)
        ensures
            op == self.clear_op(size as int),
    {
        DrawOp::Clear { area: Rect::of_cell(self.0, self.1, size) }
    }
}

} // verus!
