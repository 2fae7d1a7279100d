//! What the engine asks of its drawing surface.
//!
//! The engine never touches a canvas. It hands out drawing commands, in the
//! order in which they are to be carried out, and whoever owns the canvas
//! carries them out. Pixel positions are integers; they are kept in `i128`,
//! which holds the product of any cell coordinate with any cell size.

use vstd::prelude::*;

verus! {

/// An axis-parallel rectangle of pixels, by its upper left corner and its
/// extent.
#[derive(Debug, PartialEq, Eq, Structural, Clone, Copy)]
pub struct Rect {
    pub x: i128,
    pub y: i128,
    pub width: i128,
    pub height: i128,
}

/// One command for the drawing surface.
#[derive(Debug, PartialEq, Eq, Clone, Copy)]
pub enum DrawOp<'a> {
    /// Set the fill colour to `color` and fill `area` with it.
    Fill { area: Rect, color: &'a str },
    /// Erase `area`.
    Clear { area: Rect },
}

/// The square that a grid cell at column `col` and row `row` covers when
/// cells are `size` pixels wide: it starts at the cell's corner and stops one
/// pixel short of the next cell on either axis, which leaves the grid lines
/// visible.
pub open spec fn cell_area(col: int, row: int, size: int) -> Rect {
    Rect {
        x: (col * size) as i128,
        y: (row * size) as i128,
        width: (size - 1) as i128,
        height: (size - 1) as i128,
    }
}

/// The square that starts at the origin and spans `cells` cells of `size`
/// pixels on either axis.
pub open spec fn board_area(cells: int, size: int) -> Rect {
    Rect { x: 0, y: 0, width: (cells * size) as i128, height: (cells * size) as i128 }
}

/// The product of two machine integers, which always fits in `i128`.
pub fn pixel_product(a: isize, b: isize) -> (p: i128)
    ensures
        p == a * b,
{
    assert(-0x4000_0000_0000_0000_0000_0000_0000_0000 <= a * b
        <= 0x4000_0000_0000_0000_0000_0000_0000_0000) by (nonlinear_arith)
        requires
            -0x8000_0000_0000_0000 <= a <= 0x8000_0000_0000_0000,
            -0x8000_0000_0000_0000 <= b <= 0x8000_0000_0000_0000,
    ;
    (a as i128) * (b as i128)
}

impl Rect {
    /// Computes the square of the cell at (`col`, `row`) for cells of `size`
    /// pixels.
    pub fn of_cell(col: isize, row: isize, size: isize) -> (area: Rect)
        ensures
            area == cell_area(col as int, row as int, size as int),
    {
        let side: i128 = (size as i128) - 1;
        Rect {
            x: pixel_product(col, size),
            y: pixel_product(row, size),
            width: side,
            height: side,
        }
    }

    /// Computes the square of a whole board of `cells` by `cells` cells of
    /// `size` pixels.
    pub fn of_board(cells: isize, size: isize) -> (area: Rect)
        ensures
            area == board_area(cells as int, size as int),
    {
        let side: i128 = pixel_product(cells, size);
        Rect { x: 0, y: 0, width: side, height: side }
    }
}

} // verus!
