//! Shape kinds, orientations, and the two coordinate systems: logical board
//! points and absolute terminal points, with the mapping between them.

use vstd::prelude::*;

verus! {

/// Number of columns of the logical board grid.
pub const BOARD_WIDTH: usize = 10;

/// Number of rows of the logical board grid.
pub const BOARD_HEIGHT: usize = 25;

/// The seven tetromino kinds the engine can produce.
#[derive(Clone, Copy, PartialEq, Eq, Structural, Debug)]
pub enum ShapeKind {
    Eye,
    El,
    ElInv,
    Zee,
    ZeeInv,
    Square,
    Tee,
}

/// Orientation of a falling shape.
#[derive(Clone, Copy, PartialEq, Eq, Structural, Debug)]
pub enum Orientation {
    Up,
    Down,
    Left,
    Right,
}

/// A position in logical board coordinates: `x` grows rightwards,
/// `y` grows upwards from the bottom of the board.
#[derive(Clone, Copy, PartialEq, Eq, Structural, Debug)]
pub struct Point {
    pub x: usize,
    pub y: usize,
}

impl Point {
    pub fn new(x: usize, y: usize) -> (p: Point)
        ensures
            p.x == x,
            p.y == y,
    {
        Point { x, y }
    }

    /// A point lies on the board proper.
    pub open spec fn in_bounds(self) -> bool {
        self.x < BOARD_WIDTH && self.y < BOARD_HEIGHT
    }
}

/// A position in absolute terminal coordinates, produced only by the
/// coordinate mapper. `row` 1 is the top line of the screen.
#[derive(Clone, Copy, PartialEq, Eq, Structural, Debug)]
pub struct TerminalPoint {
    pub col: usize,
    pub row: usize,
}

/// Terminal column of a logical point: each board cell is four columns wide,
/// offset two columns in from the left edge.
pub open spec fn spec_term_col(p: Point) -> int {
    2 + 4 * p.x
}

/// Terminal row of a logical point: each board cell is two rows tall, the
/// board is drawn top-down while logical `y` grows upwards.
pub open spec fn spec_term_row(p: Point) -> int {
    2 + 2 * (BOARD_HEIGHT - 1 - p.y)
}

/// Point-to-terminal mapping is only defined for `y` on the board's rows
/// and `x` small enough that the column arithmetic fits the machine.
pub open spec fn maps_in_range(p: Point) -> bool {
    p.y <= BOARD_HEIGHT - 1 && 2 + 4 * p.x <= usize::MAX
}

/// Map a logical point to the terminal position of its top-left character
/// cell (before any glyph-height adjustment).
pub fn map_point(p: Point) -> (t: TerminalPoint)
    requires
        maps_in_range(p),
    ensures
        t.col == spec_term_col(p),
        t.row == spec_term_row(p),
{
    TerminalPoint { col: 2 + 4 * p.x, row: 2 + 2 * (BOARD_HEIGHT - 1 - p.y) }
}

/// Coordinate mapping is strictly monotone: columns grow with `x`, rows
/// shrink as `y` grows.
pub proof fn lemma_map_point_monotone(p1: Point, p2: Point)
    requires
        p1.in_bounds(),
        p2.in_bounds(),
    ensures
        p1.x < p2.x ==> spec_term_col(p1) < spec_term_col(p2),
        p1.y < p2.y ==> spec_term_row(p1) > spec_term_row(p2),
{
}

/// Coordinate mapping never collides: two distinct in-bounds points map to
/// distinct terminal positions, so the mapping is invertible on the board.
pub proof fn lemma_map_point_injective(p1: Point, p2: Point)
    requires
        p1.in_bounds(),
        p2.in_bounds(),
        p1 != p2,
    ensures
        spec_term_col(p1) != spec_term_col(p2) || spec_term_row(p1) != spec_term_row(p2),
{
}

} // verus!
