//! A snapshot of the settled board: a grid of optional shape-kind-at-rest
//! markers, received from the engine and only ever diffed, never mutated in
//! place by the renderer.

use vstd::prelude::*;
use crate::shape::{ShapeKind, BOARD_HEIGHT, BOARD_WIDTH};

verus! {

/// Row-major grid: `self.0[y][x]` is the occupant of column `x` of row `y`,
/// `y` growing upwards from the bottom of the board.
#[derive(Debug)]
pub struct Board(pub Vec<Vec<Option<ShapeKind>>>);

impl Board {
    /// A board always has exactly `BOARD_HEIGHT` rows of `BOARD_WIDTH` cells.
    pub open spec fn wf(self) -> bool {
        self.0@.len() == BOARD_HEIGHT && forall|y: int|
            0 <= y < self.0@.len() ==> (#[trigger] self.0@[y])@.len() == BOARD_WIDTH
    }

    /// The occupant of cell `(x, y)`.
    pub open spec fn cell(self, x: int, y: int) -> Option<ShapeKind> {
        self.0@[y]@[x]
    }

    /// An empty board.
    pub fn new() -> (b: Board)
        ensures
            b.wf(),
            forall|x: int, y: int|
                0 <= x < BOARD_WIDTH && 0 <= y < BOARD_HEIGHT ==> #[trigger] b.cell(x, y) is None,
    {
        let mut rows: Vec<Vec<Option<ShapeKind>>> = Vec::new();
        let mut y: usize = 0;
        while y < BOARD_HEIGHT
            invariant
                y <= BOARD_HEIGHT,
                rows@.len() == y,
                forall|i: int| 0 <= i < y ==> (#[trigger] rows@[i])@.len() == BOARD_WIDTH,
                forall|i: int, j: int|
                    0 <= i < y && 0 <= j < BOARD_WIDTH ==> #[trigger] rows@[i]@[j] is None,
            decreases BOARD_HEIGHT - y,
        {
            let mut row: Vec<Option<ShapeKind>> = Vec::new();
            let mut x: usize = 0;
            while x < BOARD_WIDTH
                invariant
                    x <= BOARD_WIDTH,
                    row@.len() == x,
                    forall|j: int| 0 <= j < x ==> row@[j] is None,
                decreases BOARD_WIDTH - x,
            {
                row.push(None);
                x = x + 1;
            }
            rows.push(row);
            y = y + 1;
        }
        Board(rows)
    }

    /// Read one cell.
    pub fn get(&self, x: usize, y: usize) -> (c: Option<ShapeKind>)
        requires
            self.wf(),
            x < BOARD_WIDTH,
            y < BOARD_HEIGHT,
        ensures
            c == self.cell(x as int, y as int),
    {
        self.0[y][x]
    }

    /// Overwrite one cell; every other cell keeps its occupant.
    pub fn set(&mut self, x: usize, y: usize, v: Option<ShapeKind>)
        requires
            old(self).wf(),
            x < BOARD_WIDTH,
            y < BOARD_HEIGHT,
        ensures
            final(self).wf(),
            final(self).cell(x as int, y as int) == v,
            forall|i: int, j: int|
                0 <= i < BOARD_WIDTH && 0 <= j < BOARD_HEIGHT && !(i == x && j == y)
                    ==> #[trigger] final(self).cell(i, j) == old(self).cell(i, j),
    {
        let row: &mut Vec<Option<ShapeKind>> = &mut self.0[y];
        row.set(x, v);
    }
}

} // verus!
