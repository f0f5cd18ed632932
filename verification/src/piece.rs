//! The seven falling shapes, their rotation states, and a shape placed on a
//! grid position.

use vstd::prelude::*;

verus! {

/// Number of columns of a playing grid.
pub const GRID_W: usize = 10;

/// Number of rows of a playing grid; row 0 is the top.
pub const GRID_H: usize = 20;

/// Number of shape kinds.
pub const KINDS: u8 = 7;

/// Column of the anchor of a piece that has just been spawned.
pub const SPAWN_X: i32 = 3;

/// Row of the anchor of a piece that has just been spawned.
pub const SPAWN_Y: i32 = 0;

/// Leftmost anchor column at which a piece can still have a block on the grid.
pub const MIN_X: i32 = -3;

/// Rightmost anchor column at which a piece can have a block on the grid.
pub const MAX_X: i32 = 9;

/// Highest anchor row that a piece is ever lifted to; at it every block lies
/// above the top of the grid.
pub const MIN_Y: i32 = -4;

/// Lowest anchor row at which a piece can have a block on the grid.
pub const MAX_Y: i32 = 19;

/// The blocks of each kind in each rotation state, as (column, row) offsets
/// from the anchor inside a box of four by four cells. The kinds are, in
/// order, I, O, T, S, Z, J and L; each next rotation state is a quarter turn
/// clockwise.
pub const SHAPES: [[[(i8, i8); 4]; 4]; 7] = [
    [
        [(0, 1), (1, 1), (2, 1), (3, 1)],
        [(2, 0), (2, 1), (2, 2), (2, 3)],
        [(0, 2), (1, 2), (2, 2), (3, 2)],
        [(1, 0), (1, 1), (1, 2), (1, 3)],
    ],
    [
        [(1, 0), (2, 0), (1, 1), (2, 1)],
        [(1, 0), (2, 0), (1, 1), (2, 1)],
        [(1, 0), (2, 0), (1, 1), (2, 1)],
        [(1, 0), (2, 0), (1, 1), (2, 1)],
    ],
    [
        [(1, 0), (0, 1), (1, 1), (2, 1)],
        [(1, 0), (1, 1), (2, 1), (1, 2)],
        [(0, 1), (1, 1), (2, 1), (1, 2)],
        [(1, 0), (0, 1), (1, 1), (1, 2)],
    ],
    [
        [(1, 0), (2, 0), (0, 1), (1, 1)],
        [(1, 0), (1, 1), (2, 1), (2, 2)],
        [(1, 1), (2, 1), (0, 2), (1, 2)],
        [(0, 0), (0, 1), (1, 1), (1, 2)],
    ],
    [
        [(0, 0), (1, 0), (1, 1), (2, 1)],
        [(2, 0), (1, 1), (2, 1), (1, 2)],
        [(0, 1), (1, 1), (1, 2), (2, 2)],
        [(1, 0), (0, 1), (1, 1), (0, 2)],
    ],
    [
        [(0, 0), (0, 1), (1, 1), (2, 1)],
        [(1, 0), (2, 0), (1, 1), (1, 2)],
        [(0, 1), (1, 1), (2, 1), (2, 2)],
        [(1, 0), (1, 1), (0, 2), (1, 2)],
    ],
    [
        [(2, 0), (0, 1), (1, 1), (2, 1)],
        [(1, 0), (1, 1), (1, 2), (2, 2)],
        [(0, 1), (1, 1), (2, 1), (0, 2)],
        [(0, 0), (1, 0), (1, 1), (1, 2)],
    ],
];

/// Column offset of block `i` of a kind in a rotation state.
#[verifier::opaque]
pub open spec fn block_dx(kind: u8, rot: u8, i: int) -> int {
    SHAPES[kind as int][rot as int][i].0 as int
}

/// Row offset of block `i` of a kind in a rotation state.
#[verifier::opaque]
pub open spec fn block_dy(kind: u8, rot: u8, i: int) -> int {
    SHAPES[kind as int][rot as int][i].1 as int
}

/// Every block offset lies inside the box of four by four cells.
pub proof fn lemma_block_in_box(kind: u8, rot: u8, i: int)
    requires
        kind < KINDS,
        rot < 4,
        0 <= i < 4,
    ensures
        0 <= block_dx(kind, rot, i) < 4,
        0 <= block_dy(kind, rot, i) < 4,
{
    reveal(block_dx);
    reveal(block_dy);
}

/// Reads one block offset from the shape table.
pub fn shape_block(kind: u8, rot: u8, i: usize) -> (d: (i32, i32))
    requires
        kind < KINDS,
        rot < 4,
        i < 4,
    ensures
        d.0 == block_dx(kind, rot, i as int),
        d.1 == block_dy(kind, rot, i as int),
        0 <= d.0 < 4,
        0 <= d.1 < 4,
{
    proof {
        reveal(block_dx);
        reveal(block_dy);
    }
    let cell = SHAPES[kind as usize][rot as usize][i];
    (cell.0 as i32, cell.1 as i32)
}

/// A shape in a rotation state, anchored at a column and a row. The anchor
/// is the top left corner of the shape's box; a negative row lies above the
/// top of the grid.
#[derive(Clone, Copy, Debug, PartialEq, Eq, Structural)]
pub struct Piece {
    pub kind: u8,
    pub rot: u8,
    pub x: i32,
    pub y: i32,
}

impl Piece {
    /// Kind and rotation name an entry of the shape table, and the anchor
    /// lies in the band in which a piece can touch the grid.
    pub open spec fn wf(self) -> bool {
        &&& self.kind < KINDS
        &&& self.rot < 4
        &&& MIN_X <= self.x <= MAX_X
        &&& MIN_Y <= self.y <= MAX_Y
    }

    /// Kind and rotation name an entry of the shape table, and the anchor is
    /// far enough from the largest `i32` for the block positions to be
    /// computed.
    pub open spec fn placeable(self) -> bool {
        &&& self.kind < KINDS
        &&& self.rot < 4
        &&& self.x <= i32::MAX - 4
        &&& self.y <= i32::MAX - 4
    }

    /// Column of block `i`.
    pub open spec fn col(self, i: int) -> int {
        self.x + block_dx(self.kind, self.rot, i)
    }

    /// Row of block `i`.
    pub open spec fn row(self, i: int) -> int {
        self.y + block_dy(self.kind, self.rot, i)
    }

    /// Whether one of the four blocks lies on the given cell.
    pub open spec fn covers(self, col: int, row: int) -> bool {
        ||| (self.col(0) == col && self.row(0) == row)
        ||| (self.col(1) == col && self.row(1) == row)
        ||| (self.col(2) == col && self.row(2) == row)
        ||| (self.col(3) == col && self.row(3) == row)
    }

    /// The piece moved by `dx` columns and `dy` rows.
    pub open spec fn shifted(self, dx: int, dy: int) -> Piece {
        Piece { x: (self.x + dx) as i32, y: (self.y + dy) as i32, ..self }
    }

    /// The piece with its anchor moved to row `y`.
    pub open spec fn at_row(self, y: int) -> Piece {
        Piece { y: y as i32, ..self }
    }

    /// The piece in the next rotation state, clockwise or counterclockwise.
    pub open spec fn turned(self, clockwise: bool) -> Piece {
        Piece {
            rot: if clockwise {
                ((self.rot + 1) % 4) as u8
            } else {
                ((self.rot + 3) % 4) as u8
            },
            ..self
        }
    }

    /// A piece of the given kind as it enters the grid.
    pub open spec fn spawned(kind: u8) -> Piece {
        Piece { kind, rot: 0, x: SPAWN_X, y: SPAWN_Y }
    }

    /// Makes a piece of the given kind at the spawn position. A kind out of
    /// range is taken modulo the number of kinds.
    pub fn spawn(kind: u8) -> (p: Piece)
        ensures
            p == Piece::spawned(kind % KINDS),
            p.wf(),
    {
        Piece { kind: kind % KINDS, rot: 0, x: SPAWN_X, y: SPAWN_Y }
    }

    /// The piece one rotation state further, clockwise or counterclockwise.
    pub fn turn(&self, clockwise: bool) -> (p: Piece)
        requires
            self.wf(),
        ensures
            p == self.turned(clockwise),
            p.wf(),
    {
        let rot: u8 = if clockwise {
            (self.rot + 1) % 4
        } else {
            (self.rot + 3) % 4
        };
        Piece { kind: self.kind, rot, x: self.x, y: self.y }
    }
}

} // verus!
