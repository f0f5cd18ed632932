//! The heuristic player. It looks at the board it plays on, rates every
//! placement that the falling piece could come to rest in, and names one
//! command that brings the piece a step closer to the best of them.

use vstd::prelude::*;
use crate::board::{Board, BoardView};
use crate::grid::{cleared, fits, merged, project, Grid, Rows, EMPTY};
use crate::piece::{Piece, GRID_H, GRID_W, KINDS, MAX_Y, MIN_X, MIN_Y, SPAWN_Y};
use crate::rand::{entry_kind, kind_at, BLKQUEUE};

verus! {

/// Cost of each row of height of a column.
pub const HEIGHT_COST: u32 = 1;

/// Cost of each empty cell that lies under an occupied cell of its column.
pub const HOLE_COST: u32 = 8;

/// Number of anchor columns that are tried for each rotation state.
pub const SPAN: usize = 13;

/// Number of placements that are rated: four rotation states at `SPAN`
/// anchor columns each.
pub const CANDIDATES: usize = 52;

/// Row of the topmost occupied cell of column `c` at or below row `from`;
/// `GRID_H` where the column is empty from there on.
pub open spec fn col_top(g: Rows, c: int, from: int) -> int
    decreases GRID_H - from,
{
    if from >= GRID_H {
        GRID_H as int
    } else if g[from][c] != EMPTY {
        from
    } else {
        col_top(g, c, from + 1)
    }
}

/// Number of empty cells of column `c` at or below row `from`.
pub open spec fn empties_below(g: Rows, c: int, from: int) -> int
    decreases GRID_H - from,
{
    if from >= GRID_H {
        0
    } else if g[from][c] == EMPTY {
        1 + empties_below(g, c, from + 1)
    } else {
        empties_below(g, c, from + 1)
    }
}

/// Cost of one column: its height, and its holes, which are the empty cells
/// under its topmost occupied cell.
pub open spec fn col_cost(g: Rows, c: int) -> int {
    HEIGHT_COST * (GRID_H - col_top(g, c, 0)) + HOLE_COST * empties_below(g, c, col_top(g, c, 0))
}

/// Cost of the first `n` columns of a grid.
pub open spec fn cost_upto(g: Rows, n: int) -> int
    decreases n,
{
    if n <= 0 {
        0
    } else {
        cost_upto(g, n - 1) + col_cost(g, n - 1)
    }
}

/// Cost of a grid: the lower, the better the position.
pub open spec fn grid_cost(g: Rows) -> int {
    cost_upto(g, GRID_W as int)
}

/// The grid that a placement leaves: the piece drops straight down, is
/// locked, and full rows are cleared.
pub open spec fn outcome(g: Rows, p: Piece) -> Rows {
    cleared(merged(g, project(g, p)))
}

/// Cost of a placement: the cost of the grid that it leaves.
pub open spec fn placement_cost(g: Rows, p: Piece) -> int {
    grid_cost(outcome(g, p))
}

/// Placement number `idx` of a kind at a row: rotation state `idx / SPAN`,
/// anchor column `MIN_X + idx % SPAN`.
pub open spec fn candidate(kind: u8, y: i32, idx: int) -> Piece {
    Piece { kind, rot: (idx / (SPAN as int)) as u8, x: (MIN_X + idx % (SPAN as int)) as i32, y }
}

/// The best of the first `n` placements: the lowest cost among those that
/// fit, and the number of the first placement that has it. `None` where none
/// of them fits.
pub open spec fn best_upto(g: Rows, kind: u8, y: i32, n: int) -> Option<(int, int)>
    decreases n,
{
    if n <= 0 {
        None
    } else {
        let prev = best_upto(g, kind, y, n - 1);
        let p = candidate(kind, y, n - 1);
        let beats = match prev {
            Some(least) => placement_cost(g, p) < least.0,
            None => true,
        };
        if fits(g, p) && beats {
            Some((placement_cost(g, p), n - 1))
        } else {
            prev
        }
    }
}

/// The best placement of a kind at a row, among all that are rated.
pub open spec fn best(g: Rows, kind: u8, y: i32) -> Option<(int, int)> {
    best_upto(g, kind, y, CANDIDATES as int)
}

/// The kind that a hold would bring in: the held kind, or the next of the
/// queue where nothing is held.
pub open spec fn hold_kind(b: BoardView, queue: Seq<i8>) -> u8 {
    match b.held {
        Some(k) => k,
        None => kind_at(queue, b.next_idx),
    }
}

/// Whether a hold pays: the hold slot is free, and the kind that it would
/// bring in has a placement that costs less than the best of the falling
/// piece.
pub open spec fn hold_pays(b: BoardView, queue: Seq<i8>) -> bool {
    &&& !b.hold_used
    &&& best(b.grid, hold_kind(b, queue), SPAWN_Y) matches Some(other)
    &&& (best(b.grid, b.cur.kind, b.cur.y) matches Some(own) ==> other.0 < own.0)
}

/// The command that the player gives: nothing (a space) on a board that is
/// over; `S` to hold where that pays; else a step towards the best
/// placement of the falling piece: `T` to turn while the rotation differs,
/// `L` or `R` while the column differs, and `W` to drop once both agree or
/// where no placement fits.
pub open spec fn ai_step(b: BoardView, queue: Seq<i8>) -> char {
    if b.game_over {
        ' '
    } else if hold_pays(b, queue) {
        'S'
    } else {
        match best(b.grid, b.cur.kind, b.cur.y) {
            None => 'W',
            Some(own) => {
                let t = candidate(b.cur.kind, b.cur.y, own.1);
                if t.rot != b.cur.rot {
                    'T'
                } else if t.x < b.cur.x {
                    'L'
                } else if t.x > b.cur.x {
                    'R'
                } else {
                    'W'
                }
            },
        }
    }
}

/// The best placement is a placement that fits and costs no more than any
/// other that fits; where there is none, no placement fits.
pub proof fn lemma_best_is_least(g: Rows, kind: u8, y: i32, n: int, idx: int)
    requires
        0 <= idx < n,
    ensures
        match best_upto(g, kind, y, n) {
            Some(found) => {
                &&& 0 <= found.1 < n
                &&& fits(g, candidate(kind, y, found.1))
                &&& found.0 == placement_cost(g, candidate(kind, y, found.1))
                &&& fits(g, candidate(kind, y, idx)) ==> found.0 <= placement_cost(
                    g,
                    candidate(kind, y, idx),
                )
                &&& fits(g, candidate(kind, y, idx)) && found.0 == placement_cost(
                    g,
                    candidate(kind, y, idx),
                ) ==> found.1 <= idx
            },
            None => !fits(g, candidate(kind, y, idx)),
        },
    decreases n,
{
    if idx < n - 1 {
        lemma_best_is_least(g, kind, y, n - 1, idx);
    } else if n - 1 > 0 {
        lemma_best_is_least(g, kind, y, n - 1, 0);
    }
}

/// There are no more empty cells below a row than cells.
proof fn lemma_empties_bounds(g: Rows, c: int, from: int)
    requires
        0 <= from <= GRID_H,
    ensures
        0 <= empties_below(g, c, from) <= GRID_H - from,
    decreases GRID_H - from,
{
    if from < GRID_H {
        lemma_empties_bounds(g, c, from + 1);
    }
}

/// Rates one column of a grid.
fn column_cost(grid: &Grid, c: usize) -> (cost: u32)
    requires
        c < GRID_W,
    ensures
        cost == col_cost(grid@, c as int),
        cost <= 180,
{
    let mut r: usize = 0;
    while r < GRID_H
        invariant
            r <= GRID_H,
            c < GRID_W,
            col_top(grid@, c as int, r as int) == col_top(grid@, c as int, 0),
        ensures
            r <= GRID_H,
            r == col_top(grid@, c as int, 0),
        decreases GRID_H - r,
    {
        if grid.get(r, c) != EMPTY {
            break;
        }
        r += 1;
    }
    let top = r;
    let mut holes: u32 = 0;
    while r < GRID_H
        invariant
            top <= r <= GRID_H,
            c < GRID_W,
            holes <= r - top,
            holes + empties_below(grid@, c as int, r as int) == empties_below(
                grid@,
                c as int,
                top as int,
            ),
        decreases GRID_H - r,
    {
        if grid.get(r, c) == EMPTY {
            holes += 1;
        }
        r += 1;
    }
    proof {
        lemma_empties_bounds(grid@, c as int, top as int);
    }
    HEIGHT_COST * (GRID_H - top) as u32 + HOLE_COST * holes
}

/// Rates a grid: the sum of the costs of its columns.
pub fn rate_grid(grid: &Grid) -> (cost: u32)
    ensures
        cost == grid_cost(grid@),
        cost <= 1800,
{
    let mut cost: u32 = 0;
    let mut c: usize = 0;
    while c < GRID_W
        invariant
            c <= GRID_W,
            cost == cost_upto(grid@, c as int),
            cost <= 180 * c,
        decreases GRID_W - c,
    {
        let one = column_cost(grid, c);
        cost += one;
        c += 1;
    }
    cost
}

/// Rates a placement: the piece is dropped and locked on a copy of the grid,
/// full rows are cleared, and what is left is rated.
pub fn rate_placement(grid: &Grid, p: Piece) -> (cost: u32)
    requires
        p.wf(),
    ensures
        cost == placement_cost(grid@, p),
        cost <= 1800,
{
    let landed = grid.project(p);
    let mut after = *grid;
    after.merge(&landed);
    after.clear_lines();
    rate_grid(&after)
}

/// Finds the best placement of a kind at a row: its cost and its number, or
/// `None` where no placement fits.
pub fn find_best(grid: &Grid, kind: u8, y: i32) -> (found: Option<(u32, usize)>)
    requires
        kind < KINDS,
        MIN_Y <= y <= MAX_Y,
    ensures
        match found {
            Some((cost, idx)) => best(grid@, kind, y) == Some((cost as int, idx as int)) && idx
                < CANDIDATES,
            None => best(grid@, kind, y) is None,
        },
{
    let mut found: Option<(u32, usize)> = None;
    let mut idx: usize = 0;
    while idx < CANDIDATES
        invariant
            idx <= CANDIDATES,
            kind < KINDS,
            MIN_Y <= y <= MAX_Y,
            match found {
                Some((cost, at)) => best_upto(grid@, kind, y, idx as int) == Some(
                    (cost as int, at as int),
                ) && at < CANDIDATES,
                None => best_upto(grid@, kind, y, idx as int) is None,
            },
        decreases CANDIDATES - idx,
    {
        let p = Piece { kind, rot: (idx / SPAN) as u8, x: MIN_X + (idx % SPAN) as i32, y };
        assert(p == candidate(kind, y, idx as int));
        if grid.fits(&p) {
            let cost = rate_placement(grid, p);
            let better = match found {
                Some((least, _)) => cost < least,
                None => true,
            };
            if better {
                found = Some((cost, idx));
            }
        }
        idx += 1;
    }
    found
}

/// The heuristic player. It keeps nothing between two decisions, so the same
/// board and queue always give the same command.
#[derive(Clone, Copy, Debug)]
pub struct TetrisAi {}

impl TetrisAi {
    /// A player.
    pub fn new() -> (ai: TetrisAi) {
        TetrisAi {  }
    }

    /// Names the next command for the board: a space for none, `S` for a
    /// hold, `T` for a turn clockwise, `L` and `R` for a move to the left
    /// and to the right, `W` for a drop.
    pub fn get_ai_act(&self, queue: &[i8; BLKQUEUE], board: &Board) -> (c: char)
        requires
            board@.wf(),
        ensures
            c == ai_step(board@, queue@),
    {
        if board.is_over() {
            return ' ';
        }
        let grid = board.grid();
        let cur = board.current();
        let own = find_best(grid, cur.kind, cur.y);
        if !board.hold_used() {
            let other_kind = match board.held() {
                Some(k) => k,
                None => entry_kind(queue[board.next_index()]),
            };
            match find_best(grid, other_kind, SPAWN_Y) {
                Some((other_cost, _)) => {
                    let pays = match own {
                        Some((own_cost, _)) => other_cost < own_cost,
                        None => true,
                    };
                    if pays {
                        return 'S';
                    }
                },
                None => {},
            }
        }
        match own {
            None => 'W',
            Some((_, idx)) => {
                let rot: u8 = (idx / SPAN) as u8;
                let x: i32 = MIN_X + (idx % SPAN) as i32;
                if rot != cur.rot {
                    'T'
                } else if x < cur.x {
                    'L'
                } else if x > cur.x {
                    'R'
                } else {
                    'W'
                }
            },
        }
    }
}

/// The player's command depends on the board and the queue alone: two
/// boards that look the same, with queues that hold the same, get the same
/// command.
pub proof fn lemma_decision_repeats(a: BoardView, b: BoardView, p: Seq<i8>, q: Seq<i8>)
    requires
        a == b,
        p == q,
    ensures
        ai_step(a, p) == ai_step(b, q),
{
}

} // verus!
