//! One player's board: the grid, the falling piece with its shadow, the held
//! piece, and the counters, with the commands that move, rotate, hold and
//! lock the piece and the garbage that an opponent sends.
//!
//! A board is either falling or over. On a board that is over every command
//! leaves the board as it is.

use vstd::prelude::*;
use crate::grid::{
    cleared, fits, full_count, inside, lemma_cleared_shaped, lemma_fits_bounds,
    lemma_open_rows_len, lemma_project, lemma_raised_height, lemma_raised_rows,
    lemma_spawn_inside, merged, project, raised, row_blank, shaped, stack_height, Grid, Rows,
};
use crate::piece::{Piece, GRID_H, GRID_W, KINDS, MIN_Y};
use crate::rand::{drawn, entry_kind, kind_at, next_state, state_after, Rand, BLKQUEUE};

verus! {

/// A command for a board.
#[derive(Clone, Copy, Debug, PartialEq, Eq, Structural)]
pub enum Move {
    Left,
    Right,
    Down,
    TurnCw,
    TurnCcw,
    DropDown,
    Save,
    Restart,
}

/// What became of an attempted move.
#[derive(Clone, Copy, Debug, PartialEq, Eq, Structural)]
pub enum MoveRet {
    /// The move was made.
    Normal,
    /// The move was rejected and the board is unchanged.
    Blocked,
    /// A downward move was rejected: the piece rests on the floor or on the
    /// stack. The board is unchanged.
    ReachBottom,
}

/// A sideways nudge that is tried before a rotation that does not fit in
/// place, in the order in which the nudges are tried.
#[derive(Clone, Copy, Debug, PartialEq, Eq, Structural)]
pub enum Kick {
    Left,
    Left2,
    Right,
    Right2,
}

impl Kick {
    /// The number of columns that the nudge moves the piece by.
    pub open spec fn dx(self) -> int {
        match self {
            Kick::Left => -1,
            Kick::Left2 => -2,
            Kick::Right => 1,
            Kick::Right2 => 2,
        }
    }

    /// The number of columns that the nudge moves the piece by.
    pub fn columns(&self) -> (dx: i32)
        ensures
            dx == self.dx(),
    {
        match self {
            Kick::Left => -1,
            Kick::Left2 => -2,
            Kick::Right => 1,
            Kick::Right2 => 2,
        }
    }
}

/// What a board sends to its opponent after it cleared lines: the number of
/// garbage rows, and a code for the strength of the clear, which is the
/// number of lines that it took at once.
#[derive(Clone, Copy, Debug, PartialEq, Eq, Structural)]
pub struct Attack {
    pub rows: u8,
    pub strength: u8,
}

/// The payload after a lock that cleared `n` lines, given the payload that
/// was pending before. A lock that clears lines sets the payload: one
/// garbage row for each line, and the number of lines as the strength code.
/// A lock that clears nothing leaves the payload as it was.
pub open spec fn payload_after(pending: Attack, n: int) -> Attack {
    if n <= 0 {
        pending
    } else {
        Attack { rows: n as u8, strength: n as u8 }
    }
}

/// The points for clearing `n` lines at once: a hundred times the square of
/// `n`.
pub open spec fn score_gain(n: int) -> int {
    100 * n * n
}

/// `a + b`, or the largest `u32` where that is less.
pub open spec fn capped(a: int, b: int) -> u32 {
    if a + b > u32::MAX {
        u32::MAX
    } else {
        (a + b) as u32
    }
}

/// The grid after `n` garbage rows have entered, one after the other, the
/// gap of each in the column that the generator draws, modulo the width.
pub open spec fn garbage_pushed(g: Rows, s: u64, n: nat) -> Rows
    decreases n,
{
    if n == 0 {
        g
    } else {
        let s1 = next_state(s);
        garbage_pushed(raised(g, (drawn(s1) % (GRID_W as u32)) as int), s1, (n - 1) as nat)
    }
}

/// Whether an occupied cell leaves the grid through the top while `n`
/// garbage rows enter.
pub open spec fn garbage_lost(g: Rows, s: u64, n: nat) -> bool
    decreases n,
{
    if n == 0 {
        false
    } else {
        let s1 = next_state(s);
        !row_blank(g[0]) || garbage_lost(
            raised(g, (drawn(s1) % (GRID_W as u32)) as int),
            s1,
            (n - 1) as nat,
        )
    }
}

/// The piece lifted out of the rows that rose into it: moved up row by row,
/// at most `n` rows and not above `MIN_Y`, for as long as it does not fit.
pub open spec fn lifted(g: Rows, p: Piece, n: nat) -> Piece
    decreases n,
{
    if n > 0 && p.y > MIN_Y && !fits(g, p) {
        lifted(g, p.shifted(0, -1), (n - 1) as nat)
    } else {
        p
    }
}

/// The number of garbage rows that an attack of `rows` rows lets in: no more
/// than the grid has rows.
pub open spec fn rows_let_in(rows: u8) -> nat {
    if rows > GRID_H {
        GRID_H as nat
    } else {
        rows as nat
    }
}

/// A board as the contracts see it.
pub struct BoardView {
    /// The grid, rows from the top down.
    pub grid: Rows,
    /// The falling piece.
    pub cur: Piece,
    /// The falling piece projected straight down.
    pub shadow: Piece,
    /// The kind in the hold slot.
    pub held: Option<u8>,
    /// Whether the hold slot was used since the last lock.
    pub hold_used: bool,
    /// Whether the board is over.
    pub game_over: bool,
    /// The payload that waits to be sent to the opponent.
    pub attack: Attack,
    /// Position in the block queue of the next piece.
    pub next_idx: int,
    /// Points.
    pub score: u32,
    /// Lines cleared.
    pub lines: u32,
    /// Strength code of the latest attack that was received.
    pub hit: u8,
}

impl BoardView {
    /// What surrounds the pieces is in order: the grid has its shape, the
    /// queue position is in range, the hold slot names a kind, and the
    /// pending payload has no more rows than the grid and no strength
    /// without rows.
    pub open spec fn framed(self) -> bool {
        &&& shaped(self.grid)
        &&& 0 <= self.next_idx < BLKQUEUE
        &&& (self.held matches Some(k) ==> k < KINDS)
        &&& self.attack.rows <= GRID_H
        &&& (self.attack.rows == 0 ==> self.attack.strength == 0)
    }

    /// The board is in order but perhaps for its shadow, which may be
    /// stale: what surrounds the pieces is in order, the falling piece names
    /// a shape and lies in the band around the grid, no block of it lies
    /// beside the grid or below its floor, and while the board is not over
    /// it lies on free cells.
    pub open spec fn settled(self) -> bool {
        &&& self.framed()
        &&& self.cur.wf()
        &&& inside(self.cur)
        &&& (!self.game_over ==> fits(self.grid, self.cur))
    }

    /// The board is valid: it is in order, and its shadow is the projection
    /// of the falling piece.
    pub open spec fn wf(self) -> bool {
        &&& self.settled()
        &&& self.shadow.wf()
        &&& self.shadow == project(self.grid, self.cur)
    }

    /// The board with the falling piece replaced and the shadow following.
    pub open spec fn with_cur(self, p: Piece) -> BoardView {
        BoardView { cur: p, shadow: project(self.grid, p), ..self }
    }

    /// Where a move takes the falling piece, for the moves that shift
    /// or rotate it.
    pub open spec fn target(self, d: Move) -> Option<Piece> {
        match d {
            Move::Left => Some(self.cur.shifted(-1, 0)),
            Move::Right => Some(self.cur.shifted(1, 0)),
            Move::Down => Some(self.cur.shifted(0, 1)),
            Move::TurnCw => Some(self.cur.turned(true)),
            Move::TurnCcw => Some(self.cur.turned(false)),
            _ => None,
        }
    }

    /// The move is accepted: the board is not over, the move shifts or
    /// rotates the piece, and the piece fits where the move takes it.
    pub open spec fn can_move(self, d: Move) -> bool {
        &&& !self.game_over
        &&& self.target(d) matches Some(p)
        &&& fits(self.grid, p)
    }

    /// The board after an attempted move.
    pub open spec fn moved(self, d: Move) -> BoardView {
        if self.can_move(d) {
            self.with_cur(self.target(d)->0)
        } else {
            self
        }
    }

    /// The result of an attempted move.
    pub open spec fn move_result(self, d: Move) -> MoveRet {
        if self.can_move(d) {
            MoveRet::Normal
        } else if d == Move::Down && !self.game_over {
            MoveRet::ReachBottom
        } else {
            MoveRet::Blocked
        }
    }

    /// Where a rotation after a nudge takes the falling piece.
    pub open spec fn kick_target(self, d: Move, k: Kick) -> Option<Piece> {
        match d {
            Move::TurnCw => Some(self.cur.shifted(k.dx(), 0).turned(true)),
            Move::TurnCcw => Some(self.cur.shifted(k.dx(), 0).turned(false)),
            _ => None,
        }
    }

    /// The rotation after the nudge is accepted.
    pub open spec fn can_kick(self, d: Move, k: Kick) -> bool {
        &&& !self.game_over
        &&& self.kick_target(d, k) matches Some(p)
        &&& fits(self.grid, p)
    }

    /// The board after an attempted rotation with a nudge.
    pub open spec fn kicked(self, d: Move, k: Kick) -> BoardView {
        if self.can_kick(d, k) {
            self.with_cur(self.kick_target(d, k)->0)
        } else {
            self
        }
    }

    /// A piece of the given kind enters: it stands at the spawn position,
    /// and the board is over if it does not fit there.
    pub open spec fn entered(self, kind: u8) -> BoardView {
        let p = Piece::spawned(kind);
        BoardView {
            cur: p,
            shadow: project(self.grid, p),
            game_over: self.game_over || !fits(self.grid, p),
            ..self
        }
    }

    /// The queue position after one more piece was taken.
    pub open spec fn advanced(self) -> int {
        (self.next_idx + 1) % (BLKQUEUE as int)
    }

    /// The board after the falling piece was locked where it is: the piece
    /// is written into the grid, full rows are cleared, a clear sets the
    /// payload, the counters grow by the lines cleared, the hold slot is
    /// free again, and the next piece of the queue enters.
    pub open spec fn next_block(self, queue: Seq<i8>) -> BoardView {
        if self.game_over {
            self
        } else {
            let g = merged(self.grid, self.cur);
            let n = full_count(g);
            BoardView {
                grid: cleared(g),
                attack: payload_after(self.attack, n),
                score: capped(self.score as int, score_gain(n)),
                lines: capped(self.lines as int, n),
                hold_used: false,
                next_idx: self.advanced(),
                ..self
            }.entered(kind_at(queue, self.next_idx))
        }
    }

    /// The board after a hold: nothing where the slot was used since the
    /// last lock; else the falling piece's kind goes to the slot, and the
    /// kind that was there, or the next of the queue where the slot was
    /// empty, enters.
    pub open spec fn saved(self, queue: Seq<i8>) -> BoardView {
        if self.game_over || self.hold_used {
            self
        } else {
            match self.held {
                Some(k) => BoardView {
                    held: Some(self.cur.kind),
                    hold_used: true,
                    ..self
                }.entered(k),
                None => BoardView {
                    held: Some(self.cur.kind),
                    hold_used: true,
                    next_idx: self.advanced(),
                    ..self
                }.entered(kind_at(queue, self.next_idx)),
            }
        }
    }

    /// The board after its fall timer was processed: where the timer fired,
    /// the piece drops to its shadow and is locked there.
    pub open spec fn timer_processed(self, queue: Seq<i8>, fired: bool) -> BoardView {
        if fired && !self.game_over {
            self.with_cur(self.shadow).next_block(queue)
        } else {
            self
        }
    }

    /// The board after an attack of `rows` garbage rows with the generator
    /// in state `s`: the rows enter at the bottom, the falling piece is
    /// lifted out of them, and the board is over where an occupied cell left
    /// through the top or the piece still does not fit.
    pub open spec fn attacked(self, s: u64, rows: u8, strength: u8) -> BoardView {
        if self.game_over {
            self
        } else {
            let n = rows_let_in(rows);
            let g = garbage_pushed(self.grid, s, n);
            let p = lifted(g, self.cur, n);
            BoardView {
                grid: g,
                cur: p,
                shadow: project(g, p),
                game_over: garbage_lost(self.grid, s, n) || !fits(g, p),
                hit: strength,
                ..self
            }
        }
    }

    /// The board with its pending payload set to nothing.
    pub open spec fn attack_cleared(self) -> BoardView {
        BoardView { attack: Attack { rows: 0, strength: 0 }, ..self }
    }

    /// A board at the start of a match: an empty grid, nothing held, all
    /// counters at zero, and the first piece of the queue entered.
    pub open spec fn fresh(queue: Seq<i8>) -> BoardView {
        let g = Seq::new(GRID_H as nat, |r: int| Seq::new(GRID_W as nat, |c: int| 0u8));
        let p = Piece::spawned(kind_at(queue, 0));
        BoardView {
            grid: g,
            cur: p,
            shadow: project(g, p),
            held: None,
            hold_used: false,
            game_over: !fits(g, p),
            attack: Attack { rows: 0, strength: 0 },
            next_idx: 1,
            score: 0,
            lines: 0,
            hit: 0,
        }
    }
}

/// One player's board.
#[derive(Clone, Copy, Debug)]
pub struct Board {
    grid: Grid,
    cur: Piece,
    shadow: Piece,
    held: Option<u8>,
    hold_used: bool,
    game_over: bool,
    attack: Attack,
    next_idx: usize,
    score: u32,
    lines: u32,
    hit: u8,
}

impl View for Board {
    type V = BoardView;

    closed spec fn view(&self) -> BoardView {
        BoardView {
            grid: self.grid@,
            cur: self.cur,
            shadow: self.shadow,
            held: self.held,
            hold_used: self.hold_used,
            game_over: self.game_over,
            attack: self.attack,
            next_idx: self.next_idx as int,
            score: self.score,
            lines: self.lines,
            hit: self.hit,
        }
    }
}

/// Garbage rows leave the grid in its shape.
pub proof fn lemma_garbage_shaped(g: Rows, s: u64, n: nat)
    requires
        shaped(g),
    ensures
        shaped(garbage_pushed(g, s, n)),
    decreases n,
{
    if n > 0 {
        let s1 = next_state(s);
        let gap = (drawn(s1) % (GRID_W as u32)) as int;
        lemma_raised_rows(g, gap);
        lemma_garbage_shaped(raised(g, gap), s1, (n - 1) as nat);
    }
}

/// Lets `n` garbage rows enter a grid, one after the other, each with its
/// gap in the column that the generator draws, and tells whether an occupied
/// cell left through the top.
pub fn push_garbage_rows(grid: &mut Grid, rng: &mut Rand, n: u8) -> (lost: bool)
    ensures
        final(grid)@ == garbage_pushed(old(grid)@, old(rng).state, n as nat),
        lost == garbage_lost(old(grid)@, old(rng).state, n as nat),
        final(rng).state == state_after(old(rng).state, n as nat),
{
    let ghost g0 = grid@;
    let ghost s0 = rng.state;
    let mut lost = false;
    let mut i: u8 = 0;
    while i < n
        invariant
            i <= n,
            rng.state == state_after(s0, i as nat),
            garbage_pushed(grid@, rng.state, (n - i) as nat) == garbage_pushed(g0, s0, n as nat),
            (lost || garbage_lost(grid@, rng.state, (n - i) as nat)) == garbage_lost(
                g0,
                s0,
                n as nat,
            ),
        decreases n - i,
    {
        let ghost g = grid@;
        let ghost s = rng.state;
        let gap = rng.rand() % (GRID_W as u32);
        let l = grid.push_garbage(gap as usize);
        proof {
            let left = (n - i) as nat;
            let s1 = next_state(s);
            assert(grid@ == raised(g, (drawn(s1) % (GRID_W as u32)) as int));
            assert(garbage_pushed(g, s, left) == garbage_pushed(grid@, s1, (left - 1) as nat));
            assert(garbage_lost(g, s, left) == (!row_blank(g[0]) || garbage_lost(
                grid@,
                s1,
                (left - 1) as nat,
            )));
        }
        lost = lost || l;
        i += 1;
    }
    lost
}

/// Lifts a piece out of rows that rose into it: up row by row, at most `n`
/// rows and not above `MIN_Y`, for as long as it does not fit.
pub fn lift(grid: &Grid, piece: Piece, n: u8) -> (p: Piece)
    requires
        piece.wf(),
    ensures
        p == lifted(grid@, piece, n as nat),
        p.wf(),
        inside(piece) ==> inside(p),
{
    let mut p = piece;
    let mut k: u8 = 0;
    while k < n && p.y > MIN_Y
        invariant
            k <= n,
            p.wf(),
            inside(piece) ==> inside(p),
            lifted(grid@, p, (n - k) as nat) == lifted(grid@, piece, n as nat),
        ensures
            p.wf(),
            inside(piece) ==> inside(p),
            p == lifted(grid@, piece, n as nat),
        decreases n - k,
    {
        if grid.fits(&p) {
            break;
        }
        let up = Piece { kind: p.kind, rot: p.rot, x: p.x, y: p.y - 1 };
        assert(up == p.shifted(0, -1));
        p = up;
        k += 1;
    }
    p
}

/// A fresh board is valid and not over: the first piece always fits on the
/// empty grid.
pub proof fn lemma_fresh(queue: Seq<i8>)
    ensures
        BoardView::fresh(queue).wf(),
        !BoardView::fresh(queue).game_over,
{
    let b = BoardView::fresh(queue);
    let kind = kind_at(queue, 0);
    lemma_spawn_inside(kind);
    lemma_project(b.grid, b.cur);
    assert(fits(b.grid, b.cur));
}

/// On every valid board each cell of the grid lies in one of `GRID_H` rows
/// and `GRID_W` columns, and no block of the falling piece lies left of
/// column 0, right of the last column, or below the floor.
pub proof fn lemma_boundary(b: BoardView, i: int)
    requires
        b.wf(),
        0 <= i < 4,
    ensures
        shaped(b.grid),
        0 <= b.cur.col(i) < GRID_W,
        b.cur.row(i) < GRID_H,
{
}

/// On every valid board the shadow has the shape, the rotation and the
/// column of the falling piece, and stands at the lowest row that the piece
/// reaches by moving straight down through valid placements: every row from
/// the piece down to the shadow is a valid placement, and the row below the
/// shadow is not.
pub proof fn lemma_shadow(b: BoardView)
    requires
        b.wf(),
        !b.game_over,
    ensures
        b.shadow.kind == b.cur.kind,
        b.shadow.rot == b.cur.rot,
        b.shadow.x == b.cur.x,
        b.shadow.y >= b.cur.y,
        fits(b.grid, b.shadow),
        !fits(b.grid, b.shadow.shifted(0, 1)),
        forall|y: int| b.cur.y <= y <= b.shadow.y ==> fits(b.grid, #[trigger] b.cur.at_row(y)),
{
    lemma_project(b.grid, b.cur);
}

/// An attempted move leaves a valid board valid.
pub proof fn lemma_moved_wf(b: BoardView, d: Move)
    requires
        b.wf(),
    ensures
        b.moved(d).wf(),
{
    if b.can_move(d) {
        let p = b.target(d)->0;
        lemma_fits_bounds(b.grid, p);
        lemma_project(b.grid, p);
    }
}

/// After a move or rotation that was accepted, the shadow has the column
/// and rotation of the piece where it now stands, and is its projection
/// straight down.
pub proof fn lemma_moved_shadow(b: BoardView, d: Move)
    requires
        b.wf(),
        b.can_move(d),
    ensures
        b.moved(d).cur == b.target(d)->0,
        b.moved(d).shadow.x == b.moved(d).cur.x,
        b.moved(d).shadow.rot == b.moved(d).cur.rot,
        b.moved(d).shadow == project(b.grid, b.moved(d).cur),
        fits(b.grid, b.moved(d).shadow),
        !fits(b.grid, b.moved(d).shadow.shifted(0, 1)),
{
    lemma_moved_wf(b, d);
    lemma_shadow(b.moved(d));
}

/// The shadow of a valid board that is not over is itself a valid place
/// for the piece, so the board with its piece dropped to the shadow is valid
/// and not over.
pub proof fn lemma_moved_shadow_valid(b: BoardView)
    requires
        b.wf(),
        !b.game_over,
    ensures
        b.with_cur(b.shadow).wf(),
        !b.with_cur(b.shadow).game_over,
        b.with_cur(b.shadow).cur == b.shadow,
        b.with_cur(b.shadow).grid == b.grid,
{
    lemma_project(b.grid, b.cur);
    lemma_project(b.grid, b.shadow);
}

/// A move that is rejected changes nothing: in particular it locks no
/// piece, whatever the direction.
pub proof fn lemma_rejected_move(b: BoardView, d: Move)
    requires
        !b.can_move(d),
    ensures
        b.moved(d) == b,
        b.move_result(d) != MoveRet::Normal,
{
}

/// An attempted rotation with a nudge leaves a valid board valid.
pub proof fn lemma_kicked_wf(b: BoardView, d: Move, k: Kick)
    requires
        b.wf(),
    ensures
        b.kicked(d, k).wf(),
{
    if b.can_kick(d, k) {
        let p = b.kick_target(d, k)->0;
        lemma_fits_bounds(b.grid, p);
        lemma_project(b.grid, p);
    }
}

/// A piece that enters a board whose grid, queue position and hold slot are
/// in order leaves a valid board.
pub proof fn lemma_entered_wf(b: BoardView, kind: u8)
    requires
        kind < KINDS,
        b.framed(),
    ensures
        b.entered(kind).wf(),
{
    lemma_spawn_inside(kind);
    lemma_project(b.grid, Piece::spawned(kind));
}

/// A lock leaves a valid board valid.
pub proof fn lemma_next_block_wf(b: BoardView, queue: Seq<i8>)
    requires
        b.wf(),
    ensures
        b.next_block(queue).wf(),
{
    if !b.game_over {
        let g = merged(b.grid, b.cur);
        lemma_cleared_shaped(g);
        lemma_open_rows_len(g);
        let n = full_count(g);
        let locked = BoardView {
            grid: cleared(g),
            attack: payload_after(b.attack, n),
            score: capped(b.score as int, score_gain(n)),
            lines: capped(b.lines as int, n),
            hold_used: false,
            next_idx: b.advanced(),
            ..b
        };
        lemma_entered_wf(locked, kind_at(queue, b.next_idx));
    }
}

/// A hold leaves a valid board valid.
pub proof fn lemma_saved_wf(b: BoardView, queue: Seq<i8>)
    requires
        b.wf(),
    ensures
        b.saved(queue).wf(),
{
    if !(b.game_over || b.hold_used) {
        match b.held {
            Some(k) => {
                lemma_entered_wf(BoardView { held: Some(b.cur.kind), hold_used: true, ..b }, k);
            },
            None => {
                lemma_entered_wf(
                    BoardView {
                        held: Some(b.cur.kind),
                        hold_used: true,
                        next_idx: b.advanced(),
                        ..b
                    },
                    kind_at(queue, b.next_idx),
                );
            },
        }
    }
}

/// Processing the fall timer leaves a valid board valid.
pub proof fn lemma_timer_processed_wf(b: BoardView, queue: Seq<i8>, fired: bool)
    requires
        b.wf(),
    ensures
        b.timer_processed(queue, fired).wf(),
{
    if fired && !b.game_over {
        lemma_project(b.grid, b.cur);
        lemma_project(b.grid, b.shadow);
        lemma_next_block_wf(b.with_cur(b.shadow), queue);
    }
}

/// Clearing more lines at once sends more: whatever was pending, the number
/// of garbage rows and the strength code both grow strictly with the lines
/// that a lock clears, and a lock that clears a line sends at least one row.
pub proof fn lemma_payload_grows(pending: Attack, n: int, m: int)
    requires
        0 < n < m <= GRID_H,
    ensures
        0 < payload_after(pending, n).rows < payload_after(pending, m).rows,
        0 < payload_after(pending, n).strength < payload_after(pending, m).strength,
        payload_after(pending, m).rows == m,
{
}

/// A lock sets the payload by the lines that it clears: two boards that are
/// not over send rows and strength in the order of the lines that their
/// locks complete, whatever either had pending.
pub proof fn lemma_lock_sends_by_lines(a: BoardView, b: BoardView, p: Seq<i8>, q: Seq<i8>)
    requires
        a.wf(),
        b.wf(),
        !a.game_over,
        !b.game_over,
        0 < full_count(merged(b.grid, b.cur)) < full_count(merged(a.grid, a.cur)),
    ensures
        0 < b.next_block(q).attack.rows < a.next_block(p).attack.rows,
        0 < b.next_block(q).attack.strength < a.next_block(p).attack.strength,
        a.next_block(p).attack.rows == full_count(merged(a.grid, a.cur)),
{
    lemma_open_rows_len(merged(a.grid, a.cur));
    lemma_open_rows_len(merged(b.grid, b.cur));
}

/// While garbage rows enter, nothing sinks: each row that stays on the grid
/// keeps its cells and stands `n` rows higher than before.
pub proof fn lemma_garbage_keeps_rows(g: Rows, s: u64, n: nat, r: int)
    requires
        shaped(g),
        n <= r < GRID_H,
    ensures
        garbage_pushed(g, s, n)[r - n] == g[r],
    decreases n,
{
    if n > 0 {
        let s1 = next_state(s);
        let gap = (drawn(s1) % (GRID_W as u32)) as int;
        lemma_raised_rows(g, gap);
        assert(raised(g, gap)[r - 1] == g[r]);
        lemma_garbage_keeps_rows(raised(g, gap), s1, (n - 1) as nat, r - 1);
    }
}

/// Garbage rows that enter without pushing an occupied cell through the top
/// make the stack higher by exactly their number.
pub proof fn lemma_garbage_height(g: Rows, s: u64, n: nat)
    requires
        shaped(g),
        !garbage_lost(g, s, n),
    ensures
        stack_height(garbage_pushed(g, s, n)) == stack_height(g) + n,
    decreases n,
{
    if n > 0 {
        let s1 = next_state(s);
        let gap = (drawn(s1) % (GRID_W as u32)) as int;
        lemma_raised_rows(g, gap);
        lemma_raised_height(g, gap);
        lemma_garbage_height(raised(g, gap), s1, (n - 1) as nat);
    }
}

/// Lifting moves a piece up only, in its column.
pub proof fn lemma_lifted(g: Rows, p: Piece, n: nat)
    requires
        p.wf(),
        inside(p),
    ensures
        lifted(g, p, n).wf(),
        inside(lifted(g, p, n)),
        lifted(g, p, n).x == p.x,
        lifted(g, p, n).rot == p.rot,
        lifted(g, p, n).kind == p.kind,
        p.y - n <= lifted(g, p, n).y <= p.y,
    decreases n,
{
    if n > 0 && p.y > MIN_Y && !fits(g, p) {
        lemma_lifted(g, p.shifted(0, -1), (n - 1) as nat);
    }
}

/// An attack leaves a valid board valid.
pub proof fn lemma_attacked_wf(b: BoardView, s: u64, rows: u8, strength: u8)
    requires
        b.wf(),
    ensures
        b.attacked(s, rows, strength).wf(),
{
    if !b.game_over {
        let n = rows_let_in(rows);
        let g = garbage_pushed(b.grid, s, n);
        lemma_garbage_shaped(b.grid, s, n);
        lemma_lifted(g, b.cur, n);
        lemma_project(g, lifted(g, b.cur, n));
    }
}

/// An attack that pushes no occupied cell through the top makes the stack
/// of the attacked board higher by exactly the number of garbage rows that
/// it lets in, and every row that was on the grid keeps its cells that many
/// rows higher.
pub proof fn lemma_attack_height(b: BoardView, s: u64, rows: u8, strength: u8)
    requires
        b.wf(),
        !b.game_over,
        !garbage_lost(b.grid, s, rows_let_in(rows)),
    ensures
        stack_height(b.attacked(s, rows, strength).grid) == stack_height(b.grid) + rows_let_in(
            rows,
        ),
        forall|r: int|
            rows_let_in(rows) <= r < GRID_H ==> #[trigger] b.attacked(s, rows, strength).grid[r
                - rows_let_in(rows)] == b.grid[r],
{
    let n = rows_let_in(rows);
    lemma_garbage_height(b.grid, s, n);
    assert forall|r: int| n <= r < GRID_H implies #[trigger] b.attacked(s, rows, strength).grid[r
        - n] == b.grid[r] by {
        lemma_garbage_keeps_rows(b.grid, s, n, r);
    }
}

impl Board {
    /// A board before its first match: as at the start of a match whose
    /// queue holds the first kind in every entry.
    pub fn new() -> (b: Board)
        ensures
            b@ == BoardView::fresh(Seq::new(BLKQUEUE as nat, |i: int| 0i8)),
            b@.wf(),
            !b@.game_over,
    {
        let queue: [i8; BLKQUEUE] = [0i8; BLKQUEUE];
        let mut b = Board {
            grid: Grid::new(),
            cur: Piece::spawn(0),
            shadow: Piece::spawn(0),
            held: None,
            hold_used: false,
            game_over: false,
            attack: Attack { rows: 0, strength: 0 },
            next_idx: 0,
            score: 0,
            lines: 0,
            hit: 0,
        };
        b.reset(&queue);
        assert(queue@ =~= Seq::new(BLKQUEUE as nat, |i: int| 0i8));
        b
    }

    /// Starts a match: the grid is emptied, the hold slot and the counters
    /// are cleared, and the first piece of the queue enters.
    pub fn reset(&mut self, queue: &[i8; BLKQUEUE])
        ensures
            final(self)@ == BoardView::fresh(queue@),
            final(self)@.wf(),
            !final(self)@.game_over,
    {
        proof {
            lemma_fresh(queue@);
        }
        let grid = Grid::new();
        let cur = Piece::spawn(entry_kind(queue[0]));
        proof {
            lemma_spawn_inside(cur.kind);
        }
        let shadow = grid.project(cur);
        let over = !grid.fits(&cur);
        assert(grid@ =~~= Seq::new(GRID_H as nat, |r: int| Seq::new(GRID_W as nat, |c: int| 0u8)));
        *self = Board {
            grid,
            cur,
            shadow,
            held: None,
            hold_used: false,
            game_over: over,
            attack: Attack { rows: 0, strength: 0 },
            next_idx: 1,
            score: 0,
            lines: 0,
            hit: 0,
        };
    }

    /// The grid.
    pub fn grid(&self) -> (g: &Grid)
        ensures
            g@ == self@.grid,
    {
        &self.grid
    }

    /// The falling piece.
    pub fn current(&self) -> (p: Piece)
        ensures
            p == self@.cur,
    {
        self.cur
    }

    /// The shadow of the falling piece.
    pub fn shadow(&self) -> (p: Piece)
        ensures
            p == self@.shadow,
    {
        self.shadow
    }

    /// The kind in the hold slot.
    pub fn held(&self) -> (k: Option<u8>)
        ensures
            k == self@.held,
    {
        self.held
    }

    /// Whether the hold slot was used since the last lock.
    pub fn hold_used(&self) -> (used: bool)
        ensures
            used == self@.hold_used,
    {
        self.hold_used
    }

    /// Whether the board is over.
    pub fn is_over(&self) -> (over: bool)
        ensures
            over == self@.game_over,
    {
        self.game_over
    }

    /// The payload that waits to be sent to the opponent.
    pub fn attack(&self) -> (a: Attack)
        ensures
            a == self@.attack,
    {
        self.attack
    }

    /// Position in the block queue of the next piece.
    pub fn next_index(&self) -> (i: usize)
        ensures
            i == self@.next_idx,
    {
        self.next_idx
    }

    /// Points.
    pub fn score(&self) -> (n: u32)
        ensures
            n == self@.score,
    {
        self.score
    }

    /// Lines cleared.
    pub fn lines(&self) -> (n: u32)
        ensures
            n == self@.lines,
    {
        self.lines
    }

    /// Strength code of the latest attack that was received.
    pub fn hit(&self) -> (code: u8)
        ensures
            code == self@.hit,
    {
        self.hit
    }

    /// Sets the pending payload to nothing, after it was applied to the
    /// opponent.
    pub fn clear_attack(&mut self)
        ensures
            final(self)@ == old(self)@.attack_cleared(),
            old(self)@.wf() ==> final(self)@.wf(),
    {
        self.attack = Attack { rows: 0, strength: 0 };
    }

    /// Writes one cell of the grid, as a way to set a position up. The cell
    /// is written, and the shadow follows, unless the board is over or the
    /// falling piece would no longer fit; the result tells whether it was
    /// written.
    pub fn set_cell(&mut self, row: usize, col: usize, v: u8) -> (done: bool)
        requires
            old(self)@.wf(),
            row < GRID_H,
            col < GRID_W,
        ensures
            final(self)@.wf(),
            done == (!old(self)@.game_over && fits(
                old(self)@.grid.update(row as int, old(self)@.grid[row as int].update(col as int, v)),
                old(self)@.cur,
            )),
            done ==> final(self)@ == (BoardView {
                grid: old(self)@.grid.update(
                    row as int,
                    old(self)@.grid[row as int].update(col as int, v),
                ),
                ..old(self)@
            }).with_cur(old(self)@.cur),
            !done ==> final(self)@ == old(self)@,
    {
        if self.game_over {
            return false;
        }
        let mut grid = self.grid;
        grid.set(row, col, v);
        if !grid.fits(&self.cur) {
            return false;
        }
        proof {
            grid.lemma_shaped();
        }
        self.grid = grid;
        self.shadow = grid.project(self.cur);
        true
    }

    /// Recomputes the shadow, whatever it was: it becomes the falling piece
    /// projected straight down, and nothing else changes. The board is valid
    /// afterwards; a board that was valid before is left as it was.
    pub fn make_shadow(&mut self)
        requires
            old(self)@.settled(),
        ensures
            final(self)@ == old(self)@.with_cur(old(self)@.cur),
            final(self)@.wf(),
            old(self)@.wf() ==> final(self)@ == old(self)@,
    {
        self.shadow = self.grid.project(self.cur);
    }

    /// Lets a piece of the given kind enter at the spawn position.
    fn enter(&mut self, kind: u8)
        requires
            kind < KINDS,
            old(self)@.framed(),
        ensures
            final(self)@ == old(self)@.entered(kind),
            final(self)@.wf(),
    {
        let p = Piece::spawn(kind);
        proof {
            lemma_spawn_inside(kind);
        }
        self.cur = p;
        self.shadow = self.grid.project(p);
        if !self.grid.fits(&p) {
            self.game_over = true;
        }
    }

    /// Attempts a move. A move to the left, to the right, down, or a quarter
    /// turn is made where the piece fits at its target, and the shadow
    /// follows. Any other command, any move on a board that is over, and a
    /// move to a place where the piece does not fit is rejected and leaves
    /// the board as it is; a rejected move down on a board that is not over
    /// reports that the piece has reached the bottom.
    pub fn move_block(&mut self, d: Move) -> (ret: MoveRet)
        requires
            old(self)@.wf(),
        ensures
            final(self)@ == old(self)@.moved(d),
            ret == old(self)@.move_result(d),
            final(self)@.wf(),
            ret != MoveRet::Normal ==> final(self)@ == old(self)@,
    {
        if self.game_over {
            return MoveRet::Blocked;
        }
        let cur = self.cur;
        let target = match d {
            Move::Left => Piece { kind: cur.kind, rot: cur.rot, x: cur.x - 1, y: cur.y },
            Move::Right => Piece { kind: cur.kind, rot: cur.rot, x: cur.x + 1, y: cur.y },
            Move::Down => Piece { kind: cur.kind, rot: cur.rot, x: cur.x, y: cur.y + 1 },
            Move::TurnCw => cur.turn(true),
            Move::TurnCcw => cur.turn(false),
            _ => {
                return MoveRet::Blocked;
            },
        };
        assert(Some(target) == self@.target(d));
        if self.grid.fits(&target) {
            proof {
                lemma_fits_bounds(self.grid@, target);
            }
            self.cur = target;
            self.shadow = self.grid.project(target);
            MoveRet::Normal
        } else if d == Move::Down {
            MoveRet::ReachBottom
        } else {
            MoveRet::Blocked
        }
    }

    /// Attempts a rotation after a sideways nudge: the piece is moved by the
    /// nudge and turned, where it fits there. The result tells whether it
    /// did; where it did not, the board is as it was.
    pub fn help_turn(&mut self, d: Move, kick: Kick) -> (ok: bool)
        requires
            old(self)@.wf(),
        ensures
            final(self)@ == old(self)@.kicked(d, kick),
            ok == old(self)@.can_kick(d, kick),
            final(self)@.wf(),
    {
        if self.game_over {
            return false;
        }
        let cur = self.cur;
        let clockwise = match d {
            Move::TurnCw => true,
            Move::TurnCcw => false,
            _ => {
                return false;
            },
        };
        let nudged = Piece { kind: cur.kind, rot: cur.rot, x: cur.x + kick.columns(), y: cur.y };
        assert(nudged == cur.shifted(kick.dx(), 0));
        let rot: u8 = if clockwise {
            (cur.rot + 1) % 4
        } else {
            (cur.rot + 3) % 4
        };
        let target = Piece { kind: cur.kind, rot, x: nudged.x, y: cur.y };
        assert(target == nudged.turned(clockwise));
        if self.grid.fits(&target) {
            proof {
                lemma_fits_bounds(self.grid@, target);
            }
            self.cur = target;
            self.shadow = self.grid.project(target);
            true
        } else {
            false
        }
    }

    /// Locks the falling piece where it is and lets the next piece of the
    /// queue enter: the piece is written into the grid, full rows are
    /// cleared, a clear sets the payload, score and line count grow by the
    /// lines cleared, and the hold slot is free again. The board is over where the next piece
    /// does not fit at the spawn position.
    pub fn next_block(&mut self, queue: &[i8; BLKQUEUE])
        requires
            old(self)@.wf(),
        ensures
            final(self)@ == old(self)@.next_block(queue@),
            final(self)@.wf(),
    {
        if self.game_over {
            return ;
        }
        let cur = self.cur;
        self.grid.merge(&cur);
        let n = self.grid.clear_lines();
        if n > 0 {
            self.attack = Attack { rows: n, strength: n };
        }
        let count: u32 = n as u32;
        assert(count * count <= 400) by (nonlinear_arith)
            requires
                count <= GRID_H,
        ;
        let gain: u32 = 100 * (count * count);
        self.score = self.score.saturating_add(gain);
        self.lines = self.lines.saturating_add(n as u32);
        self.hold_used = false;
        let kind = entry_kind(queue[self.next_idx]);
        self.next_idx = (self.next_idx + 1) % BLKQUEUE;
        proof {
            self.grid.lemma_shaped();
            assert(100 * ((n as int) * (n as int)) == score_gain(n as int)) by (nonlinear_arith);
        }
        self.enter(kind);
    }

    /// Holds the falling piece: its kind goes to the hold slot, and the kind
    /// that was there enters, or the next piece of the queue where the slot
    /// was empty. Nothing happens where the slot was used since the last
    /// lock.
    pub fn save_block(&mut self, queue: &[i8; BLKQUEUE])
        requires
            old(self)@.wf(),
        ensures
            final(self)@ == old(self)@.saved(queue@),
            final(self)@.wf(),
    {
        if self.game_over || self.hold_used {
            return ;
        }
        let kind = match self.held {
            Some(k) => k,
            None => {
                let k = entry_kind(queue[self.next_idx]);
                self.next_idx = (self.next_idx + 1) % BLKQUEUE;
                k
            },
        };
        self.held = Some(self.cur.kind);
        self.hold_used = true;
        self.enter(kind);
    }

    /// Processes the board's fall timer. Where the timer fired, the piece
    /// drops to its shadow and is locked there.
    pub fn timer_process(&mut self, queue: &[i8; BLKQUEUE], fired: bool)
        requires
            old(self)@.wf(),
        ensures
            final(self)@ == old(self)@.timer_processed(queue@, fired),
            final(self)@.wf(),
    {
        if fired && !self.game_over {
            proof {
                lemma_project(self.grid@, self.cur);
            }
            self.cur = self.shadow;
            self.shadow = self.grid.project(self.cur);
            self.next_block(queue);
        }
    }

    /// Takes an attack: garbage rows enter at the bottom, at most as many as
    /// the grid has rows, each with its gap in a column that the generator
    /// draws. The falling piece is lifted out of the rows that rose into it.
    /// The board is over where an occupied cell left through the top, or
    /// where the piece still does not fit.
    pub fn attacked(&mut self, rng: &mut Rand, rows: u8, strength: u8)
        requires
            old(self)@.wf(),
        ensures
            final(self)@ == old(self)@.attacked(old(rng).state, rows, strength),
            final(self)@.wf(),
            final(rng).state == if old(self)@.game_over {
                old(rng).state
            } else {
                state_after(old(rng).state, rows_let_in(rows))
            },
    {
        if self.game_over {
            return ;
        }
        let n: u8 = if rows > GRID_H as u8 {
            GRID_H as u8
        } else {
            rows
        };
        let lost = push_garbage_rows(&mut self.grid, rng, n);
        let p = lift(&self.grid, self.cur, n);
        self.cur = p;
        self.shadow = self.grid.project(p);
        self.game_over = lost || !self.grid.fits(&p);
        self.hit = strength;
        proof {
            self.grid.lemma_shaped();
        }
    }
}

} // verus!
