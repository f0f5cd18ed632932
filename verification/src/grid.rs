//! The playing grid: a fixed matrix of cells, each empty or holding the
//! colour of the piece that was locked there.

use vstd::prelude::*;
use crate::piece::{
    lemma_block_in_box, shape_block, Piece, GRID_H, GRID_W, KINDS, MAX_X, MAX_Y, MIN_X,
};

verus! {

/// Value of a cell that holds nothing.
pub const EMPTY: u8 = 0;

/// Colour of the cells of a garbage row.
pub const GARBAGE: u8 = 8;

/// A grid as the contracts see it: its rows from the top down, each row its
/// cells from the left.
pub type Rows = Seq<Seq<u8>>;

/// The matrix has `GRID_H` rows of `GRID_W` cells.
pub open spec fn shaped(g: Rows) -> bool {
    &&& g.len() == GRID_H
    &&& forall|r: int| 0 <= r < GRID_H ==> (#[trigger] g[r]).len() == GRID_W
}

/// A block may lie on (`col`, `row`): the column is on the grid, the row is
/// not below the floor, and the cell is empty unless it lies above the top.
pub open spec fn cell_free(g: Rows, col: int, row: int) -> bool {
    &&& 0 <= col < GRID_W
    &&& row < GRID_H
    &&& (row >= 0 ==> g[row][col] == EMPTY)
}

/// Block `i` of the piece may lie where it is.
pub open spec fn block_free(g: Rows, p: Piece, i: int) -> bool {
    cell_free(g, p.col(i), p.row(i))
}

/// The placement is valid: none of the four blocks leaves the grid sideways
/// or through the floor, and none lies on an occupied cell.
pub open spec fn fits(g: Rows, p: Piece) -> bool {
    &&& block_free(g, p, 0)
    &&& block_free(g, p, 1)
    &&& block_free(g, p, 2)
    &&& block_free(g, p, 3)
}

/// Block `i` of the piece lies in a column of the grid and not below the
/// floor.
pub open spec fn block_inside(p: Piece, i: int) -> bool {
    0 <= p.col(i) < GRID_W && p.row(i) < GRID_H
}

/// No block of the piece lies left or right of the grid or below its floor.
pub open spec fn inside(p: Piece) -> bool {
    &&& block_inside(p, 0)
    &&& block_inside(p, 1)
    &&& block_inside(p, 2)
    &&& block_inside(p, 3)
}

/// The piece projected straight down: moved down row by row for as long as
/// the next row is a valid placement.
pub open spec fn project(g: Rows, p: Piece) -> Piece
    decreases MAX_Y - p.y,
{
    if p.y < MAX_Y && fits(g, p.shifted(0, 1)) {
        project(g, p.shifted(0, 1))
    } else {
        p
    }
}

/// The cell is covered by one of the first `n` blocks of the piece.
pub open spec fn covers_first(p: Piece, n: int, col: int, row: int) -> bool {
    ||| (n > 0 && p.col(0) == col && p.row(0) == row)
    ||| (n > 1 && p.col(1) == col && p.row(1) == row)
    ||| (n > 2 && p.col(2) == col && p.row(2) == row)
    ||| (n > 3 && p.col(3) == col && p.row(3) == row)
}

/// The grid with the first `n` blocks of the piece written into it in the
/// piece's colour, which is its kind plus one.
pub open spec fn merged_first(g: Rows, p: Piece, n: int) -> Rows {
    Seq::new(
        GRID_H as nat,
        |r: int|
            Seq::new(
                GRID_W as nat,
                |c: int|
                    if covers_first(p, n, c, r) {
                        (p.kind + 1) as u8
                    } else {
                        g[r][c]
                    },
            ),
    )
}

/// The grid with the piece locked into it.
pub open spec fn merged(g: Rows, p: Piece) -> Rows {
    merged_first(g, p, 4)
}

/// Every cell of the row is occupied.
pub open spec fn row_full(row: Seq<u8>) -> bool {
    forall|c: int| 0 <= c < row.len() ==> row[c] != EMPTY
}

/// Every cell of the row is empty.
pub open spec fn row_blank(row: Seq<u8>) -> bool {
    forall|c: int| 0 <= c < row.len() ==> row[c] == EMPTY
}

/// A row of `GRID_W` empty cells.
pub open spec fn blank_row() -> Seq<u8> {
    Seq::new(GRID_W as nat, |c: int| EMPTY)
}

/// The rows that are not full, in their order.
pub open spec fn open_rows(g: Rows) -> Rows
    decreases g.len(),
{
    if g.len() == 0 {
        Seq::empty()
    } else if row_full(g.last()) {
        open_rows(g.drop_last())
    } else {
        open_rows(g.drop_last()).push(g.last())
    }
}

/// Number of full rows.
pub open spec fn full_count(g: Rows) -> int {
    g.len() - open_rows(g).len()
}

/// The grid after its full rows have been cleared: the rows that are not
/// full move down, in their order, and as many empty rows enter at the top.
pub open spec fn cleared(g: Rows) -> Rows {
    Seq::new(full_count(g) as nat, |r: int| blank_row()) + open_rows(g)
}

/// A garbage row: every cell holds the garbage colour but the one in the gap
/// column.
pub open spec fn garbage_row(gap: int) -> Seq<u8> {
    Seq::new(
        GRID_W as nat,
        |c: int|
            if c == gap {
                EMPTY
            } else {
                GARBAGE
            },
    )
}

/// The grid after one garbage row has entered at the bottom: every row moves
/// up by one, and the old top row is lost.
pub open spec fn raised(g: Rows, gap: int) -> Rows {
    g.subrange(1, GRID_H as int).push(garbage_row(gap))
}

/// Row of the topmost cell that is occupied, at or below `from`; `GRID_H`
/// where every row from there on is empty.
pub open spec fn top_from(g: Rows, from: int) -> int
    decreases GRID_H - from,
{
    if from >= GRID_H {
        GRID_H as int
    } else if !row_blank(g[from]) {
        from
    } else {
        top_from(g, from + 1)
    }
}

/// Height of the stack: the number of rows from the topmost occupied row
/// down to the floor.
pub open spec fn stack_height(g: Rows) -> int {
    GRID_H - top_from(g, 0)
}

/// Open rows are a part of the rows, so there are no more of them.
pub proof fn lemma_open_rows_len(g: Rows)
    ensures
        open_rows(g).len() <= g.len(),
    decreases g.len(),
{
    if g.len() > 0 {
        lemma_open_rows_len(g.drop_last());
    }
}

/// What projection gives: the same shape in the same column, at the lowest
/// row that the piece reaches by moving straight down through valid
/// placements only.
pub proof fn lemma_project(g: Rows, p: Piece)
    requires
        p.kind < KINDS,
        p.rot < 4,
        p.y <= MAX_Y,
    ensures
        project(g, p).kind == p.kind,
        project(g, p).rot == p.rot,
        project(g, p).x == p.x,
        p.y <= project(g, p).y <= MAX_Y,
        fits(g, p) ==> fits(g, project(g, p)),
        !fits(g, project(g, p).shifted(0, 1)),
        forall|y: int| p.y <= y <= project(g, p).y && fits(g, p) ==> fits(g, #[trigger] p.at_row(y)),
    decreases MAX_Y - p.y,
{
    let q = project(g, p);
    if p.y < MAX_Y && fits(g, p.shifted(0, 1)) {
        let below = p.shifted(0, 1);
        lemma_project(g, below);
        assert forall|y: int| p.y <= y <= q.y && fits(g, p) implies fits(
            g,
            #[trigger] p.at_row(y),
        ) by {
            if y == p.y {
                assert(p.at_row(y) == p);
            } else {
                assert(p.at_row(y) == below.at_row(y));
            }
        }
    } else if p.y >= MAX_Y {
        assert(p.at_row(p.y as int) == p);
        let below = p.shifted(0, 1);
        lemma_block_in_box(p.kind, p.rot, 0);
        assert(below.row(0) >= GRID_H);
        assert(!block_free(g, below, 0));
    } else {
        assert(p.at_row(p.y as int) == p);
    }
}

/// The rows that are not full are rows of the grid, so each has the grid's
/// width.
pub proof fn lemma_open_rows_width(g: Rows, w: nat)
    requires
        forall|r: int| 0 <= r < g.len() ==> (#[trigger] g[r]).len() == w,
    ensures
        forall|r: int| 0 <= r < open_rows(g).len() ==> (#[trigger] open_rows(g)[r]).len() == w,
        open_rows(g).len() <= g.len(),
    decreases g.len(),
{
    if g.len() > 0 {
        let rest = g.drop_last();
        assert forall|r: int| 0 <= r < rest.len() implies (#[trigger] rest[r]).len() == w by {
            assert(rest[r] == g[r]);
        }
        lemma_open_rows_width(rest, w);
    }
}

/// None of the rows that are kept is full.
pub proof fn lemma_open_rows_not_full(g: Rows)
    ensures
        forall|r: int| 0 <= r < open_rows(g).len() ==> !row_full(#[trigger] open_rows(g)[r]),
    decreases g.len(),
{
    if g.len() > 0 {
        let rest = open_rows(g.drop_last());
        lemma_open_rows_not_full(g.drop_last());
        assert forall|r: int| 0 <= r < open_rows(g).len() implies !row_full(
            #[trigger] open_rows(g)[r],
        ) by {
            if r < rest.len() {
                assert(open_rows(g)[r] == rest[r]);
            } else {
                assert(open_rows(g)[r] == g.last());
            }
        }
    }
}

/// After clearing, no row of the grid is full.
pub proof fn lemma_cleared_no_full_row(g: Rows)
    requires
        shaped(g),
    ensures
        forall|r: int| 0 <= r < GRID_H ==> !row_full(#[trigger] cleared(g)[r]),
{
    lemma_open_rows_not_full(g);
    lemma_open_rows_width(g, GRID_W as nat);
    let n = full_count(g);
    assert forall|r: int| 0 <= r < GRID_H implies !row_full(#[trigger] cleared(g)[r]) by {
        if r >= n {
            assert(cleared(g)[r] == open_rows(g)[r - n]);
        } else {
            assert(cleared(g)[r] == blank_row());
            assert(blank_row()[0] == EMPTY);
        }
    }
}

/// Clearing full rows leaves the grid in its shape.
pub proof fn lemma_cleared_shaped(g: Rows)
    requires
        shaped(g),
    ensures
        shaped(cleared(g)),
{
    lemma_open_rows_width(g, GRID_W as nat);
    let n = full_count(g);
    assert forall|r: int| 0 <= r < GRID_H implies (#[trigger] cleared(g)[r]).len() == GRID_W by {
        if r >= n {
            assert(cleared(g)[r] == open_rows(g)[r - n]);
        }
    }
}

/// A piece that fits has its anchor in the band around the grid, on both
/// sides and below.
pub proof fn lemma_fits_bounds(g: Rows, p: Piece)
    requires
        p.kind < KINDS,
        p.rot < 4,
        fits(g, p),
    ensures
        MIN_X <= p.x <= MAX_X,
        p.y <= MAX_Y,
{
    lemma_block_in_box(p.kind, p.rot, 0);
    assert(block_free(g, p, 0));
}

/// A piece at the spawn position lies inside the grid.
pub proof fn lemma_spawn_inside(kind: u8)
    requires
        kind < KINDS,
    ensures
        inside(Piece::spawned(kind)),
        Piece::spawned(kind).wf(),
{
    lemma_block_in_box(kind, 0, 0);
    lemma_block_in_box(kind, 0, 1);
    lemma_block_in_box(kind, 0, 2);
    lemma_block_in_box(kind, 0, 3);
}

/// A garbage row always holds an occupied cell.
pub proof fn lemma_garbage_row_occupied(gap: int)
    ensures
        !row_blank(garbage_row(gap)),
        garbage_row(gap).len() == GRID_W,
{
    let c = if gap == 0 { 1int } else { 0int };
    assert(garbage_row(gap)[c] == GARBAGE);
}

/// When a garbage row enters, every other row keeps its cells and lies one
/// row higher than before: nothing sinks.
pub proof fn lemma_raised_rows(g: Rows, gap: int)
    requires
        shaped(g),
    ensures
        shaped(raised(g, gap)),
        raised(g, gap)[GRID_H - 1] == garbage_row(gap),
        forall|r: int| 1 <= r < GRID_H ==> #[trigger] raised(g, gap)[r - 1] == g[r],
{
    lemma_garbage_row_occupied(gap);
    assert forall|r: int| 0 <= r < GRID_H implies (#[trigger] raised(g, gap)[r]).len()
        == GRID_W by {
        if r < GRID_H - 1 {
            assert(raised(g, gap)[r] == g[r + 1]);
        }
    }
}

/// Relates the topmost occupied row before and after a garbage row enters.
proof fn lemma_raised_top(g: Rows, gap: int, from: int)
    requires
        shaped(g),
        1 <= from <= GRID_H,
    ensures
        top_from(raised(g, gap), from - 1) == top_from(g, from) - 1,
    decreases GRID_H - from,
{
    lemma_raised_rows(g, gap);
    lemma_garbage_row_occupied(gap);
    if from < GRID_H {
        assert(raised(g, gap)[from - 1] == g[from]);
        lemma_raised_top(g, gap, from + 1);
    }
}

/// A garbage row that enters under a stack which does not touch the top
/// makes the stack exactly one row higher.
pub proof fn lemma_raised_height(g: Rows, gap: int)
    requires
        shaped(g),
        row_blank(g[0]),
    ensures
        stack_height(raised(g, gap)) == stack_height(g) + 1,
{
    lemma_raised_top(g, gap, 1);
}

/// The topmost occupied row lies between the row the search starts at and
/// the floor.
pub proof fn lemma_top_from_bounds(g: Rows, from: int)
    requires
        0 <= from <= GRID_H,
    ensures
        from <= top_from(g, from) <= GRID_H,
    decreases GRID_H - from,
{
    if from < GRID_H && row_blank(g[from]) {
        lemma_top_from_bounds(g, from + 1);
    }
}

/// Whether every cell of a row is occupied.
pub fn row_is_full(line: &[u8; GRID_W]) -> (full: bool)
    ensures
        full == row_full(line@),
{
    let mut c: usize = 0;
    while c < GRID_W
        invariant
            c <= GRID_W,
            forall|j: int| 0 <= j < c ==> line@[j] != EMPTY,
        decreases GRID_W - c,
    {
        if line[c] == EMPTY {
            return false;
        }
        c += 1;
    }
    true
}

/// Whether every cell of a row is empty.
pub fn row_is_blank(line: &[u8; GRID_W]) -> (blank: bool)
    ensures
        blank == row_blank(line@),
{
    let mut c: usize = 0;
    while c < GRID_W
        invariant
            c <= GRID_W,
            forall|j: int| 0 <= j < c ==> line@[j] == EMPTY,
        decreases GRID_W - c,
    {
        if line[c] != EMPTY {
            return false;
        }
        c += 1;
    }
    true
}

/// Builds a garbage row with its gap in the given column; a column off the
/// grid leaves no gap.
pub fn make_garbage_row(gap: usize) -> (line: [u8; GRID_W])
    ensures
        line@ == garbage_row(gap as int),
{
    let mut line: [u8; GRID_W] = [GARBAGE; GRID_W];
    if gap < GRID_W {
        line[gap] = EMPTY;
    }
    assert(line@ =~= garbage_row(gap as int));
    line
}

/// The playing grid.
#[derive(Clone, Copy, Debug)]
pub struct Grid {
    pub cells: [[u8; GRID_W]; GRID_H],
}

impl View for Grid {
    type V = Seq<Seq<u8>>;

    open spec fn view(&self) -> Seq<Seq<u8>> {
        Seq::new(GRID_H as nat, |r: int| self.cells[r]@)
    }
}

impl Grid {
    /// Every grid has the fixed shape, so no cell lies outside it.
    pub proof fn lemma_shaped(&self)
        ensures
            shaped(self@),
    {
    }

    /// An empty grid.
    pub fn new() -> (g: Grid)
        ensures
            forall|r: int, c: int| 0 <= r < GRID_H && 0 <= c < GRID_W ==> g@[r][c] == EMPTY,
            shaped(g@),
    {
        Grid { cells: [[EMPTY; GRID_W]; GRID_H] }
    }

    /// Reads one cell.
    pub fn get(&self, row: usize, col: usize) -> (v: u8)
        requires
            row < GRID_H,
            col < GRID_W,
        ensures
            v == self@[row as int][col as int],
    {
        self.cells[row][col]
    }

    /// Writes one cell.
    pub fn set(&mut self, row: usize, col: usize, v: u8)
        requires
            row < GRID_H,
            col < GRID_W,
        ensures
            final(self)@ == old(self)@.update(row as int, old(self)@[row as int].update(col as int, v)),
    {
        let mut line: [u8; GRID_W] = self.cells[row];
        line[col] = v;
        self.cells[row] = line;
        assert(self@ =~~= old(self)@.update(
            row as int,
            old(self)@[row as int].update(col as int, v),
        ));
    }

    /// Whether the placement is valid on this grid.
    pub fn fits(&self, p: &Piece) -> (ok: bool)
        requires
            p.placeable(),
        ensures
            ok == fits(self@, *p),
    {
        let mut i: usize = 0;
        while i < 4
            invariant
                i <= 4,
                p.placeable(),
                forall|j: int| 0 <= j < i ==> block_free(self@, *p, j),
            decreases 4 - i,
        {
            let d = shape_block(p.kind, p.rot, i);
            let c: i32 = p.x + d.0;
            let r: i32 = p.y + d.1;
            if c < 0 || c >= GRID_W as i32 || r >= GRID_H as i32 {
                assert(!block_free(self@, *p, i as int));
                return false;
            }
            if r >= 0 && self.cells[r as usize][c as usize] != EMPTY {
                assert(!block_free(self@, *p, i as int));
                return false;
            }
            i += 1;
        }
        true
    }

    /// Projects a piece straight down to the last row at which it is still a
    /// valid placement.
    pub fn project(&self, p: Piece) -> (q: Piece)
        requires
            p.wf(),
        ensures
            q == project(self@, p),
            q.wf(),
    {
        let mut q = p;
        while q.y < MAX_Y
            invariant
                q.wf(),
                project(self@, q) == project(self@, p),
            ensures
                q.wf(),
                q == project(self@, p),
            decreases MAX_Y - q.y,
        {
            let below = Piece { kind: q.kind, rot: q.rot, x: q.x, y: q.y + 1 };
            assert(below == q.shifted(0, 1));
            if !self.fits(&below) {
                break;
            }
            q = below;
        }
        q
    }

    /// Locks a piece into the grid: each of its blocks that lies on the grid
    /// takes the piece's colour.
    pub fn merge(&mut self, p: &Piece)
        requires
            p.wf(),
        ensures
            final(self)@ == merged(old(self)@, *p),
    {
        let mut i: usize = 0;
        assert(self@ =~~= merged_first(old(self)@, *p, 0));
        while i < 4
            invariant
                i <= 4,
                p.wf(),
                self@ == merged_first(old(self)@, *p, i as int),
            decreases 4 - i,
        {
            let d = shape_block(p.kind, p.rot, i);
            let c: i32 = p.x + d.0;
            let r: i32 = p.y + d.1;
            if 0 <= c && c < GRID_W as i32 && 0 <= r && r < GRID_H as i32 {
                self.set(r as usize, c as usize, p.kind + 1);
            }
            assert(self@ =~~= merged_first(old(self)@, *p, i as int + 1));
            i += 1;
        }
    }

    /// Clears the full rows and returns how many there were: the other rows
    /// move down in their order, and empty rows enter at the top.
    pub fn clear_lines(&mut self) -> (n: u8)
        ensures
            final(self)@ == cleared(old(self)@),
            n == full_count(old(self)@),
            n <= GRID_H,
    {
        let mut kept: [[u8; GRID_W]; GRID_H] = [[EMPTY; GRID_W]; GRID_H];
        let mut k: usize = 0;
        let mut r: usize = 0;
        while r < GRID_H
            invariant
                r <= GRID_H,
                k <= r,
                self@ == old(self)@,
                Seq::new(k as nat, |j: int| kept[j]@) == open_rows(self@.take(r as int)),
            decreases GRID_H - r,
        {
            let line = self.cells[r];
            let ghost prev = Seq::new(k as nat, |j: int| kept[j]@);
            proof {
                assert(self@.take(r as int + 1).drop_last() =~= self@.take(r as int));
                assert(self@.take(r as int + 1).last() == line@);
            }
            if !row_is_full(&line) {
                kept[k] = line;
                k += 1;
                assert(Seq::new(k as nat, |j: int| kept[j]@) =~= prev.push(line@));
            }
            r += 1;
        }
        assert(self@.take(GRID_H as int) =~= self@);
        let n: usize = GRID_H - k;
        let blank: [u8; GRID_W] = [EMPTY; GRID_W];
        assert(blank@ =~= blank_row());
        let mut out: [[u8; GRID_W]; GRID_H] = [blank; GRID_H];
        let mut j: usize = 0;
        while j < k
            invariant
                j <= k,
                n + k == GRID_H,
                forall|i: int| 0 <= i < n ==> out[i] == blank,
                forall|i: int| 0 <= i < j ==> out[n + i] == kept[i],
            decreases k - j,
        {
            out[n + j] = kept[j];
            j += 1;
        }
        self.cells = out;
        proof {
            let open = open_rows(old(self)@);
            assert forall|i: int| 0 <= i < GRID_H implies self@[i] == cleared(old(self)@)[i] by {
                if i >= n {
                    assert(out[n + (i - n)] == kept[i - n]);
                    assert(open[i - n] == Seq::new(k as nat, |j: int| kept[j]@)[i - n]);
                }
            }
            assert(self@ =~= cleared(old(self)@));
        }
        n as u8
    }

    /// Lets one garbage row enter at the bottom. Every row moves up by one
    /// and the top row leaves the grid; the result tells whether that row
    /// held an occupied cell.
    pub fn push_garbage(&mut self, gap: usize) -> (lost: bool)
        ensures
            final(self)@ == raised(old(self)@, gap as int),
            lost == !row_blank(old(self)@[0]),
    {
        let top = self.cells[0];
        let lost = !row_is_blank(&top);
        let mut out: [[u8; GRID_W]; GRID_H] = [[EMPTY; GRID_W]; GRID_H];
        let mut r: usize = 0;
        while r + 1 < GRID_H
            invariant
                r < GRID_H,
                forall|i: int| 0 <= i < r ==> out[i] == self.cells[i + 1],
            decreases GRID_H - r,
        {
            out[r] = self.cells[r + 1];
            r += 1;
        }
        out[GRID_H - 1] = make_garbage_row(gap);
        self.cells = out;
        assert(self@ =~= raised(old(self)@, gap as int));
        lost
    }

    /// Row of the topmost occupied cell, or `GRID_H` on an empty grid.
    pub fn top_row(&self) -> (top: usize)
        ensures
            top == top_from(self@, 0),
            top <= GRID_H,
    {
        let mut r: usize = 0;
        while r < GRID_H
            invariant
                r <= GRID_H,
                top_from(self@, r as int) == top_from(self@, 0),
            decreases GRID_H - r,
        {
            let line = self.cells[r];
            if !row_is_blank(&line) {
                return r;
            }
            r += 1;
        }
        r
    }
}

} // verus!
