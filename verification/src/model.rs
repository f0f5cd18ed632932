//! The match controller. It owns the two boards, the block queue that both
//! draw from, the generator, the heuristic player of the second board, and
//! the two timers; it turns commands, key presses, timer events and elapsed
//! time into board operations, and tells its host what to do in turn.
//!
//! The host delivers events and performs the actions that come back: it
//! redraws the grids after a restart, and it schedules a board's fall timer
//! and reports, with the next timer tick, that the timer fired. Time is
//! counted in whole milliseconds.

use vstd::prelude::*;
use crate::ai::{ai_step, TetrisAi};
use crate::board::{
    capped, garbage_lost, lemma_attack_height, lemma_attacked_wf, lemma_fresh, lemma_kicked_wf,
    lemma_lock_sends_by_lines, lemma_moved_shadow_valid, lemma_moved_wf, lemma_next_block_wf,
    lemma_saved_wf, lemma_timer_processed_wf, rows_let_in, Attack, Board,
    BoardView, Kick, Move, MoveRet,
};
use crate::grid::{full_count, merged, stack_height};
use crate::rand::{clock_millis, filled_entry, seeded, state_after, Rand, BLKQUEUE};

verus! {

/// The auto-fall timer lets the first board's piece fall once it has counted
/// more than this many milliseconds.
pub const AUTO_FALL_MS: u32 = 400;

/// The player's timer lets the heuristic player decide once it has counted
/// more than this many milliseconds.
pub const AI_STEP_MS: u32 = 100;

/// What the host has to do after a call.
#[derive(Clone, Copy, Debug, PartialEq, Eq, Structural)]
pub enum Action {
    /// Nothing.
    Idle,
    /// Both grids have to be drawn anew.
    Redraw,
    /// The fall timer of the given board has to fire without delay.
    FireFall(usize),
}

/// The command that a key stands for.
pub open spec fn key_move(key: char) -> Option<Move> {
    if key == ' ' {
        Some(Move::DropDown)
    } else if key == 'o' {
        Some(Move::TurnCcw)
    } else if key == 'i' {
        Some(Move::TurnCw)
    } else if key == 'j' {
        Some(Move::Left)
    } else if key == 'k' {
        Some(Move::Down)
    } else if key == 'l' {
        Some(Move::Right)
    } else if key == 's' {
        Some(Move::Save)
    } else if key == 'r' {
        Some(Move::Restart)
    } else {
        None
    }
}

/// The command that a letter of the heuristic player stands for.
pub open spec fn ai_move(c: char) -> Option<Move> {
    if c == 'S' {
        Some(Move::Save)
    } else if c == 'T' {
        Some(Move::TurnCw)
    } else if c == 'W' {
        Some(Move::DropDown)
    } else if c == 'L' {
        Some(Move::Left)
    } else if c == 'R' {
        Some(Move::Right)
    } else {
        None
    }
}

/// A board after a rotation command: the rotation in place where it fits,
/// else the rotation after the first nudge with which it fits, the nudges
/// tried in the order one to the left, two to the left, one to the right,
/// two to the right; the board as it was where none fits.
pub open spec fn rotated(b: BoardView, d: Move) -> BoardView {
    if b.can_move(d) {
        b.moved(d)
    } else if b.can_kick(d, Kick::Left) {
        b.kicked(d, Kick::Left)
    } else if b.can_kick(d, Kick::Left2) {
        b.kicked(d, Kick::Left2)
    } else if b.can_kick(d, Kick::Right) {
        b.kicked(d, Kick::Right)
    } else if b.can_kick(d, Kick::Right2) {
        b.kicked(d, Kick::Right2)
    } else {
        b
    }
}

/// A board after a command: a rotation with its nudges, a move to a side or
/// down, or a hold. A move down that is rejected leaves the board as it is:
/// a command never locks the piece. A drop is left to the fall timer, and a
/// restart is not a board's affair.
pub open spec fn commanded(b: BoardView, queue: Seq<i8>, d: Move) -> BoardView {
    match d {
        Move::TurnCw | Move::TurnCcw => rotated(b, d),
        Move::Left | Move::Right | Move::Down => b.moved(d),
        Move::Save => b.saved(queue),
        Move::DropDown | Move::Restart => b,
    }
}

/// A board after one step of the periodic fall: the piece moves down by one
/// row, or, where it has reached the bottom, it is locked and the next
/// piece enters.
pub open spec fn fallen(b: BoardView, queue: Seq<i8>) -> BoardView {
    if b.move_result(Move::Down) == MoveRet::ReachBottom {
        b.next_block(queue)
    } else {
        b.moved(Move::Down)
    }
}

/// A match as the contracts see it.
pub struct ModelView {
    /// The two boards.
    pub boards: Seq<BoardView>,
    /// The block queue.
    pub queue: Seq<i8>,
    /// State of the generator.
    pub rng: u64,
    /// Milliseconds counted by the auto-fall timer.
    pub timeout_auto: u32,
    /// Milliseconds counted by the player's timer.
    pub timeout_ai: u32,
}

impl ModelView {
    /// The match is valid: it has two valid boards and a full queue.
    pub open spec fn wf(self) -> bool {
        &&& self.boards.len() == 2
        &&& self.queue.len() == BLKQUEUE
        &&& self.boards[0].wf()
        &&& self.boards[1].wf()
    }

    /// Whether one of the boards is over, which ends the match.
    pub open spec fn over(self) -> bool {
        self.boards[0].game_over || self.boards[1].game_over
    }

    /// The match with one board replaced.
    pub open spec fn with_board(self, index: int, b: BoardView) -> ModelView {
        ModelView { boards: self.boards.update(index, b), ..self }
    }

    /// The match after a reset with a seed and a nonce: the generator starts
    /// from their combination, the queue is filled from it, and both boards
    /// start a match on that queue. The timers run on.
    pub open spec fn reset(self, seed: u32, nonce: u64) -> ModelView {
        let s = seeded(seed as u64, nonce);
        let queue = Seq::new(BLKQUEUE as nat, |i: int| filled_entry(s, i));
        ModelView {
            boards: seq![BoardView::fresh(queue), BoardView::fresh(queue)],
            queue,
            rng: state_after(s, BLKQUEUE as nat),
            ..self
        }
    }

    /// The match after a command for a board. A restart resets the match
    /// with seed 0 first. Nothing else happens once a board is over, nor
    /// where the index names no board.
    pub open spec fn act(self, index: int, d: Move, nonce: u64) -> ModelView {
        let m = if d == Move::Restart {
            self.reset(0, nonce)
        } else {
            self
        };
        if m.over() || !(0 <= index < 2) {
            m
        } else {
            m.with_board(index, commanded(m.boards[index], m.queue, d))
        }
    }

    /// What the host has to do after a command: redraw after a restart, let
    /// the board's fall timer fire after a drop on a match that is not
    /// over, and nothing else.
    pub open spec fn act_action(self, index: int, d: Move) -> Action {
        if d == Move::Restart {
            Action::Redraw
        } else if d == Move::DropDown && !self.over() && 0 <= index < 2 {
            Action::FireFall(index as usize)
        } else {
            Action::Idle
        }
    }

    /// The match after the fall timer of one board was processed: a board
    /// that is over is passed by; else the board processes its timer, and
    /// where it then has a payload pending, the other board takes the
    /// attack and the payload is cleared.
    pub open spec fn timer_step(self, index: int, fired: bool) -> ModelView {
        let b = self.boards[index];
        if b.game_over {
            self
        } else {
            let b1 = b.timer_processed(self.queue, fired);
            if b1.attack.rows != 0 {
                let other = self.boards[1 - index];
                ModelView {
                    boards: self.boards.update(index, b1.attack_cleared()).update(
                        1 - index,
                        other.attacked(self.rng, b1.attack.rows, b1.attack.strength),
                    ),
                    rng: if other.game_over {
                        self.rng
                    } else {
                        state_after(self.rng, rows_let_in(b1.attack.rows))
                    },
                    ..self
                }
            } else {
                self.with_board(index, b1)
            }
        }
    }

    /// The match after a timer tick: the first board's timer is processed,
    /// then the second board's.
    pub open spec fn handle_timer(self, fired0: bool, fired1: bool) -> ModelView {
        self.timer_step(0, fired0).timer_step(1, fired1)
    }

    /// Whether the auto-fall timer is due.
    pub open spec fn auto_due(self) -> bool {
        self.timeout_auto > AUTO_FALL_MS
    }

    /// Whether the player's timer is due.
    pub open spec fn ai_due(self) -> bool {
        self.timeout_ai > AI_STEP_MS
    }

    /// The match after one step of the periodic fall of the first board.
    /// Nothing happens once a board is over.
    pub open spec fn fall(self) -> ModelView {
        if self.over() {
            self
        } else {
            self.with_board(0, fallen(self.boards[0], self.queue))
        }
    }

    /// The match after the auto-fall part of a tick of `dt` milliseconds:
    /// where the timer is due it starts anew and the first board falls by
    /// one step; else the timer counts on.
    pub open spec fn auto_fall(self, dt: u32) -> ModelView {
        if self.auto_due() {
            (ModelView { timeout_auto: 0, ..self }).fall()
        } else {
            ModelView { timeout_auto: capped(self.timeout_auto as int, dt as int), ..self }
        }
    }

    /// The command that the heuristic player gives for the second board.
    pub open spec fn ai_command(self) -> Option<Move> {
        ai_move(ai_step(self.boards[1], self.queue))
    }

    /// The match after the player's part of a tick of `dt` milliseconds:
    /// where the timer is due it starts anew and the second board gets the
    /// player's command; else the timer counts on.
    pub open spec fn ai_turn(self, dt: u32) -> ModelView {
        if self.ai_due() {
            let m = ModelView { timeout_ai: 0, ..self };
            match m.ai_command() {
                Some(d) => m.act(1, d, 0),
                None => m,
            }
        } else {
            ModelView { timeout_ai: capped(self.timeout_ai as int, dt as int), ..self }
        }
    }

    /// What the host has to do after the player's part of a tick.
    pub open spec fn ai_action(self) -> Action {
        if self.ai_due() {
            match self.ai_command() {
                Some(d) => self.act_action(1, d),
                None => Action::Idle,
            }
        } else {
            Action::Idle
        }
    }

    /// The match after a tick of `dt` milliseconds: the auto-fall part, then
    /// the player's part.
    pub open spec fn handle_auto(self, dt: u32) -> ModelView {
        self.auto_fall(dt).ai_turn(dt)
    }

    /// The match after the first `n` of a run of key presses, each restart
    /// among them with the nonce at its position.
    pub open spec fn keys_run(self, keys: Seq<char>, nonces: Seq<u64>, n: int) -> ModelView
        decreases n,
    {
        if n <= 0 {
            self
        } else {
            let m = self.keys_run(keys, nonces, n - 1);
            match key_move(keys[n - 1]) {
                Some(d) => m.act(0, d, nonces[n - 1]),
                None => m,
            }
        }
    }

    /// What the host has to do after the first `n` of a run of key presses:
    /// one action for each key that stands for a command, in their order.
    pub open spec fn keys_actions(self, keys: Seq<char>, nonces: Seq<u64>, n: int) -> Seq<Action>
        decreases n,
    {
        if n <= 0 {
            Seq::empty()
        } else {
            let m = self.keys_run(keys, nonces, n - 1);
            let before = self.keys_actions(keys, nonces, n - 1);
            match key_move(keys[n - 1]) {
                Some(d) => before.push(m.act_action(0, d)),
                None => before,
            }
        }
    }
}

/// A run of key presses depends on the nonces at the positions of its keys
/// alone.
proof fn lemma_keys_prefix(m: ModelView, keys: Seq<char>, a: Seq<u64>, b: Seq<u64>, n: int)
    requires
        forall|j: int| 0 <= j < n ==> a[j] == b[j],
    ensures
        m.keys_run(keys, a, n) == m.keys_run(keys, b, n),
        m.keys_actions(keys, a, n) == m.keys_actions(keys, b, n),
    decreases n,
{
    if n > 0 {
        lemma_keys_prefix(m, keys, a, b, n - 1);
    }
}

/// Reads the command that a key stands for: the space bar drops, `o` and
/// `i` turn counterclockwise and clockwise, `j`, `k` and `l` move to the
/// left, down and to the right, `s` holds and `r` restarts. Any other key
/// stands for nothing.
pub fn key_to_move(key: char) -> (d: Option<Move>)
    ensures
        d == key_move(key),
{
    if key == ' ' {
        Some(Move::DropDown)
    } else if key == 'o' {
        Some(Move::TurnCcw)
    } else if key == 'i' {
        Some(Move::TurnCw)
    } else if key == 'j' {
        Some(Move::Left)
    } else if key == 'k' {
        Some(Move::Down)
    } else if key == 'l' {
        Some(Move::Right)
    } else if key == 's' {
        Some(Move::Save)
    } else if key == 'r' {
        Some(Move::Restart)
    } else {
        None
    }
}

/// Reads the command that a letter of the heuristic player stands for: `S`
/// holds, `T` turns clockwise, `W` drops, `L` and `R` move to the left and
/// to the right. Any other letter stands for nothing.
pub fn letter_to_move(c: char) -> (d: Option<Move>)
    ensures
        d == ai_move(c),
{
    if c == 'S' {
        Some(Move::Save)
    } else if c == 'T' {
        Some(Move::TurnCw)
    } else if c == 'W' {
        Some(Move::DropDown)
    } else if c == 'L' {
        Some(Move::Left)
    } else if c == 'R' {
        Some(Move::Right)
    } else {
        None
    }
}

/// Carries out a rotation command on a board: in place where the piece fits
/// there, else after the first nudge with which it fits.
pub fn rotate(board: &mut Board, d: Move)
    requires
        old(board)@.wf(),
    ensures
        final(board)@ == rotated(old(board)@, d),
        final(board)@.wf(),
{
    if board.move_block(d) == MoveRet::Normal {
        board.make_shadow();
        return ;
    }
    if board.help_turn(d, Kick::Left) {
        return ;
    }
    if board.help_turn(d, Kick::Left2) {
        return ;
    }
    if board.help_turn(d, Kick::Right) {
        return ;
    }
    if board.help_turn(d, Kick::Right2) {
        return ;
    }
}

/// Carries out one step of the periodic fall on a board: the piece moves
/// down by one row, or is locked where it has reached the bottom.
pub fn fall(board: &mut Board, queue: &[i8; BLKQUEUE])
    requires
        old(board)@.wf(),
    ensures
        final(board)@ == fallen(old(board)@, queue@),
        final(board)@.wf(),
{
    if board.move_block(Move::Down) == MoveRet::ReachBottom {
        board.next_block(queue);
    }
}

/// Carries out a command on a board. No command locks the piece: a move
/// down that is rejected leaves the board as it is.
pub fn command(board: &mut Board, queue: &[i8; BLKQUEUE], d: Move)
    requires
        old(board)@.wf(),
    ensures
        final(board)@ == commanded(old(board)@, queue@, d),
        final(board)@.wf(),
{
    match d {
        Move::TurnCw | Move::TurnCcw => {
            rotate(board, d);
        },
        Move::Left | Move::Right | Move::Down => {
            board.move_block(d);
            board.make_shadow();
        },
        Move::Save => {
            board.save_block(queue);
            board.make_shadow();
        },
        Move::DropDown | Move::Restart => {},
    }
}

/// The attack exchange: where the source board has a payload pending, the
/// target board takes the attack, its shadow follows, and the payload of
/// the source is cleared. Nothing happens where no payload is pending.
pub fn exchange_attack(source: &mut Board, target: &mut Board, rng: &mut Rand)
    requires
        old(source)@.wf(),
        old(target)@.wf(),
    ensures
        final(source)@.wf(),
        final(target)@.wf(),
        old(source)@.attack.rows == 0 ==> final(source)@ == old(source)@ && final(target)@ == old(
            target,
        )@ && final(rng).state == old(rng).state,
        old(source)@.attack.rows != 0 ==> final(source)@ == old(source)@.attack_cleared()
            && final(target)@ == old(target)@.attacked(
            old(rng).state,
            old(source)@.attack.rows,
            old(source)@.attack.strength,
        ) && final(rng).state == if old(target)@.game_over {
            old(rng).state
        } else {
            state_after(old(rng).state, rows_let_in(old(source)@.attack.rows))
        },
        final(source)@.attack.rows == 0,
{
    let payload = source.attack();
    if payload.rows != 0 {
        target.attacked(rng, payload.rows, payload.strength);
        target.make_shadow();
        source.clear_attack();
    }
}

/// A command leaves a valid board valid.
pub proof fn lemma_commanded_wf(b: BoardView, queue: Seq<i8>, d: Move)
    requires
        b.wf(),
    ensures
        commanded(b, queue, d).wf(),
{
    lemma_moved_wf(b, d);
    lemma_kicked_wf(b, d, Kick::Left);
    lemma_kicked_wf(b, d, Kick::Left2);
    lemma_kicked_wf(b, d, Kick::Right);
    lemma_kicked_wf(b, d, Kick::Right2);
    lemma_saved_wf(b, queue);
}

/// A step of the periodic fall leaves a valid board valid.
pub proof fn lemma_fallen_wf(b: BoardView, queue: Seq<i8>)
    requires
        b.wf(),
    ensures
        fallen(b, queue).wf(),
{
    lemma_moved_wf(b, Move::Down);
    lemma_next_block_wf(b, queue);
}

/// Every step of a match leaves a valid match valid: a reset, a command, a
/// timer tick and a tick of elapsed time. So on every match that was started
/// by a constructor and driven by these steps, both boards are valid: their
/// pieces lie inside the grid and their shadows are projections.
pub proof fn lemma_match_stays_valid(
    m: ModelView,
    seed: u32,
    nonce: u64,
    index: int,
    d: Move,
    fired0: bool,
    fired1: bool,
    dt: u32,
)
    requires
        m.wf(),
    ensures
        m.reset(seed, nonce).wf(),
        !m.reset(seed, nonce).over(),
        m.act(index, d, nonce).wf(),
        m.handle_timer(fired0, fired1).wf(),
        m.handle_auto(dt).wf(),
{
    lemma_fresh(m.reset(seed, nonce).queue);
    lemma_act_wf(m, index, d, nonce);
    lemma_timer_step_wf(m, 0, fired0);
    lemma_timer_step_wf(m.timer_step(0, fired0), 1, fired1);
    let after = m.auto_fall(dt);
    if m.auto_due() && !m.over() {
        lemma_fallen_wf(m.boards[0], m.queue);
    }
    if after.ai_due() {
        let turn = ModelView { timeout_ai: 0, ..after };
        match turn.ai_command() {
            Some(c) => {
                lemma_act_wf(turn, 1, c, 0);
            },
            None => {},
        }
    }
}

/// A command leaves a valid match valid.
proof fn lemma_act_wf(m: ModelView, index: int, d: Move, nonce: u64)
    requires
        m.wf(),
    ensures
        m.act(index, d, nonce).wf(),
{
    let start = if d == Move::Restart {
        m.reset(0, nonce)
    } else {
        m
    };
    lemma_fresh(m.reset(0, nonce).queue);
    if !(start.over() || !(0 <= index < 2)) {
        lemma_commanded_wf(start.boards[index], start.queue, d);
    }
}

/// Processing one board's timer leaves a valid match valid. The board that
/// was processed has no payload pending afterwards, neither rows nor
/// strength, and the payload of the other board is as it was.
pub proof fn lemma_timer_step_wf(m: ModelView, index: int, fired: bool)
    requires
        m.wf(),
        0 <= index < 2,
    ensures
        m.timer_step(index, fired).wf(),
        !m.boards[index].game_over ==> m.timer_step(index, fired).boards[index].attack == (Attack {
            rows: 0,
            strength: 0,
        }),
        m.timer_step(index, fired).boards[1 - index].attack == m.boards[1 - index].attack,
{
    let b = m.boards[index];
    if !b.game_over {
        lemma_timer_processed_wf(b, m.queue, fired);
        let b1 = b.timer_processed(m.queue, fired);
        if b1.attack.rows != 0 {
            lemma_attacked_wf(m.boards[1 - index], m.rng, b1.attack.rows, b1.attack.strength);
        }
    }
}

/// Both boards draw from one queue. After a reset the two boards are the
/// same, with the first piece of the queue falling; and whenever two boards
/// stand at the same position of the queue, the next piece that enters
/// either of them, by a lock or by a hold into the empty slot, is the same.
pub proof fn lemma_queue_fairness(m: ModelView, seed: u32, nonce: u64, a: BoardView, b: BoardView)
    requires
        a.next_idx == b.next_idx,
        !a.game_over,
        !b.game_over,
    ensures
        m.reset(seed, nonce).boards[0] == m.reset(seed, nonce).boards[1],
        m.reset(seed, nonce).boards[0].cur.kind == crate::rand::kind_at(
            m.reset(seed, nonce).queue,
            0,
        ),
        a.next_block(m.queue).cur == b.next_block(m.queue).cur,
        a.next_block(m.queue).next_idx == b.next_block(m.queue).next_idx,
        a.next_block(m.queue).cur.kind == crate::rand::kind_at(m.queue, a.next_idx),
        a.held is None && b.held is None && !a.hold_used && !b.hold_used ==> a.saved(m.queue).cur
            == b.saved(m.queue).cur,
{
}

/// A tick gives the first board at most one step of the fall, however long
/// the tick was: the step is made exactly where the auto-fall timer had
/// counted more than `AUTO_FALL_MS` before the tick, and the timer then
/// starts from zero.
pub proof fn lemma_one_fall_per_tick(m: ModelView, dt: u32)
    ensures
        m.auto_due() ==> m.auto_fall(dt) == (ModelView { timeout_auto: 0, ..m }).fall()
            && m.auto_fall(dt).timeout_auto == 0,
        !m.auto_due() ==> m.auto_fall(dt).boards == m.boards && m.auto_fall(dt).timeout_auto
            == capped(m.timeout_auto as int, dt as int),
{
}

/// A move down that is given as a command never locks the piece. The board
/// it is given to keeps its grid and its place in the queue, and the kind
/// and rotation of its piece; and where the move is rejected, because the
/// piece rests on the floor or on the stack, the whole match is as it was.
/// The key for a move down gives exactly this command to the first board.
pub proof fn lemma_manual_down_never_locks(m: ModelView, index: int, nonce: u64)
    requires
        m.wf(),
        0 <= index < 2,
    ensures
        m.act(index, Move::Down, nonce).boards[index].grid == m.boards[index].grid,
        m.act(index, Move::Down, nonce).boards[index].next_idx == m.boards[index].next_idx,
        m.act(index, Move::Down, nonce).boards[index].cur.kind == m.boards[index].cur.kind,
        m.act(index, Move::Down, nonce).boards[index].cur.rot == m.boards[index].cur.rot,
        m.act(index, Move::Down, nonce).boards[1 - index] == m.boards[1 - index],
        !m.boards[index].can_move(Move::Down) ==> m.act(index, Move::Down, nonce) == m,
        key_move('k') == Some(Move::Down),
        m.keys_run(seq!['k'], seq![nonce], 1) == m.act(0, Move::Down, nonce),
{
    assert(m.act(index, Move::Down, nonce).boards =~= m.boards.update(
        index,
        m.act(index, Move::Down, nonce).boards[index],
    ));
    if !m.boards[index].can_move(Move::Down) {
        assert(m.act(index, Move::Down, nonce).boards =~= m.boards);
    }
    assert(m.keys_run(seq!['k'], seq![nonce], 0) == m);
}

/// The periodic fall is what locks a piece that rests: where the auto-fall
/// timer is due, no board is over, and the first board's piece cannot move
/// down, the tick locks that piece and lets the next one enter.
pub proof fn lemma_auto_fall_locks(m: ModelView, dt: u32)
    requires
        m.wf(),
        m.auto_due(),
        !m.over(),
        !m.boards[0].can_move(Move::Down),
    ensures
        m.auto_fall(dt).boards[0] == m.boards[0].next_block(m.queue),
        m.auto_fall(dt).boards[1] == m.boards[1],
{
}

/// After a timer tick a board that was not over when its turn came has no
/// payload pending, neither rows nor strength, whether or not it cleared
/// lines in the tick.
pub proof fn lemma_payload_sent(m: ModelView, fired0: bool, fired1: bool)
    requires
        m.wf(),
    ensures
        !m.boards[0].game_over ==> m.handle_timer(fired0, fired1).boards[0].attack == (Attack {
            rows: 0,
            strength: 0,
        }),
        !m.timer_step(0, fired0).boards[1].game_over ==> m.handle_timer(
            fired0,
            fired1,
        ).boards[1].attack == (Attack { rows: 0, strength: 0 }),
{
    lemma_timer_step_wf(m, 0, fired0);
    lemma_timer_step_wf(m.timer_step(0, fired0), 1, fired1);
}

/// What the timer step of a board hands to the other board: the payload of
/// the board after its timer was processed. Where that has rows, the other
/// board takes exactly that attack; where the attack pushes no occupied
/// cell through the top of a board that is not over, the stack of that
/// board grows by exactly the rows of the payload.
pub proof fn lemma_timer_step_attack(m: ModelView, index: int, fired: bool)
    requires
        m.wf(),
        0 <= index < 2,
        !m.boards[index].game_over,
        m.boards[index].timer_processed(m.queue, fired).attack.rows != 0,
    ensures
        ({
            let sent = m.boards[index].timer_processed(m.queue, fired).attack;
            let other = m.boards[1 - index];
            &&& m.timer_step(index, fired).boards[1 - index] == other.attacked(
                m.rng,
                sent.rows,
                sent.strength,
            )
            &&& !other.game_over && !garbage_lost(other.grid, m.rng, rows_let_in(sent.rows))
                ==> stack_height(m.timer_step(index, fired).boards[1 - index].grid)
                == stack_height(other.grid) + sent.rows
        }),
{
    let sent = m.boards[index].timer_processed(m.queue, fired).attack;
    let other = m.boards[1 - index];
    lemma_timer_processed_wf(m.boards[index], m.queue, fired);
    if !other.game_over && !garbage_lost(other.grid, m.rng, rows_let_in(sent.rows)) {
        lemma_attack_height(other, m.rng, sent.rows, sent.strength);
    }
}

/// Of two matches in which the fall timer of a board fires, the one whose
/// lock completes more lines hands more garbage rows, and a higher
/// strength, to the other board, and a lock that completes a line hands
/// over at least one row; what either board had pending does not matter.
pub proof fn lemma_timer_hands_over_more(a: ModelView, b: ModelView, index: int)
    requires
        a.wf(),
        b.wf(),
        0 <= index < 2,
        !a.boards[index].game_over,
        !b.boards[index].game_over,
        0 < full_count(merged(b.boards[index].grid, b.boards[index].shadow)) < full_count(
            merged(a.boards[index].grid, a.boards[index].shadow),
        ),
    ensures
        0 < b.boards[index].timer_processed(b.queue, true).attack.rows
            < a.boards[index].timer_processed(a.queue, true).attack.rows,
        0 < b.boards[index].timer_processed(b.queue, true).attack.strength
            < a.boards[index].timer_processed(a.queue, true).attack.strength,
{
    let x = a.boards[index];
    let y = b.boards[index];
    lemma_moved_shadow_valid(x);
    lemma_moved_shadow_valid(y);
    lemma_lock_sends_by_lines(x.with_cur(x.shadow), y.with_cur(y.shadow), a.queue, b.queue);
}

/// The match controller.
#[derive(Clone, Copy, Debug)]
pub struct TetrisModel {
    cells: [Board; 2],
    block_queue: [i8; BLKQUEUE],
    trand: Rand,
    tai: TetrisAi,
    timeout_auto: u32,
    timeout_ai: u32,
}

impl View for TetrisModel {
    type V = ModelView;

    closed spec fn view(&self) -> ModelView {
        ModelView {
            boards: seq![self.cells[0]@, self.cells[1]@],
            queue: self.block_queue@,
            rng: self.trand.state,
            timeout_auto: self.timeout_auto,
            timeout_ai: self.timeout_ai,
        }
    }
}

impl TetrisModel {
    /// A controller before its first match: two boards that have not been
    /// reset, a queue of zeros, the generator in state 0 and both timers at
    /// zero.
    pub fn new() -> (m: TetrisModel)
        ensures
            m@.wf(),
            m@.rng == 0,
            m@.timeout_auto == 0,
            m@.timeout_ai == 0,
            m@.queue == Seq::new(BLKQUEUE as nat, |i: int| 0i8),
            m@.boards == seq![BoardView::fresh(m@.queue), BoardView::fresh(m@.queue)],
    {
        let m = TetrisModel {
            cells: [Board::new(), Board::new()],
            block_queue: [0i8; BLKQUEUE],
            trand: Rand::new(),
            tai: TetrisAi::new(),
            timeout_auto: 0,
            timeout_ai: 0,
        };
        assert(m@.queue =~= Seq::new(BLKQUEUE as nat, |i: int| 0i8));
        m
    }

    /// One of the two boards.
    pub fn board(&self, index: usize) -> (b: &Board)
        requires
            index < 2,
        ensures
            b@ == self@.boards[index as int],
    {
        &self.cells[index]
    }

    /// The block queue.
    pub fn queue(&self) -> (q: &[i8; BLKQUEUE])
        ensures
            q@ == self@.queue,
    {
        &self.block_queue
    }

    /// Milliseconds counted by the auto-fall timer.
    pub fn timeout_auto(&self) -> (ms: u32)
        ensures
            ms == self@.timeout_auto,
    {
        self.timeout_auto
    }

    /// Milliseconds counted by the player's timer.
    pub fn timeout_ai(&self) -> (ms: u32)
        ensures
            ms == self@.timeout_ai,
    {
        self.timeout_ai
    }

    /// Whether one of the boards is over.
    pub fn is_over(&self) -> (over: bool)
        ensures
            over == self@.over(),
    {
        self.cells[0].is_over() || self.cells[1].is_over()
    }

    /// Seeds the generator with a seed combined with a nonce and fills the
    /// block queue from it.
    pub fn random_block_queue(&mut self, seed: u32, nonce: u64)
        ensures
            final(self)@ == (ModelView {
                queue: old(self)@.reset(seed, nonce).queue,
                rng: old(self)@.reset(seed, nonce).rng,
                ..old(self)@
            }),
    {
        self.trand.reseed(seed as u64, nonce);
        let mut queue = self.block_queue;
        self.trand.fill(&mut queue);
        self.block_queue = queue;
        assert(self@.queue =~= old(self)@.reset(seed, nonce).queue);
    }

    /// Starts a match with a seed and a nonce: the queue is filled anew and
    /// both boards are reset on it, so both get the same pieces in the same
    /// order.
    pub fn reset_with(&mut self, seed: u32, nonce: u64)
        ensures
            final(self)@ == old(self)@.reset(seed, nonce),
            final(self)@.wf(),
            !final(self)@.over(),
    {
        self.random_block_queue(seed, nonce);
        let mut first = self.cells[0];
        let mut second = self.cells[1];
        first.reset(&self.block_queue);
        second.reset(&self.block_queue);
        self.cells[0] = first;
        self.cells[1] = second;
        proof {
            lemma_fresh(self@.queue);
            assert(self@.boards =~= old(self)@.reset(seed, nonce).boards);
        }
    }

    /// Starts a match with a seed and a nonce from the wall clock, so that
    /// two matches with the same seed differ.
    pub fn reset(&mut self, seed: u32)
        ensures
            exists|nonce: u64| final(self)@ == old(self)@.reset(seed, nonce),
            final(self)@.wf(),
            !final(self)@.over(),
    {
        let nonce = clock_millis();
        self.reset_with(seed, nonce);
        assert(self@ == old(self)@.reset(seed, nonce));
    }

    /// Starts the first match, with seed 0, and asks for a redraw.
    pub fn init(&mut self) -> (action: Action)
        ensures
            exists|nonce: u64| final(self)@ == old(self)@.reset(0, nonce),
            final(self)@.wf(),
            action == Action::Redraw,
    {
        self.reset(0);
        Action::Redraw
    }

    /// Carries out a command for a board, with the nonce that a restart
    /// takes. A restart resets the match with seed 0 and asks for a redraw.
    /// Every other command is passed by once a board is over, and where the
    /// index names no board. A drop asks for the board's fall timer to fire.
    /// No command locks a piece: a move down that is rejected changes
    /// nothing.
    pub fn act_with(&mut self, index: usize, d: Move, nonce: u64) -> (action: Action)
        requires
            old(self)@.wf(),
        ensures
            final(self)@ == old(self)@.act(index as int, d, nonce),
            action == old(self)@.act_action(index as int, d),
            final(self)@.wf(),
    {
        if d == Move::Restart {
            self.reset_with(0, nonce);
            assert(self@.boards =~= old(self)@.act(index as int, d, nonce).boards);
            return Action::Redraw;
        }
        if self.cells[0].is_over() || self.cells[1].is_over() || index >= 2 {
            return Action::Idle;
        }
        if d == Move::DropDown {
            assert(self@.boards =~= old(self)@.act(index as int, d, nonce).boards);
            return Action::FireFall(index);
        }
        let mut board = self.cells[index];
        command(&mut board, &self.block_queue, d);
        self.cells[index] = board;
        assert(self@.boards =~= old(self)@.act(index as int, d, nonce).boards);
        Action::Idle
    }

    /// Carries out a command for a board; a restart takes its nonce from the
    /// wall clock.
    pub fn act(&mut self, index: usize, d: Move) -> (action: Action)
        requires
            old(self)@.wf(),
        ensures
            exists|nonce: u64| final(self)@ == old(self)@.act(index as int, d, nonce),
            d != Move::Restart ==> final(self)@ == old(self)@.act(index as int, d, 0),
            action == old(self)@.act_action(index as int, d),
            final(self)@.wf(),
    {
        let nonce = if d == Move::Restart {
            clock_millis()
        } else {
            0
        };
        let action = self.act_with(index, d, nonce);
        assert(self@ == old(self)@.act(index as int, d, nonce));
        action
    }

    /// Takes the key presses of one tick, in their order: each key that
    /// stands for a command gives that command to the first board. Returns
    /// what the host has to do, one action for each such key.
    pub fn handle_input(&mut self, keys: &Vec<char>) -> (actions: Vec<Action>)
        requires
            old(self)@.wf(),
        ensures
            final(self)@.wf(),
            exists|nonces: Seq<u64>|
                nonces.len() == keys.len() && final(self)@ == old(self)@.keys_run(
                    keys@,
                    nonces,
                    keys.len() as int,
                ) && actions@ == old(self)@.keys_actions(keys@, nonces, keys.len() as int),
    {
        let mut actions: Vec<Action> = Vec::new();
        let ghost mut nonces: Seq<u64> = Seq::empty();
        let mut i: usize = 0;
        while i < keys.len()
            invariant
                i <= keys.len(),
                self@.wf(),
                nonces.len() == i,
                self@ == old(self)@.keys_run(keys@, nonces, i as int),
                actions@ == old(self)@.keys_actions(keys@, nonces, i as int),
            decreases keys.len() - i,
        {
            let ghost before = self@;
            let ghost mut nonce: u64 = 0;
            match key_to_move(keys[i]) {
                Some(d) => {
                    let action = self.act(0, d);
                    proof {
                        nonce = choose|x: u64| self@ == before.act(0, d, x);
                    }
                    actions.push(action);
                },
                None => {},
            }
            proof {
                let longer = nonces.push(nonce);
                lemma_keys_prefix(old(self)@, keys@, nonces, longer, i as int);
                nonces = longer;
            }
            i += 1;
        }
        actions
    }

    /// Takes the other events of one tick: there are none that the match
    /// reacts to.
    pub fn handle_event(&mut self)
        ensures
            final(self)@ == old(self)@,
    {
    }

    /// Processes the fall timer of one board, then the attack exchange from
    /// that board to the other.
    fn timer_step(&mut self, index: usize, fired: bool)
        requires
            old(self)@.wf(),
            index < 2,
        ensures
            final(self)@ == old(self)@.timer_step(index as int, fired),
            final(self)@.wf(),
    {
        if self.cells[index].is_over() {
            return ;
        }
        let mut board = self.cells[index];
        let mut other = self.cells[1 - index];
        board.timer_process(&self.block_queue, fired);
        exchange_attack(&mut board, &mut other, &mut self.trand);
        self.cells[index] = board;
        self.cells[1 - index] = other;
        assert(self@.boards =~= old(self)@.timer_step(index as int, fired).boards);
    }

    /// Takes a timer tick, with the news whether the fall timer of each
    /// board fired: the first board's timer and attack are processed, then
    /// the second board's. An attack reaches the other board within the
    /// call.
    pub fn handle_timer(&mut self, fired0: bool, fired1: bool)
        requires
            old(self)@.wf(),
        ensures
            final(self)@ == old(self)@.handle_timer(fired0, fired1),
            final(self)@.wf(),
    {
        self.timer_step(0, fired0);
        self.timer_step(1, fired1);
    }

    /// Carries out one step of the periodic fall of the first board, unless
    /// a board is over.
    pub fn fall(&mut self)
        requires
            old(self)@.wf(),
        ensures
            final(self)@ == old(self)@.fall(),
            final(self)@.wf(),
    {
        if self.cells[0].is_over() || self.cells[1].is_over() {
            return ;
        }
        let mut board = self.cells[0];
        fall(&mut board, &self.block_queue);
        self.cells[0] = board;
        assert(self@.boards =~= old(self)@.fall().boards);
    }

    /// Takes a tick of `dt` milliseconds. The auto-fall timer, once it has
    /// counted more than `AUTO_FALL_MS`, starts anew and lets the first
    /// board's piece fall by one step: down by one row, or locked where it
    /// has reached the bottom. The player's timer, once it has
    /// counted more than `AI_STEP_MS`, starts anew and gives the second
    /// board the heuristic player's command. A timer that is not due counts
    /// `dt` on. Returns what the host has to do for the player's command.
    pub fn handle_auto(&mut self, dt: u32) -> (action: Action)
        requires
            old(self)@.wf(),
        ensures
            final(self)@ == old(self)@.handle_auto(dt),
            action == old(self)@.auto_fall(dt).ai_action(),
            final(self)@.wf(),
    {
        if self.timeout_auto > AUTO_FALL_MS {
            self.timeout_auto = 0;
            self.fall();
        } else {
            self.timeout_auto = self.timeout_auto.saturating_add(dt);
        }
        assert(self@ == old(self)@.auto_fall(dt));
        let mut action = Action::Idle;
        if self.timeout_ai > AI_STEP_MS {
            self.timeout_ai = 0;
            let c = self.tai.get_ai_act(&self.block_queue, &self.cells[1]);
            match letter_to_move(c) {
                Some(d) => {
                    action = self.act_with(1, d, 0);
                },
                None => {},
            }
        } else {
            self.timeout_ai = self.timeout_ai.saturating_add(dt);
        }
        action
    }
}

} // verus!
