use pixel_tetris::board::{Attack, Board, Kick, Move, MoveRet};
use pixel_tetris::model::{
    command, exchange_attack, fall, key_to_move, letter_to_move, rotate, Action, TetrisModel,
    AI_STEP_MS, AUTO_FALL_MS,
};
use pixel_tetris::piece::Piece;
use pixel_tetris::rand::Rand;

fn queue_all(kind: i8) -> [i8; 1024] {
    [kind; 1024]
}

fn started() -> TetrisModel {
    let mut m = TetrisModel::new();
    m.reset_with(0, 0);
    m
}

#[test]
fn new_model() {
    let m = TetrisModel::new();
    assert_eq!(m.timeout_auto(), 0);
    assert_eq!(m.timeout_ai(), 0);
    assert_eq!(m.queue(), &[0i8; 1024]);
    assert!(!m.is_over());
    assert_eq!(m.board(0).current(), Piece::spawn(0));
    assert_eq!(m.board(1).current(), Piece::spawn(0));
}

#[test]
fn reset_fills_queue_from_seed_and_nonce() {
    let mut m = TetrisModel::new();
    m.reset_with(0, 0);
    assert_eq!(&m.queue()[0..6], &[2, 1, 6, 2, 6, 0]);
    m.reset_with(0, 12345);
    assert_eq!(&m.queue()[0..8], &[6, 4, 2, 6, 1, 2, 3, 3]);
    m.reset_with(7, 0);
    assert_eq!(&m.queue()[0..8], &[3, 4, 2, 1, 1, 0, 0, 0]);
    m.reset_with(12345, 12345);
    assert_eq!(&m.queue()[0..6], &[2, 1, 6, 2, 6, 0]);
}

#[test]
fn spawn_piece_is_first_queue_entry() {
    let m = started();
    assert_eq!(m.queue()[0], 2);
    assert_eq!(m.board(0).current(), Piece { kind: 2, rot: 0, x: 3, y: 0 });
    assert_eq!(m.board(1).current(), Piece { kind: 2, rot: 0, x: 3, y: 0 });
    assert_eq!(m.board(0).next_index(), 1);
    assert_eq!(m.board(1).next_index(), 1);
}

#[test]
fn both_boards_get_the_same_pieces() {
    let mut m = started();
    let q = *m.queue();
    for i in 0..6usize {
        assert_eq!(m.board(0).current().kind as i8, q[i]);
        assert_eq!(m.board(1).current().kind as i8, q[i]);
        m.handle_timer(true, true);
        if m.is_over() {
            break;
        }
    }
    assert_eq!(m.board(0).next_index(), m.board(1).next_index());
    assert_eq!(m.board(0).grid().cells, m.board(1).grid().cells);
}

#[test]
fn boards_at_different_speed_see_the_same_order() {
    let mut m = started();
    let q = *m.queue();
    let mut seen0 = vec![m.board(0).current().kind];
    let mut seen1 = vec![m.board(1).current().kind];
    for _ in 0..3 {
        m.handle_timer(true, false);
        seen0.push(m.board(0).current().kind);
    }
    m.handle_timer(false, true);
    seen1.push(m.board(1).current().kind);
    assert_eq!(seen0, vec![q[0] as u8, q[1] as u8, q[2] as u8, q[3] as u8]);
    assert_eq!(seen1, vec![q[0] as u8, q[1] as u8]);
}

#[test]
fn reset_with_clock_nonce_is_a_valid_start() {
    let mut m = TetrisModel::new();
    m.reset(3);
    assert!(!m.is_over());
    for v in m.queue().iter() {
        assert!(*v >= 0 && *v < 7);
    }
    assert_eq!(m.board(0).current().kind as i8, m.queue()[0]);
    assert_eq!(m.board(1).current().kind as i8, m.queue()[0]);
    assert_eq!(m.init(), Action::Redraw);
    assert_eq!(m.board(0).current(), m.board(1).current());
    assert_eq!(m.board(0).next_index(), 1);
}

#[test]
fn left_until_blocked_then_turn_rotates_in_place() {
    let mut m = started();
    let mut lefts = 0;
    loop {
        let x = m.board(0).current().x;
        assert_eq!(m.act_with(0, Move::Left, 0), Action::Idle);
        if m.board(0).current().x == x {
            break;
        }
        lefts += 1;
    }
    assert_eq!(lefts, 3);
    assert_eq!(m.board(0).current(), Piece { kind: 2, rot: 0, x: 0, y: 0 });
    let mut probe = *m.board(0);
    assert_eq!(probe.move_block(Move::TurnCw), MoveRet::Normal);
    assert_eq!(m.act_with(0, Move::TurnCw, 0), Action::Idle);
    assert_eq!(m.board(0).current(), Piece { kind: 2, rot: 1, x: 0, y: 0 });
    assert_eq!(m.board(0).current(), probe.current());
    assert_eq!(m.board(0).shadow(), probe.shadow());
    assert_eq!(m.board(1).current(), Piece::spawn(2));
}

fn first_kick_that_fits(b: &Board, d: Move) -> Option<Kick> {
    for k in [Kick::Left, Kick::Left2, Kick::Right, Kick::Right2] {
        let mut probe = *b;
        if probe.help_turn(d, k) {
            return Some(k);
        }
    }
    None
}

#[test]
fn turn_takes_the_first_kick_that_fits() {
    let q = queue_all(0);
    let mut b = Board::new();
    b.reset(&q);
    rotate(&mut b, Move::TurnCw);
    assert_eq!(b.current().rot, 1);
    while b.move_block(Move::Left) == MoveRet::Normal {}
    let mut probe = b;
    assert_eq!(probe.move_block(Move::TurnCw), MoveRet::Blocked);
    assert_eq!(first_kick_that_fits(&b, Move::TurnCw), Some(Kick::Right2));
    rotate(&mut b, Move::TurnCw);
    assert_eq!(b.current(), Piece { kind: 0, rot: 2, x: 0, y: 0 });

    let mut b = Board::new();
    b.reset(&q);
    rotate(&mut b, Move::TurnCw);
    while b.move_block(Move::Right) == MoveRet::Normal {}
    assert_eq!(first_kick_that_fits(&b, Move::TurnCw), Some(Kick::Left));
    rotate(&mut b, Move::TurnCw);
    assert_eq!(b.current(), Piece { kind: 0, rot: 2, x: 6, y: 0 });
}

#[test]
fn kick_order_prefers_left_over_right() {
    let q = queue_all(0);
    let mut b = Board::new();
    b.reset(&q);
    rotate(&mut b, Move::TurnCw);
    for _ in 0..6 {
        assert_eq!(b.move_block(Move::Down), MoveRet::Normal);
    }
    assert_eq!(b.current(), Piece { kind: 0, rot: 1, x: 3, y: 6 });
    assert!(b.set_cell(8, 6, 1));
    let mut probe = b;
    assert_eq!(probe.move_block(Move::TurnCw), MoveRet::Blocked);
    let mut left = b;
    assert!(left.help_turn(Move::TurnCw, Kick::Left));
    let mut right2 = b;
    assert!(!right2.help_turn(Move::TurnCw, Kick::Right));
    rotate(&mut b, Move::TurnCw);
    assert_eq!(b.current(), Piece { kind: 0, rot: 2, x: 2, y: 6 });
    assert_eq!(b.current(), left.current());
}

#[test]
fn turn_that_fits_nowhere_changes_nothing() {
    let q = queue_all(0);
    let mut b = Board::new();
    b.reset(&q);
    rotate(&mut b, Move::TurnCw);
    for _ in 0..6 {
        b.move_block(Move::Down);
    }
    for c in [1usize, 2, 3, 4, 6, 7, 8, 9] {
        assert!(b.set_cell(8, c, 1));
        assert!(b.set_cell(7, c, 1));
    }
    let before = b.current();
    assert_eq!(first_kick_that_fits(&b, Move::TurnCw), None);
    rotate(&mut b, Move::TurnCw);
    assert_eq!(b.current(), before);
    rotate(&mut b, Move::TurnCcw);
    assert_eq!(b.current(), before);
}

#[test]
fn command_down_never_locks() {
    let q = queue_all(1);
    let mut b = Board::new();
    b.reset(&q);
    for _ in 0..18 {
        command(&mut b, &q, Move::Down);
    }
    assert_eq!(b.current(), Piece { kind: 1, rot: 0, x: 3, y: 18 });
    for _ in 0..5 {
        command(&mut b, &q, Move::Down);
        assert_eq!(b.current(), Piece { kind: 1, rot: 0, x: 3, y: 18 });
        assert_eq!(b.next_index(), 1);
        assert_eq!(b.grid().cells, [[0u8; 10]; 20]);
    }
}

#[test]
fn fall_moves_down_then_locks_at_the_bottom() {
    let q = queue_all(1);
    let mut b = Board::new();
    b.reset(&q);
    for y in 1..=18 {
        fall(&mut b, &q);
        assert_eq!(b.current().y, y);
        assert_eq!(b.next_index(), 1);
    }
    assert_eq!(b.grid().cells, [[0u8; 10]; 20]);
    fall(&mut b, &q);
    assert_eq!(b.current(), Piece::spawn(1));
    assert_eq!(b.next_index(), 2);
    assert_eq!(b.grid().cells[19], [0, 0, 0, 0, 2, 2, 0, 0, 0, 0]);
    assert_eq!(b.grid().cells[18], [0, 0, 0, 0, 2, 2, 0, 0, 0, 0]);
}

#[test]
fn key_down_on_a_resting_piece_changes_nothing() {
    let mut m = started();
    let actions = m.handle_input(&vec!['k'; 18]);
    assert_eq!(actions, vec![Action::Idle; 18]);
    let resting = Piece { kind: 2, rot: 0, x: 3, y: 18 };
    assert_eq!(m.board(0).current(), resting);
    assert_eq!(m.board(0).shadow(), resting);
    let mut probe = *m.board(0);
    assert_eq!(probe.move_block(Move::Down), MoveRet::ReachBottom);
    assert_eq!(m.handle_input(&vec!['k']), vec![Action::Idle]);
    assert_eq!(m.handle_input(&vec!['k', 'k', 'k']), vec![Action::Idle; 3]);
    assert_eq!(m.act(0, Move::Down), Action::Idle);
    assert_eq!(m.act_with(0, Move::Down, 9), Action::Idle);
    assert_eq!(m.board(0).current(), resting);
    assert_eq!(m.board(0).grid().cells, [[0u8; 10]; 20]);
    assert_eq!(m.board(0).next_index(), 1);
    assert_eq!(m.board(0).held(), None);
    assert_eq!(m.board(0).attack(), Attack { rows: 0, strength: 0 });
    assert_eq!(m.board(1).current(), Piece::spawn(2));
    assert_eq!(m.timeout_auto(), 0);
}

#[test]
fn auto_fall_locks_a_resting_piece() {
    let mut m = started();
    m.handle_input(&vec!['k'; 18]);
    m.handle_auto(500);
    assert_eq!(m.board(0).current().y, 18);
    assert_eq!(m.board(0).next_index(), 1);
    m.handle_auto(500);
    assert_eq!(m.timeout_auto(), 0);
    assert_eq!(m.board(0).grid().cells[19], [0, 0, 0, 3, 3, 3, 0, 0, 0, 0]);
    assert_eq!(m.board(0).grid().cells[18], [0, 0, 0, 0, 3, 0, 0, 0, 0, 0]);
    assert_eq!(m.board(0).next_index(), 2);
    assert_eq!(m.board(0).current(), Piece::spawn(m.queue()[1] as u8));
}

#[test]
fn model_fall_steps_the_first_board_only() {
    let mut m = started();
    m.fall();
    assert_eq!(m.board(0).current().y, 1);
    assert_eq!(m.board(1).current().y, 0);
    for _ in 0..17 {
        m.fall();
    }
    assert_eq!(m.board(0).current().y, 18);
    assert_eq!(m.board(0).next_index(), 1);
    m.fall();
    assert_eq!(m.board(0).next_index(), 2);
    assert_eq!(m.board(0).current().y, 0);
    assert_eq!(m.board(1).next_index(), 1);
}

#[test]
fn fall_stops_when_a_board_is_over() {
    let mut m = started();
    play_until_over(&mut m);
    let cur1 = m.board(1).current();
    let cells0 = m.board(0).grid().cells;
    m.fall();
    m.handle_auto(500);
    m.handle_auto(500);
    assert_eq!(m.board(0).grid().cells, cells0);
    assert_eq!(m.board(1).current(), cur1);
}

#[test]
fn timer_tick_leaves_no_payload() {
    let q = queue_all(0);
    let mut source = Board::new();
    source.reset(&q);
    for c in 0..9 {
        assert!(source.set_cell(19, c, 7));
    }
    source.move_block(Move::TurnCw);
    while source.move_block(Move::Right) == MoveRet::Normal {}
    source.timer_process(&q, true);
    assert_eq!(source.attack(), Attack { rows: 1, strength: 1 });
    let mut target = Board::new();
    target.reset(&q);
    let mut rng = Rand::new();
    exchange_attack(&mut source, &mut target, &mut rng);
    assert_eq!(source.attack(), Attack { rows: 0, strength: 0 });
    let mut m = started();
    for _ in 0..5 {
        m.handle_timer(true, true);
        for i in 0..2 {
            if !m.board(i).is_over() {
                assert_eq!(m.board(i).attack(), Attack { rows: 0, strength: 0 });
            }
        }
    }
}

#[test]
fn command_sideways_hold_and_others() {
    let q = queue_all(3);
    let mut b = Board::new();
    b.reset(&q);
    command(&mut b, &q, Move::Left);
    assert_eq!(b.current().x, 2);
    command(&mut b, &q, Move::Right);
    command(&mut b, &q, Move::Right);
    assert_eq!(b.current().x, 4);
    command(&mut b, &q, Move::DropDown);
    command(&mut b, &q, Move::Restart);
    assert_eq!(b.current(), Piece { kind: 3, rot: 0, x: 4, y: 0 });
    command(&mut b, &q, Move::Save);
    assert_eq!(b.held(), Some(3));
    assert_eq!(b.current(), Piece::spawn(3));
    command(&mut b, &q, Move::TurnCcw);
    assert_eq!(b.current().rot, 3);
}

#[test]
fn drop_asks_for_the_fall_timer() {
    let mut m = started();
    assert_eq!(m.act_with(0, Move::DropDown, 0), Action::FireFall(0));
    assert_eq!(m.act_with(1, Move::DropDown, 0), Action::FireFall(1));
    assert_eq!(m.act(1, Move::DropDown), Action::FireFall(1));
    assert_eq!(m.board(0).current(), Piece::spawn(2));
    assert_eq!(m.board(0).grid().cells, [[0u8; 10]; 20]);
    m.handle_timer(true, false);
    assert_eq!(m.board(0).grid().cells[19], [0, 0, 0, 3, 3, 3, 0, 0, 0, 0]);
    assert_eq!(m.board(0).grid().cells[18], [0, 0, 0, 0, 3, 0, 0, 0, 0, 0]);
    assert_eq!(m.board(0).current(), Piece::spawn(1));
    assert_eq!(m.board(1).current(), Piece::spawn(2));
    assert_eq!(m.board(1).grid().cells, [[0u8; 10]; 20]);
}

#[test]
fn index_without_a_board_is_passed_by() {
    let mut m = started();
    assert_eq!(m.act_with(2, Move::Left, 0), Action::Idle);
    assert_eq!(m.act_with(7, Move::DropDown, 0), Action::Idle);
    assert_eq!(m.act(usize::MAX, Move::Down), Action::Idle);
    assert_eq!(m.board(0).current(), Piece::spawn(2));
    assert_eq!(m.board(1).current(), Piece::spawn(2));
    assert_eq!(m.act_with(9, Move::Restart, 12345), Action::Redraw);
    assert_eq!(&m.queue()[0..4], &[6, 4, 2, 6]);
}

#[test]
fn restart_resets_both_boards() {
    let mut m = started();
    m.act_with(0, Move::Left, 0);
    m.act_with(1, Move::Right, 0);
    m.handle_timer(true, true);
    assert_eq!(m.act_with(0, Move::Restart, 12345), Action::Redraw);
    assert_eq!(&m.queue()[0..8], &[6, 4, 2, 6, 1, 2, 3, 3]);
    for i in 0..2 {
        assert_eq!(m.board(i).current(), Piece::spawn(6));
        assert_eq!(m.board(i).grid().cells, [[0u8; 10]; 20]);
        assert_eq!(m.board(i).next_index(), 1);
    }
    assert_eq!(m.act(1, Move::Restart), Action::Redraw);
    assert!(!m.is_over());
    assert_eq!(m.board(0).current(), m.board(1).current());
}

fn play_until_over(m: &mut TetrisModel) {
    for _ in 0..200 {
        if m.is_over() {
            return;
        }
        m.handle_timer(true, false);
    }
    panic!("the first board never filled up");
}

#[test]
fn commands_stop_when_a_board_is_over() {
    let mut m = started();
    play_until_over(&mut m);
    assert!(m.board(0).is_over());
    assert!(!m.board(1).is_over());
    let cur0 = m.board(0).current();
    let cur1 = m.board(1).current();
    for d in [Move::Left, Move::Right, Move::Down, Move::TurnCw, Move::TurnCcw, Move::Save] {
        assert_eq!(m.act_with(0, d, 0), Action::Idle);
        assert_eq!(m.act_with(1, d, 0), Action::Idle);
    }
    assert_eq!(m.act_with(0, Move::DropDown, 0), Action::Idle);
    assert_eq!(m.act_with(1, Move::DropDown, 0), Action::Idle);
    assert_eq!(m.board(0).current(), cur0);
    assert_eq!(m.board(1).current(), cur1);
    assert_eq!(m.board(1).held(), None);
    assert_eq!(m.act_with(1, Move::Restart, 5), Action::Redraw);
    assert!(!m.is_over());
    assert_eq!(m.act_with(0, Move::Left, 0), Action::Idle);
    assert_eq!(m.board(0).current().x, 2);
}

#[test]
fn board_that_is_over_is_passed_by_the_timer() {
    let mut m = started();
    play_until_over(&mut m);
    let cells0 = m.board(0).grid().cells;
    let idx0 = m.board(0).next_index();
    m.handle_timer(true, true);
    assert_eq!(m.board(0).grid().cells, cells0);
    assert_eq!(m.board(0).next_index(), idx0);
    assert_eq!(m.board(1).next_index(), 2);
}

#[test]
fn keys_stand_for_commands() {
    assert_eq!(key_to_move(' '), Some(Move::DropDown));
    assert_eq!(key_to_move('o'), Some(Move::TurnCcw));
    assert_eq!(key_to_move('i'), Some(Move::TurnCw));
    assert_eq!(key_to_move('j'), Some(Move::Left));
    assert_eq!(key_to_move('k'), Some(Move::Down));
    assert_eq!(key_to_move('l'), Some(Move::Right));
    assert_eq!(key_to_move('s'), Some(Move::Save));
    assert_eq!(key_to_move('r'), Some(Move::Restart));
    assert_eq!(key_to_move('x'), None);
    assert_eq!(key_to_move('J'), None);
    assert_eq!(key_to_move('\n'), None);
}

#[test]
fn letters_stand_for_commands() {
    assert_eq!(letter_to_move('S'), Some(Move::Save));
    assert_eq!(letter_to_move('T'), Some(Move::TurnCw));
    assert_eq!(letter_to_move('W'), Some(Move::DropDown));
    assert_eq!(letter_to_move('L'), Some(Move::Left));
    assert_eq!(letter_to_move('R'), Some(Move::Right));
    assert_eq!(letter_to_move(' '), None);
    assert_eq!(letter_to_move('l'), None);
}

#[test]
fn input_goes_to_the_first_board_in_order() {
    let mut m = started();
    let actions = m.handle_input(&vec!['j', 'j', 'x', 'k', 'i', ' ', 'l', 's']);
    assert_eq!(actions, vec![
        Action::Idle,
        Action::Idle,
        Action::Idle,
        Action::Idle,
        Action::FireFall(0),
        Action::Idle,
        Action::Idle,
    ]);
    assert_eq!(m.board(0).held(), Some(2));
    assert_eq!(m.board(0).current(), Piece::spawn(1));
    assert_eq!(m.board(1).current(), Piece::spawn(2));
    let mut n = started();
    let actions = n.handle_input(&vec!['j', 'j', 'k', 'i']);
    assert_eq!(actions.len(), 4);
    assert_eq!(n.board(0).current(), Piece { kind: 2, rot: 1, x: 1, y: 1 });
    assert_eq!(n.handle_input(&vec![]), vec![]);
    assert_eq!(n.handle_input(&vec!['?', 'R', 'K']), vec![]);
    assert_eq!(n.board(0).current(), Piece { kind: 2, rot: 1, x: 1, y: 1 });
}

#[test]
fn restart_key_asks_for_a_redraw() {
    let mut m = started();
    let actions = m.handle_input(&vec!['j', 'r', 'l']);
    assert_eq!(actions, vec![Action::Idle, Action::Redraw, Action::Idle]);
    assert_eq!(m.board(0).current().x, 4);
    assert_eq!(m.board(0).current().kind as i8, m.queue()[0]);
    assert_eq!(m.board(1).current(), Piece::spawn(m.queue()[0] as u8));
}

#[test]
fn handle_event_changes_nothing() {
    let mut m = started();
    m.act_with(0, Move::Left, 0);
    m.handle_event();
    assert_eq!(m.board(0).current().x, 2);
    assert_eq!(m.timeout_auto(), 0);
}

#[test]
fn auto_fall_gives_one_down_per_crossing() {
    assert_eq!(AUTO_FALL_MS, 400);
    let mut m = started();
    m.handle_auto(500);
    assert_eq!(m.timeout_auto(), 500);
    assert_eq!(m.board(0).current().y, 0);
    m.handle_auto(500);
    assert_eq!(m.timeout_auto(), 0);
    assert_eq!(m.board(0).current().y, 1);
    m.handle_auto(500);
    assert_eq!(m.timeout_auto(), 500);
    assert_eq!(m.board(0).current().y, 1);
    m.handle_auto(500);
    assert_eq!(m.timeout_auto(), 0);
    assert_eq!(m.board(0).current().y, 2);
}

#[test]
fn auto_fall_is_one_row_however_long_the_tick() {
    let mut m = started();
    m.handle_auto(5000);
    assert_eq!(m.timeout_auto(), 5000);
    assert_eq!(m.board(0).current().y, 0);
    m.handle_auto(5000);
    assert_eq!(m.timeout_auto(), 0);
    assert_eq!(m.board(0).current().y, 1);
    m.handle_auto(u32::MAX);
    m.handle_auto(u32::MAX);
    assert_eq!(m.board(0).current().y, 2);
}

#[test]
fn auto_fall_threshold_is_strict() {
    let mut m = started();
    m.handle_auto(400);
    assert_eq!(m.timeout_auto(), 400);
    m.handle_auto(1);
    assert_eq!(m.timeout_auto(), 401);
    assert_eq!(m.board(0).current().y, 0);
    m.handle_auto(1);
    assert_eq!(m.timeout_auto(), 0);
    assert_eq!(m.board(0).current().y, 1);
}

#[test]
fn timers_saturate() {
    let mut m = started();
    m.handle_auto(100);
    m.handle_auto(u32::MAX);
    assert_eq!(m.timeout_auto(), u32::MAX);
    assert_eq!(m.timeout_ai(), u32::MAX);
}

#[test]
fn player_timer_lets_the_player_move() {
    assert_eq!(AI_STEP_MS, 100);
    let mut m = started();
    assert_eq!(m.handle_auto(101), Action::Idle);
    assert_eq!(m.timeout_ai(), 101);
    assert_eq!(m.board(1).current(), Piece::spawn(2));
    let before = *m.board(1);
    let action = m.handle_auto(101);
    assert_eq!(m.timeout_ai(), 0);
    let after = *m.board(1);
    let moved = after.current() != before.current() || after.held() != before.held();
    assert!(moved || action == Action::FireFall(1));
    assert_eq!(m.board(0).current(), Piece::spawn(2));
}

#[test]
fn player_brings_its_piece_down() {
    let mut m = started();
    let mut fired = 0;
    for _ in 0..400 {
        if m.handle_auto(60) == Action::FireFall(1) {
            fired += 1;
            m.handle_timer(false, true);
        }
        if m.is_over() {
            break;
        }
    }
    assert!(fired >= 3);
    assert!(m.board(1).next_index() >= 4 || m.is_over());
}

#[test]
fn exchange_sends_payload_once() {
    let q = queue_all(0);
    let mut source = Board::new();
    source.reset(&q);
    for r in 16..20 {
        for c in 0..9 {
            assert!(source.set_cell(r, c, 7));
        }
    }
    source.move_block(Move::TurnCw);
    while source.move_block(Move::Right) == MoveRet::Normal {}
    source.timer_process(&q, true);
    assert_eq!(source.attack(), Attack { rows: 4, strength: 4 });

    let mut target = Board::new();
    target.reset(&q);
    assert!(target.set_cell(19, 0, 5));
    assert!(target.set_cell(18, 0, 5));
    assert!(target.set_cell(17, 1, 6));
    let before = target.grid().cells;
    let height_before = 20 - target.grid().top_row();
    assert_eq!(height_before, 3);
    let mut rng = Rand::new();
    rng.srand(42);

    exchange_attack(&mut source, &mut target, &mut rng);
    assert_eq!(source.attack(), Attack { rows: 0, strength: 0 });
    assert_eq!(source.lines(), 4);
    assert_eq!(20 - target.grid().top_row(), height_before + 4);
    assert_eq!(target.hit(), 4);
    assert!(!target.is_over());
    for r in 4..20 {
        assert_eq!(target.grid().cells[r - 4], before[r]);
    }
    assert_eq!(target.shadow(), target.grid().project(target.current()));

    let after = target.grid().cells;
    let state = rng.state;
    exchange_attack(&mut source, &mut target, &mut rng);
    assert_eq!(target.grid().cells, after);
    assert_eq!(rng.state, state);
}

#[test]
fn exchange_of_one_line_raises_by_one() {
    let q = queue_all(0);
    let mut source = Board::new();
    source.reset(&q);
    for c in 0..9 {
        assert!(source.set_cell(19, c, 7));
    }
    source.move_block(Move::TurnCw);
    while source.move_block(Move::Right) == MoveRet::Normal {}
    source.timer_process(&q, true);
    assert_eq!(source.attack().rows, 1);
    let mut target = Board::new();
    target.reset(&q);
    let mut rng = Rand::new();
    exchange_attack(&mut source, &mut target, &mut rng);
    assert_eq!(20 - target.grid().top_row(), 1);
    assert_eq!(source.attack().rows, 0);
}

#[test]
fn exchange_without_payload_does_nothing() {
    let q = queue_all(4);
    let mut source = Board::new();
    source.reset(&q);
    let mut target = Board::new();
    target.reset(&q);
    let mut rng = Rand::new();
    rng.srand(11);
    exchange_attack(&mut source, &mut target, &mut rng);
    assert_eq!(rng.state, 11);
    assert_eq!(target.grid().top_row(), 20);
    assert_eq!(target.hit(), 0);
}
