use pixel_tetris::ai::{find_best, rate_grid, rate_placement, TetrisAi};
use pixel_tetris::board::{Board, Move};
use pixel_tetris::grid::Grid;
use pixel_tetris::piece::Piece;

fn board_on(kind: i8) -> (Board, [i8; 1024]) {
    let q = [kind; 1024];
    let mut b = Board::new();
    b.reset(&q);
    (b, q)
}

#[test]
fn empty_grid_costs_nothing() {
    assert_eq!(rate_grid(&Grid::new()), 0);
}

#[test]
fn height_costs_one_per_row() {
    let mut g = Grid::new();
    g.set(19, 0, 1);
    assert_eq!(rate_grid(&g), 1);
    g.set(18, 0, 1);
    assert_eq!(rate_grid(&g), 2);
    g.set(19, 5, 1);
    assert_eq!(rate_grid(&g), 3);
    g.set(0, 9, 1);
    assert_eq!(rate_grid(&g), 3 + 20 + 8 * 19);
}

#[test]
fn hole_costs_eight() {
    let mut g = Grid::new();
    g.set(18, 0, 1);
    assert_eq!(rate_grid(&g), 2 + 8);
    g.set(15, 0, 1);
    assert_eq!(rate_grid(&g), 5 + 8 * 3);
    g.set(19, 0, 1);
    assert_eq!(rate_grid(&g), 5 + 8 * 2);
}

#[test]
fn full_grid_cost() {
    let g = Grid { cells: [[1; 10]; 20] };
    assert_eq!(rate_grid(&g), 200);
}

#[test]
fn placement_cost_counts_the_locked_piece() {
    let g = Grid::new();
    let flat = Piece { kind: 0, rot: 0, x: 3, y: 0 };
    assert_eq!(rate_placement(&g, flat), 4);
    let upright = Piece { kind: 0, rot: 1, x: 3, y: 0 };
    assert_eq!(rate_placement(&g, upright), 4);
    let tee = Piece { kind: 2, rot: 0, x: 3, y: 0 };
    assert_eq!(rate_placement(&g, tee), 1 + 2 + 1);
    let tee_down = Piece { kind: 2, rot: 2, x: 3, y: 0 };
    assert_eq!(rate_placement(&g, tee_down), 2 + 2 + 2 + 8 * 2);
}

#[test]
fn placement_cost_rewards_a_cleared_line() {
    let mut g = Grid::new();
    for c in 0..6 {
        g.set(19, c, 1);
    }
    let fills = Piece { kind: 0, rot: 0, x: 6, y: 0 };
    assert_eq!(rate_placement(&g, fills), 0);
    let on_top = Piece { kind: 0, rot: 0, x: 0, y: 0 };
    assert_eq!(rate_placement(&g, on_top), 2 * 4 + 2);
}

#[test]
fn best_placement_is_first_of_the_cheapest() {
    let g = Grid::new();
    assert_eq!(find_best(&g, 1, 0), Some((4, 2)));
    assert_eq!(find_best(&g, 0, 0), Some((4, 3)));
    assert_eq!(find_best(&g, 2, 0), Some((4, 3)));
}

#[test]
fn best_placement_fills_the_gap() {
    let mut g = Grid::new();
    for c in 0..6 {
        g.set(19, c, 1);
    }
    assert_eq!(find_best(&g, 0, 0), Some((0, 9)));
}

#[test]
fn no_placement_on_a_full_grid() {
    let g = Grid { cells: [[1; 10]; 20] };
    assert_eq!(find_best(&g, 3, 0), None);
    assert_eq!(find_best(&g, 3, 10), None);
}

#[test]
fn player_steps_left_then_drops() {
    let (mut b, q) = board_on(1);
    let ai = TetrisAi::new();
    let mut letters = String::new();
    for _ in 0..10 {
        let c = ai.get_ai_act(&q, &b);
        letters.push(c);
        match c {
            'L' => {
                b.move_block(Move::Left);
            },
            'R' => {
                b.move_block(Move::Right);
            },
            'T' => {
                b.move_block(Move::TurnCw);
            },
            _ => break,
        }
    }
    assert_eq!(letters, "LLLLW");
    assert_eq!(b.current().x, -1);
}

#[test]
fn player_turns_before_it_moves() {
    let q = [0i8; 1024];
    let mut b = Board::new();
    b.reset(&q);
    for r in 16..20 {
        for c in 0..9 {
            assert!(b.set_cell(r, c, 1));
        }
    }
    let ai = TetrisAi::new();
    assert_eq!(ai.get_ai_act(&q, &b), 'T');
    b.move_block(Move::TurnCw);
    assert_eq!(ai.get_ai_act(&q, &b), 'R');
    while b.move_block(Move::Right) == pixel_tetris::board::MoveRet::Normal {}
    assert_eq!(ai.get_ai_act(&q, &b), 'W');
}

#[test]
fn player_holds_when_the_next_piece_is_better() {
    let mut q = [1i8; 1024];
    q[1] = 0;
    let mut b = Board::new();
    b.reset(&q);
    for c in 0..6 {
        assert!(b.set_cell(19, c, 1));
    }
    let ai = TetrisAi::new();
    assert_eq!(b.current().kind, 1);
    assert_eq!(ai.get_ai_act(&q, &b), 'S');
    b.save_block(&q);
    assert_eq!(b.current().kind, 0);
    assert_ne!(ai.get_ai_act(&q, &b), 'S');
    assert_eq!(ai.get_ai_act(&q, &b), 'R');
}

#[test]
fn player_says_nothing_on_a_board_that_is_over() {
    let (mut b, q) = board_on(1);
    for _ in 0..30 {
        b.timer_process(&q, true);
    }
    assert!(b.is_over());
    let ai = TetrisAi::new();
    assert_eq!(ai.get_ai_act(&q, &b), ' ');
}

#[test]
fn player_repeats_itself() {
    let (mut b, q) = board_on(5);
    let ai = TetrisAi::new();
    for _ in 0..6 {
        let first = ai.get_ai_act(&q, &b);
        let again = ai.get_ai_act(&q, &b);
        assert_eq!(first, again);
        let copy = b;
        assert_eq!(TetrisAi::new().get_ai_act(&q, &copy), first);
        b.timer_process(&q, true);
    }
}
