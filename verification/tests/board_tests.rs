use connect_four::board::Game;
use connect_four::player::Player;

fn empty() -> Game {
    Game::new()
}

#[test]
fn place_rejects_column_out_of_range() {
    let mut g = empty();
    let before = g.board_xy;
    assert!(!g.place(7, Player::Player1));
    assert!(!g.place(8, Player::Player1));
    assert!(!g.place(usize::MAX, Player::Player2));
    assert_eq!(g.board_xy, before);
}

#[test]
fn place_stacks_from_the_bottom() {
    let mut g = empty();
    assert!(g.place(3, Player::Player1));
    assert!(g.place(3, Player::Player2));
    assert!(g.place(3, Player::Player1));
    assert_eq!(g.board_xy[3][0], 1);
    assert_eq!(g.board_xy[3][1], 2);
    assert_eq!(g.board_xy[3][2], 1);
    assert_eq!(g.board_xy[3][3], 0);
    assert_eq!(g.board_xy[2][0], 0);
    assert_eq!(g.board_xy[4][0], 0);
}

#[test]
fn column_accepts_at_most_six_placements() {
    let mut g = empty();
    for _ in 0..6 {
        assert!(g.place(0, Player::Player1));
    }
    let before = g.board_xy;
    assert!(!g.place(0, Player::Player1));
    assert!(!g.place(0, Player::Player2));
    assert_eq!(g.board_xy, before);
    assert!(g.place(1, Player::Player2));
}

#[test]
fn vertical_run_of_four_wins_and_three_does_not() {
    let mut g = empty();
    for _ in 0..3 {
        assert!(g.place(2, Player::Player1));
    }
    assert!(!g.check_win(Player::Player1));
    assert!(g.place(2, Player::Player1));
    assert!(g.check_win(Player::Player1));
    assert!(!g.check_win(Player::Player2));
}

#[test]
fn horizontal_run_of_four_wins_and_three_does_not() {
    let mut g = empty();
    for c in 1..4 {
        assert!(g.place(c, Player::Player2));
    }
    assert!(!g.check_win(Player::Player2));
    assert!(g.place(4, Player::Player2));
    assert!(g.check_win(Player::Player2));
    assert!(!g.check_win(Player::Player1));
}

#[test]
fn rising_diagonal_run_of_four_wins() {
    // Marks of player 1 at (0,0), (1,1), (2,2), (3,3) on supporting stacks.
    let mut g = empty();
    let mut cells = [[0u8; 6]; 7];
    for k in 0..4 {
        for y in 0..k {
            cells[k][y] = 2;
        }
        cells[k][k] = 1;
    }
    g.board_xy = cells;
    assert!(g.check_win(Player::Player1));
    assert!(!g.check_win(Player::Player2));
}

#[test]
fn falling_diagonal_run_of_four_wins() {
    // Marks of player 2 at (6,0), (5,1), (4,2), (3,3).
    let mut g = empty();
    let mut cells = [[0u8; 6]; 7];
    for k in 0..4 {
        for y in 0..k {
            cells[6 - k][y] = 1;
        }
        cells[6 - k][k] = 2;
    }
    g.board_xy = cells;
    assert!(g.check_win(Player::Player2));
    assert!(!g.check_win(Player::Player1));
}

#[test]
fn broken_run_does_not_win() {
    let mut g = empty();
    // Column 5 holds 1, 1, 2, 1, 1: never four contiguous for player 1.
    for p in [Player::Player1, Player::Player1, Player::Player2, Player::Player1, Player::Player1]
    {
        assert!(g.place(5, p));
    }
    assert!(!g.check_win(Player::Player1));
    assert!(!g.check_win(Player::Player2));
}

#[test]
fn empty_board_has_no_win() {
    let g = empty();
    assert!(!g.check_win(Player::Player1));
    assert!(!g.check_win(Player::Player2));
}
