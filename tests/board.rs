use tic_tac_toe::board::Slot::{Empty, O, X};
use tic_tac_toe::board::{
    evaluate, grid_string, has_free, has_win, opposite_player, player_slot, slot_char,
    GameState, Player, Slot,
};

#[test]
fn slot_char_returns_correct_chars() {
    assert_eq!(slot_char(Empty), ' ');
    assert_eq!(slot_char(X), 'X');
    assert_eq!(slot_char(O), 'O');
}

#[test]
fn has_free_returns_true_when_free_cell_exists() {
    assert!(has_free(&[Empty, X, X, X, X, X, X, X, X]));
    assert!(has_free(&[X, Empty, X, X, X, X, X, X, X]));
    assert!(has_free(&[X, X, Empty, X, X, X, X, X, X]));
    assert!(has_free(&[X, X, X, Empty, X, X, X, X, X]));
    assert!(has_free(&[X, X, X, X, Empty, X, X, X, X]));
    assert!(has_free(&[X, X, X, X, X, Empty, X, X, X]));
    assert!(has_free(&[X, X, X, X, X, X, Empty, X, X]));
    assert!(has_free(&[X, X, X, X, X, X, X, Empty, X]));
    assert!(has_free(&[X, X, X, X, X, X, X, X, Empty]));
}

#[test]
fn has_free_returns_false_when_no_free_cell_exists() {
    assert!(!has_free(&[O, X, X, X, X, X, X, X, X]));
    assert!(!has_free(&[X, O, X, X, X, X, X, X, X]));
    assert!(!has_free(&[X, X, O, X, X, X, X, X, X]));
    assert!(!has_free(&[X, X, X, O, X, X, X, X, X]));
    assert!(!has_free(&[X, X, X, X, O, X, X, X, X]));
    assert!(!has_free(&[X, X, X, X, X, O, X, X, X]));
    assert!(!has_free(&[X, X, X, X, X, X, O, X, X]));
    assert!(!has_free(&[X, X, X, X, X, X, X, O, X]));
    assert!(!has_free(&[X, X, X, X, X, X, X, X, O]));
}

#[test]
fn has_free_on_empty_grid() {
    assert!(has_free(&[Empty; 9]));
}

#[test]
fn has_win_returns_true_when_win() {
    assert!(has_win(&[X, X, X, Empty, Empty, Empty, Empty, Empty, Empty]));
    assert!(has_win(&[Empty, Empty, Empty, X, X, X, Empty, Empty, Empty]));
    assert!(has_win(&[Empty, Empty, Empty, Empty, Empty, Empty, X, X, X]));
    assert!(has_win(&[X, Empty, Empty, X, Empty, Empty, X, Empty, Empty]));
    assert!(has_win(&[Empty, X, Empty, Empty, X, Empty, Empty, X, Empty]));
    assert!(has_win(&[Empty, Empty, X, Empty, Empty, X, Empty, Empty, X]));
    assert!(has_win(&[X, Empty, Empty, Empty, X, Empty, Empty, Empty, X]));
    assert!(has_win(&[Empty, Empty, X, Empty, X, Empty, X, Empty, Empty]));
}

#[test]
fn has_win_returns_false_when_no_win() {
    assert!(!has_win(&[X, O, X, Empty, Empty, Empty, Empty, Empty, Empty]));
    assert!(!has_win(&[Empty, Empty, Empty, X, O, X, Empty, Empty, Empty]));
    assert!(!has_win(&[Empty, Empty, Empty, Empty, Empty, Empty, X, O, X]));
    assert!(!has_win(&[X, Empty, Empty, O, Empty, Empty, X, Empty, Empty]));
    assert!(!has_win(&[Empty, X, Empty, Empty, O, Empty, Empty, X, Empty]));
    assert!(!has_win(&[Empty, Empty, X, Empty, Empty, O, Empty, Empty, X]));
    assert!(!has_win(&[X, Empty, Empty, Empty, O, Empty, Empty, Empty, X]));
    assert!(!has_win(&[Empty, Empty, X, Empty, O, Empty, X, Empty, Empty]));
}

#[test]
fn has_win_on_every_line_with_other_cells_taken() {
    let lines = [
        [0, 1, 2],
        [3, 4, 5],
        [6, 7, 8],
        [0, 3, 6],
        [1, 4, 7],
        [2, 5, 8],
        [0, 4, 8],
        [2, 4, 6],
    ];
    for line in lines.iter() {
        for mark in [X, O] {
            let other = if mark == X { O } else { X };
            let mut grid = [Empty; 9];
            for &i in line.iter() {
                grid[i] = mark;
            }
            let outside = (0..9).find(|i| !line.contains(i)).unwrap();
            grid[outside] = other;
            assert!(has_win(&grid));
        }
    }
}

#[test]
fn has_win_false_on_empty_grid() {
    assert!(!has_win(&[Empty; 9]));
}

#[test]
fn grid_string_returns_correct_grid() {
    assert_eq!(
        grid_string(&[Empty; 9]),
        "  | A | B | C |  
-----------------
1 |   |   |   | 1
-----------------
2 |   |   |   | 2
-----------------
3 |   |   |   | 3
-----------------
  | A | B | C |  "
    );
    assert_eq!(
        grid_string(&[X, O, X, O, X, O, X, O, X]),
        "  | A | B | C |  
-----------------
1 | X | O | X | 1
-----------------
2 | O | X | O | 2
-----------------
3 | X | O | X | 3
-----------------
  | A | B | C |  "
    );
    assert_eq!(
        grid_string(&[O, X, O, X, O, X, O, X, O]),
        "  | A | B | C |  
-----------------
1 | O | X | O | 1
-----------------
2 | X | O | X | 2
-----------------
3 | O | X | O | 3
-----------------
  | A | B | C |  "
    );
}

#[test]
fn opposite_player_returns_correct_player() {
    assert_eq!(opposite_player(Player::O), Player::X);
    assert_eq!(opposite_player(Player::X), Player::O);
}

#[test]
fn player_slot_returns_correct_slot() {
    assert_eq!(player_slot(&Player::X), X);
    assert_eq!(player_slot(&Player::O), O);
}

#[test]
fn evaluate_prefers_victory_over_full_grid() {
    let full_and_won: [Slot; 9] = [X, X, X, O, O, X, X, O, O];
    assert!(!has_free(&full_and_won));
    assert!(has_win(&full_and_won));
    assert_eq!(evaluate(&full_and_won), GameState::Victory);
}

#[test]
fn evaluate_reports_draw_and_unfinished() {
    assert_eq!(evaluate(&[O, X, O, X, O, X, X, O, X]), GameState::Draw);
    assert_eq!(evaluate(&[Empty; 9]), GameState::Unfinished);
    assert_eq!(evaluate(&[O, X, O, X, Empty, X, X, O, X]), GameState::Unfinished);
}
