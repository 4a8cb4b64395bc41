use noughts_and_crosses::board::Board;
use noughts_and_crosses::board::Tile;
use noughts_and_crosses::session::Command;
use noughts_and_crosses::session::GamePhase;
use noughts_and_crosses::session::Session;

fn count_of(board: &Board, tile: Tile) -> usize {
    let mut n = 0;
    for i in 0..9 {
        if board.tiles[i] == tile {
            n += 1;
        }
    }
    n
}

const WIN_LINES: [[usize; 3]; 8] = [
    [0, 1, 2],
    [3, 4, 5],
    [6, 7, 8],
    [0, 3, 6],
    [1, 4, 7],
    [2, 5, 8],
    [0, 4, 8],
    [2, 4, 6],
];

#[test]
fn piece_labels() {
    assert_eq!(Tile::X.piece(), "X");
    assert_eq!(Tile::O.piece(), "O");
    assert_eq!(Tile::Empty.piece(), "");
}

#[test]
fn tile_emptiness() {
    assert!(Tile::Empty.is_empty());
    assert!(!Tile::X.is_empty());
    assert!(!Tile::O.is_empty());
}

#[test]
fn fresh_board_is_blank() {
    let b = Board::new();
    assert_eq!(b.moves, 0);
    for i in 0..9 {
        assert!(b.is_empty(i));
        assert_eq!(b.tiles[i], Tile::Empty);
    }
}

#[test]
fn clear_restores_blank_from_any_state() {
    let mut b = Board::new();
    b.place(0, Tile::O);
    b.place(4, Tile::X);
    b.place(8, Tile::O);
    assert_eq!(b.moves, 3);
    b.clear();
    assert_eq!(b.moves, 0);
    for i in 0..9 {
        assert_eq!(b.tiles[i], Tile::Empty);
    }
}

#[test]
fn occupied_cell_move_is_a_no_op() {
    let mut b = Board::new();
    b.place(4, Tile::X);
    b.place(0, Tile::O);
    let before_tiles = b.tiles;
    let before_moves = b.moves;
    let game_over = b.play_move(4);
    assert!(!game_over);
    assert_eq!(b.tiles, before_tiles);
    assert_eq!(b.moves, before_moves);
}

#[test]
fn every_win_line_is_detected_for_either_player() {
    for line in WIN_LINES {
        for player in [Tile::O, Tile::X] {
            let mut b = Board::new();
            for i in line {
                b.place(i, player);
            }
            assert!(b.winning());
        }
    }
}

#[test]
fn two_in_a_line_is_not_a_win() {
    for line in WIN_LINES {
        let mut b = Board::new();
        b.place(line[0], Tile::O);
        b.place(line[1], Tile::O);
        assert!(!b.winning());
    }
}

#[test]
fn full_board_without_a_line_is_not_a_win() {
    // O O X / X X O / O O X: all 9 filled, no line of three.
    let mut b = Board::new();
    let pattern = [
        Tile::O,
        Tile::O,
        Tile::X,
        Tile::X,
        Tile::X,
        Tile::O,
        Tile::O,
        Tile::O,
        Tile::X,
    ];
    for i in 0..9 {
        b.place(i, pattern[i]);
    }
    assert_eq!(b.moves, 9);
    assert!(!b.winning());
}

#[test]
fn turn_alternation_counts_one_or_two() {
    let mut b = Board::new();
    let before = b.moves;
    let game_over = b.play_move(0);
    assert!(!game_over);
    // Early in the game a legal human move always gets an opponent reply.
    assert_eq!(b.moves, before + 2);
}

#[test]
fn scenario_center_opening() {
    let mut b = Board::new();
    let game_over = b.play_move(4);
    assert!(!game_over);
    assert_eq!(b.tiles[4], Tile::O);
    assert_eq!(b.moves, 2);
    assert_eq!(count_of(&b, Tile::O), 1);
    assert_eq!(count_of(&b, Tile::X), 1);
    // The opponent's cell is one of the other 8 and was empty before.
    assert_ne!(b.tiles[4], Tile::X);
    // Through the session, the same opening keeps the phase at Playing.
    let mut s = Session::new();
    s.handle(Command::StartGame);
    s.handle(Command::SelectCell(4));
    assert_eq!(s.phase, GamePhase::Playing);
    assert_eq!(s.board.moves, 2);
}

#[test]
fn scenario_completing_the_top_row_wins_before_any_reply() {
    let mut b = Board::new();
    b.place(0, Tile::O);
    b.place(3, Tile::X);
    b.place(1, Tile::O);
    b.place(5, Tile::X);
    let game_over = b.play_move(2);
    assert!(game_over);
    assert_eq!(b.tiles[2], Tile::O);
    assert_eq!(b.moves, 5);
    // The winning call placed no opponent piece.
    assert_eq!(count_of(&b, Tile::X), 2);
    assert!(b.winning());
}

#[test]
fn scenario_draw_ends_the_game() {
    // Fill all but one cell of a winless pattern, then play the last.
    let mut b = Board::new();
    let pattern = [
        Tile::O,
        Tile::O,
        Tile::X,
        Tile::X,
        Tile::X,
        Tile::O,
        Tile::O,
        Tile::O,
        Tile::X,
    ];
    for i in 0..9 {
        if i != 7 {
            b.place(i, pattern[i]);
        }
    }
    assert_eq!(b.moves, 8);
    let game_over = b.play_move(7);
    assert!(game_over);
    assert_eq!(b.moves, 9);
    assert!(!b.winning());
}

#[test]
fn opponent_never_overwrites_an_occupied_cell() {
    let mut b = Board::new();
    b.place(0, Tile::O);
    b.place(1, Tile::X);
    let before = b.tiles;
    let game_over = b.play_move(8);
    assert!(!game_over);
    for i in 0..9 {
        if before[i] != Tile::Empty {
            assert_eq!(b.tiles[i], before[i]);
        }
    }
    assert_eq!(count_of(&b, Tile::O), 2);
    assert_eq!(count_of(&b, Tile::X), 2);
}

#[test]
fn fresh_session_starts_at_the_menu() {
    let s = Session::new();
    assert_eq!(s.phase, GamePhase::Menu);
    assert_eq!(s.board.moves, 0);
}

#[test]
fn scenario_start_game_resets_a_dirty_board() {
    let mut s = Session::new();
    s.board.place(0, Tile::O);
    s.board.place(4, Tile::X);
    s.phase = GamePhase::GameOver;
    let quit = s.handle(Command::StartGame);
    assert!(!quit);
    assert_eq!(s.phase, GamePhase::Playing);
    assert_eq!(s.board.moves, 0);
    for i in 0..9 {
        assert_eq!(s.board.tiles[i], Tile::Empty);
    }
}

#[test]
fn start_game_from_the_menu_begins_play() {
    let mut s = Session::new();
    let quit = s.handle(Command::StartGame);
    assert!(!quit);
    assert_eq!(s.phase, GamePhase::Playing);
    assert_eq!(s.board.moves, 0);
}

#[test]
fn scenario_select_cell_after_game_over_is_ignored() {
    let mut s = Session::new();
    s.board.place(2, Tile::O);
    s.board.place(6, Tile::X);
    s.phase = GamePhase::GameOver;
    let before_tiles = s.board.tiles;
    let before_moves = s.board.moves;
    let quit = s.handle(Command::SelectCell(3));
    assert!(!quit);
    assert_eq!(s.phase, GamePhase::GameOver);
    assert_eq!(s.board.tiles, before_tiles);
    assert_eq!(s.board.moves, before_moves);
}

#[test]
fn select_cell_at_the_menu_is_ignored() {
    let mut s = Session::new();
    let quit = s.handle(Command::SelectCell(0));
    assert!(!quit);
    assert_eq!(s.phase, GamePhase::Menu);
    assert_eq!(s.board.moves, 0);
}

#[test]
fn start_game_while_playing_is_ignored() {
    let mut s = Session::new();
    s.handle(Command::StartGame);
    s.handle(Command::SelectCell(4));
    let before_tiles = s.board.tiles;
    let before_moves = s.board.moves;
    let quit = s.handle(Command::StartGame);
    assert!(!quit);
    assert_eq!(s.phase, GamePhase::Playing);
    assert_eq!(s.board.tiles, before_tiles);
    assert_eq!(s.board.moves, before_moves);
}

#[test]
fn out_of_range_cell_is_ignored() {
    let mut s = Session::new();
    s.handle(Command::StartGame);
    let quit = s.handle(Command::SelectCell(9));
    assert!(!quit);
    assert_eq!(s.phase, GamePhase::Playing);
    assert_eq!(s.board.moves, 0);
}

#[test]
fn quit_asks_for_termination_and_changes_nothing() {
    let mut s = Session::new();
    let quit = s.handle(Command::Quit);
    assert!(quit);
    assert_eq!(s.phase, GamePhase::Menu);
    assert_eq!(s.board.moves, 0);
}

#[test]
fn selecting_a_winning_cell_moves_the_session_to_game_over() {
    let mut s = Session::new();
    s.handle(Command::StartGame);
    s.board.place(0, Tile::O);
    s.board.place(3, Tile::X);
    s.board.place(1, Tile::O);
    s.board.place(5, Tile::X);
    let quit = s.handle(Command::SelectCell(2));
    assert!(!quit);
    assert_eq!(s.phase, GamePhase::GameOver);
    assert!(s.board.winning());
}

#[test]
fn a_session_game_always_terminates() {
    // Drive a whole random game: phases only move forward, every move
    // keeps the counts consistent, and the game ends within 9 cells.
    let mut s = Session::new();
    s.handle(Command::StartGame);
    let mut guesses = 0;
    while s.phase == GamePhase::Playing && guesses < 100 {
        for i in 0..9 {
            if s.phase == GamePhase::Playing && s.board.is_empty(i) {
                let filled_before = count_of(&s.board, Tile::O) + count_of(&s.board, Tile::X);
                assert_eq!(filled_before, s.board.moves as usize);
                s.handle(Command::SelectCell(i));
                break;
            }
        }
        guesses += 1;
    }
    assert_eq!(s.phase, GamePhase::GameOver);
    assert!(s.board.moves <= 9);
    assert_eq!(
        count_of(&s.board, Tile::O) + count_of(&s.board, Tile::X),
        s.board.moves as usize
    );
}
