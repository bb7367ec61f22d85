use anchor_lang::prelude::Pubkey;
use tic_tac_toe::game::Game;
use tic_tac_toe::model::GameState;
use tic_tac_toe::sign::Sign;
use tic_tac_toe::tile::Tile;

fn key(byte: u8) -> Pubkey {
    Pubkey::new_from_array([byte; 32])
}

const X: Option<Sign> = Some(Sign::X);
const O: Option<Sign> = Some(Sign::O);
const E: Option<Sign> = None;

#[test]
fn parts_of_a_running_game_restore_it() {
    let mut game = Game::new();
    assert_eq!(game.start([key(1), key(2)]), Ok(()));
    for (row, column) in [(0, 0), (1, 1), (2, 2)] {
        assert_eq!(game.play(&Tile { row, column }), Ok(()));
        let restored = Game::from_parts(game.players(), game.turn(), game.board(), game.state());
        assert_eq!(restored, Some(game.clone()));
    }
    let mut restored =
        Game::from_parts(game.players(), game.turn(), game.board(), game.state()).unwrap();
    assert_eq!(restored.play(&Tile { row: 0, column: 1 }), Ok(()));
    assert_eq!(restored.board(), [[X, O, E], [E, O, E], [E, E, X]]);
    assert_eq!(restored.turn(), 5);
}

#[test]
fn parts_of_a_game_not_started_restore_it() {
    let restored = Game::from_parts([key(0), key(0)], 0, [[E; 3]; 3], GameState::Active).unwrap();
    assert_eq!(restored.turn(), 0);
    assert_eq!(restored.players(), [key(0), key(0)]);
    assert_eq!(restored.state(), GameState::Active);
    assert_eq!(Game::from_parts([key(1), key(2)], 0, [[E; 3]; 3], GameState::Tie), None);
    assert_eq!(
        Game::from_parts([key(1), key(2)], 0, [[E, E, E], [E, X, E], [E, E, E]], GameState::Active),
        None
    );
}

#[test]
fn turn_must_match_the_filled_cells() {
    let players = [key(1), key(2)];
    let board = [[X, O, E], [E, E, E], [E, E, E]];
    // two cells: the third turn of a game that was started first,
    // or the second turn of one whose first move was made on turn 0
    assert!(Game::from_parts(players, 3, board, GameState::Active).is_some());
    assert!(Game::from_parts(players, 2, board, GameState::Active).is_some());
    assert_eq!(Game::from_parts(players, 1, board, GameState::Active), None);
    assert_eq!(Game::from_parts(players, 4, board, GameState::Active), None);
    assert_eq!(Game::from_parts(players, 255, board, GameState::Active), None);
    assert_eq!(Game::from_parts(players, 0, board, GameState::Active), None);
}

#[test]
fn state_must_be_what_the_board_says() {
    let players = [key(1), key(2)];
    let won = [[X, X, X], [O, O, E], [E, E, E]];
    assert!(Game::from_parts(players, 5, won, GameState::Won { winner: key(1) }).is_some());
    assert_eq!(Game::from_parts(players, 5, won, GameState::Active), None);
    assert_eq!(Game::from_parts(players, 6, won, GameState::Active), None);
    assert_eq!(Game::from_parts(players, 5, won, GameState::Tie), None);
    assert_eq!(Game::from_parts(players, 6, won, GameState::Won { winner: key(1) }), None);
    assert_eq!(Game::from_parts(players, 3, won, GameState::Won { winner: key(1) }), None);
    let tied = [[X, O, X], [X, O, O], [O, X, X]];
    assert!(Game::from_parts(players, 9, tied, GameState::Tie).is_some());
    assert!(Game::from_parts(players, 8, tied, GameState::Tie).is_some());
    assert_eq!(Game::from_parts(players, 7, tied, GameState::Tie), None);
    assert_eq!(Game::from_parts(players, 10, tied, GameState::Tie), None);
    assert_eq!(Game::from_parts(players, 9, tied, GameState::Active), None);
    assert_eq!(Game::from_parts(players, 10, tied, GameState::Active), None);
    assert_eq!(Game::from_parts(players, 9, tied, GameState::Won { winner: key(1) }), None);
    let open = [[X, O, X], [X, O, O], [O, X, E]];
    assert!(Game::from_parts(players, 9, open, GameState::Active).is_some());
    assert!(Game::from_parts(players, 8, open, GameState::Active).is_some());
    assert_eq!(Game::from_parts(players, 7, open, GameState::Active), None);
    assert_eq!(Game::from_parts(players, 8, open, GameState::Tie), None);
}

#[test]
fn winner_must_be_the_player_who_moved_last() {
    let players = [key(1), key(2)];
    let x_won = [[X, X, X], [O, O, E], [E, E, E]];
    assert!(Game::from_parts(players, 5, x_won, GameState::Won { winner: key(1) }).is_some());
    assert_eq!(Game::from_parts(players, 5, x_won, GameState::Won { winner: key(2) }), None);
    assert_eq!(Game::from_parts(players, 5, x_won, GameState::Won { winner: key(3) }), None);
    let o_won = [[X, O, X], [X, O, E], [E, O, E]];
    assert!(Game::from_parts(players, 6, o_won, GameState::Won { winner: key(2) }).is_some());
    assert_eq!(Game::from_parts(players, 6, o_won, GameState::Won { winner: key(1) }), None);
    let same = [key(4), key(4)];
    assert!(Game::from_parts(same, 5, x_won, GameState::Won { winner: key(4) }).is_some());
    // five cells on turn 4: the first move was made on turn 0, and the
    // current participant of turn 4 is the second
    assert!(Game::from_parts(players, 4, x_won, GameState::Won { winner: key(2) }).is_some());
    assert_eq!(Game::from_parts(players, 4, x_won, GameState::Won { winner: key(1) }), None);
}

#[test]
fn parts_of_a_game_moved_before_start_restore_it() {
    let mut game = Game::new();
    for (row, column) in [(1, 1), (0, 0), (2, 2)] {
        assert_eq!(game.play(&Tile { row, column }), Ok(()));
        let restored = Game::from_parts(game.players(), game.turn(), game.board(), game.state());
        assert_eq!(restored, Some(game.clone()));
    }
    assert_eq!(game.board(), [[X, E, E], [E, O, E], [E, E, O]]);
    assert_eq!(game.turn(), 3);
}
