use xors::board::{BoardLocation, BoardToken};
use xors::player::ScriptedPlayer;
use xors::{Game, GameError, GameResult};

#[test]
pub fn test_game() {
    let mut game = Game::new();
    let player1 = ScriptedPlayer::new(
        "Yasmin",
        BoardToken::Cross,
        &vec![
            BoardLocation::MiddleCentre,
            BoardLocation::TopCentre,
            BoardLocation::BottomCentre,
        ],
    );
    let player2 = ScriptedPlayer::new(
        "Mummy",
        BoardToken::Nought,
        &vec![BoardLocation::TopLeft, BoardLocation::MiddleLeft],
    );

    let _ = game.register_player(player1);
    let _ = game.register_player(player2);
    let _result = game.play();
    assert_eq!(Some(GameResult::Player1), game.result());
}

#[test]
pub fn test_tied_game() {
    let mut game = Game::new();
    let player1 = ScriptedPlayer::new(
        "Yasmin",
        BoardToken::Cross,
        &vec![
            BoardLocation::MiddleCentre,
            BoardLocation::TopCentre,
            BoardLocation::MiddleRight,
            BoardLocation::BottomLeft,
            BoardLocation::BottomRight,
        ],
    );
    let player2 = ScriptedPlayer::new(
        "Mummy",
        BoardToken::Nought,
        &vec![
            BoardLocation::TopLeft,
            BoardLocation::BottomCentre,
            BoardLocation::MiddleLeft,
            BoardLocation::TopRight,
        ],
    );

    let _ = game.register_player(player1);
    let _ = game.register_player(player2);
    let _result = game.play();
    assert_eq!(Some(GameResult::Tie), game.result());
}

#[test]
pub fn test_play_returns_the_winning_player() {
    let mut game = Game::new();
    let player1 = ScriptedPlayer::new(
        "Yasmin",
        BoardToken::Cross,
        &[
            BoardLocation::MiddleCentre,
            BoardLocation::TopCentre,
            BoardLocation::BottomCentre,
        ],
    );
    let player2 = ScriptedPlayer::new(
        "Mummy",
        BoardToken::Nought,
        &[BoardLocation::TopLeft, BoardLocation::MiddleLeft],
    );
    let _ = game.register_player(player1);
    let _ = game.register_player(player2);
    assert_eq!(Ok(GameResult::Player1), game.play());
}

#[test]
pub fn test_play_returns_the_tie() {
    let mut game = Game::new();
    let player1 = ScriptedPlayer::new(
        "Yasmin",
        BoardToken::Cross,
        &[
            BoardLocation::MiddleCentre,
            BoardLocation::TopCentre,
            BoardLocation::MiddleRight,
            BoardLocation::BottomLeft,
            BoardLocation::BottomRight,
        ],
    );
    let player2 = ScriptedPlayer::new(
        "Mummy",
        BoardToken::Nought,
        &[
            BoardLocation::TopLeft,
            BoardLocation::BottomCentre,
            BoardLocation::MiddleLeft,
            BoardLocation::TopRight,
        ],
    );
    let _ = game.register_player(player1);
    let _ = game.register_player(player2);
    assert_eq!(Ok(GameResult::Tie), game.play());
}

#[test]
pub fn test_player_two_can_win() {
    let mut game = Game::new();
    let player1 = ScriptedPlayer::new(
        "Yasmin",
        BoardToken::Cross,
        &[
            BoardLocation::TopLeft,
            BoardLocation::MiddleCentre,
            BoardLocation::BottomCentre,
        ],
    );
    let player2 = ScriptedPlayer::new(
        "Mummy",
        BoardToken::Nought,
        &[
            BoardLocation::TopRight,
            BoardLocation::MiddleRight,
            BoardLocation::BottomRight,
        ],
    );
    let _ = game.register_player(player1);
    let _ = game.register_player(player2);
    assert_eq!(Ok(GameResult::Player2), game.play());
    assert_eq!(Some(GameResult::Player2), game.result());
}

#[test]
pub fn test_exhausted_script_is_an_error_not_a_crash() {
    // One scripted entry against a normal opponent: no terminal condition is
    // reached, and the session reports exhaustion instead of aborting.
    let mut game = Game::new();
    let player1 = ScriptedPlayer::new("Yasmin", BoardToken::Cross, &[BoardLocation::MiddleCentre]);
    let player2 = ScriptedPlayer::new(
        "Mummy",
        BoardToken::Nought,
        &[BoardLocation::TopLeft, BoardLocation::MiddleLeft],
    );
    let _ = game.register_player(player1);
    let _ = game.register_player(player2);
    assert_eq!(Err(GameError::PlayerExhausted), game.play());
}

#[test]
pub fn test_proposing_an_occupied_cell_ends_the_session() {
    let mut game = Game::new();
    let player1 = ScriptedPlayer::new("Yasmin", BoardToken::Cross, &[BoardLocation::MiddleCentre]);
    let player2 = ScriptedPlayer::new("Mummy", BoardToken::Nought, &[BoardLocation::MiddleCentre]);
    let _ = game.register_player(player1);
    let _ = game.register_player(player2);
    assert_eq!(
        Err(GameError::InvalidMove(BoardLocation::MiddleCentre)),
        game.play()
    );
}

#[test]
pub fn test_play_before_registration_is_not_ready() {
    let mut game = Game::new();
    assert_eq!(Err(GameError::NotReady), game.play());
    let player1 = ScriptedPlayer::new("Yasmin", BoardToken::Cross, &[BoardLocation::MiddleCentre]);
    let _ = game.register_player(player1);
    assert_eq!(Err(GameError::NotReady), game.play());
}

#[test]
pub fn test_second_player_must_take_the_other_token() {
    let mut game = Game::new();
    let player1 = ScriptedPlayer::new("Yasmin", BoardToken::Cross, &[BoardLocation::MiddleCentre]);
    let player2 = ScriptedPlayer::new("Mummy", BoardToken::Cross, &[BoardLocation::TopLeft]);
    assert_eq!(Ok(()), game.register_player(player1));
    assert_eq!(Err(GameError::DuplicateToken), game.register_player(player2));
}

#[test]
pub fn test_third_registration_is_refused() {
    let mut game = Game::new();
    let player1 = ScriptedPlayer::new("Yasmin", BoardToken::Cross, &[BoardLocation::MiddleCentre]);
    let player2 = ScriptedPlayer::new("Mummy", BoardToken::Nought, &[BoardLocation::TopLeft]);
    let player3 = ScriptedPlayer::new("Granny", BoardToken::Cross, &[BoardLocation::TopRight]);
    assert_eq!(Ok(()), game.register_player(player1));
    assert_eq!(Ok(()), game.register_player(player2));
    assert_eq!(Err(GameError::RegistrationFull), game.register_player(player3));
}

#[test]
pub fn test_board_reflects_the_played_moves() {
    let mut game = Game::new();
    let player1 = ScriptedPlayer::new("Yasmin", BoardToken::Cross, &[BoardLocation::MiddleCentre]);
    let player2 = ScriptedPlayer::new("Mummy", BoardToken::Nought, &[BoardLocation::TopLeft]);
    let _ = game.register_player(player1);
    let _ = game.register_player(player2);
    let _ = game.play();
    assert_eq!(Some(BoardToken::Cross), game.board().get(BoardLocation::MiddleCentre));
    assert_eq!(Some(BoardToken::Nought), game.board().get(BoardLocation::TopLeft));
    assert_eq!(None, game.board().get(BoardLocation::BottomRight));
}
