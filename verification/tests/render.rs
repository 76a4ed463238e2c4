use xors::board::{display_token, BoardLocation, BoardToken, GameBoard};

#[test]
pub fn test_display_token() {
    assert_eq!("X", display_token(&Some(BoardToken::Cross)));
    assert_eq!("O", display_token(&Some(BoardToken::Nought)));
    assert_eq!(" ", display_token(&None));
}

#[test]
pub fn test_render_empty_board() {
    let board = GameBoard::default();
    let expected = "     |     |     \n     |     |     \n1    |2    |3    \n-----------------\n     |     |     \n     |     |     \n4    |5    |6    \n-----------------\n     |     |     \n     |     |     \n7    |8    |9    \n\n";
    assert_eq!(expected, board.render());
}

#[test]
pub fn test_render_board_with_moves() {
    let mut board = GameBoard::default();
    let _ = board.play(BoardLocation::TopLeft, BoardToken::Cross);
    let _ = board.play(BoardLocation::MiddleCentre, BoardToken::Nought);
    let _ = board.play(BoardLocation::BottomRight, BoardToken::Cross);
    let expected = "     |     |     \n  X  |     |     \n1    |2    |3    \n-----------------\n     |     |     \n     |  O  |     \n4    |5    |6    \n-----------------\n     |     |     \n     |     |  X  \n7    |8    |9    \n\n";
    assert_eq!(expected, board.render());
}
