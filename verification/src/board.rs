//! The 3x3 grid: cell occupancy, single-occupancy enforcement, and the
//! eight win-line queries.

use vstd::prelude::*;

verus! {

/// The marker one of the two players places on the board.
#[derive(Clone, Copy, Debug, PartialEq, Eq, Structural)]
pub enum BoardToken {
    Nought,
    Cross,
}

/// One of the nine fixed positions of the grid, in row-major reading order.
#[derive(Clone, Copy, Debug, PartialEq, Eq, Structural)]
pub enum BoardLocation {
    TopLeft,
    TopCentre,
    TopRight,
    MiddleLeft,
    MiddleCentre,
    MiddleRight,
    BottomLeft,
    BottomCentre,
    BottomRight,
}

/// The grid itself: each cell holds at most one token, and a token, once
/// placed, is never changed or cleared.
#[derive(Debug)]
pub struct GameBoard {
    top_left: Option<BoardToken>,
    top_centre: Option<BoardToken>,
    top_right: Option<BoardToken>,
    middle_left: Option<BoardToken>,
    middle_centre: Option<BoardToken>,
    middle_right: Option<BoardToken>,
    bottom_left: Option<BoardToken>,
    bottom_centre: Option<BoardToken>,
    bottom_right: Option<BoardToken>,
}

/// The one way a move can be refused by the board.
#[derive(Clone, Copy, Debug, PartialEq, Eq, Structural)]
pub enum BoardError {
    BoardLocationOccupied(BoardLocation),
}

impl GameBoard {
    /// The token held by the cell at `location`, or `None` when it is free.
    pub closed spec fn cell(self, location: BoardLocation) -> Option<BoardToken> {
        match location {
            BoardLocation::TopLeft => self.top_left,
            BoardLocation::TopCentre => self.top_centre,
            BoardLocation::TopRight => self.top_right,
            BoardLocation::MiddleLeft => self.middle_left,
            BoardLocation::MiddleCentre => self.middle_centre,
            BoardLocation::MiddleRight => self.middle_right,
            BoardLocation::BottomLeft => self.bottom_left,
            BoardLocation::BottomCentre => self.bottom_centre,
            BoardLocation::BottomRight => self.bottom_right,
        }
    }

    /// The board with the cell at `location` holding `token` and every other
    /// cell as before.
    pub closed spec fn set_cell(self, location: BoardLocation, token: BoardToken) -> GameBoard {
        match location {
            BoardLocation::TopLeft => GameBoard { top_left: Some(token), ..self },
            BoardLocation::TopCentre => GameBoard { top_centre: Some(token), ..self },
            BoardLocation::TopRight => GameBoard { top_right: Some(token), ..self },
            BoardLocation::MiddleLeft => GameBoard { middle_left: Some(token), ..self },
            BoardLocation::MiddleCentre => GameBoard { middle_centre: Some(token), ..self },
            BoardLocation::MiddleRight => GameBoard { middle_right: Some(token), ..self },
            BoardLocation::BottomLeft => GameBoard { bottom_left: Some(token), ..self },
            BoardLocation::BottomCentre => GameBoard { bottom_centre: Some(token), ..self },
            BoardLocation::BottomRight => GameBoard { bottom_right: Some(token), ..self },
        }
    }

    /// The board on which every cell is still free.
    pub closed spec fn empty() -> GameBoard {
        GameBoard {
            top_left: None,
            top_centre: None,
            top_right: None,
            middle_left: None,
            middle_centre: None,
            middle_right: None,
            bottom_left: None,
            bottom_centre: None,
            bottom_right: None,
        }
    }

    /// All nine cells are occupied.
    pub open spec fn full(self) -> bool {
        forall|l: BoardLocation| self.cell(l) is Some
    }

    /// The three cells `a`, `b`, `c` are all occupied and hold equal tokens.
    /// An all-empty line is never a win.
    pub open spec fn line_win(self, a: BoardLocation, b: BoardLocation, c: BoardLocation) -> bool {
        &&& self.cell(a) is Some
        &&& self.cell(a) == self.cell(b)
        &&& self.cell(a) == self.cell(c)
    }

    pub open spec fn top_row_win(self) -> bool {
        self.line_win(BoardLocation::TopLeft, BoardLocation::TopCentre, BoardLocation::TopRight)
    }

    pub open spec fn middle_row_win(self) -> bool {
        self.line_win(BoardLocation::MiddleLeft, BoardLocation::MiddleCentre, BoardLocation::MiddleRight)
    }

    pub open spec fn bottom_row_win(self) -> bool {
        self.line_win(BoardLocation::BottomLeft, BoardLocation::BottomCentre, BoardLocation::BottomRight)
    }

    pub open spec fn left_column_win(self) -> bool {
        self.line_win(BoardLocation::TopLeft, BoardLocation::MiddleLeft, BoardLocation::BottomLeft)
    }

    pub open spec fn centre_column_win(self) -> bool {
        self.line_win(BoardLocation::TopCentre, BoardLocation::MiddleCentre, BoardLocation::BottomCentre)
    }

    pub open spec fn right_column_win(self) -> bool {
        self.line_win(BoardLocation::TopRight, BoardLocation::MiddleRight, BoardLocation::BottomRight)
    }

    pub open spec fn left_right_diagonal_win(self) -> bool {
        self.line_win(BoardLocation::TopLeft, BoardLocation::MiddleCentre, BoardLocation::BottomRight)
    }

    pub open spec fn right_left_diagonal_win(self) -> bool {
        self.line_win(BoardLocation::TopRight, BoardLocation::MiddleCentre, BoardLocation::BottomLeft)
    }

    /// Place `player`'s token at `location`. Fails, and leaves every cell
    /// exactly as it was, when the cell is already occupied; the single-cell
    /// write happens only on success.
    pub fn play(&mut self, location: BoardLocation, player: BoardToken) -> (r: Result<(), BoardError>)
        ensures
            r is Ok <==> old(self).cell(location) is None,
            r is Ok ==> *final(self) == old(self).set_cell(location, player),
            r is Ok ==> final(self).cell(location) == Some(player)
                && (forall|l: BoardLocation| l != location ==> final(self).cell(l) == old(self).cell(l)),
            r is Err ==> *final(self) == *old(self)
                && r == Err::<(), BoardError>(BoardError::BoardLocationOccupied(location)),
    {
        match location {
            BoardLocation::TopLeft => {
                if self.top_left.is_none() {
                    self.top_left = Some(player);
                } else {
                    return Err(BoardError::BoardLocationOccupied(BoardLocation::TopLeft));
                }
            }
            BoardLocation::TopCentre => {
                if self.top_centre.is_none() {
                    self.top_centre = Some(player);
                } else {
                    return Err(BoardError::BoardLocationOccupied(BoardLocation::TopCentre));
                }
            }
            BoardLocation::TopRight => {
                if self.top_right.is_none() {
                    self.top_right = Some(player);
                } else {
                    return Err(BoardError::BoardLocationOccupied(BoardLocation::TopRight));
                }
            }
            BoardLocation::MiddleLeft => {
                if self.middle_left.is_none() {
                    self.middle_left = Some(player);
                } else {
                    return Err(BoardError::BoardLocationOccupied(BoardLocation::MiddleLeft));
                }
            }
            BoardLocation::MiddleCentre => {
                if self.middle_centre.is_none() {
                    self.middle_centre = Some(player);
                } else {
                    return Err(BoardError::BoardLocationOccupied(BoardLocation::MiddleCentre));
                }
            }
            BoardLocation::MiddleRight => {
                if self.middle_right.is_none() {
                    self.middle_right = Some(player);
                } else {
                    return Err(BoardError::BoardLocationOccupied(BoardLocation::MiddleRight));
                }
            }
            BoardLocation::BottomLeft => {
                if self.bottom_left.is_none() {
                    self.bottom_left = Some(player);
                } else {
                    return Err(BoardError::BoardLocationOccupied(BoardLocation::BottomLeft));
                }
            }
            BoardLocation::BottomCentre => {
                if self.bottom_centre.is_none() {
                    self.bottom_centre = Some(player);
                } else {
                    return Err(BoardError::BoardLocationOccupied(BoardLocation::BottomCentre));
                }
            }
            BoardLocation::BottomRight => {
                if self.bottom_right.is_none() {
                    self.bottom_right = Some(player);
                } else {
                    return Err(BoardError::BoardLocationOccupied(BoardLocation::BottomRight));
                }
            }
        }
        Ok(())
    }

    /// Read-only lookup of one cell; never fails.
    pub fn get(&self, location: BoardLocation) -> (r: Option<BoardToken>)
        ensures
            r == self.cell(location),
    {
        match location {
            BoardLocation::TopLeft => self.top_left,
            BoardLocation::TopCentre => self.top_centre,
            BoardLocation::TopRight => self.top_right,
            BoardLocation::MiddleLeft => self.middle_left,
            BoardLocation::MiddleCentre => self.middle_centre,
            BoardLocation::MiddleRight => self.middle_right,
            BoardLocation::BottomLeft => self.bottom_left,
            BoardLocation::BottomCentre => self.bottom_centre,
            BoardLocation::BottomRight => self.bottom_right,
        }
    }

    /// True exactly when all nine cells are occupied: equivalently, when
    /// `get` returns a token for every location.
    pub fn is_full(&self) -> (r: bool)
        ensures
            r == self.full(),
    {
        let r = self.top_left.is_some()
            && self.top_centre.is_some()
            && self.top_right.is_some()
            && self.middle_left.is_some()
            && self.middle_centre.is_some()
            && self.middle_right.is_some()
            && self.bottom_left.is_some()
            && self.bottom_centre.is_some()
            && self.bottom_right.is_some();
        proof {
            if r {
                assert forall|l: BoardLocation| self.cell(l) is Some by {
                    match l {
                        BoardLocation::TopLeft => {}
                        BoardLocation::TopCentre => {}
                        BoardLocation::TopRight => {}
                        BoardLocation::MiddleLeft => {}
                        BoardLocation::MiddleCentre => {}
                        BoardLocation::MiddleRight => {}
                        BoardLocation::BottomLeft => {}
                        BoardLocation::BottomCentre => {}
                        BoardLocation::BottomRight => {}
                    }
                }
            } else {
                assert(!self.full()) by {
                    if self.full() {
                        assert(self.cell(BoardLocation::TopLeft) is Some);
                        assert(self.cell(BoardLocation::TopCentre) is Some);
                        assert(self.cell(BoardLocation::TopRight) is Some);
                        assert(self.cell(BoardLocation::MiddleLeft) is Some);
                        assert(self.cell(BoardLocation::MiddleCentre) is Some);
                        assert(self.cell(BoardLocation::MiddleRight) is Some);
                        assert(self.cell(BoardLocation::BottomLeft) is Some);
                        assert(self.cell(BoardLocation::BottomCentre) is Some);
                        assert(self.cell(BoardLocation::BottomRight) is Some);
                    }
                }
            }
        }
        r
    }

    pub fn is_top_row_win(&self) -> (r: bool)
        ensures
            r == self.top_row_win(),
    {
        match (self.top_left, self.top_centre, self.top_right) {
            (Some(a), Some(b), Some(c)) => a == b && a == c,
            _ => false,
        }
    }

    pub fn is_middle_row_win(&self) -> (r: bool)
        ensures
            r == self.middle_row_win(),
    {
        match (self.middle_left, self.middle_centre, self.middle_right) {
            (Some(a), Some(b), Some(c)) => a == b && a == c,
            _ => false,
        }
    }

    pub fn is_bottom_row_win(&self) -> (r: bool)
        ensures
            r == self.bottom_row_win(),
    {
        match (self.bottom_left, self.bottom_centre, self.bottom_right) {
            (Some(a), Some(b), Some(c)) => a == b && a == c,
            _ => false,
        }
    }

    pub fn is_left_column_win(&self) -> (r: bool)
        ensures
            r == self.left_column_win(),
    {
        match (self.top_left, self.middle_left, self.bottom_left) {
            (Some(a), Some(b), Some(c)) => a == b && a == c,
            _ => false,
        }
    }

    pub fn is_centre_column_win(&self) -> (r: bool)
        ensures
            r == self.centre_column_win(),
    {
        match (self.top_centre, self.middle_centre, self.bottom_centre) {
            (Some(a), Some(b), Some(c)) => a == b && a == c,
            _ => false,
        }
    }

    pub fn is_right_column_win(&self) -> (r: bool)
        ensures
            r == self.right_column_win(),
    {
        match (self.top_right, self.middle_right, self.bottom_right) {
            (Some(a), Some(b), Some(c)) => a == b && a == c,
            _ => false,
        }
    }

    pub fn is_left_right_diagonal_win(&self) -> (r: bool)
        ensures
            r == self.left_right_diagonal_win(),
    {
        match (self.top_left, self.middle_centre, self.bottom_right) {
            (Some(a), Some(b), Some(c)) => a == b && a == c,
            _ => false,
        }
    }

    pub fn is_right_left_diagonal_win(&self) -> (r: bool)
        ensures
            r == self.right_left_diagonal_win(),
    {
        match (self.top_right, self.middle_centre, self.bottom_left) {
            (Some(a), Some(b), Some(c)) => a == b && a == c,
            _ => false,
        }
    }
}

/// The eight winning line triples — three rows, three columns, two diagonals —
/// each in the cell order the win predicates read them.
pub open spec fn is_win_line(a: BoardLocation, b: BoardLocation, c: BoardLocation) -> bool {
    ||| (a, b, c) == (BoardLocation::TopLeft, BoardLocation::TopCentre, BoardLocation::TopRight)
    ||| (a, b, c) == (BoardLocation::MiddleLeft, BoardLocation::MiddleCentre, BoardLocation::MiddleRight)
    ||| (a, b, c) == (BoardLocation::BottomLeft, BoardLocation::BottomCentre, BoardLocation::BottomRight)
    ||| (a, b, c) == (BoardLocation::TopLeft, BoardLocation::MiddleLeft, BoardLocation::BottomLeft)
    ||| (a, b, c) == (BoardLocation::TopCentre, BoardLocation::MiddleCentre, BoardLocation::BottomCentre)
    ||| (a, b, c) == (BoardLocation::TopRight, BoardLocation::MiddleRight, BoardLocation::BottomRight)
    ||| (a, b, c) == (BoardLocation::TopLeft, BoardLocation::MiddleCentre, BoardLocation::BottomRight)
    ||| (a, b, c) == (BoardLocation::TopRight, BoardLocation::MiddleCentre, BoardLocation::BottomLeft)
}

/// Law: on a board whose only tokens are one winning line's three cells, all
/// holding the same token, that line is a win, and no other winning line is:
/// two distinct winning lines share at most one cell, so every other line
/// still has an empty cell.
pub proof fn lemma_completed_line_wins_alone(
    board: GameBoard,
    t: BoardToken,
    a1: BoardLocation,
    b1: BoardLocation,
    c1: BoardLocation,
    a2: BoardLocation,
    b2: BoardLocation,
    c2: BoardLocation,
)
    requires
        is_win_line(a1, b1, c1),
        is_win_line(a2, b2, c2),
        !(a1 == a2 && b1 == b2 && c1 == c2),
        forall|l: BoardLocation| board.cell(l) == (if l == a1 || l == b1 || l == c1 {
            Some(t)
        } else {
            None::<BoardToken>
        }),
    ensures
        board.line_win(a1, b1, c1),
        !board.line_win(a2, b2, c2),
{
    assert(board.cell(a1) == Some(t));
    assert(board.cell(b1) == Some(t));
    assert(board.cell(c1) == Some(t));
    assert(board.cell(a2) == (if a2 == a1 || a2 == b1 || a2 == c1 {
        Some(t)
    } else {
        None::<BoardToken>
    }));
    assert(board.cell(b2) == (if b2 == a1 || b2 == b1 || b2 == c1 {
        Some(t)
    } else {
        None::<BoardToken>
    }));
    assert(board.cell(c2) == (if c2 == a1 || c2 == b1 || c2 == c1 {
        Some(t)
    } else {
        None::<BoardToken>
    }));
}

/// The character a cell shows: `X` for a cross, `O` for a nought, a space
/// while the cell is free.
pub open spec fn token_text(token: Option<BoardToken>) -> Seq<char> {
    match token {
        Some(BoardToken::Cross) => "X"@,
        Some(BoardToken::Nought) => "O"@,
        None => " "@,
    }
}

/// The textual form of one cell, as the rendered grid shows it.
pub fn display_token(token: &Option<BoardToken>) -> (r: String)
    ensures
        r@ == token_text(*token),
{
    match *token {
        Some(BoardToken::Cross) => "X".to_owned(),
        Some(BoardToken::Nought) => "O".to_owned(),
        None => " ".to_owned(),
    }
}

impl GameBoard {
    /// The canonical textual form of the whole grid: three rows of cells,
    /// separator lines of dashes between the rows, each cell padded to a
    /// fixed width and numbered 1 to 9 for the player's reference.
    pub open spec fn render_text(self) -> Seq<char> {
        "     |     |     \n  "@ + token_text(self.cell(BoardLocation::TopLeft)) + "  |  "@
            + token_text(self.cell(BoardLocation::TopCentre)) + "  |  "@
            + token_text(self.cell(BoardLocation::TopRight))
            + "  \n1    |2    |3    \n-----------------\n     |     |     \n  "@
            + token_text(self.cell(BoardLocation::MiddleLeft)) + "  |  "@
            + token_text(self.cell(BoardLocation::MiddleCentre)) + "  |  "@
            + token_text(self.cell(BoardLocation::MiddleRight))
            + "  \n4    |5    |6    \n-----------------\n     |     |     \n  "@
            + token_text(self.cell(BoardLocation::BottomLeft)) + "  |  "@
            + token_text(self.cell(BoardLocation::BottomCentre)) + "  |  "@
            + token_text(self.cell(BoardLocation::BottomRight))
            + "  \n7    |8    |9    \n\n"@
    }

    /// Renders the grid into its canonical textual form, character for
    /// character as `render_text` spells it.
    pub fn render(&self) -> (s: String)
        ensures
            s@ == self.render_text(),
    {
        let mut s = String::new();
        s.append("     |     |     \n  ");
        let t = display_token(&self.top_left);
        s.append(t.as_str());
        s.append("  |  ");
        let t = display_token(&self.top_centre);
        s.append(t.as_str());
        s.append("  |  ");
        let t = display_token(&self.top_right);
        s.append(t.as_str());
        s.append("  \n1    |2    |3    \n-----------------\n     |     |     \n  ");
        let t = display_token(&self.middle_left);
        s.append(t.as_str());
        s.append("  |  ");
        let t = display_token(&self.middle_centre);
        s.append(t.as_str());
        s.append("  |  ");
        let t = display_token(&self.middle_right);
        s.append(t.as_str());
        s.append("  \n4    |5    |6    \n-----------------\n     |     |     \n  ");
        let t = display_token(&self.bottom_left);
        s.append(t.as_str());
        s.append("  |  ");
        let t = display_token(&self.bottom_centre);
        s.append(t.as_str());
        s.append("  |  ");
        let t = display_token(&self.bottom_right);
        s.append(t.as_str());
        s.append("  \n7    |8    |9    \n\n");
        s
    }
}

impl Default for GameBoard {
    /// A game starts on the empty board.
    fn default() -> (r: GameBoard)
        ensures
            r == GameBoard::empty(),
            forall|l: BoardLocation| r.cell(l) is None,
    {
        let r = GameBoard {
            top_left: None,
            top_centre: None,
            top_right: None,
            middle_left: None,
            middle_centre: None,
            middle_right: None,
            bottom_left: None,
            bottom_centre: None,
            bottom_right: None,
        };
        proof {
            assert forall|l: BoardLocation| r.cell(l) is None by {
                match l {
                    BoardLocation::TopLeft => {}
                    BoardLocation::TopCentre => {}
                    BoardLocation::TopRight => {}
                    BoardLocation::MiddleLeft => {}
                    BoardLocation::MiddleCentre => {}
                    BoardLocation::MiddleRight => {}
                    BoardLocation::BottomLeft => {}
                    BoardLocation::BottomCentre => {}
                    BoardLocation::BottomRight => {}
                }
            }
        }
        r
    }
}

} // verus!
