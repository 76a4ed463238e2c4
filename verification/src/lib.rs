//! A two-player, turn-based 3x3 board game: the grid with its occupancy and
//! win-line rules, pluggable move sources (scripted, randomly scripted, and
//! interactive), and the controllers that drive a session to its outcome.

pub mod board;
pub mod player;

use vstd::prelude::*;

use crate::board::{BoardLocation, BoardToken, GameBoard};
use crate::player::{InteractivePlayer, ScriptedPlayer};

verus! {

/// Whose move comes next.
#[derive(Clone, Copy, Debug, PartialEq, Eq, Structural)]
pub enum Turn {
    Player1,
    Player2,
}

/// The outcome of a finished session.
#[derive(Clone, Copy, Debug, PartialEq, Eq, Structural)]
pub enum GameResult {
    Player1,
    Player2,
    Tie,
}

/// Why a session could not be set up or driven to an outcome. None of these
/// ever aborts the process: they all come back through the result.
#[derive(Clone, Copy, Debug, PartialEq, Eq, Structural)]
pub enum GameError {
    /// The session was asked to play before both players were registered.
    NotReady,
    /// Both player slots were already filled; a third registration is refused.
    RegistrationFull,
    /// The second player tried to register with the token the first already
    /// holds; the two tokens must differ.
    DuplicateToken,
    /// The move source of the player on turn had no move left to offer.
    PlayerExhausted,
    /// The player on turn proposed a cell that was already occupied. The move
    /// is not applied and the session ends with this error.
    InvalidMove(BoardLocation),
}

/// The other player's turn.
pub open spec fn flip(t: Turn) -> Turn {
    match t {
        Turn::Player1 => Turn::Player2,
        Turn::Player2 => Turn::Player1,
    }
}

/// The terminal outcome a board shows, if any, attributed through player 1's
/// token: the win groups are inspected in a fixed order, and each group
/// shares one cell among its lines, whose token names the winner. A full
/// board without a winning line is a tie; anything else is still undecided.
pub open spec fn board_outcome(b: GameBoard, p1_token: BoardToken) -> Option<GameResult> {
    if b.top_row_win() || b.left_column_win() || b.left_right_diagonal_win() {
        if b.cell(BoardLocation::TopLeft) == Some(p1_token) {
            Some(GameResult::Player1)
        } else {
            Some(GameResult::Player2)
        }
    } else if b.middle_row_win() || b.centre_column_win() || b.right_left_diagonal_win() {
        if b.cell(BoardLocation::MiddleCentre) == Some(p1_token) {
            Some(GameResult::Player1)
        } else {
            Some(GameResult::Player2)
        }
    } else if b.bottom_row_win() || b.right_column_win() {
        if b.cell(BoardLocation::BottomRight) == Some(p1_token) {
            Some(GameResult::Player1)
        } else {
            Some(GameResult::Player2)
        }
    } else if b.full() {
        Some(GameResult::Tie)
    } else {
        None
    }
}

/// How many script entries the player at `cursor` still has to offer.
pub open spec fn script_remaining(script: Seq<BoardLocation>, cursor: nat) -> nat {
    if cursor < script.len() {
        (script.len() - cursor) as nat
    } else {
        0
    }
}

/// A whole scripted session played out from a mid-game state, one move per
/// step: the player on turn offers the script entry under its cursor (or the
/// session ends with `PlayerExhausted`), the move lands on the board (or the
/// session ends with `InvalidMove` and the board untouched), the turn flips,
/// and the first terminal board decides the outcome.
pub open spec fn session_outcome(
    b: GameBoard,
    t1: BoardToken,
    s1: Seq<BoardLocation>,
    c1: nat,
    t2: BoardToken,
    s2: Seq<BoardLocation>,
    c2: nat,
    turn: Turn,
) -> Result<GameResult, GameError>
    decreases script_remaining(s1, c1) + script_remaining(s2, c2),
{
    let tok = if turn is Player1 {
        t1
    } else {
        t2
    };
    let s = if turn is Player1 {
        s1
    } else {
        s2
    };
    let c = if turn is Player1 {
        c1
    } else {
        c2
    };
    if c >= s.len() {
        Err(GameError::PlayerExhausted)
    } else {
        let loc = s[c as int];
        if b.cell(loc) is Some {
            Err(GameError::InvalidMove(loc))
        } else {
            let b2 = b.set_cell(loc, tok);
            match board_outcome(b2, t1) {
                Some(g) => Ok(g),
                None => if turn is Player1 {
                    session_outcome(b2, t1, s1, c1 + 1, t2, s2, c2, Turn::Player2)
                } else {
                    session_outcome(b2, t1, s1, c1, t2, s2, c2 + 1, Turn::Player1)
                },
            }
        }
    }
}

/// A session between two scripted players: the board, the two registered
/// move sources, and the turn cursor.
pub struct Game {
    player1: Option<ScriptedPlayer>,
    player2: Option<ScriptedPlayer>,
    next_turn: Turn,
    board: GameBoard,
}

impl Game {
    pub closed spec fn spec_player1(self) -> Option<ScriptedPlayer> {
        self.player1
    }

    pub closed spec fn spec_player2(self) -> Option<ScriptedPlayer> {
        self.player2
    }

    pub closed spec fn spec_turn(self) -> Turn {
        self.next_turn
    }

    pub closed spec fn spec_board(self) -> GameBoard {
        self.board
    }

    pub open spec fn p1(self) -> ScriptedPlayer {
        self.spec_player1().unwrap()
    }

    pub open spec fn p2(self) -> ScriptedPlayer {
        self.spec_player2().unwrap()
    }

    /// Both slots are filled.
    pub open spec fn players_registered(self) -> bool {
        self.spec_player1() is Some && self.spec_player2() is Some
    }

    /// Both slots are filled and the two tokens differ, as registration
    /// enforces: only then can the session be driven.
    pub open spec fn ready(self) -> bool {
        self.players_registered() && self.p1().token != self.p2().token
    }

    /// The player whose move comes next.
    pub open spec fn cur(self) -> ScriptedPlayer {
        if self.spec_turn() is Player1 {
            self.p1()
        } else {
            self.p2()
        }
    }

    /// The player on turn has no script entry left.
    pub open spec fn cur_exhausted(self) -> bool {
        self.cur().cursor() >= self.cur().script().len()
    }

    /// The script entry the player on turn offers next.
    pub open spec fn cur_next_loc(self) -> BoardLocation {
        self.cur().script()[self.cur().cursor() as int]
    }

    /// The terminal outcome the current board shows, if any.
    pub open spec fn spec_result(self) -> Option<GameResult> {
        board_outcome(self.spec_board(), self.p1().token)
    }

    /// The outcome of playing this session out from its current state.
    pub open spec fn spec_session(self) -> Result<GameResult, GameError> {
        session_outcome(
            self.spec_board(),
            self.p1().token,
            self.p1().script(),
            self.p1().cursor(),
            self.p2().token,
            self.p2().script(),
            self.p2().cursor(),
            self.spec_turn(),
        )
    }

    /// What `play` returns: `NotReady` before both players stand registered,
    /// and the played-out session otherwise.
    pub open spec fn spec_play(self) -> Result<GameResult, GameError> {
        if !self.ready() {
            Err(GameError::NotReady)
        } else {
            self.spec_session()
        }
    }

    /// An empty session: no players, an empty board, player 1 to move first.
    pub fn new() -> (g: Game)
        ensures
            g.spec_player1() is None,
            g.spec_player2() is None,
            g.spec_turn() == Turn::Player1,
            g.spec_board() == GameBoard::empty(),
            forall|l: BoardLocation| g.spec_board().cell(l) is None,
    {
        Game {
            player1: None,
            player2: None,
            next_turn: Turn::Player1,
            board: GameBoard::default(),
        }
    }

    /// Fills the first free slot: the first registration becomes player 1,
    /// the second player 2, provided its token differs from player 1's. A
    /// registration after both slots are filled is refused, as is a second
    /// player carrying the first player's token; a refused registration
    /// changes nothing.
    pub fn register_player(&mut self, player: ScriptedPlayer) -> (r: Result<(), GameError>)
        ensures
            old(self).spec_player1() is None ==> {
                &&& r is Ok
                &&& final(self).spec_player1() == Some(player)
                &&& final(self).spec_player2() == old(self).spec_player2()
            },
            old(self).spec_player1() matches Some(p1) && old(self).spec_player2() is None
                && player.token != p1.token ==> {
                &&& r is Ok
                &&& final(self).spec_player1() == old(self).spec_player1()
                &&& final(self).spec_player2() == Some(player)
            },
            old(self).spec_player1() matches Some(p1) && old(self).spec_player2() is None
                && player.token == p1.token ==> {
                &&& r == Err::<(), GameError>(GameError::DuplicateToken)
                &&& *final(self) == *old(self)
            },
            old(self).players_registered() ==> {
                &&& r == Err::<(), GameError>(GameError::RegistrationFull)
                &&& *final(self) == *old(self)
            },
            final(self).spec_turn() == old(self).spec_turn(),
            final(self).spec_board() == old(self).spec_board(),
    {
        match &self.player1 {
            None => {
                self.player1 = Some(player);
                Ok(())
            }
            Some(p1) => {
                if self.player2.is_some() {
                    Err(GameError::RegistrationFull)
                } else if player.token == p1.token {
                    Err(GameError::DuplicateToken)
                } else {
                    self.player2 = Some(player);
                    Ok(())
                }
            }
        }
    }

    /// The terminal outcome the board shows right now, if any, attributed
    /// through player 1's token; `None` while the game is still undecided.
    pub fn result(&self) -> (r: Option<GameResult>)
        requires
            self.spec_player1() is Some,
        ensures
            r == self.spec_result(),
    {
        let p1_token = match &self.player1 {
            Some(p) => p.token,
            None => vstd::pervasive::unreached(),
        };
        if self.board.is_top_row_win() || self.board.is_left_column_win()
            || self.board.is_left_right_diagonal_win() {
            if self.board.get(BoardLocation::TopLeft).unwrap() == p1_token {
                Some(GameResult::Player1)
            } else {
                Some(GameResult::Player2)
            }
        } else if self.board.is_middle_row_win() || self.board.is_centre_column_win()
            || self.board.is_right_left_diagonal_win() {
            if self.board.get(BoardLocation::MiddleCentre).unwrap() == p1_token {
                Some(GameResult::Player1)
            } else {
                Some(GameResult::Player2)
            }
        } else if self.board.is_bottom_row_win() || self.board.is_right_column_win() {
            if self.board.get(BoardLocation::BottomRight).unwrap() == p1_token {
                Some(GameResult::Player1)
            } else {
                Some(GameResult::Player2)
            }
        } else if self.board.is_full() {
            Some(GameResult::Tie)
        } else {
            None
        }
    }

    /// The board as it stands, for presentation layers.
    pub fn board(&self) -> (b: &GameBoard)
        ensures
            *b == self.spec_board(),
    {
        &self.board
    }

    /// One move of the player on turn: take the next script entry, land it on
    /// the board, flip the turn. The entry is consumed even when the board
    /// refuses it; a refused or missing move leaves board and turn untouched
    /// and surfaces as the session's error.
    fn player_move(&mut self) -> (r: Result<(), GameError>)
        requires
            old(self).players_registered(),
        ensures
            final(self).players_registered(),
            final(self).p1().id == old(self).p1().id,
            final(self).p1().token == old(self).p1().token,
            final(self).p1().script() == old(self).p1().script(),
            final(self).p2().id == old(self).p2().id,
            final(self).p2().token == old(self).p2().token,
            final(self).p2().script() == old(self).p2().script(),
            old(self).cur_exhausted() ==> {
                &&& r == Err::<(), GameError>(GameError::PlayerExhausted)
                &&& *final(self) == *old(self)
            },
            !old(self).cur_exhausted() ==> {
                &&& (old(self).spec_turn() is Player1 ==> final(self).p1().cursor() == old(
                    self,
                ).p1().cursor() + 1 && final(self).p2() == old(self).p2())
                &&& (old(self).spec_turn() is Player2 ==> final(self).p2().cursor() == old(
                    self,
                ).p2().cursor() + 1 && final(self).p1() == old(self).p1())
            },
            !old(self).cur_exhausted() && old(self).spec_board().cell(old(self).cur_next_loc())
                is Some ==> {
                &&& r == Err::<(), GameError>(GameError::InvalidMove(old(self).cur_next_loc()))
                &&& final(self).spec_board() == old(self).spec_board()
                &&& final(self).spec_turn() == old(self).spec_turn()
            },
            !old(self).cur_exhausted() && old(self).spec_board().cell(old(self).cur_next_loc())
                is None ==> {
                &&& r is Ok
                &&& final(self).spec_board() == old(self).spec_board().set_cell(
                    old(self).cur_next_loc(),
                    old(self).cur().token,
                )
                &&& final(self).spec_turn() == flip(old(self).spec_turn())
            },
    {
        let mv = match self.next_turn {
            Turn::Player1 => match &mut self.player1 {
                Some(p) => p.play(),
                None => vstd::pervasive::unreached(),
            },
            Turn::Player2 => match &mut self.player2 {
                Some(p) => p.play(),
                None => vstd::pervasive::unreached(),
            },
        };
        match mv {
            Ok((token, location)) => match self.board.play(location, token) {
                Ok(()) => {
                    self.next_turn = match self.next_turn {
                        Turn::Player1 => Turn::Player2,
                        Turn::Player2 => Turn::Player1,
                    };
                    Ok(())
                },
                Err(_) => Err(GameError::InvalidMove(location)),
            },
            Err(_) => Err(GameError::PlayerExhausted),
        }
    }

    /// Drives the session until a terminal condition: each round the player
    /// on turn supplies a move, the board takes it, the turn flips, and the
    /// board is checked for a win or a full grid. Returns the outcome, or
    /// the first error: `NotReady` before both players are registered,
    /// `PlayerExhausted` when the player on turn has no move left, and
    /// `InvalidMove` when it proposes an occupied cell (the proposal is
    /// rejected, never applied). The whole behaviour is `spec_play`.
    pub fn play(&mut self) -> (r: Result<GameResult, GameError>)
        ensures
            r == old(self).spec_play(),
            r matches Ok(g) ==> final(self).spec_result() == Some(g),
            !old(self).ready() ==> *final(self) == *old(self),
            old(self).ready() ==> {
                &&& final(self).ready()
                &&& final(self).p1().id == old(self).p1().id
                &&& final(self).p1().token == old(self).p1().token
                &&& final(self).p2().id == old(self).p2().id
                &&& final(self).p2().token == old(self).p2().token
            },
    {
        let tokens_distinct = match (&self.player1, &self.player2) {
            (Some(a), Some(b)) => a.token != b.token,
            _ => false,
        };
        if !tokens_distinct {
            return Err(GameError::NotReady);
        }
        loop
            invariant
                self.ready(),
                old(self).ready(),
                self.p1().id == old(self).p1().id,
                self.p1().token == old(self).p1().token,
                self.p2().id == old(self).p2().id,
                self.p2().token == old(self).p2().token,
                self.spec_session() == old(self).spec_session(),
            decreases script_remaining(self.p1().script(), self.p1().cursor())
                + script_remaining(self.p2().script(), self.p2().cursor()),
        {
            match self.player_move() {
                Err(e) => {
                    return Err(e);
                },
                Ok(()) => {
                    if let Some(res) = self.result() {
                        return Ok(res);
                    }
                },
            }
        }
    }
}

/// A session between two interactive players. Their moves are supplied from
/// outside, one location per call of `play_move`; the board, registration and
/// outcome rules are the same as for a scripted session.
pub struct InteractiveGame {
    player1: Option<InteractivePlayer>,
    player2: Option<InteractivePlayer>,
    next_turn: Turn,
    board: GameBoard,
}

impl InteractiveGame {
    pub closed spec fn spec_player1(self) -> Option<InteractivePlayer> {
        self.player1
    }

    pub closed spec fn spec_player2(self) -> Option<InteractivePlayer> {
        self.player2
    }

    pub closed spec fn spec_turn(self) -> Turn {
        self.next_turn
    }

    pub closed spec fn spec_board(self) -> GameBoard {
        self.board
    }

    pub open spec fn p1(self) -> InteractivePlayer {
        self.spec_player1().unwrap()
    }

    pub open spec fn p2(self) -> InteractivePlayer {
        self.spec_player2().unwrap()
    }

    /// Both slots are filled.
    pub open spec fn players_registered(self) -> bool {
        self.spec_player1() is Some && self.spec_player2() is Some
    }

    /// Both slots are filled and the two tokens differ, as registration
    /// enforces: only then does the session accept moves.
    pub open spec fn ready(self) -> bool {
        self.players_registered() && self.p1().token != self.p2().token
    }

    /// The token of the player whose move comes next.
    pub open spec fn cur_token(self) -> BoardToken {
        if self.spec_turn() is Player1 {
            self.p1().token
        } else {
            self.p2().token
        }
    }

    /// The terminal outcome the current board shows, if any.
    pub open spec fn spec_result(self) -> Option<GameResult> {
        board_outcome(self.spec_board(), self.p1().token)
    }

    /// An empty session: no players, an empty board, player 1 to move first.
    pub fn new() -> (g: InteractiveGame)
        ensures
            g.spec_player1() is None,
            g.spec_player2() is None,
            g.spec_turn() == Turn::Player1,
            g.spec_board() == GameBoard::empty(),
            forall|l: BoardLocation| g.spec_board().cell(l) is None,
    {
        InteractiveGame {
            player1: None,
            player2: None,
            next_turn: Turn::Player1,
            board: GameBoard::default(),
        }
    }

    /// Fills the first free slot, under the same rules as a scripted
    /// session: a duplicate token or a third registration is refused and
    /// changes nothing.
    pub fn register_player(&mut self, player: InteractivePlayer) -> (r: Result<(), GameError>)
        ensures
            old(self).spec_player1() is None ==> {
                &&& r is Ok
                &&& final(self).spec_player1() == Some(player)
                &&& final(self).spec_player2() == old(self).spec_player2()
            },
            old(self).spec_player1() matches Some(p1) && old(self).spec_player2() is None
                && player.token != p1.token ==> {
                &&& r is Ok
                &&& final(self).spec_player1() == old(self).spec_player1()
                &&& final(self).spec_player2() == Some(player)
            },
            old(self).spec_player1() matches Some(p1) && old(self).spec_player2() is None
                && player.token == p1.token ==> {
                &&& r == Err::<(), GameError>(GameError::DuplicateToken)
                &&& *final(self) == *old(self)
            },
            old(self).players_registered() ==> {
                &&& r == Err::<(), GameError>(GameError::RegistrationFull)
                &&& *final(self) == *old(self)
            },
            final(self).spec_turn() == old(self).spec_turn(),
            final(self).spec_board() == old(self).spec_board(),
    {
        match &self.player1 {
            None => {
                self.player1 = Some(player);
                Ok(())
            }
            Some(p1) => {
                if self.player2.is_some() {
                    Err(GameError::RegistrationFull)
                } else if player.token == p1.token {
                    Err(GameError::DuplicateToken)
                } else {
                    self.player2 = Some(player);
                    Ok(())
                }
            }
        }
    }

    /// The terminal outcome the board shows right now, if any, attributed
    /// through player 1's token; `None` while the game is still undecided.
    pub fn result(&self) -> (r: Option<GameResult>)
        requires
            self.spec_player1() is Some,
        ensures
            r == self.spec_result(),
    {
        let p1_token = match &self.player1 {
            Some(p) => p.token,
            None => vstd::pervasive::unreached(),
        };
        if self.board.is_top_row_win() || self.board.is_left_column_win()
            || self.board.is_left_right_diagonal_win() {
            if self.board.get(BoardLocation::TopLeft).unwrap() == p1_token {
                Some(GameResult::Player1)
            } else {
                Some(GameResult::Player2)
            }
        } else if self.board.is_middle_row_win() || self.board.is_centre_column_win()
            || self.board.is_right_left_diagonal_win() {
            if self.board.get(BoardLocation::MiddleCentre).unwrap() == p1_token {
                Some(GameResult::Player1)
            } else {
                Some(GameResult::Player2)
            }
        } else if self.board.is_bottom_row_win() || self.board.is_right_column_win() {
            if self.board.get(BoardLocation::BottomRight).unwrap() == p1_token {
                Some(GameResult::Player1)
            } else {
                Some(GameResult::Player2)
            }
        } else if self.board.is_full() {
            Some(GameResult::Tie)
        } else {
            None
        }
    }

    /// The board as it stands, for presentation layers.
    pub fn board(&self) -> (b: &GameBoard)
        ensures
            *b == self.spec_board(),
    {
        &self.board
    }

    /// Whose move the session expects next.
    pub fn turn(&self) -> (t: Turn)
        ensures
            t == self.spec_turn(),
    {
        self.next_turn
    }

    /// One externally supplied move for the player on turn: the location
    /// lands on the board with that player's token, the turn flips, and the
    /// board's terminal outcome, if any, comes back. An occupied cell is
    /// refused with `InvalidMove` and nothing changes; before both players
    /// are registered every move is refused with `NotReady`.
    pub fn play_move(&mut self, location: BoardLocation) -> (r: Result<
        Option<GameResult>,
        GameError,
    >)
        ensures
            !old(self).ready() ==> {
                &&& r == Err::<Option<GameResult>, GameError>(GameError::NotReady)
                &&& *final(self) == *old(self)
            },
            old(self).ready() && old(self).spec_board().cell(location) is Some ==> {
                &&& r == Err::<Option<GameResult>, GameError>(GameError::InvalidMove(location))
                &&& *final(self) == *old(self)
            },
            old(self).ready() && old(self).spec_board().cell(location) is None ==> {
                &&& final(self).spec_board() == old(self).spec_board().set_cell(
                    location,
                    old(self).cur_token(),
                )
                &&& final(self).spec_turn() == flip(old(self).spec_turn())
                &&& final(self).spec_player1() == old(self).spec_player1()
                &&& final(self).spec_player2() == old(self).spec_player2()
                &&& r == Ok::<Option<GameResult>, GameError>(final(self).spec_result())
            },
    {
        let tokens_distinct = match (&self.player1, &self.player2) {
            (Some(a), Some(b)) => a.token != b.token,
            _ => false,
        };
        if !tokens_distinct {
            return Err(GameError::NotReady);
        }
        let token = match self.next_turn {
            Turn::Player1 => match &self.player1 {
                Some(p) => p.token,
                None => vstd::pervasive::unreached(),
            },
            Turn::Player2 => match &self.player2 {
                Some(p) => p.token,
                None => vstd::pervasive::unreached(),
            },
        };
        match self.board.play(location, token) {
            Ok(()) => {
                self.next_turn = match self.next_turn {
                    Turn::Player1 => Turn::Player2,
                    Turn::Player2 => Turn::Player1,
                };
                Ok(self.result())
            },
            Err(_) => Err(GameError::InvalidMove(location)),
        }
    }
}

impl Default for InteractiveGame {
    /// The same empty session `new` builds.
    fn default() -> (g: InteractiveGame)
        ensures
            g.spec_player1() is None,
            g.spec_player2() is None,
            g.spec_turn() == Turn::Player1,
            g.spec_board() == GameBoard::empty(),
            forall|l: BoardLocation| g.spec_board().cell(l) is None,
    {
        InteractiveGame::new()
    }
}

impl Default for Game {
    /// The same empty session `new` builds.
    fn default() -> (g: Game)
        ensures
            g.spec_player1() is None,
            g.spec_player2() is None,
            g.spec_turn() == Turn::Player1,
            g.spec_board() == GameBoard::empty(),
            forall|l: BoardLocation| g.spec_board().cell(l) is None,
    {
        Game::new()
    }
}

} // verus!
