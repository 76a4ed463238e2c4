//! Move sources: a scripted player replays a fixed list of locations, a
//! randomly scripted player shuffles all nine locations once at construction,
//! and an interactive player carries only an identity while an outer layer
//! supplies its moves.

use vstd::prelude::*;

use rand::seq::SliceRandom;

use crate::board::{BoardLocation, BoardToken};

verus! {

#[verifier::external_type_specification]
#[verifier::external_body]
pub struct ExThreadRng(rand::rngs::ThreadRng);

/// Relies on rand::thread_rng: a handle to the thread-local random number
/// generator, seeded by the operating system.
#[verifier::external_body]
fn fresh_rng() -> rand::rngs::ThreadRng {
    rand::thread_rng()
}

/// Relies on rand::seq::SliceRandom::shuffle: a uniformly random Fisher-Yates
/// reordering in place, built from swaps alone, so the list afterwards holds
/// exactly the elements it held before. Which order comes out is up to the
/// generator, so nothing beyond that is promised.
#[verifier::external_body]
fn shuffle_locations(list: &mut Vec<BoardLocation>, rng: &mut rand::rngs::ThreadRng)
    ensures
        final(list)@.to_multiset() == old(list)@.to_multiset(),
{
    list.shuffle(rng)
}

/// Why a move source could not produce a move.
#[derive(Clone, Copy, Debug, PartialEq, Eq, Structural)]
pub enum PlayerError {
    /// A scripted source ran past the end of its list.
    NoMoreMoves,
    /// An externally supplied location selector was malformed or out of range.
    InvalidLocation,
}

/// A move source that replays a fixed list of locations in order.
pub struct ScriptedPlayer {
    pub id: String,
    pub token: BoardToken,
    pub play_list: Vec<BoardLocation>,
    pub play_index: usize,
}

/// A move source whose locations are supplied from outside, one query per
/// move; it keeps no state beyond its identity.
pub struct InteractivePlayer {
    pub id: String,
    pub token: BoardToken,
}

impl ScriptedPlayer {
    /// The fixed list of locations this player will propose, in order.
    pub open spec fn script(self) -> Seq<BoardLocation> {
        self.play_list@
    }

    /// How many entries of the script have already been played. It only ever
    /// grows; it never resets.
    pub open spec fn cursor(self) -> nat {
        self.play_index as nat
    }

    pub fn new(id: &str, token: BoardToken, play_list: &[BoardLocation]) -> (p: ScriptedPlayer)
        ensures
            p.id@ == id@,
            p.token == token,
            p.script() == play_list@,
            p.cursor() == 0,
    {
        let mut list: Vec<BoardLocation> = Vec::new();
        let mut i: usize = 0;
        while i < play_list.len()
            invariant
                i <= play_list.len(),
                list@ == play_list@.take(i as int),
            decreases play_list.len() - i,
        {
            list.push(play_list[i]);
            proof {
                assert(play_list@.take(i + 1 as int) == play_list@.take(i as int).push(play_list@[i as int]));
            }
            i = i + 1;
        }
        proof {
            assert(play_list@.take(play_list@.len() as int) == play_list@);
        }
        ScriptedPlayer { id: id.to_owned(), token, play_list: list, play_index: 0 }
    }

    /// A player whose script is a fresh uniformly random permutation of all
    /// nine locations, drawn once here: every location appears in the script
    /// exactly once, and the order never changes again afterwards.
    pub fn new_random(id: &str, token: BoardToken) -> (p: ScriptedPlayer)
        ensures
            p.id@ == id@,
            p.token == token,
            p.cursor() == 0,
            p.script().len() == 9,
            forall|l: BoardLocation| p.script().to_multiset().count(l) == 1,
    {
        let mut list: Vec<BoardLocation> = Vec::new();
        list.push(BoardLocation::TopLeft);
        list.push(BoardLocation::TopCentre);
        list.push(BoardLocation::TopRight);
        list.push(BoardLocation::MiddleLeft);
        list.push(BoardLocation::MiddleCentre);
        list.push(BoardLocation::MiddleRight);
        list.push(BoardLocation::BottomLeft);
        list.push(BoardLocation::BottomCentre);
        list.push(BoardLocation::BottomRight);
        proof {
            broadcast use vstd::seq_lib::group_to_multiset_ensures;
            broadcast use vstd::multiset::group_multiset_axioms;

            assert forall|l: BoardLocation| list@.to_multiset().count(l) == 1 by {
                match l {
                    BoardLocation::TopLeft => {}
                    BoardLocation::TopCentre => {}
                    BoardLocation::TopRight => {}
                    BoardLocation::MiddleLeft => {}
                    BoardLocation::MiddleCentre => {}
                    BoardLocation::MiddleRight => {}
                    BoardLocation::BottomLeft => {}
                    BoardLocation::BottomCentre => {}
                    BoardLocation::BottomRight => {}
                }
            }
        }
        let ghost unshuffled = list@;
        let mut rng = fresh_rng();
        shuffle_locations(&mut list, &mut rng);
        proof {
            broadcast use vstd::seq_lib::group_to_multiset_ensures;

            assert(list@.len() == list@.to_multiset().len());
            assert(unshuffled.len() == unshuffled.to_multiset().len());
            assert(list@.len() == 9);
        }
        Self::new(id, token, list.as_slice())
    }

    /// The next scripted move: the pair of this player's token and the script
    /// entry under the cursor, advancing the cursor; `NoMoreMoves` once the
    /// script is exhausted, leaving the player untouched.
    pub fn play(&mut self) -> (r: Result<(BoardToken, BoardLocation), PlayerError>)
        ensures
            final(self).id == old(self).id,
            final(self).token == old(self).token,
            final(self).script() == old(self).script(),
            old(self).cursor() < old(self).script().len() ==> {
                &&& r == Ok::<(BoardToken, BoardLocation), PlayerError>(
                    (old(self).token, old(self).script()[old(self).cursor() as int]),
                )
                &&& final(self).cursor() == old(self).cursor() + 1
            },
            old(self).cursor() >= old(self).script().len() ==> {
                &&& r == Err::<(BoardToken, BoardLocation), PlayerError>(PlayerError::NoMoreMoves)
                &&& *final(self) == *old(self)
            },
    {
        if self.play_index >= self.play_list.len() {
            Err(PlayerError::NoMoreMoves)
        } else {
            let ret = (self.token, self.play_list[self.play_index]);
            self.play_index = self.play_index + 1;
            Ok(ret)
        }
    }
}

impl InteractivePlayer {
    pub fn new(id: &str, token: BoardToken) -> (p: InteractivePlayer)
        ensures
            p.id@ == id@,
            p.token == token,
    {
        InteractivePlayer { id: id.to_owned(), token }
    }
}

/// The location an externally supplied selector denotes: selectors 1 through
/// 9 name the cells in row-major reading order, anything else names no cell.
pub open spec fn spec_location_for_selector(n: u32) -> Option<BoardLocation> {
    if n == 1 {
        Some(BoardLocation::TopLeft)
    } else if n == 2 {
        Some(BoardLocation::TopCentre)
    } else if n == 3 {
        Some(BoardLocation::TopRight)
    } else if n == 4 {
        Some(BoardLocation::MiddleLeft)
    } else if n == 5 {
        Some(BoardLocation::MiddleCentre)
    } else if n == 6 {
        Some(BoardLocation::MiddleRight)
    } else if n == 7 {
        Some(BoardLocation::BottomLeft)
    } else if n == 8 {
        Some(BoardLocation::BottomCentre)
    } else if n == 9 {
        Some(BoardLocation::BottomRight)
    } else {
        None
    }
}

/// Maps a selector in the closed range 1 to 9 to its cell, row-major; refuses
/// everything else with `InvalidLocation`.
pub fn location_for_selector(n: u32) -> (r: Result<BoardLocation, PlayerError>)
    ensures
        1 <= n <= 9 ==> r == Ok::<BoardLocation, PlayerError>(spec_location_for_selector(n).unwrap()),
        !(1 <= n <= 9) ==> r == Err::<BoardLocation, PlayerError>(PlayerError::InvalidLocation),
{
    match n {
        1 => Ok(BoardLocation::TopLeft),
        2 => Ok(BoardLocation::TopCentre),
        3 => Ok(BoardLocation::TopRight),
        4 => Ok(BoardLocation::MiddleLeft),
        5 => Ok(BoardLocation::MiddleCentre),
        6 => Ok(BoardLocation::MiddleRight),
        7 => Ok(BoardLocation::BottomLeft),
        8 => Ok(BoardLocation::BottomCentre),
        9 => Ok(BoardLocation::BottomRight),
        _ => Err(PlayerError::InvalidLocation),
    }
}

} // verus!
