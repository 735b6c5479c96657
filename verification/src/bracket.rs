//! A bracket: a named, independently owned copy of a tournament's games.
//!
//! Several brackets may be filled out against one tournament; each owns
//! its game array outright, so recording picks in one never touches
//! another. Only `teams`, `score` and `completed` are meant to change
//! after construction; the `round`/`prev`/`next` topology stays as built.

use vstd::prelude::*;

use crate::game::Game;
use crate::tournament::Tournament;
use vstd::string::StringExecFns;

verus! {

/// A named set of 63 pickable games tied to a specific tournament.
#[derive(Debug)]
pub struct Bracket<'b> {
    pub name: String,
    pub tournament: &'b Tournament,
    pub games: Vec<Game>,
}

impl<'b> Bracket<'b> {
    /// Creates a bracket over the given tournament, copying its games
    /// exactly as built.
    pub fn new(name: &str, tournament: &'b Tournament) -> (b: Bracket<'b>)
        ensures
            b.name@ == name@,
            b.tournament == tournament,
            b.games@ == tournament.games@,
    {
        let games = tournament.games.clone();
        proof {
            assert forall|i: int| 0 <= i < games@.len() implies games@[i]
                == tournament.games@[i] by {
                assert(cloned::<Game>(tournament.games@[i], games@[i]));
            }
            assert(games@ =~= tournament.games@);
        }
        Bracket { name: String::from_str(name), tournament, games }
    }
}

} // verus!
