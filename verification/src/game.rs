//! One tournament game: participants, score, and its place in the bracket
//! tree. A game refers to its neighbours by their indices within the
//! tournament's flat array of 63 games, never by reference, so the tree has
//! no ownership cycles.

use vstd::prelude::*;

verus! {

/// One matchup of the bracket.
///
/// `teams` holds indices into the tournament's 64-entry team array;
/// `prev` holds the indices of the two games whose winners feed this game
/// (`None` for first-round games), and `next` the index of the game this
/// game's winner advances to (`None` for the championship game).
#[derive(Debug, Clone, Copy)]
#[verifier::ext_equal]
pub struct Game {
    pub teams: [u8; 2],
    pub score: [u8; 2],
    pub completed: bool,
    pub round: u8,
    pub prev: [Option<u8>; 2],
    pub next: Option<u8>,
}

/// True when the game carries no result yet: no score and not completed.
pub open spec fn game_unplayed(g: Game) -> bool {
    &&& g.score[0] == 0
    &&& g.score[1] == 0
    &&& !g.completed
}

/// True when the game is exactly the blank value produced by
/// [`Game::const_default`].
pub open spec fn game_is_blank(g: Game) -> bool {
    &&& g.teams[0] == 0
    &&& g.teams[1] == 0
    &&& game_unplayed(g)
    &&& g.round == 0
    &&& g.prev[0] is None
    &&& g.prev[1] is None
    &&& g.next is None
}

impl Game {
    /// A blank game: no teams assigned, no score, no links.
    pub fn const_default() -> (g: Game)
        ensures
            game_is_blank(g),
    {
        Game {
            teams: [0, 0],
            score: [0, 0],
            completed: false,
            round: 0,
            prev: [None, None],
            next: None,
        }
    }
}

} // verus!
