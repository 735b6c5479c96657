//! One round of the tournament, held as an ordered list of games.
//!
//! Round `N` (0..=5) contains `2^(5-N)` games. The order of the games
//! within a round is significant: it encodes the bracket structure, the
//! winners of a round's games 0 and 1 meeting in the next round, and so on.

use vstd::prelude::*;

use crate::game::Game;
use crate::game::game_unplayed;
use crate::tournament::round_games;

verus! {

/// A game of a freshly created round: blank except for its round number.
pub open spec fn fresh_round_game(g: Game, num: u8) -> bool {
    &&& g.teams[0] == 0
    &&& g.teams[1] == 0
    &&& game_unplayed(g)
    &&& g.round == num
    &&& g.prev[0] is None
    &&& g.prev[1] is None
    &&& g.next is None
}

/// A round of the tournament: a descriptive name (say, a regional
/// semifinal), the round number 0..=5, and its ordered games.
#[derive(Debug)]
pub struct Round {
    pub name: String,
    pub num: u8,
    pub games: Vec<Game>,
}

impl Round {
    /// Creates round `num` with its `2^(5-num)` games initialized but
    /// without teams assigned; those are filled in when picks are made.
    pub fn new(name: String, num: u8) -> (r: Round)
        requires
            num <= 5,
        ensures
            r.name == name,
            r.num == num,
            r.games@.len() == round_games(num as int),
            forall|i: int|
                0 <= i < r.games@.len() ==> fresh_round_game(#[trigger] r.games@[i], num),
    {
        let count: usize = match num {
            0 => 32,
            1 => 16,
            2 => 8,
            3 => 4,
            4 => 2,
            _ => 1,
        };
        assert(count == round_games(num as int));
        let mut game_vec: Vec<Game> = Vec::new();
        let mut i: usize = 0;
        while i < count
            invariant
                game_vec@.len() == i,
                i <= count,
                forall|k: int| 0 <= k < i ==> fresh_round_game(#[trigger] game_vec@[k], num),
            decreases count - i,
        {
            let mut g: Game = Game::const_default();
            g.round = num;
            game_vec.push(g);
            i += 1;
        }
        Round { name, num, games: game_vec }
    }
}

} // verus!
