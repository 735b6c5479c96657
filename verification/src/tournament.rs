//! The tournament: 64 teams and the 63-game bracket tree that links them.
//!
//! The 63 games live in one flat array, addressed round by round:
//! round 0 occupies indices 0..=31, round 1 indices 32..=47, then 48..=55,
//! 56..=59, 60..=61, and the championship game at index 62. Every game's
//! neighbours are computable in closed form from its index alone, which is
//! what the spec functions below state and the builder methods establish.

use vstd::prelude::*;

use crate::errors::RosterError;
use crate::game::Game;
use crate::game::game_is_blank;
use crate::game::game_unplayed;
use crate::team::Team;
use crate::tournament_data::get_tournament_data;
use crate::tournament_data::roster_valid;
use crate::tournament_data::spec_known_year;
use crate::tournament_data::stored_roster_2023;
use vstd::string::StringExecFns;

verus! {

/// Flat index of the first game of round `r`; rounds run 0..=5 and
/// round `r` holds `2^(5-r)` games, so the starts are
/// 0, 32, 48, 56, 60, 62, with 63 closing the last round.
pub open spec fn round_start(r: int) -> int {
    if r <= 0 {
        0
    } else if r == 1 {
        32
    } else if r == 2 {
        48
    } else if r == 3 {
        56
    } else if r == 4 {
        60
    } else if r == 5 {
        62
    } else {
        63
    }
}

/// Number of games played in round `r`.
pub open spec fn round_games(r: int) -> int {
    round_start(r + 1) - round_start(r)
}

/// The round of the game at flat index `i` (0 <= i < 63).
pub open spec fn round_of(i: int) -> int {
    if i < 32 {
        0
    } else if i < 48 {
        1
    } else if i < 56 {
        2
    } else if i < 60 {
        3
    } else if i < 62 {
        4
    } else {
        5
    }
}

/// The game the winner of game `i` advances to: `None` only for the
/// championship game at index 62.
pub open spec fn next_of(i: int) -> Option<u8> {
    if i == 62 {
        None
    } else {
        Some((round_start(round_of(i) + 1) + (i - round_start(round_of(i))) / 2) as u8)
    }
}

/// The game whose winner fills slot `k` (0 or 1) of game `i`: `None` for
/// every first-round game.
pub open spec fn prev_of(i: int, k: int) -> Option<u8> {
    if i < 32 {
        None
    } else {
        Some((round_start(round_of(i) - 1) + 2 * (i - round_start(round_of(i))) + k) as u8)
    }
}

/// Game `g`, sitting at flat index `i`, carries exactly the round number
/// and the backward and forward links its index demands.
pub open spec fn game_linked(g: Game, i: int) -> bool {
    &&& g.round == round_of(i)
    &&& g.prev[0] == prev_of(i, 0)
    &&& g.prev[1] == prev_of(i, 1)
    &&& g.next == next_of(i)
}

/// The canonical first-round seed pairing table, read as eight
/// consecutive pairs: entries `2k` and `2k+1` are the home and away seeds
/// of a region's `k`-th first-round game (1 vs 16, 8 vs 9, 5 vs 12, ...).
pub open spec fn matchup_seed(k: int) -> int {
    seq![1int, 16, 8, 9, 5, 12, 4, 13, 6, 11, 3, 14, 7, 10, 2, 15][k]
}

/// Roster position of the home team of first-round game `i` (0 <= i < 32):
/// the team of the table's home seed within region block `i / 8`.
pub open spec fn home_slot(i: int) -> int {
    16 * (i / 8) + matchup_seed(2 * (i % 8)) - 1
}

/// Roster position of the away team of first-round game `i` (0 <= i < 32).
pub open spec fn away_slot(i: int) -> int {
    16 * (i / 8) + matchup_seed(2 * (i % 8) + 1) - 1
}

/// A freshly built 63-game bracket: every game linked according to its
/// index, no game played yet, the first round paired by the seed table,
/// and every later game still without teams.
pub open spec fn bracket_built(s: Seq<Game>) -> bool {
    &&& s.len() == 63
    &&& forall|i: int| 0 <= i < 63 ==> game_linked(#[trigger] s[i], i)
    &&& forall|i: int| 0 <= i < 63 ==> game_unplayed(#[trigger] s[i])
    &&& forall|i: int|
        0 <= i < 32 ==> (#[trigger] s[i]).teams[0] == home_slot(i) && s[i].teams[1] == away_slot(i)
    &&& forall|i: int| 32 <= i < 63 ==> (#[trigger] s[i]).teams[0] == 0 && s[i].teams[1] == 0
}

/// Exec lookup of the first-round seed pairing table.
fn region_matchup(k: usize) -> (r: usize)
    requires
        k < 16,
    ensures
        r == matchup_seed(k as int),
        1 <= r <= 16,
{
    match k {
        0 => 1,
        1 => 16,
        2 => 8,
        3 => 9,
        4 => 5,
        5 => 12,
        6 => 4,
        7 => 13,
        8 => 6,
        9 => 11,
        10 => 3,
        11 => 14,
        12 => 7,
        13 => 10,
        14 => 2,
        _ => 15,
    }
}

/// A tournament: its name, the 64 teams in roster order (four region
/// blocks of sixteen, each seeded 1..=16), and the flat array of 63
/// games wired into the bracket tree.
#[derive(Debug)]
pub struct Tournament {
    pub name: String,
    pub teams: Vec<Team>,
    pub games: Vec<Game>,
}

impl Tournament {
    /// Sets round number and the prev/next links of every game from the
    /// closed-form index scheme, and clears scores; team assignments are
    /// left untouched.
    fn init_round_prev_next(&mut self)
        requires
            old(self).games@.len() == 63,
        ensures
            final(self).name == old(self).name,
            final(self).teams == old(self).teams,
            final(self).games@.len() == 63,
            forall|i: int| 0 <= i < 63 ==> game_linked(#[trigger] final(self).games@[i], i),
            forall|i: int| 0 <= i < 63 ==> game_unplayed(#[trigger] final(self).games@[i]),
            forall|i: int|
                0 <= i < 63 ==> (#[trigger] final(self).games@[i]).teams
                    == old(self).games@[i].teams,
    {
        let mut gindex: usize = 0;
        while gindex < 63
            invariant
                self.games@.len() == 63,
                gindex <= 63,
                self.name == old(self).name,
                self.teams == old(self).teams,
                forall|i: int| 0 <= i < gindex ==> game_linked(#[trigger] self.games@[i], i),
                forall|i: int| 0 <= i < gindex ==> game_unplayed(#[trigger] self.games@[i]),
                forall|i: int|
                    0 <= i < 63 ==> (#[trigger] self.games@[i]).teams == old(self).games@[i].teams,
                forall|i: int|
                    gindex <= i < 63 ==> #[trigger] self.games@[i] == old(self).games@[i],
            decreases 63 - gindex,
        {
            let mut g: Game = self.games[gindex];
            g.score = [0, 0];
            g.completed = false;
            // round 0: 64 teams playing 32 games, indices 0..=31
            if gindex < 32 {
                g.round = 0;
                g.prev = [None, None];
                g.next = Some((32 + gindex / 2) as u8);
            }
            // round 1: 32 teams playing 16 games, indices 32..=47
            else if gindex < 48 {
                g.round = 1;
                let p: u8 = (2 * (gindex - 32)) as u8;
                g.prev = [Some(p), Some(p + 1)];
                g.next = Some((48 + (gindex - 32) / 2) as u8);
            }
            // round 2: 16 teams playing 8 games, indices 48..=55
            else if gindex < 56 {
                g.round = 2;
                let p: u8 = (32 + 2 * (gindex - 48)) as u8;
                g.prev = [Some(p), Some(p + 1)];
                g.next = Some((56 + (gindex - 48) / 2) as u8);
            }
            // round 3: 8 teams playing 4 games, indices 56..=59
            else if gindex < 60 {
                g.round = 3;
                let p: u8 = (48 + 2 * (gindex - 56)) as u8;
                g.prev = [Some(p), Some(p + 1)];
                g.next = Some((60 + (gindex - 56) / 2) as u8);
            }
            // round 4: 4 teams playing 2 games, indices 60..=61
            else if gindex < 62 {
                g.round = 4;
                let p: u8 = (56 + 2 * (gindex - 60)) as u8;
                g.prev = [Some(p), Some(p + 1)];
                g.next = Some((62 + (gindex - 60) / 2) as u8);
            }
            // round 5: the championship game at index 62
            else {
                g.round = 5;
                let p: u8 = (60 + 2 * (gindex - 62)) as u8;
                g.prev = [Some(p), Some(p + 1)];
                g.next = None;
            }
            assert(game_linked(g, gindex as int));
            self.games[gindex] = g;
            gindex += 1;
        }
    }

    /// Assigns the participants of the 32 first-round games from the seed
    /// pairing table: game `i` belongs to region block `i / 8` and pairs
    /// the block's teams at the table's home and away seeds. Games from
    /// round 1 on are left untouched.
    fn init_first_round_games(&mut self)
        requires
            old(self).games@.len() == 63,
        ensures
            final(self).name == old(self).name,
            final(self).teams == old(self).teams,
            final(self).games@.len() == 63,
            forall|i: int|
                0 <= i < 32 ==> (#[trigger] final(self).games@[i]).teams[0] == home_slot(i)
                    && final(self).games@[i].teams[1] == away_slot(i),
            forall|i: int|
                0 <= i < 32 ==> (#[trigger] final(self).games@[i]).score
                    == old(self).games@[i].score && final(self).games@[i].completed
                    == old(self).games@[i].completed && final(self).games@[i].round
                    == old(self).games@[i].round && final(self).games@[i].prev
                    == old(self).games@[i].prev && final(self).games@[i].next
                    == old(self).games@[i].next,
            forall|i: int| 32 <= i < 63 ==> #[trigger] final(self).games@[i] == old(self).games@[i],
    {
        let mut gindex: usize = 0;
        while gindex < 32
            invariant
                self.games@.len() == 63,
                gindex <= 32,
                self.name == old(self).name,
                self.teams == old(self).teams,
                forall|i: int|
                    0 <= i < gindex ==> (#[trigger] self.games@[i]).teams[0] == home_slot(i)
                        && self.games@[i].teams[1] == away_slot(i),
                forall|i: int|
                    0 <= i < gindex ==> (#[trigger] self.games@[i]).score
                        == old(self).games@[i].score && self.games@[i].completed
                        == old(self).games@[i].completed && self.games@[i].round
                        == old(self).games@[i].round && self.games@[i].prev
                        == old(self).games@[i].prev && self.games@[i].next
                        == old(self).games@[i].next,
                forall|i: int| gindex <= i < 63 ==> #[trigger] self.games@[i] == old(self).games@[i],
            decreases 32 - gindex,
        {
            // region blocks hold 8 first-round games each
            let region_num: usize = gindex / 8;
            let reg_gindex: usize = gindex % 8;
            // the table pairs the k-th game's home and away seeds
            let home_seed: usize = region_matchup(2 * reg_gindex);
            let away_seed: usize = region_matchup(2 * reg_gindex + 1);
            // a region's seed s sits at roster position 16 * region + (s - 1)
            let tindex_home: usize = region_num * 16 + (home_seed - 1);
            let tindex_away: usize = region_num * 16 + (away_seed - 1);
            let mut g: Game = self.games[gindex];
            g.teams = [tindex_home as u8, tindex_away as u8];
            assert(g.teams[0] == home_slot(gindex as int));
            assert(g.teams[1] == away_slot(gindex as int));
            self.games[gindex] = g;
            gindex += 1;
        }
    }

    /// Wires all 63 games: round numbers and prev/next links first, then
    /// the first-round team assignments.
    fn init_games(&mut self)
        requires
            old(self).games@.len() == 63,
            forall|i: int|
                32 <= i < 63 ==> (#[trigger] old(self).games@[i]).teams[0] == 0
                    && old(self).games@[i].teams[1] == 0,
        ensures
            final(self).name == old(self).name,
            final(self).teams == old(self).teams,
            bracket_built(final(self).games@),
    {
        self.init_round_prev_next();
        self.init_first_round_games();
    }

    /// Fetches the roster stored under this tournament's name and installs
    /// it as the team list; on failure the tournament is left unchanged.
    fn load_teams(&mut self) -> (r: Result<(), RosterError>)
        ensures
            final(self).name == old(self).name,
            final(self).games == old(self).games,
            r is Ok <==> old(self).name@ == spec_known_year(),
            r is Ok ==> stored_roster_2023(final(self).teams@) && roster_valid(
                final(self).teams@,
            ),
            r matches Err(e) ==> e == RosterError::RosterNotFound && final(self).teams == old(
                self,
            ).teams,
    {
        match get_tournament_data(self.name.as_str()) {
            Ok(data) => {
                self.teams = data;
                Ok(())
            },
            Err(e) => Err(e),
        }
    }

    /// Builds the tournament for the given year from the built-in data
    /// store: the known year yields its stored roster with the 63-game
    /// bracket tree wired over it; an unknown year yields `RosterNotFound`.
    pub fn new(year: &str) -> (r: Result<Tournament, RosterError>)
        ensures
            r is Ok <==> year@ == spec_known_year(),
            r matches Ok(t) ==> t.name@ == year@ && stored_roster_2023(t.teams@)
                && roster_valid(t.teams@) && bracket_built(t.games@),
            r matches Err(e) ==> e == RosterError::RosterNotFound,
    {
        let mut t = Tournament {
            name: String::from_str(year),
            teams: Vec::new(),
            games: blank_games(),
        };
        match t.load_teams() {
            Ok(()) => {
                t.init_games();
                Ok(t)
            },
            Err(e) => Err(e),
        }
    }

    /// Builds the tournament directly from a caller-supplied roster that
    /// already passed validation, wiring the full bracket tree. This is
    /// the injection point for roster sources other than the built-in
    /// data store.
    pub fn from_roster(name: &str, roster: Vec<Team>) -> (t: Tournament)
        requires
            roster_valid(roster@),
        ensures
            t.name@ == name@,
            t.teams@ == roster@,
            bracket_built(t.games@),
    {
        let mut t = Tournament {
            name: String::from_str(name),
            teams: roster,
            games: blank_games(),
        };
        t.init_games();
        t
    }
}

/// A built bracket has exactly 63 games, and round `r` consists of
/// exactly `round_games(r)` of them — the counts 32, 16, 8, 4, 2, 1 for
/// rounds 0 through 5.
pub proof fn lemma_round_counts(s: Seq<Game>, r: int)
    requires
        bracket_built(s),
        0 <= r < 6,
    ensures
        s.len() == 63,
        Set::new(|i: int| 0 <= i < 63 && s[i].round == r).finite(),
        Set::new(|i: int| 0 <= i < 63 && s[i].round == r).len() == round_games(r),
        round_games(r) == seq![32int, 16, 8, 4, 2, 1][r],
{
    let games_in_round = Set::new(|i: int| 0 <= i < 63 && s[i].round == r);
    assert forall|i: int| 0 <= i < 63 implies (s[i].round == r <==> round_start(r) <= i
        < round_start(r + 1)) by {
        assert(game_linked(s[i], i));
    }
    assert(games_in_round =~= vstd::set_lib::set_int_range(round_start(r), round_start(r + 1)));
    vstd::set_lib::lemma_int_range(round_start(r), round_start(r + 1));
}

/// The links of a built bracket are bidirectionally consistent: for every
/// game `i` beyond the first round, `prev[0]` and `prev[1]` name two
/// distinct games, and a game `j` feeds `i` (that is, `j.next == i`)
/// exactly when `i` lists `j` in its `prev` slots.
pub proof fn lemma_prev_next_consistent(s: Seq<Game>, i: int, j: int)
    requires
        bracket_built(s),
        32 <= i < 63,
        0 <= j < 63,
    ensures
        s[i].prev[0] is Some,
        s[i].prev[1] is Some,
        s[i].prev[0] != s[i].prev[1],
        s[j].next == Some(i as u8) <==> (s[i].prev[0] == Some(j as u8) || s[i].prev[1] == Some(
            j as u8,
        )),
{
    assert(game_linked(s[i], i));
    assert(game_linked(s[j], j));
}

/// In a built bracket, the championship game (index 62) advances nowhere,
/// and no first-round game is fed by an earlier one.
pub proof fn lemma_championship_and_first_round(s: Seq<Game>)
    requires
        bracket_built(s),
    ensures
        s[62].next is None,
        forall|i: int| 0 <= i < 32 ==> (#[trigger] s[i]).prev[0] is None && s[i].prev[1] is None,
{
    assert(game_linked(s[62], 62));
    assert forall|i: int| 0 <= i < 32 implies (#[trigger] s[i]).prev[0] is None && s[i].prev[1]
        is None by {
        assert(game_linked(s[i], i));
    }
}

/// The first-round seed pairing is fixed for every region of every valid
/// roster: a region block's local game 0 pairs its seed 1 against its
/// seed 16, and local game 1 its seed 8 against its seed 9, all four
/// teams drawn from that block's region.
pub proof fn lemma_seed_pairing(games: Seq<Game>, teams: Seq<Team>, r: int)
    requires
        bracket_built(games),
        roster_valid(teams),
        0 <= r < 4,
    ensures
        teams[games[8 * r].teams[0] as int].seed == 1,
        teams[games[8 * r].teams[1] as int].seed == 16,
        teams[games[8 * r + 1].teams[0] as int].seed == 8,
        teams[games[8 * r + 1].teams[1] as int].seed == 9,
        teams[games[8 * r].teams[0] as int].region@ == teams[16 * r].region@,
        teams[games[8 * r].teams[1] as int].region@ == teams[16 * r].region@,
        teams[games[8 * r + 1].teams[0] as int].region@ == teams[16 * r].region@,
        teams[games[8 * r + 1].teams[1] as int].region@ == teams[16 * r].region@,
{
    assert(games[8 * r].teams[0] == home_slot(8 * r));
    assert(games[8 * r].teams[1] == away_slot(8 * r));
    assert(games[8 * r + 1].teams[0] == home_slot(8 * r + 1));
    assert(games[8 * r + 1].teams[1] == away_slot(8 * r + 1));
    assert(home_slot(8 * r) == 16 * r) by {
        assert((8 * r) / 8 == r) by (nonlinear_arith);
        assert((8 * r) % 8 == 0) by (nonlinear_arith);
    }
    assert(away_slot(8 * r) == 16 * r + 15) by {
        assert((8 * r) / 8 == r) by (nonlinear_arith);
        assert((8 * r) % 8 == 0) by (nonlinear_arith);
    }
    assert(home_slot(8 * r + 1) == 16 * r + 7) by {
        assert((8 * r + 1) / 8 == r) by (nonlinear_arith);
        assert((8 * r + 1) % 8 == 1) by (nonlinear_arith);
    }
    assert(away_slot(8 * r + 1) == 16 * r + 8) by {
        assert((8 * r + 1) / 8 == r) by (nonlinear_arith);
        assert((8 * r + 1) % 8 == 1) by (nonlinear_arith);
    }
    assert forall|idx: int|
        16 * r <= idx < 16 * r + 16 implies (#[trigger] teams[idx]).seed == idx - 16 * r + 1
            && teams[idx].region@ == teams[16 * r].region@ by {
        assert(crate::tournament_data::entry_ok(teams, idx));
        assert(idx % 16 == idx - 16 * r) by (nonlinear_arith)
            requires
                0 <= r,
                16 * r <= idx < 16 * r + 16,
        ;
        assert(crate::tournament_data::block_start(idx) == 16 * r);
        assert(crate::tournament_data::entry_ok(teams, 16 * r));
    }
}

/// Bracket construction is deterministic: any two built brackets have
/// identical topology and identical first-round team assignments — they
/// are equal game for game.
pub proof fn lemma_build_deterministic(s1: Seq<Game>, s2: Seq<Game>)
    requires
        bracket_built(s1),
        bracket_built(s2),
    ensures
        s1 == s2,
{
    assert forall|i: int| 0 <= i < 63 implies s1[i] == s2[i] by {
        assert(game_linked(s1[i], i));
        assert(game_linked(s2[i], i));
        assert(game_unplayed(s1[i]));
        assert(game_unplayed(s2[i]));
        assert(s1[i].teams =~= s2[i].teams);
        assert(s1[i].score =~= s2[i].score);
        assert(s1[i].prev =~= s2[i].prev);
        assert(s1[i] =~= s2[i]);
    }
    assert(s1 =~= s2);
}

/// 63 blank games, ready to be wired.
fn blank_games() -> (v: Vec<Game>)
    ensures
        v@.len() == 63,
        forall|i: int| 0 <= i < 63 ==> game_is_blank(#[trigger] v@[i]),
{
    let mut v: Vec<Game> = Vec::new();
    let mut i: usize = 0;
    while i < 63
        invariant
            v@.len() == i,
            i <= 63,
            forall|k: int| 0 <= k < i ==> game_is_blank(#[trigger] v@[k]),
        decreases 63 - i,
    {
        v.push(Game::const_default());
        i += 1;
    }
    v
}

} // verus!
