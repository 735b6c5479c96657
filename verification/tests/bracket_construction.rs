use tourney::bracket::Bracket;
use tourney::game::Game;
use tourney::round::Round;
use tourney::team::Team;
use tourney::tournament::Tournament;
use tourney::tournament_data::get_tournament_data;

fn tournament_2023() -> Tournament {
    Tournament::new("2023").expect("2023 tournament data should be stored")
}

/// A synthetic, structurally valid roster distinct from the stored one.
fn synthetic_roster() -> Vec<Team> {
    let regions = ["Alpha", "Beta", "Gamma", "Delta"];
    let mut v = Vec::new();
    for r in 0..4 {
        for s in 1..=16u8 {
            v.push(Team {
                name: format!("{} {}", regions[r], s),
                region: regions[r].to_string(),
                seed: s,
            });
        }
    }
    v
}

#[test]
fn unknown_year_is_rejected() {
    assert!(Tournament::new("1999").is_err());
}

#[test]
fn build_produces_63_games_with_round_counts() {
    let t = tournament_2023();
    assert_eq!(t.games.len(), 63);
    let mut counts = [0usize; 6];
    for g in &t.games {
        counts[g.round as usize] += 1;
    }
    assert_eq!(counts, [32, 16, 8, 4, 2, 1]);
}

#[test]
fn rounds_occupy_their_index_ranges() {
    let t = tournament_2023();
    for (i, g) in t.games.iter().enumerate() {
        let expected = match i {
            0..=31 => 0,
            32..=47 => 1,
            48..=55 => 2,
            56..=59 => 3,
            60..=61 => 4,
            _ => 5,
        };
        assert_eq!(g.round, expected, "round of game {}", i);
    }
}

#[test]
fn prev_next_links_are_bidirectional() {
    let t = tournament_2023();
    for i in 32..63 {
        let p0 = t.games[i].prev[0].expect("later-round game must have prev[0]");
        let p1 = t.games[i].prev[1].expect("later-round game must have prev[1]");
        assert_ne!(p0, p1, "prev games of game {} must be distinct", i);
        assert_eq!(t.games[p0 as usize].next, Some(i as u8));
        assert_eq!(t.games[p1 as usize].next, Some(i as u8));
        // and no third game feeds game i
        for (j, g) in t.games.iter().enumerate() {
            let feeds = g.next == Some(i as u8);
            let listed = j == p0 as usize || j == p1 as usize;
            assert_eq!(feeds, listed, "game {} vs game {}", j, i);
        }
    }
}

#[test]
fn championship_and_first_round_links() {
    let t = tournament_2023();
    assert_eq!(t.games[62].next, None);
    for i in 0..32 {
        assert_eq!(t.games[i].prev, [None, None], "first-round game {}", i);
    }
    for i in 0..62 {
        assert!(t.games[i].next.is_some(), "game {} must feed a later game", i);
    }
}

#[test]
fn seed_pairing_is_fixed_for_every_region() {
    let t = tournament_2023();
    for r in 0..4 {
        let block_region = &t.teams[16 * r].region;
        let game0 = &t.games[8 * r];
        let game1 = &t.games[8 * r + 1];
        let pairs = [
            (game0.teams[0], 1u8),
            (game0.teams[1], 16u8),
            (game1.teams[0], 8u8),
            (game1.teams[1], 9u8),
        ];
        for (tindex, seed) in pairs {
            let team = &t.teams[tindex as usize];
            assert_eq!(team.seed, seed, "region {}", r);
            assert_eq!(&team.region, block_region, "region {}", r);
        }
    }
}

#[test]
fn first_round_matchups_2023_south() {
    let t = tournament_2023();
    let game0 = &t.games[0];
    assert_eq!(t.teams[game0.teams[0] as usize].name, "Alabama");
    assert_eq!(t.teams[game0.teams[0] as usize].seed, 1);
    assert_eq!(t.teams[game0.teams[1] as usize].name, "A&M CC");
    assert_eq!(t.teams[game0.teams[1] as usize].seed, 16);
    let game1 = &t.games[1];
    assert_eq!(t.teams[game1.teams[0] as usize].name, "Maryland");
    assert_eq!(t.teams[game1.teams[0] as usize].seed, 8);
    assert_eq!(t.teams[game1.teams[1] as usize].name, "West Virginia");
    assert_eq!(t.teams[game1.teams[1] as usize].seed, 9);
}

#[test]
fn building_twice_yields_identical_topology() {
    let t1 = tournament_2023();
    let t2 = tournament_2023();
    assert_eq!(t1.games.len(), t2.games.len());
    for i in 0..63 {
        let (a, b) = (&t1.games[i], &t2.games[i]);
        assert_eq!(a.round, b.round, "game {}", i);
        assert_eq!(a.prev, b.prev, "game {}", i);
        assert_eq!(a.next, b.next, "game {}", i);
        assert_eq!(a.teams, b.teams, "game {}", i);
        assert_eq!(a.score, b.score, "game {}", i);
        assert_eq!(a.completed, b.completed, "game {}", i);
    }
}

#[test]
fn from_roster_builds_same_topology() {
    let t1 = Tournament::from_roster("synthetic", synthetic_roster());
    let t2 = tournament_2023();
    assert_eq!(t1.name, "synthetic");
    assert_eq!(t1.teams[0].name, "Alpha 1");
    for i in 0..63 {
        let (a, b) = (&t1.games[i], &t2.games[i]);
        assert_eq!(a.round, b.round, "game {}", i);
        assert_eq!(a.prev, b.prev, "game {}", i);
        assert_eq!(a.next, b.next, "game {}", i);
        assert_eq!(a.teams, b.teams, "game {}", i);
    }
}

#[test]
fn games_are_unplayed_after_build() {
    let t = tournament_2023();
    for g in &t.games {
        assert_eq!(g.score, [0, 0]);
        assert!(!g.completed);
    }
    // later rounds have no teams assigned yet
    for i in 32..63 {
        assert_eq!(t.games[i].teams, [0, 0]);
    }
}

#[test]
fn bracket_copies_tournament_games() {
    let t = tournament_2023();
    let b = Bracket::new("my picks", &t);
    assert_eq!(b.name, "my picks");
    assert_eq!(b.games.len(), 63);
    for i in 0..63 {
        assert_eq!(b.games[i].round, t.games[i].round);
        assert_eq!(b.games[i].prev, t.games[i].prev);
        assert_eq!(b.games[i].next, t.games[i].next);
        assert_eq!(b.games[i].teams, t.games[i].teams);
    }
}

#[test]
fn brackets_own_their_games() {
    let t = tournament_2023();
    let mut b1 = Bracket::new("first", &t);
    let b2 = Bracket::new("second", &t);
    b1.games[62].score = [77, 70];
    b1.games[62].completed = true;
    assert_eq!(b2.games[62].score, [0, 0]);
    assert!(!b2.games[62].completed);
    assert_eq!(t.games[62].score, [0, 0]);
}

#[test]
fn round_new_sizes_and_numbers() {
    let expected = [32usize, 16, 8, 4, 2, 1];
    for num in 0..=5u8 {
        let round = Round::new(format!("round {}", num), num);
        assert_eq!(round.num, num);
        assert_eq!(round.games.len(), expected[num as usize]);
        for g in &round.games {
            assert_eq!(g.round, num);
            assert_eq!(g.teams, [0, 0]);
            assert_eq!(g.score, [0, 0]);
            assert!(!g.completed);
            assert_eq!(g.prev, [None, None]);
            assert_eq!(g.next, None);
        }
    }
}

#[test]
fn blank_game_and_team_defaults() {
    let g = Game::const_default();
    assert_eq!(g.teams, [0, 0]);
    assert_eq!(g.score, [0, 0]);
    assert!(!g.completed);
    assert_eq!(g.round, 0);
    assert_eq!(g.prev, [None, None]);
    assert_eq!(g.next, None);
    let team = Team::const_default();
    assert!(team.name.is_empty());
    assert!(team.region.is_empty());
    assert_eq!(team.seed, 0);
}

#[test]
fn roster_lookup_then_manual_build_matches_new() {
    let data = get_tournament_data("2023").expect("2023 roster should be stored");
    let t1 = Tournament::from_roster("2023", data);
    let t2 = tournament_2023();
    assert_eq!(t1.teams.len(), t2.teams.len());
    for i in 0..64 {
        assert_eq!(t1.teams[i].name, t2.teams[i].name);
    }
    for i in 0..63 {
        assert_eq!(t1.games[i].teams, t2.games[i].teams);
    }
}
