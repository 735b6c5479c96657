use tourney::errors::RosterError;
use tourney::errors::ValidationError;
use tourney::team::Team;
use tourney::tournament_data::get_tournament_data;
use tourney::tournament_data::validate_tournament_data;
use tourney::tournament_field::get_tournament_field;
use tourney::tournament_field::validate_tournament_field;

/// A synthetic, structurally valid roster: four regions of sixteen teams,
/// seeds 1..=16 in order, all names unique.
fn valid_roster() -> Vec<Team> {
    let regions = ["North", "South", "East", "West"];
    let mut v = Vec::new();
    for r in 0..4 {
        for s in 1..=16u8 {
            v.push(Team {
                name: format!("{} team {}", regions[r], s),
                region: regions[r].to_string(),
                seed: s,
            });
        }
    }
    v
}

#[test]
fn valid_roster_passes() {
    let roster = valid_roster();
    assert_eq!(validate_tournament_data(&roster), Ok(()));
}

#[test]
fn empty_name_rejected() {
    let mut roster = valid_roster();
    roster[5].name = String::new();
    assert_eq!(
        validate_tournament_data(&roster),
        Err(ValidationError::EmptyField { index: 5 })
    );
}

#[test]
fn empty_region_rejected() {
    let mut roster = valid_roster();
    roster[0].region = String::new();
    assert_eq!(
        validate_tournament_data(&roster),
        Err(ValidationError::EmptyField { index: 0 })
    );
}

#[test]
fn duplicate_team_rejected() {
    let mut roster = valid_roster();
    roster[20].name = roster[3].name.clone();
    assert_eq!(
        validate_tournament_data(&roster),
        Err(ValidationError::DuplicateTeam {
            name: roster[3].name.clone(),
            index: 20,
        })
    );
}

#[test]
fn missing_seed_rejected() {
    // the North region skips seed 7 and has seed 8 twice
    let mut roster = valid_roster();
    roster[6].seed = 8;
    assert_eq!(
        validate_tournament_data(&roster),
        Err(ValidationError::UnexpectedSeed {
            index: 6,
            got: 8,
            want: 7,
        })
    );
}

#[test]
fn region_change_mid_block_rejected() {
    let mut roster = valid_roster();
    roster[10].region = "South".to_string();
    assert_eq!(
        validate_tournament_data(&roster),
        Err(ValidationError::RegionNotContiguous { index: 10 })
    );
}

#[test]
fn region_split_in_two_rejected() {
    // the second block repeats the first block's region
    let mut roster = valid_roster();
    for i in 16..32 {
        roster[i].region = "North".to_string();
    }
    assert_eq!(
        validate_tournament_data(&roster),
        Err(ValidationError::RegionNotContiguous { index: 16 })
    );
}

#[test]
fn three_distinct_regions_rejected() {
    // the fourth block reuses the first block's region, non-adjacently
    let mut roster = valid_roster();
    for i in 48..64 {
        roster[i].region = "North".to_string();
    }
    assert_eq!(
        validate_tournament_data(&roster),
        Err(ValidationError::DuplicateRegion { index: 48 })
    );
}

#[test]
fn empty_name_reported_before_bad_seed() {
    // validation rules apply in order: emptiness comes before the seed check
    let mut roster = valid_roster();
    roster[9].name = String::new();
    roster[9].seed = 3;
    assert_eq!(
        validate_tournament_data(&roster),
        Err(ValidationError::EmptyField { index: 9 })
    );
}

#[test]
fn duplicate_name_reported_before_bad_seed() {
    let mut roster = valid_roster();
    roster[9].name = roster[2].name.clone();
    roster[9].seed = 3;
    assert_eq!(
        validate_tournament_data(&roster),
        Err(ValidationError::DuplicateTeam {
            name: roster[2].name.clone(),
            index: 9,
        })
    );
}

#[test]
fn known_year_returns_valid_roster() {
    let data = get_tournament_data("2023").expect("2023 roster should be stored");
    assert_eq!(data.len(), 64);
    assert_eq!(data[0].name, "Alabama");
    assert_eq!(data[0].region, "South");
    assert_eq!(data[0].seed, 1);
    assert_eq!(data[63].name, "Howard");
    assert_eq!(validate_tournament_data(&data), Ok(()));
}

#[test]
fn unknown_year_not_found() {
    assert_eq!(
        get_tournament_data("1999").err(),
        Some(RosterError::RosterNotFound)
    );
}

#[test]
fn known_field_returns_valid_field() {
    let field = get_tournament_field("NCAA Tournament 2023").expect("2023 field should be stored");
    assert_eq!(field.len(), 64);
    assert_eq!(field[16].name, "Purdue");
    assert_eq!(validate_tournament_field(&field), Ok(()));
}

#[test]
fn unknown_field_not_found() {
    assert_eq!(
        get_tournament_field("2023").err(),
        Some(RosterError::RosterNotFound)
    );
}
