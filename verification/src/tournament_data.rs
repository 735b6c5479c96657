//! The roster data store and the roster validator.
//!
//! A roster is an ordered sequence of exactly 64 teams: four region blocks
//! of sixteen entries each, seeded 1..=16 in order within each block, with
//! globally unique team names and four distinct regions. The validator
//! checks exactly these rules in a single left-to-right pass and reports
//! the first defect it meets.

use vstd::prelude::*;

use crate::errors::RosterError;
use crate::errors::ValidationError;
use crate::team::Team;
use vstd::string::StringExecFns;

verus! {

/// The one tournament identifier the built-in data store knows.
pub open spec fn spec_known_year() -> Seq<char> {
    "2023"@
}

/// The team name stored at roster position `i` of the built-in 2023 field.
pub open spec fn stored_name_2023(i: int) -> Seq<char> {
    if i == 0 {
        "Alabama"@
    } else if i == 1 {
        "Arizona"@
    } else if i == 2 {
        "Baylor"@
    } else if i == 3 {
        "Virginia"@
    } else if i == 4 {
        "San Diego St."@
    } else if i == 5 {
        "Creighton"@
    } else if i == 6 {
        "Missouri"@
    } else if i == 7 {
        "Maryland"@
    } else if i == 8 {
        "West Virginia"@
    } else if i == 9 {
        "Utah St."@
    } else if i == 10 {
        "NC State"@
    } else if i == 11 {
        "Charleston"@
    } else if i == 12 {
        "Furman"@
    } else if i == 13 {
        "UCSB"@
    } else if i == 14 {
        "Princeton"@
    } else if i == 15 {
        "A&M CC"@
    } else if i == 16 {
        "Purdue"@
    } else if i == 17 {
        "Marquette"@
    } else if i == 18 {
        "Kansas St."@
    } else if i == 19 {
        "Tennessee"@
    } else if i == 20 {
        "Duke"@
    } else if i == 21 {
        "Kentucky"@
    } else if i == 22 {
        "Michigan St."@
    } else if i == 23 {
        "Memphis"@
    } else if i == 24 {
        "Fla. Atlantic"@
    } else if i == 25 {
        "USC"@
    } else if i == 26 {
        "Providence"@
    } else if i == 27 {
        "Oral Roberts"@
    } else if i == 28 {
        "Louisiana"@
    } else if i == 29 {
        "Montana State"@
    } else if i == 30 {
        "Vermont"@
    } else if i == 31 {
        "FDU"@
    } else if i == 32 {
        "Houston"@
    } else if i == 33 {
        "Texas"@
    } else if i == 34 {
        "Xavier"@
    } else if i == 35 {
        "Indiana"@
    } else if i == 36 {
        "Miami"@
    } else if i == 37 {
        "Iowa St."@
    } else if i == 38 {
        "Texas A&M"@
    } else if i == 39 {
        "Iowa"@
    } else if i == 40 {
        "Auburn"@
    } else if i == 41 {
        "Penn St."@
    } else if i == 42 {
        "Pitt"@
    } else if i == 43 {
        "Drake"@
    } else if i == 44 {
        "Kent St."@
    } else if i == 45 {
        "Kennesaw"@
    } else if i == 46 {
        "Colgate"@
    } else if i == 47 {
        "No Kentucky"@
    } else if i == 48 {
        "Kansas"@
    } else if i == 49 {
        "UCLA"@
    } else if i == 50 {
        "Gonzaga"@
    } else if i == 51 {
        "UConn"@
    } else if i == 52 {
        "St. Marys"@
    } else if i == 53 {
        "TCU"@
    } else if i == 54 {
        "Northwestern"@
    } else if i == 55 {
        "Arkansas"@
    } else if i == 56 {
        "Illinois"@
    } else if i == 57 {
        "Boise St."@
    } else if i == 58 {
        "Nevada"@
    } else if i == 59 {
        "VCU"@
    } else if i == 60 {
        "Iona"@
    } else if i == 61 {
        "Grand Canyon"@
    } else if i == 62 {
        "UNC Ashville"@
    } else {
        "Howard"@
    }
}

/// The region stored at roster position `i` of the built-in 2023 field:
/// the four blocks in their semifinal order.
pub open spec fn stored_region_2023(i: int) -> Seq<char> {
    if i < 16 {
        "South"@
    } else if i < 32 {
        "East"@
    } else if i < 48 {
        "Midwest"@
    } else {
        "West"@
    }
}

/// The built-in 2023 store holds, position for position, exactly these 64
/// entries, each seeded by its position.
pub open spec fn stored_roster_2023(s: Seq<Team>) -> bool {
    &&& s.len() == 64
    &&& forall|i: int|
        0 <= i < 64 ==> (#[trigger] s[i]).name@ == stored_name_2023(i) && s[i].region@
            == stored_region_2023(i) && s[i].seed == expected_seed(i)
}

/// Entry `i` has a non-empty team name and a non-empty region name.
pub open spec fn entry_filled(s: Seq<Team>, i: int) -> bool {
    &&& s[i].name@.len() > 0
    &&& s[i].region@.len() > 0
}

/// Entry `i`'s team name already appears at an earlier position.
pub open spec fn duplicate_team_at(s: Seq<Team>, i: int) -> bool {
    exists|j: int| 0 <= j < i && s[j].name@ == s[i].name@
}

/// The seed a valid roster carries at position `i`: the sequence
/// 1, 2, ..., 16 repeated for each region block.
pub open spec fn expected_seed(i: int) -> int {
    i % 16 + 1
}

/// Entry `i` carries the seed its position demands.
pub open spec fn seed_ok_at(s: Seq<Team>, i: int) -> bool {
    s[i].seed == expected_seed(i)
}

/// The position where entry `i`'s 16-entry region block begins.
pub open spec fn block_start(i: int) -> int {
    i - i % 16
}

/// Entry `i` starts a region block with the same region as the block
/// immediately before it (a region split in two, hence not contiguous).
pub open spec fn region_repeats_previous(s: Seq<Team>, i: int) -> bool {
    &&& i % 16 == 0
    &&& i >= 16
    &&& s[i].region@ == s[i - 16].region@
}

/// Entry `i` starts a region block whose region already started an
/// earlier block.
pub open spec fn duplicate_region_at(s: Seq<Team>, i: int) -> bool {
    &&& i % 16 == 0
    &&& exists|j: int| 0 <= j < i && j % 16 == 0 && s[j].region@ == s[i].region@
}

/// Entry `i`'s region fits its position: a block start introduces a region
/// no earlier block used; any other entry stays in its block's region.
pub open spec fn region_ok_at(s: Seq<Team>, i: int) -> bool {
    if i % 16 == 0 {
        !duplicate_region_at(s, i)
    } else {
        s[i].region@ == s[block_start(i)].region@
    }
}

/// Entry `i` passes every validation rule.
pub open spec fn entry_ok(s: Seq<Team>, i: int) -> bool {
    &&& entry_filled(s, i)
    &&& !duplicate_team_at(s, i)
    &&& seed_ok_at(s, i)
    &&& region_ok_at(s, i)
}

/// All entries before position `n` pass every validation rule.
pub open spec fn entries_ok_upto(s: Seq<Team>, n: int) -> bool {
    forall|i: int| 0 <= i < n ==> entry_ok(s, i)
}

/// A structurally valid 64-entry roster.
pub open spec fn roster_valid(s: Seq<Team>) -> bool {
    &&& s.len() == 64
    &&& entries_ok_upto(s, 64)
}

/// The error `e` is exactly the report the validator owes for position `i`,
/// assuming every earlier position passed: the variant named by the first
/// failing rule at `i` (rules are checked in the order: emptiness,
/// duplicate name, seed, region), carrying `i` and the offending values.
pub open spec fn violation_at(s: Seq<Team>, i: int, e: ValidationError) -> bool {
    match e {
        ValidationError::EmptyField { index } => {
            &&& index == i
            &&& !entry_filled(s, i)
        },
        ValidationError::DuplicateTeam { name, index } => {
            &&& index == i
            &&& entry_filled(s, i)
            &&& duplicate_team_at(s, i)
            &&& name@ == s[i].name@
        },
        ValidationError::UnexpectedSeed { index, got, want } => {
            &&& index == i
            &&& entry_filled(s, i)
            &&& !duplicate_team_at(s, i)
            &&& !seed_ok_at(s, i)
            &&& got == s[i].seed
            &&& want == expected_seed(i)
        },
        ValidationError::RegionNotContiguous { index } => {
            &&& index == i
            &&& entry_filled(s, i)
            &&& !duplicate_team_at(s, i)
            &&& seed_ok_at(s, i)
            &&& if i % 16 == 0 {
                    region_repeats_previous(s, i)
                } else {
                    s[i].region@ != s[block_start(i)].region@
                }
        },
        ValidationError::DuplicateRegion { index } => {
            &&& index == i
            &&& entry_filled(s, i)
            &&& !duplicate_team_at(s, i)
            &&& seed_ok_at(s, i)
            &&& i % 16 == 0
            &&& !region_repeats_previous(s, i)
            &&& duplicate_region_at(s, i)
        },
    }
}

/// Checks a 64-entry roster for structural validity: non-empty names and
/// regions, globally unique names, seeds cycling 1..=16, regions contiguous
/// in four blocks of sixteen, and the four block regions pairwise distinct.
///
/// Returns `Ok(())` exactly when the roster is valid, and otherwise the
/// error owed for the first defective entry.
#[verifier::loop_isolation(false)]
pub fn validate_tournament_data(data: &Vec<Team>) -> (r: Result<(), ValidationError>)
    requires
        data@.len() == 64,
    ensures
        r is Ok <==> roster_valid(data@),
        r matches Err(e) ==> exists|i: int|
            0 <= i < 64 && #[trigger] entries_ok_upto(data@, i) && !entry_ok(data@, i)
                && violation_at(data@, i, e),
{
    let ghost s = data@;
    let n: usize = data.len();
    let mut i: usize = 0;
    while i < n
        invariant
            i <= n,
            entries_ok_upto(s, i as int),
        decreases n - i,
    {
        // emptiness
        if data[i].name.as_str().is_empty() || data[i].region.as_str().is_empty() {
            assert(!entry_ok(s, i as int));
            return Err(ValidationError::EmptyField { index: i });
        }
        // unique team names
        let mut j: usize = 0;
        while j < i
            invariant
                j <= i,
                forall|k: int| 0 <= k < j ==> s[k].name@ != s[i as int].name@,
            decreases i - j,
        {
            if data[j].name == data[i].name {
                assert(duplicate_team_at(s, i as int));
                assert(!entry_ok(s, i as int));
                return Err(ValidationError::DuplicateTeam {
                    name: data[i].name.clone(),
                    index: i,
                });
            }
            j += 1;
        }
        assert(!duplicate_team_at(s, i as int));
        // seed follows the cyclic 1..=16 order
        let want: u8 = (i % 16) as u8 + 1;
        assert(want == expected_seed(i as int));
        if data[i].seed != want {
            assert(!entry_ok(s, i as int));
            return Err(ValidationError::UnexpectedSeed {
                index: i,
                got: data[i].seed,
                want,
            });
        }
        // region rules
        if i % 16 == 0 {
            // a block start must change region relative to the previous block
            if i > 0 && data[i].region == data[i - 16].region {
                assert(region_repeats_previous(s, i as int));
                assert(duplicate_region_at(s, i as int));
                assert(!entry_ok(s, i as int));
                return Err(ValidationError::RegionNotContiguous { index: i });
            }
            // and must not reuse any earlier block's region
            let mut b: usize = 0;
            while b < i
                invariant
                    b % 16 == 0,
                    b <= i,
                    forall|k: int| 0 <= k < b && k % 16 == 0 ==> s[k].region@ != s[i as int].region@,
                decreases i - b,
            {
                if data[b].region == data[i].region {
                    assert(duplicate_region_at(s, i as int));
                    assert(!region_repeats_previous(s, i as int));
                    assert(!entry_ok(s, i as int));
                    return Err(ValidationError::DuplicateRegion { index: i });
                }
                b += 16;
            }
            assert(!duplicate_region_at(s, i as int));
        } else {
            // inside a block the region must not change
            let bs: usize = i - (i % 16);
            assert(bs == block_start(i as int));
            if data[i].region != data[bs].region {
                assert(!region_ok_at(s, i as int));
                assert(!entry_ok(s, i as int));
                return Err(ValidationError::RegionNotContiguous { index: i });
            }
            assert(region_ok_at(s, i as int));
        }
        assert(entry_ok(s, i as int));
        i += 1;
    }
    Ok(())
}

/// Builds one team entry from borrowed name and region strings.
fn team(name: &str, region: &str, seed: u8) -> (t: Team)
    ensures
        t.name@ == name@,
        t.region@ == region@,
        t.seed == seed,
{
    Team { name: String::from_str(name), region: String::from_str(region), seed }
}

/// The built-in 64-team field of the 2023 men's tournament, ordered
/// region block by region block, each block seeded 1..=16. The block
/// order fixes the semifinal pairings: the first block's winner meets
/// the second's, the third's meets the fourth's.
#[verifier::rlimit(100)]
pub fn tournament_data_2023() -> (v: Vec<Team>)
    ensures
        stored_roster_2023(v@),
{
    let mut v: Vec<Team> = Vec::new();
    v.push(team("Alabama", "South", 1));
    v.push(team("Arizona", "South", 2));
    v.push(team("Baylor", "South", 3));
    v.push(team("Virginia", "South", 4));
    v.push(team("San Diego St.", "South", 5));
    v.push(team("Creighton", "South", 6));
    v.push(team("Missouri", "South", 7));
    v.push(team("Maryland", "South", 8));
    v.push(team("West Virginia", "South", 9));
    v.push(team("Utah St.", "South", 10));
    v.push(team("NC State", "South", 11));
    v.push(team("Charleston", "South", 12));
    v.push(team("Furman", "South", 13));
    v.push(team("UCSB", "South", 14));
    v.push(team("Princeton", "South", 15));
    v.push(team("A&M CC", "South", 16));
    v.push(team("Purdue", "East", 1));
    v.push(team("Marquette", "East", 2));
    v.push(team("Kansas St.", "East", 3));
    v.push(team("Tennessee", "East", 4));
    v.push(team("Duke", "East", 5));
    v.push(team("Kentucky", "East", 6));
    v.push(team("Michigan St.", "East", 7));
    v.push(team("Memphis", "East", 8));
    v.push(team("Fla. Atlantic", "East", 9));
    v.push(team("USC", "East", 10));
    v.push(team("Providence", "East", 11));
    v.push(team("Oral Roberts", "East", 12));
    v.push(team("Louisiana", "East", 13));
    v.push(team("Montana State", "East", 14));
    v.push(team("Vermont", "East", 15));
    v.push(team("FDU", "East", 16));
    v.push(team("Houston", "Midwest", 1));
    v.push(team("Texas", "Midwest", 2));
    v.push(team("Xavier", "Midwest", 3));
    v.push(team("Indiana", "Midwest", 4));
    v.push(team("Miami", "Midwest", 5));
    v.push(team("Iowa St.", "Midwest", 6));
    v.push(team("Texas A&M", "Midwest", 7));
    v.push(team("Iowa", "Midwest", 8));
    v.push(team("Auburn", "Midwest", 9));
    v.push(team("Penn St.", "Midwest", 10));
    v.push(team("Pitt", "Midwest", 11));
    v.push(team("Drake", "Midwest", 12));
    v.push(team("Kent St.", "Midwest", 13));
    v.push(team("Kennesaw", "Midwest", 14));
    v.push(team("Colgate", "Midwest", 15));
    v.push(team("No Kentucky", "Midwest", 16));
    v.push(team("Kansas", "West", 1));
    v.push(team("UCLA", "West", 2));
    v.push(team("Gonzaga", "West", 3));
    v.push(team("UConn", "West", 4));
    v.push(team("St. Marys", "West", 5));
    v.push(team("TCU", "West", 6));
    v.push(team("Northwestern", "West", 7));
    v.push(team("Arkansas", "West", 8));
    v.push(team("Illinois", "West", 9));
    v.push(team("Boise St.", "West", 10));
    v.push(team("Nevada", "West", 11));
    v.push(team("VCU", "West", 12));
    v.push(team("Iona", "West", 13));
    v.push(team("Grand Canyon", "West", 14));
    v.push(team("UNC Ashville", "West", 15));
    v.push(team("Howard", "West", 16));
    v
}

/// The stored 2023 roster is structurally valid: its names are non-empty
/// and pairwise distinct, its seeds cycle 1..=16, and its four region
/// blocks are contiguous with pairwise distinct regions.
#[verifier::rlimit(100)]
pub proof fn lemma_stored_roster_2023_valid(s: Seq<Team>)
    requires
        stored_roster_2023(s),
    ensures
        roster_valid(s),
{
    reveal_strlit("Alabama");
    reveal_strlit("Arizona");
    reveal_strlit("Baylor");
    reveal_strlit("Virginia");
    reveal_strlit("San Diego St.");
    reveal_strlit("Creighton");
    reveal_strlit("Missouri");
    reveal_strlit("Maryland");
    reveal_strlit("West Virginia");
    reveal_strlit("Utah St.");
    reveal_strlit("NC State");
    reveal_strlit("Charleston");
    reveal_strlit("Furman");
    reveal_strlit("UCSB");
    reveal_strlit("Princeton");
    reveal_strlit("A&M CC");
    reveal_strlit("Purdue");
    reveal_strlit("Marquette");
    reveal_strlit("Kansas St.");
    reveal_strlit("Tennessee");
    reveal_strlit("Duke");
    reveal_strlit("Kentucky");
    reveal_strlit("Michigan St.");
    reveal_strlit("Memphis");
    reveal_strlit("Fla. Atlantic");
    reveal_strlit("USC");
    reveal_strlit("Providence");
    reveal_strlit("Oral Roberts");
    reveal_strlit("Louisiana");
    reveal_strlit("Montana State");
    reveal_strlit("Vermont");
    reveal_strlit("FDU");
    reveal_strlit("Houston");
    reveal_strlit("Texas");
    reveal_strlit("Xavier");
    reveal_strlit("Indiana");
    reveal_strlit("Miami");
    reveal_strlit("Iowa St.");
    reveal_strlit("Texas A&M");
    reveal_strlit("Iowa");
    reveal_strlit("Auburn");
    reveal_strlit("Penn St.");
    reveal_strlit("Pitt");
    reveal_strlit("Drake");
    reveal_strlit("Kent St.");
    reveal_strlit("Kennesaw");
    reveal_strlit("Colgate");
    reveal_strlit("No Kentucky");
    reveal_strlit("Kansas");
    reveal_strlit("UCLA");
    reveal_strlit("Gonzaga");
    reveal_strlit("UConn");
    reveal_strlit("St. Marys");
    reveal_strlit("TCU");
    reveal_strlit("Northwestern");
    reveal_strlit("Arkansas");
    reveal_strlit("Illinois");
    reveal_strlit("Boise St.");
    reveal_strlit("Nevada");
    reveal_strlit("VCU");
    reveal_strlit("Iona");
    reveal_strlit("Grand Canyon");
    reveal_strlit("UNC Ashville");
    reveal_strlit("Howard");
    reveal_strlit("South");
    reveal_strlit("East");
    reveal_strlit("Midwest");
    reveal_strlit("West");
    // Any two stored strings differ in length or within their first five
    // characters; naming those lengths and characters lets the solver tell
    // every pair apart.
    assert("Alabama"@.len() == 7 && "Alabama"@[0] == 'A' && "Alabama"@[1] == 'l' && "Alabama"@[2] == 'a' && "Alabama"@[3] == 'b' && "Alabama"@[4] == 'a');
    assert("Arizona"@.len() == 7 && "Arizona"@[0] == 'A' && "Arizona"@[1] == 'r' && "Arizona"@[2] == 'i' && "Arizona"@[3] == 'z' && "Arizona"@[4] == 'o');
    assert("Baylor"@.len() == 6 && "Baylor"@[0] == 'B' && "Baylor"@[1] == 'a' && "Baylor"@[2] == 'y' && "Baylor"@[3] == 'l' && "Baylor"@[4] == 'o');
    assert("Virginia"@.len() == 8 && "Virginia"@[0] == 'V' && "Virginia"@[1] == 'i' && "Virginia"@[2] == 'r' && "Virginia"@[3] == 'g' && "Virginia"@[4] == 'i');
    assert("San Diego St."@.len() == 13 && "San Diego St."@[0] == 'S' && "San Diego St."@[1] == 'a' && "San Diego St."@[2] == 'n' && "San Diego St."@[3] == ' ' && "San Diego St."@[4] == 'D');
    assert("Creighton"@.len() == 9 && "Creighton"@[0] == 'C' && "Creighton"@[1] == 'r' && "Creighton"@[2] == 'e' && "Creighton"@[3] == 'i' && "Creighton"@[4] == 'g');
    assert("Missouri"@.len() == 8 && "Missouri"@[0] == 'M' && "Missouri"@[1] == 'i' && "Missouri"@[2] == 's' && "Missouri"@[3] == 's' && "Missouri"@[4] == 'o');
    assert("Maryland"@.len() == 8 && "Maryland"@[0] == 'M' && "Maryland"@[1] == 'a' && "Maryland"@[2] == 'r' && "Maryland"@[3] == 'y' && "Maryland"@[4] == 'l');
    assert("West Virginia"@.len() == 13 && "West Virginia"@[0] == 'W' && "West Virginia"@[1] == 'e' && "West Virginia"@[2] == 's' && "West Virginia"@[3] == 't' && "West Virginia"@[4] == ' ');
    assert("Utah St."@.len() == 8 && "Utah St."@[0] == 'U' && "Utah St."@[1] == 't' && "Utah St."@[2] == 'a' && "Utah St."@[3] == 'h' && "Utah St."@[4] == ' ');
    assert("NC State"@.len() == 8 && "NC State"@[0] == 'N' && "NC State"@[1] == 'C' && "NC State"@[2] == ' ' && "NC State"@[3] == 'S' && "NC State"@[4] == 't');
    assert("Charleston"@.len() == 10 && "Charleston"@[0] == 'C' && "Charleston"@[1] == 'h' && "Charleston"@[2] == 'a' && "Charleston"@[3] == 'r' && "Charleston"@[4] == 'l');
    assert("Furman"@.len() == 6 && "Furman"@[0] == 'F' && "Furman"@[1] == 'u' && "Furman"@[2] == 'r' && "Furman"@[3] == 'm' && "Furman"@[4] == 'a');
    assert("UCSB"@.len() == 4 && "UCSB"@[0] == 'U' && "UCSB"@[1] == 'C' && "UCSB"@[2] == 'S' && "UCSB"@[3] == 'B');
    assert("Princeton"@.len() == 9 && "Princeton"@[0] == 'P' && "Princeton"@[1] == 'r' && "Princeton"@[2] == 'i' && "Princeton"@[3] == 'n' && "Princeton"@[4] == 'c');
    assert("A&M CC"@.len() == 6 && "A&M CC"@[0] == 'A' && "A&M CC"@[1] == '&' && "A&M CC"@[2] == 'M' && "A&M CC"@[3] == ' ' && "A&M CC"@[4] == 'C');
    assert("Purdue"@.len() == 6 && "Purdue"@[0] == 'P' && "Purdue"@[1] == 'u' && "Purdue"@[2] == 'r' && "Purdue"@[3] == 'd' && "Purdue"@[4] == 'u');
    assert("Marquette"@.len() == 9 && "Marquette"@[0] == 'M' && "Marquette"@[1] == 'a' && "Marquette"@[2] == 'r' && "Marquette"@[3] == 'q' && "Marquette"@[4] == 'u');
    assert("Kansas St."@.len() == 10 && "Kansas St."@[0] == 'K' && "Kansas St."@[1] == 'a' && "Kansas St."@[2] == 'n' && "Kansas St."@[3] == 's' && "Kansas St."@[4] == 'a');
    assert("Tennessee"@.len() == 9 && "Tennessee"@[0] == 'T' && "Tennessee"@[1] == 'e' && "Tennessee"@[2] == 'n' && "Tennessee"@[3] == 'n' && "Tennessee"@[4] == 'e');
    assert("Duke"@.len() == 4 && "Duke"@[0] == 'D' && "Duke"@[1] == 'u' && "Duke"@[2] == 'k' && "Duke"@[3] == 'e');
    assert("Kentucky"@.len() == 8 && "Kentucky"@[0] == 'K' && "Kentucky"@[1] == 'e' && "Kentucky"@[2] == 'n' && "Kentucky"@[3] == 't' && "Kentucky"@[4] == 'u');
    assert("Michigan St."@.len() == 12 && "Michigan St."@[0] == 'M' && "Michigan St."@[1] == 'i' && "Michigan St."@[2] == 'c' && "Michigan St."@[3] == 'h' && "Michigan St."@[4] == 'i');
    assert("Memphis"@.len() == 7 && "Memphis"@[0] == 'M' && "Memphis"@[1] == 'e' && "Memphis"@[2] == 'm' && "Memphis"@[3] == 'p' && "Memphis"@[4] == 'h');
    assert("Fla. Atlantic"@.len() == 13 && "Fla. Atlantic"@[0] == 'F' && "Fla. Atlantic"@[1] == 'l' && "Fla. Atlantic"@[2] == 'a' && "Fla. Atlantic"@[3] == '.' && "Fla. Atlantic"@[4] == ' ');
    assert("USC"@.len() == 3 && "USC"@[0] == 'U' && "USC"@[1] == 'S' && "USC"@[2] == 'C');
    assert("Providence"@.len() == 10 && "Providence"@[0] == 'P' && "Providence"@[1] == 'r' && "Providence"@[2] == 'o' && "Providence"@[3] == 'v' && "Providence"@[4] == 'i');
    assert("Oral Roberts"@.len() == 12 && "Oral Roberts"@[0] == 'O' && "Oral Roberts"@[1] == 'r' && "Oral Roberts"@[2] == 'a' && "Oral Roberts"@[3] == 'l' && "Oral Roberts"@[4] == ' ');
    assert("Louisiana"@.len() == 9 && "Louisiana"@[0] == 'L' && "Louisiana"@[1] == 'o' && "Louisiana"@[2] == 'u' && "Louisiana"@[3] == 'i' && "Louisiana"@[4] == 's');
    assert("Montana State"@.len() == 13 && "Montana State"@[0] == 'M' && "Montana State"@[1] == 'o' && "Montana State"@[2] == 'n' && "Montana State"@[3] == 't' && "Montana State"@[4] == 'a');
    assert("Vermont"@.len() == 7 && "Vermont"@[0] == 'V' && "Vermont"@[1] == 'e' && "Vermont"@[2] == 'r' && "Vermont"@[3] == 'm' && "Vermont"@[4] == 'o');
    assert("FDU"@.len() == 3 && "FDU"@[0] == 'F' && "FDU"@[1] == 'D' && "FDU"@[2] == 'U');
    assert("Houston"@.len() == 7 && "Houston"@[0] == 'H' && "Houston"@[1] == 'o' && "Houston"@[2] == 'u' && "Houston"@[3] == 's' && "Houston"@[4] == 't');
    assert("Texas"@.len() == 5 && "Texas"@[0] == 'T' && "Texas"@[1] == 'e' && "Texas"@[2] == 'x' && "Texas"@[3] == 'a' && "Texas"@[4] == 's');
    assert("Xavier"@.len() == 6 && "Xavier"@[0] == 'X' && "Xavier"@[1] == 'a' && "Xavier"@[2] == 'v' && "Xavier"@[3] == 'i' && "Xavier"@[4] == 'e');
    assert("Indiana"@.len() == 7 && "Indiana"@[0] == 'I' && "Indiana"@[1] == 'n' && "Indiana"@[2] == 'd' && "Indiana"@[3] == 'i' && "Indiana"@[4] == 'a');
    assert("Miami"@.len() == 5 && "Miami"@[0] == 'M' && "Miami"@[1] == 'i' && "Miami"@[2] == 'a' && "Miami"@[3] == 'm' && "Miami"@[4] == 'i');
    assert("Iowa St."@.len() == 8 && "Iowa St."@[0] == 'I' && "Iowa St."@[1] == 'o' && "Iowa St."@[2] == 'w' && "Iowa St."@[3] == 'a' && "Iowa St."@[4] == ' ');
    assert("Texas A&M"@.len() == 9 && "Texas A&M"@[0] == 'T' && "Texas A&M"@[1] == 'e' && "Texas A&M"@[2] == 'x' && "Texas A&M"@[3] == 'a' && "Texas A&M"@[4] == 's');
    assert("Iowa"@.len() == 4 && "Iowa"@[0] == 'I' && "Iowa"@[1] == 'o' && "Iowa"@[2] == 'w' && "Iowa"@[3] == 'a');
    assert("Auburn"@.len() == 6 && "Auburn"@[0] == 'A' && "Auburn"@[1] == 'u' && "Auburn"@[2] == 'b' && "Auburn"@[3] == 'u' && "Auburn"@[4] == 'r');
    assert("Penn St."@.len() == 8 && "Penn St."@[0] == 'P' && "Penn St."@[1] == 'e' && "Penn St."@[2] == 'n' && "Penn St."@[3] == 'n' && "Penn St."@[4] == ' ');
    assert("Pitt"@.len() == 4 && "Pitt"@[0] == 'P' && "Pitt"@[1] == 'i' && "Pitt"@[2] == 't' && "Pitt"@[3] == 't');
    assert("Drake"@.len() == 5 && "Drake"@[0] == 'D' && "Drake"@[1] == 'r' && "Drake"@[2] == 'a' && "Drake"@[3] == 'k' && "Drake"@[4] == 'e');
    assert("Kent St."@.len() == 8 && "Kent St."@[0] == 'K' && "Kent St."@[1] == 'e' && "Kent St."@[2] == 'n' && "Kent St."@[3] == 't' && "Kent St."@[4] == ' ');
    assert("Kennesaw"@.len() == 8 && "Kennesaw"@[0] == 'K' && "Kennesaw"@[1] == 'e' && "Kennesaw"@[2] == 'n' && "Kennesaw"@[3] == 'n' && "Kennesaw"@[4] == 'e');
    assert("Colgate"@.len() == 7 && "Colgate"@[0] == 'C' && "Colgate"@[1] == 'o' && "Colgate"@[2] == 'l' && "Colgate"@[3] == 'g' && "Colgate"@[4] == 'a');
    assert("No Kentucky"@.len() == 11 && "No Kentucky"@[0] == 'N' && "No Kentucky"@[1] == 'o' && "No Kentucky"@[2] == ' ' && "No Kentucky"@[3] == 'K' && "No Kentucky"@[4] == 'e');
    assert("Kansas"@.len() == 6 && "Kansas"@[0] == 'K' && "Kansas"@[1] == 'a' && "Kansas"@[2] == 'n' && "Kansas"@[3] == 's' && "Kansas"@[4] == 'a');
    assert("UCLA"@.len() == 4 && "UCLA"@[0] == 'U' && "UCLA"@[1] == 'C' && "UCLA"@[2] == 'L' && "UCLA"@[3] == 'A');
    assert("Gonzaga"@.len() == 7 && "Gonzaga"@[0] == 'G' && "Gonzaga"@[1] == 'o' && "Gonzaga"@[2] == 'n' && "Gonzaga"@[3] == 'z' && "Gonzaga"@[4] == 'a');
    assert("UConn"@.len() == 5 && "UConn"@[0] == 'U' && "UConn"@[1] == 'C' && "UConn"@[2] == 'o' && "UConn"@[3] == 'n' && "UConn"@[4] == 'n');
    assert("St. Marys"@.len() == 9 && "St. Marys"@[0] == 'S' && "St. Marys"@[1] == 't' && "St. Marys"@[2] == '.' && "St. Marys"@[3] == ' ' && "St. Marys"@[4] == 'M');
    assert("TCU"@.len() == 3 && "TCU"@[0] == 'T' && "TCU"@[1] == 'C' && "TCU"@[2] == 'U');
    assert("Northwestern"@.len() == 12 && "Northwestern"@[0] == 'N' && "Northwestern"@[1] == 'o' && "Northwestern"@[2] == 'r' && "Northwestern"@[3] == 't' && "Northwestern"@[4] == 'h');
    assert("Arkansas"@.len() == 8 && "Arkansas"@[0] == 'A' && "Arkansas"@[1] == 'r' && "Arkansas"@[2] == 'k' && "Arkansas"@[3] == 'a' && "Arkansas"@[4] == 'n');
    assert("Illinois"@.len() == 8 && "Illinois"@[0] == 'I' && "Illinois"@[1] == 'l' && "Illinois"@[2] == 'l' && "Illinois"@[3] == 'i' && "Illinois"@[4] == 'n');
    assert("Boise St."@.len() == 9 && "Boise St."@[0] == 'B' && "Boise St."@[1] == 'o' && "Boise St."@[2] == 'i' && "Boise St."@[3] == 's' && "Boise St."@[4] == 'e');
    assert("Nevada"@.len() == 6 && "Nevada"@[0] == 'N' && "Nevada"@[1] == 'e' && "Nevada"@[2] == 'v' && "Nevada"@[3] == 'a' && "Nevada"@[4] == 'd');
    assert("VCU"@.len() == 3 && "VCU"@[0] == 'V' && "VCU"@[1] == 'C' && "VCU"@[2] == 'U');
    assert("Iona"@.len() == 4 && "Iona"@[0] == 'I' && "Iona"@[1] == 'o' && "Iona"@[2] == 'n' && "Iona"@[3] == 'a');
    assert("Grand Canyon"@.len() == 12 && "Grand Canyon"@[0] == 'G' && "Grand Canyon"@[1] == 'r' && "Grand Canyon"@[2] == 'a' && "Grand Canyon"@[3] == 'n' && "Grand Canyon"@[4] == 'd');
    assert("UNC Ashville"@.len() == 12 && "UNC Ashville"@[0] == 'U' && "UNC Ashville"@[1] == 'N' && "UNC Ashville"@[2] == 'C' && "UNC Ashville"@[3] == ' ' && "UNC Ashville"@[4] == 'A');
    assert("Howard"@.len() == 6 && "Howard"@[0] == 'H' && "Howard"@[1] == 'o' && "Howard"@[2] == 'w' && "Howard"@[3] == 'a' && "Howard"@[4] == 'r');
    assert("South"@.len() == 5 && "South"@[0] == 'S' && "South"@[1] == 'o' && "South"@[2] == 'u' && "South"@[3] == 't' && "South"@[4] == 'h');
    assert("East"@.len() == 4 && "East"@[0] == 'E' && "East"@[1] == 'a' && "East"@[2] == 's' && "East"@[3] == 't');
    assert("Midwest"@.len() == 7 && "Midwest"@[0] == 'M' && "Midwest"@[1] == 'i' && "Midwest"@[2] == 'd' && "Midwest"@[3] == 'w' && "Midwest"@[4] == 'e');
    assert("West"@.len() == 4 && "West"@[0] == 'W' && "West"@[1] == 'e' && "West"@[2] == 's' && "West"@[3] == 't');
    assert forall|j: int, i: int| 0 <= j < i < 64 implies stored_name_2023(j)
        != stored_name_2023(i) by {}
    assert forall|i: int| 0 <= i < 64 implies entry_ok(s, i) by {
        assert(stored_name_2023(i).len() > 0);
        assert(stored_region_2023(i).len() > 0);
        assert(!duplicate_team_at(s, i)) by {
            assert forall|j: int| 0 <= j < i implies s[j].name@ != s[i].name@ by {
                assert(s[j].name@ == stored_name_2023(j));
                assert(s[i].name@ == stored_name_2023(i));
            }
        }
        assert(seed_ok_at(s, i));
        if i % 16 == 0 {
            assert(!duplicate_region_at(s, i)) by {
                assert forall|j: int| 0 <= j < i && j % 16 == 0 implies s[j].region@
                    != s[i].region@ by {
                    assert(s[j].region@ == stored_region_2023(j));
                    assert(s[i].region@ == stored_region_2023(i));
                }
            }
        } else {
            assert(s[i].region@ == s[block_start(i)].region@);
        }
    }
}

/// Looks up the roster stored for the given tournament year and validates
/// it before handing it out: the known year yields its stored, structurally
/// valid 64-entry roster; an unknown year is reported as `RosterNotFound`.
/// A stored roster failing validation would be reported as `InvalidRoster`,
/// but the one stored roster is proven valid, so success is owed.
pub fn get_tournament_data(year: &str) -> (r: Result<Vec<Team>, RosterError>)
    ensures
        r is Ok <==> year@ == spec_known_year(),
        r matches Ok(data) ==> stored_roster_2023(data@) && roster_valid(data@),
        r matches Err(e) ==> e == RosterError::RosterNotFound && year@ != spec_known_year(),
{
    let requested = String::from_str(year);
    let known = String::from_str("2023");
    if requested == known {
        let data = tournament_data_2023();
        proof {
            lemma_stored_roster_2023_valid(data@);
        }
        match validate_tournament_data(&data) {
            Ok(()) => Ok(data),
            Err(e) => Err(RosterError::InvalidRoster(e)),
        }
    } else {
        Err(RosterError::RosterNotFound)
    }
}

} // verus!
