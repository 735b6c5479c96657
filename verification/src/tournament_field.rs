//! The tournament field store: the 64-team field by tournament name.
//!
//! A field is the same shape of data as a roster from the tournament data
//! store, and it obeys the same structural rules; this module keys the
//! built-in field by its full display name rather than by year.

use vstd::prelude::*;

use crate::errors::RosterError;
use crate::errors::ValidationError;
use crate::team::Team;
use crate::tournament_data::entries_ok_upto;
use crate::tournament_data::entry_ok;
use crate::tournament_data::lemma_stored_roster_2023_valid;
use crate::tournament_data::roster_valid;
use crate::tournament_data::stored_roster_2023;
use crate::tournament_data::tournament_data_2023;
use crate::tournament_data::validate_tournament_data;
use crate::tournament_data::violation_at;
use vstd::string::StringExecFns;

verus! {

/// The one field name the built-in store knows.
pub open spec fn spec_known_field() -> Seq<char> {
    "NCAA Tournament 2023"@
}

/// Checks a 64-entry field for structural validity. A field obeys exactly
/// the roster rules: non-empty names and regions, globally unique names,
/// seeds cycling 1..=16, regions contiguous in four blocks of sixteen,
/// and the four block regions pairwise distinct.
pub fn validate_tournament_field(field: &Vec<Team>) -> (r: Result<(), ValidationError>)
    requires
        field@.len() == 64,
    ensures
        r is Ok <==> roster_valid(field@),
        r matches Err(e) ==> exists|i: int|
            0 <= i < 64 && #[trigger] entries_ok_upto(field@, i) && !entry_ok(field@, i)
                && violation_at(field@, i, e),
{
    validate_tournament_data(field)
}

/// Looks up the field stored under the given tournament name and
/// validates it before handing it out: the known name yields its stored,
/// structurally valid 64-entry field; an unknown name is reported as
/// `RosterNotFound`. A stored field failing validation would be reported
/// as `InvalidRoster`, but the one stored field is proven valid, so
/// success is owed.
pub fn get_tournament_field(name: &str) -> (r: Result<Vec<Team>, RosterError>)
    ensures
        r is Ok <==> name@ == spec_known_field(),
        r matches Ok(data) ==> stored_roster_2023(data@) && roster_valid(data@),
        r matches Err(e) ==> e == RosterError::RosterNotFound && name@ != spec_known_field(),
{
    let requested = String::from_str(name);
    let known = String::from_str("NCAA Tournament 2023");
    if requested == known {
        let field = tournament_data_2023();
        proof {
            lemma_stored_roster_2023_valid(field@);
        }
        match validate_tournament_field(&field) {
            Ok(()) => Ok(field),
            Err(e) => Err(RosterError::InvalidRoster(e)),
        }
    } else {
        Err(RosterError::RosterNotFound)
    }
}

} // verus!
