//! A tournament team: name, region, and seed within the region.

use vstd::prelude::*;

verus! {

/// One team of the 64-team field. In a well-formed roster the name is
/// non-empty and globally unique, the region is one of exactly four
/// non-empty values, and the seed lies in 1..=16, unique within the region.
#[derive(Debug)]
pub struct Team {
    pub name: String,
    pub region: String,
    pub seed: u8,
}

/// True when the team is the blank placeholder produced by
/// [`Team::const_default`].
pub open spec fn team_is_blank(t: Team) -> bool {
    &&& t.name@ == Seq::<char>::empty()
    &&& t.region@ == Seq::<char>::empty()
    &&& t.seed == 0
}

impl Team {
    /// A blank placeholder entry, used to pre-fill team storage before a
    /// roster is loaded.
    pub fn const_default() -> (t: Team)
        ensures
            team_is_blank(t),
    {
        Team { name: String::new(), region: String::new(), seed: 0 }
    }
}

} // verus!
