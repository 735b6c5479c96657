//! Error values for roster lookup and roster validation.

use vstd::prelude::*;

verus! {

/// A structural defect found while validating a 64-entry roster.
/// Each variant carries the 0-based roster position at which the defect
/// was detected, plus the offending values where they matter.
#[derive(Debug, PartialEq, Eq)]
pub enum ValidationError {
    /// The entry has an empty team name or an empty region name.
    EmptyField { index: usize },
    /// The entry's team name already appeared earlier in the roster.
    DuplicateTeam { name: String, index: usize },
    /// The entry's seed breaks the cyclic 1..=16 seed order.
    UnexpectedSeed { index: usize, got: u8, want: u8 },
    /// The entry's region either repeats the previous region block
    /// (at a block start) or differs from the running region block
    /// (inside a block).
    RegionNotContiguous { index: usize },
    /// A region block starts with a region already used by an earlier,
    /// non-adjacent block.
    DuplicateRegion { index: usize },
}

/// Why a roster could not be obtained from the data store.
#[derive(Debug, PartialEq, Eq)]
pub enum RosterError {
    /// No roster is stored under the requested tournament identifier.
    RosterNotFound,
    /// The stored roster failed structural validation.
    InvalidRoster(ValidationError),
}

} // verus!
