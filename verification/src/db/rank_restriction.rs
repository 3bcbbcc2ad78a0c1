//! The `rank_restriction` table.
use vstd::prelude::*;

verus! {

/// A rank range that players of a tournament must fall into.
#[derive(Debug, Clone, Copy, PartialEq, Eq, Structural)]
pub struct Model {
    /// The id of the tournament this range belongs to.
    pub tournament_id: i32,
    /// Especially used in tiered tournaments, this is the tier this rank range is for, starting at 0 being the highest tier.
    pub tier: i32,
    /// The minimum rank for this range
    pub min: i32,
    /// The maximum rank for this range
    pub max: i32,
}

} // verus!
