//! The `pool_bracket` table.
use vstd::prelude::*;

verus! {

/// A bracket of a stage's pool, such as "NM" or "HD".
#[derive(Debug, Clone, PartialEq, Eq)]
pub struct Model {
    pub tournament_id: i32,
    pub stage_order: i16,
    /// The order of this bracket in the stage. E.g. if this is the first bracket in the pool, this is 0.
    pub bracket_order: i16,
    pub name: String,
}

} // verus!
