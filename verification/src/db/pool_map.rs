//! The `pool_map` table.
use vstd::prelude::*;

verus! {

/// A map in a tournament pool.
#[derive(Debug, Clone, Copy, PartialEq, Eq, Structural)]
pub struct Model {
    /// The id of the tournament this pool belongs to.
    pub tournament_id: i32,
    /// The index of the stage in the tournament this pool belongs to.
    pub stage_order: i16,
    /// The order of this bracket in the stage.
    pub bracket_order: i16,
    /// The number of the map in the bracket. Note, that this is *zero indexed*, so e.g. NM1 will have map_order 0, NM2 will have map_order 1, etc.
    pub map_order: i16,
    /// The map's osu id. Note, that this is *not* the mapset id.
    pub map_id: i64,
}

} // verus!
