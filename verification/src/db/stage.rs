//! The `stage` table.
use vstd::prelude::*;

use crate::dates::NaiveDateTime;

verus! {

/// A stage in a tournament.
#[derive(Debug, Clone, PartialEq, Eq)]
pub struct Model {
    /// The id of the tournament the stage belongs to.
    pub tournament_id: i32,
    /// The stage's order in the tournament. For example, the first stage is 0, the second stage is 1, etc.
    pub stage_order: i16,
    /// The stage's short name. For example, "QF", "RO16", etc.
    pub name: String,
    /// The best-of of this stage's matches.
    pub best_of: i16,
    pub start_date: Option<NaiveDateTime>,
    pub end_date: Option<NaiveDateTime>,
}

impl Model {
    /// Creates a new Stage with the given name, order and best-of, not yet
    /// attached to a tournament and without dates.
    pub fn new(name: String, stage_order: usize, best_of: usize) -> (r: Model)
        ensures
            r.tournament_id == 0,
            r.name@ == name@,
            r.stage_order == stage_order as i16,
            r.best_of == best_of as i16,
            r.start_date is None,
            r.end_date is None,
    {
        Model {
            tournament_id: 0,
            name,
            stage_order: stage_order as i16,
            best_of: best_of as i16,
            start_date: None,
            end_date: None,
        }
    }
}

} // verus!
