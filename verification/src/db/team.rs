//! The `team` table.
use vstd::prelude::*;

verus! {

/// A team in a tournament.
#[derive(Debug, Clone, PartialEq, Eq)]
pub struct Model {
    pub id: i32,
    pub tournament_id: i32,
    pub name: String,
}

impl Model {
    /// Creates a new team with the given name; the database assigns its id.
    pub fn new(tournament_id: i32, name: String) -> (r: Model)
        ensures
            r.id == 0,
            r.tournament_id == tournament_id,
            r.name@ == name@,
    {
        Model { id: 0, tournament_id, name }
    }
}

} // verus!
