//! The `team_member` table: the players of a team.
use vstd::prelude::*;

verus! {

/// A player in a team.
#[derive(Debug, Clone, Copy, PartialEq, Eq, Structural)]
pub struct Model {
    pub team_id: i32,
    pub user_id: i32,
}

impl Model {
    /// Creates a new player with the given id in the given team.
    pub fn new(team_id: i32, user_id: i32) -> (r: Model)
        ensures
            r.team_id == team_id,
            r.user_id == user_id,
    {
        Model { team_id, user_id }
    }
}

} // verus!
