//! The `tournament` table.
use vstd::prelude::*;

use crate::dates::NaiveDateTime;

verus! {

/// The game mode a tournament is played in.
#[derive(Debug, Clone, Copy, PartialEq, Eq, Structural)]
pub enum OsuMode {
    Osu,
    Taiko,
    Catch,
    Mania,
}

/// The number that stands for a game mode.
pub open spec fn mode_number(mode: OsuMode) -> i32 {
    match mode {
        OsuMode::Osu => 0,
        OsuMode::Taiko => 1,
        OsuMode::Catch => 2,
        OsuMode::Mania => 3,
    }
}

impl OsuMode {
    /// The number that stands for this game mode, as `i32::from` gives it.
    pub fn to_i32(self) -> (r: i32)
        ensures
            r == mode_number(self),
    {
        match self {
            OsuMode::Osu => 0,
            OsuMode::Taiko => 1,
            OsuMode::Catch => 2,
            OsuMode::Mania => 3,
        }
    }
}

/// Distinct game modes stand for distinct numbers, all between 0 and 3.
pub proof fn lemma_mode_number_injective(a: OsuMode, b: OsuMode)
    ensures
        0 <= mode_number(a) <= 3,
        mode_number(a) == mode_number(b) ==> a == b,
{
}

/// A tournament with its associated data.
#[derive(Debug, Clone, PartialEq, Eq)]
pub struct Model {
    /// The database id for this tournament
    pub id: i32,
    /// The tournament's full name
    pub name: String,
    /// This tournament's shorthand name
    pub shorthand: String,
    /// The tournament format, i.e. how many players are playing at any one time.
    pub format: i32,
    /// Whether this tournament uses badge-weighting to adjust player's ranks.
    pub bws: bool,
    /// The game mode.
    pub mode: OsuMode,
    pub start_date: Option<NaiveDateTime>,
    pub end_date: Option<NaiveDateTime>,
    /// The file name of the tournament's banner.
    pub banner: Option<String>,
}

} // verus!
