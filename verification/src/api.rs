//! The objects of the tournament listing API.
use vstd::prelude::*;

use crate::dates::NaiveDate;
use crate::db::tournament::OsuMode as DbOsuMode;

verus! {

/// The game mode a tournament is played in.
#[derive(Debug, Clone, Copy, PartialEq, Eq, Structural)]
pub enum OsuMode {
    Osu,
    Taiko,
    Catch,
    Mania,
}

/// The game mode of the API for a game mode of the database.
pub open spec fn api_mode(value: DbOsuMode) -> OsuMode {
    match value {
        DbOsuMode::Osu => OsuMode::Osu,
        DbOsuMode::Taiko => OsuMode::Taiko,
        DbOsuMode::Catch => OsuMode::Catch,
        DbOsuMode::Mania => OsuMode::Mania,
    }
}

impl OsuMode {
    /// The game mode of the API for a game mode of the database.
    pub fn from_db(value: DbOsuMode) -> (r: OsuMode)
        ensures
            r == api_mode(value),
    {
        match value {
            DbOsuMode::Osu => OsuMode::Osu,
            DbOsuMode::Taiko => OsuMode::Taiko,
            DbOsuMode::Catch => OsuMode::Catch,
            DbOsuMode::Mania => OsuMode::Mania,
        }
    }
}

/// Each game mode of the database has its own game mode in the API, and each
/// game mode of the API comes from one.
pub proof fn lemma_api_mode_bijective(a: DbOsuMode, b: DbOsuMode, m: OsuMode)
    ensures
        api_mode(a) == api_mode(b) ==> a == b,
        exists|d: DbOsuMode| api_mode(d) == m,
{
    match m {
        OsuMode::Osu => assert(api_mode(DbOsuMode::Osu) == m),
        OsuMode::Taiko => assert(api_mode(DbOsuMode::Taiko) == m),
        OsuMode::Catch => assert(api_mode(DbOsuMode::Catch) == m),
        OsuMode::Mania => assert(api_mode(DbOsuMode::Mania) == m),
    }
}

/// The API names a tournament's game mode as the database stores it: standard
/// osu! stays osu!, taiko stays taiko, catch stays catch and mania stays mania.
pub proof fn lemma_api_mode_same_mode(value: DbOsuMode)
    ensures
        value == DbOsuMode::Osu <==> api_mode(value) == OsuMode::Osu,
        value == DbOsuMode::Taiko <==> api_mode(value) == OsuMode::Taiko,
        value == DbOsuMode::Catch <==> api_mode(value) == OsuMode::Catch,
        value == DbOsuMode::Mania <==> api_mode(value) == OsuMode::Mania,
{
}

/// A tournament.
#[derive(Debug, Clone, PartialEq, Eq)]
pub struct Tournament {
    pub id: i32,
    pub name: String,
    pub shorthand: String,
    pub format: u32,
    pub bws: bool,
    pub mode: OsuMode,
    pub start_date: Option<NaiveDate>,
    pub end_date: Option<NaiveDate>,
    pub banner: Option<Vec<u8>>,
}

/// A rank range of a tournament.
#[derive(Debug, Clone, Copy, PartialEq, Eq, Structural)]
pub struct RankRange {
    pub min: u32,
    pub max: u32,
}

/// A country allowed in a tournament.
#[derive(Debug, Clone, PartialEq, Eq)]
pub struct Country {
    pub country_code: String,
}

/// A tournament with its restrictions.
#[derive(Debug, Clone, PartialEq, Eq)]
pub struct GetAllTournamentsResponse {
    pub tournament: Tournament,
    pub rank_restrictions: Vec<RankRange>,
    pub country_restrictions: Vec<Country>,
}

} // verus!
