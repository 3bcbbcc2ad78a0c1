//! Keys that name a tournament, a stage, a pool bracket and a map of a pool,
//! and the answer to a request for the scores on a map of a pool.
use vstd::prelude::*;

use crate::status::{Code, Status};

verus! {

/// Names a tournament.
#[derive(Debug, Clone, Copy, PartialEq, Eq, Structural)]
pub struct TournamentKey {
    pub id: i32,
}

/// Names a stage of a tournament.
#[derive(Debug, Clone, Copy, PartialEq, Eq, Structural)]
pub struct StageKey {
    pub tournament_key: Option<TournamentKey>,
    pub stage_order: u32,
}

/// Names a bracket of a stage's pool.
#[derive(Debug, Clone, Copy, PartialEq, Eq, Structural)]
pub struct PoolBracketKey {
    pub stage_key: Option<StageKey>,
    pub bracket_order: u32,
}

/// Names a map of a pool bracket.
#[derive(Debug, Clone, Copy, PartialEq, Eq, Structural)]
pub struct PoolMapKey {
    pub bracket_key: Option<PoolBracketKey>,
    pub map_order: u32,
}

/// The four coordinates of a map of a pool.
#[derive(Debug, Clone, Copy, PartialEq, Eq, Structural)]
pub struct ExtractedPoolMapKey {
    pub tournament_id: i32,
    pub stage_order: u32,
    pub bracket_order: u32,
    pub map_order: u32,
}

/// The answer to a request without a pool map key.
pub const NO_POOL_MAP_KEY: &'static str = "no pool map key";

/// The answer to a pool map key without a bracket key.
pub const NO_BRACKET_KEY: &'static str = "no bracket key";

/// The answer to a bracket key without a stage key.
pub const NO_STAGE_KEY: &'static str = "no stage key";

/// The answer to a stage key without a tournament key.
pub const NO_TOURNAMENT_KEY: &'static str = "no tournament key";

/// Reads the coordinates of a map of a pool out of its nested key; the first
/// missing part is reported as an invalid argument.
pub fn extract_pool_map_key(key: Option<PoolMapKey>) -> (r: Result<ExtractedPoolMapKey, Status>)
    ensures
        r == match key {
            None => Err(Status { code: Code::InvalidArgument, message: NO_POOL_MAP_KEY }),
            Some(m) => match m.bracket_key {
                None => Err(Status { code: Code::InvalidArgument, message: NO_BRACKET_KEY }),
                Some(b) => match b.stage_key {
                    None => Err(Status { code: Code::InvalidArgument, message: NO_STAGE_KEY }),
                    Some(s) => match s.tournament_key {
                        None => Err(Status { code: Code::InvalidArgument, message: NO_TOURNAMENT_KEY }),
                        Some(t) => Ok(
                            ExtractedPoolMapKey {
                                tournament_id: t.id,
                                stage_order: s.stage_order,
                                bracket_order: b.bracket_order,
                                map_order: m.map_order,
                            },
                        ),
                    },
                },
            },
        },
{
    let pool_map_key = match key {
        Some(k) => k,
        None => {
            return Err(Status::new(Code::InvalidArgument, NO_POOL_MAP_KEY));
        },
    };
    let bracket_key = match pool_map_key.bracket_key {
        Some(k) => k,
        None => {
            return Err(Status::new(Code::InvalidArgument, NO_BRACKET_KEY));
        },
    };
    let stage_key = match bracket_key.stage_key {
        Some(k) => k,
        None => {
            return Err(Status::new(Code::InvalidArgument, NO_STAGE_KEY));
        },
    };
    let tournament_key = match stage_key.tournament_key {
        Some(k) => k,
        None => {
            return Err(Status::new(Code::InvalidArgument, NO_TOURNAMENT_KEY));
        },
    };
    Ok(
        ExtractedPoolMapKey {
            map_order: pool_map_key.map_order,
            bracket_order: bracket_key.bracket_order,
            stage_order: stage_key.stage_order,
            tournament_id: tournament_key.id,
        },
    )
}

/// A row of the scores on a map of a pool: the map joined with one of its
/// scores, or, for a map without scores, with none (player and score absent).
#[derive(Debug, Clone, Copy, PartialEq, Eq, Structural)]
pub struct ScoreRow {
    pub map_id: i64,
    pub player_id: Option<i32>,
    pub score: Option<i64>,
}

/// A player's score, before the player is looked up.
#[derive(Debug, Clone, Copy, PartialEq, Eq, Structural)]
pub struct PlayerScore {
    pub player_id: u32,
    pub score: u64,
}

/// Whether the row holds a score.
pub open spec fn is_scored(row: ScoreRow) -> bool {
    row.player_id is Some && row.score is Some
}

/// The score of a scored row, as a number.
pub open spec fn row_score(row: ScoreRow) -> int {
    row.score->0 as int
}

/// The rows of `rows` that hold a score, in their order.
pub open spec fn scored_rows(rows: Seq<ScoreRow>) -> Seq<ScoreRow>
    decreases rows.len(),
{
    if rows.len() == 0 {
        Seq::empty()
    } else if is_scored(rows.last()) {
        scored_rows(rows.drop_last()).push(rows.last())
    } else {
        scored_rows(rows.drop_last())
    }
}

/// Whether the scores of `ranked` never increase.
pub open spec fn best_first(ranked: Seq<ScoreRow>) -> bool {
    forall|i: int, j: int| 0 <= i < j < ranked.len() ==> row_score(#[trigger] ranked[i]) >= row_score(#[trigger] ranked[j])
}

/// Whether `ranked` holds exactly the scored rows of `rows`, best score first.
pub open spec fn is_ranking(ranked: Seq<ScoreRow>, rows: Seq<ScoreRow>) -> bool {
    &&& best_first(ranked)
    &&& ranked.to_multiset() == scored_rows(rows).to_multiset()
}

/// The player and score of a scored row.
pub open spec fn score_of_row(row: ScoreRow) -> PlayerScore {
    PlayerScore { player_id: row.player_id->0 as u32, score: row.score->0 as u64 }
}

/// Whether the row's score is at least `score`; a row without a score counts as such.
fn scores_at_least(row: &ScoreRow, score: i64) -> (b: bool)
    ensures
        b == match row.score {
            Some(other) => other >= score,
            None => true,
        },
{
    match row.score {
        Some(other) => other >= score,
        None => true,
    }
}

/// The rows that hold a score, best score first; rows of equal score keep their order.
pub fn rank_score_rows(rows: &Vec<ScoreRow>) -> (r: Vec<ScoreRow>)
    ensures
        is_ranking(r@, rows@),
        forall|k: int| 0 <= k < r@.len() ==> is_scored(#[trigger] r@[k]),
{
    let mut r: Vec<ScoreRow> = Vec::new();
    let mut i: usize = 0;
    while i < rows.len()
        invariant
            i <= rows@.len(),
            best_first(r@),
            forall|k: int| 0 <= k < r@.len() ==> is_scored(#[trigger] r@[k]),
            r@.to_multiset() == scored_rows(rows@.take(i as int)).to_multiset(),
        decreases rows@.len() - i,
    {
        let row = rows[i];
        let ghost t = rows@.take(i + 1);
        assert(t.drop_last() =~= rows@.take(i as int));
        assert(t.last() == row);
        match (row.player_id, row.score) {
            (Some(_), Some(score)) => {
                let mut p: usize = 0;
                while p < r.len() && scores_at_least(&r[p], score)
                    invariant
                        p <= r@.len(),
                        forall|k: int| 0 <= k < p ==> row_score(#[trigger] r@[k]) >= score,
                        forall|k: int| 0 <= k < r@.len() ==> is_scored(#[trigger] r@[k]),
                    decreases r@.len() - p,
                {
                    p = p + 1;
                }
                let ghost before = r@;
                r.insert(p, row);
                assert(scored_rows(t) == scored_rows(rows@.take(i as int)).push(row));
                assert(r@ == before.insert(p as int, row));
                proof {
                    vstd::seq_lib::to_multiset_insert(before, p as int, row);
                    vstd::seq_lib::to_multiset_build(scored_rows(rows@.take(i as int)), row);
                }
                assert forall|a: int, b: int| 0 <= a < b < r@.len() implies row_score(#[trigger] r@[a])
                    >= row_score(#[trigger] r@[b]) by {
                    if a < p as int && b == p as int {
                    } else if a == p as int {
                        assert(row_score(before[b - 1]) <= row_score(before[p as int]));
                    } else if a < p as int {
                        assert(row_score(before[a]) >= row_score(before[b - 1]));
                    } else {
                        assert(row_score(before[a - 1]) >= row_score(before[b - 1]));
                    }
                }
            },
            _ => {
                assert(scored_rows(t) == scored_rows(rows@.take(i as int)));
            },
        }
        i = i + 1;
    }
    assert(rows@.take(rows@.len() as int) =~= rows@);
    r
}

/// The answer to a request for the scores on a map that is not in the pool.
pub const MAP_NOT_IN_POOL: &'static str = "map does not exist in pool";

/// Reads the scores on a map of a pool: the map's osu! id, taken from the
/// first row, and the player and score of each scored row, best score first.
/// No rows at all means the map is not in the pool; a map whose only row holds
/// no score has no scores.
pub fn read_score_rows(rows: &Vec<ScoreRow>) -> (r: Result<(u32, Vec<PlayerScore>), Status>)
    ensures
        rows@.len() == 0 <==> (r is Err),
        r matches Err(s) ==> s == Status::spec_new(Code::NotFound, MAP_NOT_IN_POOL),
        r matches Ok((map_id, scores)) ==> {
            &&& map_id == rows@[0].map_id as u32
            &&& exists|ranked: Seq<ScoreRow>|
                #[trigger] is_ranking(ranked, rows@) && scores@.len() == ranked.len() && forall|i: int|
                    0 <= i < ranked.len() ==> #[trigger] scores@[i] == score_of_row(ranked[i])
        },
{
    if rows.len() == 0 {
        return Err(Status::new(Code::NotFound, MAP_NOT_IN_POOL));
    }
    let map_id = rows[0].map_id as u32;
    let ranked = rank_score_rows(rows);
    let mut scores: Vec<PlayerScore> = Vec::new();
    let mut i: usize = 0;
    while i < ranked.len()
        invariant
            i <= ranked@.len(),
            scores@.len() == i,
            forall|k: int| 0 <= k < ranked@.len() ==> is_scored(#[trigger] ranked@[k]),
            forall|j: int| 0 <= j < i ==> #[trigger] scores@[j] == score_of_row(ranked@[j]),
        decreases ranked@.len() - i,
    {
        let row = ranked[i];
        assert(is_scored(ranked@[i as int]));
        let player_id = match row.player_id {
            Some(p) => p,
            None => 0,
        };
        let score = match row.score {
            Some(s) => s,
            None => 0,
        };
        scores.push(PlayerScore { player_id: player_id as u32, score: score as u64 });
        i = i + 1;
    }
    assert(is_ranking(ranked@, rows@));
    Ok((map_id, scores))
}

} // verus!
