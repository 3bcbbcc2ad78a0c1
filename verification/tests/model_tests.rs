use tstats::api::OsuMode as ApiOsuMode;
use tstats::dates::{NaiveDate, NaiveDateTime};
use tstats::db::tournament::OsuMode;
use tstats::db::{country_restriction, player, rank_restriction, stage, team, tournament};
use tstats::dto::{assemble_tournaments, CountryDto, RankRangeDto, StageDto, TournamentDto};
use tstats::keys::{
    extract_pool_map_key, rank_score_rows, read_score_rows, ExtractedPoolMapKey, PlayerScore, PoolBracketKey,
    PoolMapKey, ScoreRow, StageKey, TournamentKey, MAP_NOT_IN_POOL, NO_BRACKET_KEY, NO_POOL_MAP_KEY,
    NO_STAGE_KEY, NO_TOURNAMENT_KEY,
};
use tstats::status::{Code, Status};

fn full_key() -> PoolMapKey {
    PoolMapKey {
        bracket_key: Some(PoolBracketKey {
            stage_key: Some(StageKey { tournament_key: Some(TournamentKey { id: 614 }), stage_order: 2 }),
            bracket_order: 1,
        }),
        map_order: 3,
    }
}

fn invalid(message: &'static str) -> Result<ExtractedPoolMapKey, Status> {
    Err(Status { code: Code::InvalidArgument, message })
}

#[test]
fn pool_map_key_extracted() {
    assert_eq!(
        extract_pool_map_key(Some(full_key())),
        Ok(ExtractedPoolMapKey { tournament_id: 614, stage_order: 2, bracket_order: 1, map_order: 3 })
    );
}

#[test]
fn pool_map_key_missing_parts() {
    assert_eq!(extract_pool_map_key(None), invalid(NO_POOL_MAP_KEY));
    let mut k = full_key();
    k.bracket_key = None;
    assert_eq!(extract_pool_map_key(Some(k)), invalid(NO_BRACKET_KEY));
    let mut k = full_key();
    k.bracket_key.as_mut().unwrap().stage_key = None;
    assert_eq!(extract_pool_map_key(Some(k)), invalid(NO_STAGE_KEY));
    let mut k = full_key();
    k.bracket_key.as_mut().unwrap().stage_key.as_mut().unwrap().tournament_key = None;
    assert_eq!(extract_pool_map_key(Some(k)), invalid(NO_TOURNAMENT_KEY));
    assert_eq!(NO_POOL_MAP_KEY, "no pool map key");
}

#[test]
fn score_rows_read() {
    let rows = vec![
        ScoreRow { map_id: 4_344_435, player_id: Some(8_116_659), score: Some(1_000_000) },
        ScoreRow { map_id: 4_344_435, player_id: Some(7_075_211), score: Some(900_000) },
    ];
    let (map_id, scores) = read_score_rows(&rows).unwrap();
    assert_eq!(map_id, 4_344_435);
    assert_eq!(
        scores,
        vec![
            PlayerScore { player_id: 8_116_659, score: 1_000_000 },
            PlayerScore { player_id: 7_075_211, score: 900_000 }
        ]
    );
}

#[test]
fn scores_come_best_first() {
    let rows = vec![
        ScoreRow { map_id: 7, player_id: Some(1), score: Some(500) },
        ScoreRow { map_id: 7, player_id: Some(2), score: Some(900) },
        ScoreRow { map_id: 7, player_id: Some(3), score: Some(500) },
        ScoreRow { map_id: 7, player_id: Some(4), score: Some(700) },
    ];
    let (_, scores) = read_score_rows(&rows).unwrap();
    let players: Vec<u32> = scores.iter().map(|s| s.player_id).collect();
    assert_eq!(players, vec![2, 4, 1, 3]);
    assert_eq!(rank_score_rows(&rows)[0], rows[1]);
}

#[test]
fn map_without_scores_has_empty_scores() {
    let rows = vec![ScoreRow { map_id: 99, player_id: None, score: None }];
    assert_eq!(read_score_rows(&rows), Ok((99, vec![])));
}

#[test]
fn no_score_rows_is_not_found() {
    assert_eq!(
        read_score_rows(&vec![]),
        Err(Status { code: Code::NotFound, message: MAP_NOT_IN_POOL })
    );
}

#[test]
fn mode_numbers() {
    assert_eq!(OsuMode::Osu.to_i32(), 0);
    assert_eq!(OsuMode::Taiko.to_i32(), 1);
    assert_eq!(OsuMode::Catch.to_i32(), 2);
    assert_eq!(OsuMode::Mania.to_i32(), 3);
    assert_eq!(ApiOsuMode::from_db(OsuMode::Catch), ApiOsuMode::Catch);
    assert_eq!(ApiOsuMode::from_db(OsuMode::Mania), ApiOsuMode::Mania);
}

fn stage_model() -> stage::Model {
    stage::Model {
        tournament_id: 614,
        stage_order: 2,
        name: "RO16".to_string(),
        best_of: 7,
        start_date: Some(NaiveDateTime { days_from_ce: 738_000, secs_of_day: 4000, nanos: 5 }),
        end_date: None,
    }
}

#[test]
fn stage_to_dto_and_back() {
    let dto = StageDto::from_model(stage_model());
    assert_eq!(
        dto,
        StageDto {
            tournament_id: 614,
            stage_order: 2,
            name: "RO16".to_string(),
            best_of: 7,
            start_date: Some(NaiveDate { days_from_ce: 738_000 }),
            end_date: None,
        }
    );
    let back = dto.into_model();
    let mut expected = stage_model();
    expected.start_date = Some(NaiveDateTime { days_from_ce: 738_000, secs_of_day: 0, nanos: 0 });
    assert_eq!(back, expected);
}

#[test]
fn new_records() {
    let s = stage::Model::new("QF".to_string(), 3, 9);
    assert_eq!((s.tournament_id, s.stage_order, s.best_of, s.name.as_str()), (0, 3, 9, "QF"));
    assert!(s.start_date.is_none() && s.end_date.is_none());
    let t = team::Model::new(754, "My Example Team".to_string());
    assert_eq!((t.id, t.tournament_id, t.name.as_str()), (0, 754, "My Example Team"));
    let p = player::Model::new(132, 8_116_659);
    assert_eq!((p.team_id, p.user_id), (132, 8_116_659));
}

fn tournament_model(id: i32) -> tournament::Model {
    tournament::Model {
        id,
        name: "Osu World Cup 2023".to_string(),
        shorthand: "OWC23".to_string(),
        format: 4,
        bws: false,
        mode: OsuMode::Osu,
        start_date: Some(NaiveDateTime { days_from_ce: 738_700, secs_of_day: 1, nanos: 0 }),
        end_date: None,
        banner: None,
    }
}

#[test]
fn tournament_dto_from_parts() {
    let ranks = vec![
        rank_restriction::Model { tournament_id: 1, tier: 0, min: 100, max: 2500 },
        rank_restriction::Model { tournament_id: 1, tier: 1, min: 2500, max: 5000 },
    ];
    let countries = vec![country_restriction::Model { tournament_id: 1, country_code: "DE".to_string() }];
    let dto = TournamentDto::from_parts(tournament_model(1), &ranks, &countries, Some(vec![1, 2, 3]));
    assert_eq!(dto.id, 1);
    assert_eq!(dto.format, 4);
    assert_eq!(dto.start_date, Some(NaiveDate { days_from_ce: 738_700 }));
    assert_eq!(dto.end_date, None);
    assert_eq!(dto.banner, Some(vec![1, 2, 3]));
    assert_eq!(
        dto.rank_restrictions,
        vec![RankRangeDto { min: 100, max: 2500 }, RankRangeDto { min: 2500, max: 5000 }]
    );
    assert_eq!(dto.country_restrictions, vec![CountryDto { country_code: "DE".to_string() }]);
}

#[test]
fn tournaments_assembled_position_by_position() {
    let ts = vec![tournament_model(1), tournament_model(2), tournament_model(3)];
    let ranks = vec![vec![], vec![rank_restriction::Model { tournament_id: 2, tier: 0, min: 1, max: 2 }]];
    let countries = vec![vec![], vec![], vec![]];
    let banners = vec![None, None, None];
    let dtos = assemble_tournaments(ts, &ranks, &countries, banners);
    assert_eq!(dtos.len(), 2);
    assert_eq!(dtos[0].id, 1);
    assert_eq!(dtos[1].id, 2);
    assert_eq!(dtos[1].rank_restrictions, vec![RankRangeDto { min: 1, max: 2 }]);
}
