use tstats::db::{pool_bracket, pool_map};
use tstats::osu::{BeatmapDto, DifficultyDto, OsuUserDto};
use tstats::pool::{bracket_maps, pool_map_ids, stage_brackets, PoolBracketDto, PoolDto};

fn beatmap(map_id: u32) -> BeatmapDto<u8> {
    BeatmapDto {
        artist_name: "Artist".to_string(),
        title: "Song".to_string(),
        difficulty_name: format!("Diff {map_id}"),
        mapset_id: 1,
        map_id,
        creator: OsuUserDto { user_id: 3, username: "mapper".to_string(), country: "DE".to_string(), cover_url: String::new() },
        difficulty: DifficultyDto { total_length: 100, drain_time: 90, max_combo: 500, values: 7 },
    }
}

fn bracket(order: i16, name: &str) -> pool_bracket::Model {
    pool_bracket::Model { tournament_id: 1, stage_order: 0, bracket_order: order, name: name.to_string() }
}

fn pool_map(map_order: i16, map_id: i64) -> pool_map::Model {
    pool_map::Model { tournament_id: 1, stage_order: 0, bracket_order: 0, map_order, map_id }
}

#[test]
fn map_ids_keep_the_order_of_the_maps() {
    let maps = vec![pool_map(0, 3_883_001), pool_map(1, 42), pool_map(2, (1i64 << 32) + 5)];
    assert_eq!(pool_map_ids(&maps), vec![3_883_001, 42, 5]);
    assert_eq!(pool_map_ids(&Vec::new()), Vec::<u32>::new());
}

#[test]
fn pool_brackets_are_numbered_in_order() {
    let pool = PoolDto::assemble(
        7,
        2,
        vec![(bracket(0, "NM"), vec![beatmap(10), beatmap(11)]), (bracket(1, "HD"), vec![beatmap(12)])],
    );
    assert_eq!(
        pool,
        PoolDto {
            tournament_id: 7,
            stage_order: 2,
            brackets: vec![
                PoolBracketDto { order: 0, name: "NM".to_string(), maps: vec![beatmap(10), beatmap(11)] },
                PoolBracketDto { order: 1, name: "HD".to_string(), maps: vec![beatmap(12)] },
            ],
        }
    );
}

#[test]
fn empty_pool_has_no_brackets() {
    let pool: PoolDto<u8> = PoolDto::assemble(1, 0, Vec::new());
    assert!(pool.brackets.is_empty());
    assert_eq!((pool.tournament_id, pool.stage_order), (1, 0));
}

#[test]
fn bracket_takes_its_own_maps_in_order() {
    let hd = pool_bracket::Model { tournament_id: 1, stage_order: 0, bracket_order: 1, name: "HD".to_string() };
    let maps = vec![
        pool_map::Model { tournament_id: 1, stage_order: 0, bracket_order: 1, map_order: 0, map_id: 100 },
        pool_map::Model { tournament_id: 1, stage_order: 0, bracket_order: 0, map_order: 0, map_id: 200 },
        pool_map::Model { tournament_id: 1, stage_order: 1, bracket_order: 1, map_order: 0, map_id: 300 },
        pool_map::Model { tournament_id: 2, stage_order: 0, bracket_order: 1, map_order: 1, map_id: 400 },
        pool_map::Model { tournament_id: 1, stage_order: 0, bracket_order: 1, map_order: 1, map_id: 500 },
    ];
    let own = bracket_maps(&hd, &maps);
    assert_eq!(own, vec![maps[0], maps[4]]);
    assert_eq!(pool_map_ids(&own), vec![100, 500]);
}

#[test]
fn bracket_maps_come_in_map_order() {
    let nm = pool_bracket::Model { tournament_id: 1, stage_order: 0, bracket_order: 0, name: "NM".to_string() };
    let maps = vec![
        pool_map::Model { tournament_id: 1, stage_order: 0, bracket_order: 0, map_order: 2, map_id: 30 },
        pool_map::Model { tournament_id: 1, stage_order: 0, bracket_order: 0, map_order: 0, map_id: 10 },
        pool_map::Model { tournament_id: 1, stage_order: 0, bracket_order: 0, map_order: 1, map_id: 20 },
    ];
    assert_eq!(pool_map_ids(&bracket_maps(&nm, &maps)), vec![10, 20, 30]);
}

#[test]
fn stage_brackets_are_those_of_the_stage_in_order() {
    let b = |stage: i16, order: i16, name: &str| pool_bracket::Model {
        tournament_id: 1,
        stage_order: stage,
        bracket_order: order,
        name: name.to_string(),
    };
    let all = vec![b(0, 1, "HD"), b(1, 0, "NM2"), b(0, 0, "NM"), b(1, 1, "HD2"), b(0, 2, "HR")];
    let other = pool_bracket::Model { tournament_id: 2, stage_order: 0, bracket_order: 0, name: "X".to_string() };
    let mut with_other = all.clone();
    with_other.push(other);
    assert_eq!(stage_brackets(1, 0, with_other), vec![b(0, 0, "NM"), b(0, 1, "HD"), b(0, 2, "HR")]);
    assert_eq!(stage_brackets(1, 1, all.clone()), vec![b(1, 0, "NM2"), b(1, 1, "HD2")]);
    assert_eq!(stage_brackets(1, 5, all), vec![]);
}
