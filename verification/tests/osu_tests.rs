use tstats::cache_key::Cacheable;
use tstats::osu::{
    BeatmapDto, DifficultyDto, MapsetSource, cover_file_name, cover_file_name_from, find_map_index, select_beatmap, AuthenticatedUserDto, MapSource, OsuUser,
    OsuUserDto, TryFromBeatmapError, UserExtendedSource, UserSource, MAX_COMBO_ATTRIBUTE,
};

#[test]
fn cover_file_name_is_last_path_segment() {
    assert_eq!(
        cover_file_name("https://assets.ppy.sh/user-profile-covers/2/abc123.jpeg"),
        "abc123.jpeg"
    );
    assert_eq!(cover_file_name("https://example.com"), "");
}

#[test]
fn cover_file_name_from_parsed_segment() {
    assert_eq!(cover_file_name_from("https://a.b/c/d.png", Some("d.png".to_string())), "d.png");
    assert_eq!(cover_file_name_from("no url", None), "no url");
}

#[test]
fn cover_file_name_of_no_url_is_whole_text() {
    assert_eq!(cover_file_name("not a url"), "not a url");
    assert_eq!(cover_file_name("data:text/plain,HelloWorld"), "data:text/plain,HelloWorld");
}

fn extended() -> UserExtendedSource {
    UserExtendedSource {
        user_id: 2,
        username: "peppy".to_string(),
        country_code: "AU".to_string(),
        cover_url: "https://assets.ppy.sh/user-profile-covers/2/c.jpg".to_string(),
    }
}

#[test]
fn osu_user_from_profile() {
    let dto = OsuUserDto::from_user(extended());
    assert_eq!(
        dto,
        OsuUserDto {
            user_id: 2,
            username: "peppy".to_string(),
            country: "AU".to_string(),
            cover_url: "c.jpg".to_string()
        }
    );
    let user = OsuUser::from_user(extended());
    assert_eq!(user.cover_url, "c.jpg");
    assert_eq!(user.full_key(), "osuuser:2");
}

#[test]
fn authenticated_user() {
    let u = AuthenticatedUserDto::from_user(UserSource {
        user_id: 7,
        username: "x".to_string(),
        country: Some("Germany".to_string()),
    });
    assert_eq!(u, AuthenticatedUserDto { user_id: 7, username: "x".to_string(), country: "Germany".to_string() });
}

fn map(id: u32, combo: Option<u32>) -> MapSource<f32> {
    MapSource {
        map_id: id,
        mapset_id: 1,
        version: "Insane".to_string(),
        seconds_total: 120,
        seconds_drain: 110,
        max_combo: combo,
        difficulty: 5.25,
    }
}

#[test]
fn beatmap_selected_by_id() {
    let maps = Some(vec![map(10, Some(500)), map(11, Some(700)), map(11, None)]);
    assert_eq!(select_beatmap(11, &maps), Ok(1));
    assert_eq!(find_map_index(maps.as_ref().unwrap(), 10), Some(0));
    assert_eq!(find_map_index(maps.as_ref().unwrap(), 12), None);
}

#[test]
fn beatmap_errors() {
    assert_eq!(select_beatmap::<f32>(5, &None), Err(TryFromBeatmapError::MissingMap(5)));
    assert_eq!(select_beatmap(5, &Some(vec![map(4, Some(1))])), Err(TryFromBeatmapError::MissingMap(5)));
    assert_eq!(
        select_beatmap(4, &Some(vec![map(4, None), map(4, Some(3))])),
        Err(TryFromBeatmapError::MissingAttribute(MAX_COMBO_ATTRIBUTE))
    );
    assert_eq!(MAX_COMBO_ATTRIBUTE, "map.max_combo");
}

fn creator() -> OsuUserDto {
    OsuUserDto { user_id: 3, username: "mapper".to_string(), country: "DE".to_string(), cover_url: String::new() }
}

#[test]
fn beatmap_made_from_its_map() {
    let mut other = map(11, Some(700));
    other.version = "Extra".to_string();
    other.difficulty = 6.5;
    let mapset = MapsetSource {
        artist: "Artist".to_string(),
        title: "Song".to_string(),
        maps: Some(vec![map(10, Some(500)), other]),
    };
    let b = BeatmapDto::new(11, mapset, creator()).unwrap();
    assert_eq!(
        b,
        BeatmapDto {
            artist_name: "Artist".to_string(),
            title: "Song".to_string(),
            difficulty_name: "Extra".to_string(),
            mapset_id: 1,
            map_id: 11,
            creator: creator(),
            difficulty: DifficultyDto { total_length: 120, drain_time: 110, max_combo: 700, values: 6.5 },
        }
    );
    assert_eq!(b.full_key(), "beatmap:11");
}

#[test]
fn beatmap_new_errors() {
    let no_maps: MapsetSource<f32> = MapsetSource { artist: String::new(), title: String::new(), maps: None };
    assert_eq!(BeatmapDto::new(1, no_maps, creator()), Err(TryFromBeatmapError::MissingMap(1)));
    let no_combo = MapsetSource { artist: String::new(), title: String::new(), maps: Some(vec![map(1, None)]) };
    assert_eq!(
        BeatmapDto::new(1, no_combo, creator()),
        Err(TryFromBeatmapError::MissingAttribute("map.max_combo"))
    );
}
