//! osu! users and beatmaps, as the API hands them out.
use vstd::prelude::*;

use crate::cache_key::Cacheable;

verus! {

/// What the backend reads of an osu! user with its full profile.
#[derive(Debug, Clone, PartialEq, Eq)]
pub struct UserExtendedSource {
    pub user_id: u32,
    pub username: String,
    /// The 2-character country code.
    pub country_code: String,
    /// The address of the user's profile banner.
    pub cover_url: String,
}

/// What the backend reads of an osu! user.
#[derive(Debug, Clone, PartialEq, Eq)]
pub struct UserSource {
    pub user_id: u32,
    pub username: String,
    /// The country's name, when the osu! API sent it.
    pub country: Option<String>,
}

/// An osu user
#[derive(Debug, Clone, PartialEq, Eq)]
pub struct OsuUserDto {
    /// The osu user id
    pub user_id: u32,
    /// The username with a maximum length of 15 characters
    pub username: String,
    /// 2-Character country code
    pub country: String,
    /// The file name of the user's profile banner
    pub cover_url: String,
}

/// An osu user, as it is cached.
#[derive(Debug, Clone, PartialEq, Eq)]
pub struct OsuUser {
    pub user_id: u32,
    pub username: String,
    pub country: String,
    pub cover_url: String,
}

/// The user who signed in.
#[derive(Debug, Clone, PartialEq, Eq)]
pub struct AuthenticatedUserDto {
    pub user_id: u32,
    pub username: String,
    pub country: String,
}

/// The last segment of the path of `url`, when `url` parses as a URL whose
/// path has segments.
pub uninterp spec fn url_last_path_segment(url: Seq<char>) -> Option<Seq<char>>;

/// Parses `url` with `url::Url::parse` and takes the last of its
/// `path_segments`. The result is named, not stated: URL parsing is the url
/// crate's.
#[verifier::external_body]
fn last_path_segment(url: &str) -> (r: Option<String>)
    ensures
        r matches Some(s) ==> url_last_path_segment(url@) == Some(s@),
        r is None ==> url_last_path_segment(url@) is None,
{
    match url::Url::parse(url) {
        Ok(parsed) => match parsed.path_segments() {
            Some(segments) => match segments.last() {
                Some(segment) => Some(segment.to_owned()),
                None => None,
            },
            None => None,
        },
        Err(_) => None,
    }
}

/// The file name of a profile banner whose address is `url`, given the last
/// segment of the address's path when it has one.
pub open spec fn cover_name(url: Seq<char>, last_segment: Option<Seq<char>>) -> Seq<char> {
    match last_segment {
        Some(segment) => segment,
        None => url,
    }
}

/// The file name of a profile banner: the last segment of the banner's
/// address, or the whole address when it is no URL with path segments.
pub open spec fn cover_file_name_spec(url: Seq<char>) -> Seq<char> {
    cover_name(url, url_last_path_segment(url))
}

/// The file name of a profile banner whose address is `url`, given what the
/// parse of the address gave as the last segment of its path.
pub fn cover_file_name_from(url: &str, last_segment: Option<String>) -> (r: String)
    ensures
        r@ == cover_name(url@, match last_segment {
            Some(s) => Some(s@),
            None => None,
        }),
{
    match last_segment {
        Some(segment) => segment,
        None => url.to_owned(),
    }
}

/// The file name of a profile banner, from its address.
pub fn cover_file_name(url: &str) -> (r: String)
    ensures
        r@ == cover_file_name_spec(url@),
{
    cover_file_name_from(url, last_path_segment(url))
}

impl OsuUserDto {
    /// The user as the API hands it out.
    pub fn from_user(value: UserExtendedSource) -> (r: OsuUserDto)
        ensures
            r.user_id == value.user_id,
            r.username@ == value.username@,
            r.country@ == value.country_code@,
            r.cover_url@ == cover_file_name_spec(value.cover_url@),
    {
        let cover_url = cover_file_name(value.cover_url.as_str());
        OsuUserDto {
            user_id: value.user_id,
            username: value.username,
            country: value.country_code,
            cover_url,
        }
    }
}

impl OsuUser {
    /// The user as it is cached.
    pub fn from_user(value: UserExtendedSource) -> (r: OsuUser)
        ensures
            r.user_id == value.user_id,
            r.username@ == value.username@,
            r.country@ == value.country_code@,
            r.cover_url@ == cover_file_name_spec(value.cover_url@),
    {
        let cover_url = cover_file_name(value.cover_url.as_str());
        OsuUser {
            user_id: value.user_id,
            username: value.username,
            country: value.country_code,
            cover_url,
        }
    }
}

impl AuthenticatedUserDto {
    /// The signed-in user, from the osu! API's answer; the answer must name the
    /// user's country.
    pub fn from_user(value: UserSource) -> (r: AuthenticatedUserDto)
        requires
            value.country is Some,
        ensures
            r.user_id == value.user_id,
            r.username@ == value.username@,
            r.country@ == value.country->0@,
    {
        let country = match value.country {
            Some(c) => c,
            None => { proof { assert(false); } String::new() },
        };
        AuthenticatedUserDto { user_id: value.user_id, username: value.username, country }
    }
}

impl Cacheable for OsuUserDto {
    type KeyType = u32;

    open spec fn spec_type_key() -> Seq<char> {
        "osuuserdto"@
    }

    open spec fn spec_key(&self) -> u32 {
        self.user_id
    }

    fn type_key() -> (r: &'static str) {
        "osuuserdto"
    }

    fn key(&self) -> (r: u32) {
        self.user_id
    }
}

impl Cacheable for OsuUser {
    type KeyType = u32;

    open spec fn spec_type_key() -> Seq<char> {
        "osuuser"@
    }

    open spec fn spec_key(&self) -> u32 {
        self.user_id
    }

    fn type_key() -> (r: &'static str) {
        "osuuser"
    }

    fn key(&self) -> (r: u32) {
        self.user_id
    }
}

/// What the backend reads of a beatmap of a mapset; `D` holds its difficulty
/// values (star rating, BPM, circle size, approach rate, overall difficulty,
/// drain rate), which the library carries without reading them.
#[derive(Debug, Clone, PartialEq, Eq)]
pub struct MapSource<D> {
    /// The id of the beatmap.
    pub map_id: u32,
    /// The id of its mapset.
    pub mapset_id: u32,
    /// The difficulty name.
    pub version: String,
    /// The map's length in seconds.
    pub seconds_total: u32,
    /// The map's drain time in seconds.
    pub seconds_drain: u32,
    /// The maximum combo, when known.
    pub max_combo: Option<u32>,
    /// The difficulty values.
    pub difficulty: D,
}

/// Why a beatmap could not be made from a mapset.
#[derive(Debug, Clone, Copy, PartialEq, Eq)]
pub enum TryFromBeatmapError {
    /// missing attribute
    MissingAttribute(&'static str),
    /// no mapset
    MissingMapset,
    /// no map with this id
    MissingMap(u32),
}

/// Whether the `i`-th map is the first with id `map_id`.
pub open spec fn is_first_map<D>(maps: Seq<MapSource<D>>, map_id: u32, i: int) -> bool {
    &&& 0 <= i < maps.len()
    &&& maps[i].map_id == map_id
    &&& forall|j: int| 0 <= j < i ==> maps[j].map_id != map_id
}

/// Whether some map has id `map_id`.
pub open spec fn has_map<D>(maps: Seq<MapSource<D>>, map_id: u32) -> bool {
    exists|i: int| 0 <= i < maps.len() && maps[i].map_id == map_id
}

/// The position of the first map with id `map_id`, if there is one.
pub fn find_map_index<D>(maps: &Vec<MapSource<D>>, map_id: u32) -> (r: Option<usize>)
    ensures
        r matches Some(i) ==> is_first_map(maps@, map_id, i as int),
        r is None <==> !has_map(maps@, map_id),
{
    let mut i: usize = 0;
    while i < maps.len()
        invariant
            i <= maps@.len(),
            forall|j: int| 0 <= j < i ==> maps@[j].map_id != map_id,
        decreases maps@.len() - i,
    {
        if maps[i].map_id == map_id {
            return Some(i);
        }
        i = i + 1;
    }
    None
}

/// The name of the attribute whose absence makes a beatmap incomplete.
pub const MAX_COMBO_ATTRIBUTE: &'static str = "map.max_combo";

/// Picks, among the maps of a mapset, the map from which the beatmap with id
/// `map_id` is made: the first map with that id, which must know its
/// maximum combo.
pub fn select_beatmap<D>(map_id: u32, maps: &Option<Vec<MapSource<D>>>) -> (r: Result<usize, TryFromBeatmapError>)
    ensures
        r matches Ok(i) ==> maps matches Some(ms) && is_first_map(ms@, map_id, i as int)
            && ms@[i as int].max_combo is Some,
        r matches Err(e) ==> match maps {
            None => e == TryFromBeatmapError::MissingMap(map_id),
            Some(ms) => {
                ||| !has_map(ms@, map_id) && e == TryFromBeatmapError::MissingMap(map_id)
                ||| exists|i: int| is_first_map(ms@, map_id, i) && ms@[i].max_combo is None
                    && e == TryFromBeatmapError::MissingAttribute(MAX_COMBO_ATTRIBUTE)
            },
        },
{
    match maps {
        None => Err(TryFromBeatmapError::MissingMap(map_id)),
        Some(ms) => match find_map_index(ms, map_id) {
            None => Err(TryFromBeatmapError::MissingMap(map_id)),
            Some(i) => {
                if ms[i].max_combo.is_some() {
                    Ok(i)
                } else {
                    Err(TryFromBeatmapError::MissingAttribute(MAX_COMBO_ATTRIBUTE))
                }
            },
        },
    }
}

/// What the backend reads of a mapset.
pub struct MapsetSource<D> {
    pub artist: String,
    pub title: String,
    /// The mapset's maps, when the osu! API sent them.
    pub maps: Option<Vec<MapSource<D>>>,
}

/// A map's difficulty.
#[derive(Debug, Clone, PartialEq)]
pub struct DifficultyDto<D> {
    /// The map's length in seconds
    pub total_length: u32,
    /// The map's drain time in seconds
    pub drain_time: u32,
    pub max_combo: u32,
    /// The difficulty values.
    pub values: D,
}

/// A beatmap of a pool.
#[derive(Debug, Clone, PartialEq)]
pub struct BeatmapDto<D> {
    /// The song's artist's name
    pub artist_name: String,
    /// The song's name
    pub title: String,
    /// The beatmap's difficulty name
    pub difficulty_name: String,
    /// The id of the mapset
    pub mapset_id: u32,
    /// The id of the beatmap
    pub map_id: u32,
    /// The creator of the beatmap
    pub creator: OsuUserDto,
    /// This map's difficulty
    pub difficulty: DifficultyDto<D>,
}

/// Whether `b` is the beatmap made from map `m` of a mapset by `artist`
/// titled `title`, created by `creator`.
pub open spec fn beatmap_of<D>(
    b: BeatmapDto<D>,
    m: MapSource<D>,
    artist: Seq<char>,
    title: Seq<char>,
    creator: OsuUserDto,
) -> bool {
    &&& b.artist_name@ == artist
    &&& b.title@ == title
    &&& b.difficulty_name@ == m.version@
    &&& b.mapset_id == m.mapset_id
    &&& b.map_id == m.map_id
    &&& b.creator == creator
    &&& b.difficulty.total_length == m.seconds_total
    &&& b.difficulty.drain_time == m.seconds_drain
    &&& m.max_combo == Some(b.difficulty.max_combo)
    &&& b.difficulty.values == m.difficulty
}

impl<D> BeatmapDto<D> {
    /// The beatmap with id `map_id` of `mapset`, created by `creator`: made
    /// from the first map with that id, which must know its maximum combo.
    pub fn new(map_id: u32, mapset: MapsetSource<D>, creator: OsuUserDto) -> (r: Result<BeatmapDto<D>, TryFromBeatmapError>)
        ensures
            r matches Ok(b) ==> (mapset.maps matches Some(ms) && exists|i: int|
                #[trigger] is_first_map(ms@, map_id, i) && beatmap_of(
                    b,
                    ms@[i],
                    mapset.artist@,
                    mapset.title@,
                    creator,
                )),
            r matches Err(e) ==> match mapset.maps {
                None => e == TryFromBeatmapError::MissingMap(map_id),
                Some(ms) => {
                    ||| !has_map(ms@, map_id) && e == TryFromBeatmapError::MissingMap(map_id)
                    ||| exists|i: int| #[trigger] is_first_map(ms@, map_id, i) && ms@[i].max_combo is None
                        && e == TryFromBeatmapError::MissingAttribute(MAX_COMBO_ATTRIBUTE)
                },
            },
    {
        let index = match select_beatmap(map_id, &mapset.maps) {
            Ok(i) => i,
            Err(e) => {
                return Err(e);
            },
        };
        let MapsetSource { artist, title, maps } = mapset;
        let mut maps = match maps {
            Some(ms) => ms,
            None => {
                return Err(TryFromBeatmapError::MissingMap(map_id));
            },
        };
        let ghost all = maps@;
        let map = maps.remove(index);
        assert(map == all[index as int]);
        let max_combo = match map.max_combo {
            Some(c) => c,
            None => {
                return Err(TryFromBeatmapError::MissingAttribute(MAX_COMBO_ATTRIBUTE));
            },
        };
        let MapSource { map_id: id, mapset_id, version, seconds_total, seconds_drain, max_combo: _, difficulty } = map;
        Ok(
            BeatmapDto {
                artist_name: artist,
                title,
                difficulty_name: version,
                mapset_id,
                map_id: id,
                creator,
                difficulty: DifficultyDto {
                    total_length: seconds_total,
                    drain_time: seconds_drain,
                    max_combo,
                    values: difficulty,
                },
            },
        )
    }
}

impl<D> Cacheable for BeatmapDto<D> {
    type KeyType = u32;

    open spec fn spec_type_key() -> Seq<char> {
        "beatmap"@
    }

    open spec fn spec_key(&self) -> u32 {
        self.map_id
    }

    fn type_key() -> (r: &'static str) {
        "beatmap"
    }

    fn key(&self) -> (r: u32) {
        self.map_id
    }
}

} // verus!
