//! The objects that the API hands out for tournaments and stages, and their
//! conversions from and to the records of the database.
use vstd::prelude::*;

use crate::dates::{NaiveDate, NaiveDateTime};
use crate::db::{country_restriction, rank_restriction, stage, tournament};

verus! {

/// A stage of a tournament.
#[derive(Debug, Clone, PartialEq, Eq)]
pub struct StageDto {
    pub tournament_id: usize,
    pub stage_order: usize,
    pub name: String,
    pub best_of: usize,
    pub start_date: Option<NaiveDate>,
    pub end_date: Option<NaiveDate>,
}

/// The date of an optional date and time.
pub open spec fn date_of(dt: Option<NaiveDateTime>) -> Option<NaiveDate> {
    match dt {
        Some(dt) => Some(NaiveDate { days_from_ce: dt.days_from_ce }),
        None => None,
    }
}

/// An optional date at midnight.
pub open spec fn midnight_of(d: Option<NaiveDate>) -> Option<NaiveDateTime> {
    match d {
        Some(d) => Some(NaiveDateTime { days_from_ce: d.days_from_ce, secs_of_day: 0, nanos: 0 }),
        None => None,
    }
}

/// A date and time handed out as a date keeps its day, whatever its time of
/// day, and a date stored as a date and time is that day at midnight; absent
/// dates stay absent.
pub proof fn lemma_dates_keep_their_day(dt: Option<NaiveDateTime>, d: Option<NaiveDate>)
    ensures
        date_of(dt) is Some <==> dt is Some,
        date_of(dt) matches Some(day) ==> day.days_from_ce == dt->0.days_from_ce,
        midnight_of(d) is Some <==> d is Some,
        midnight_of(d) matches Some(m) ==> m.days_from_ce == d->0.days_from_ce && m.secs_of_day == 0
            && m.nanos == 0,
{
}

fn optional_date(dt: &Option<NaiveDateTime>) -> (r: Option<NaiveDate>)
    ensures
        r == date_of(*dt),
{
    match dt {
        Some(dt) => Some(dt.date()),
        None => None,
    }
}

fn optional_midnight(d: &Option<NaiveDate>) -> (r: Option<NaiveDateTime>)
    ensures
        r == midnight_of(*d),
{
    match d {
        Some(d) => Some(d.at_midnight()),
        None => None,
    }
}

impl StageDto {
    /// The stage as the API hands it out; its dates lose their time of day.
    pub fn from_model(value: stage::Model) -> (r: StageDto)
        ensures
            r.tournament_id == value.tournament_id as usize,
            r.stage_order == value.stage_order as usize,
            r.name@ == value.name@,
            r.best_of == value.best_of as usize,
            r.start_date == date_of(value.start_date),
            r.end_date == date_of(value.end_date),
    {
        let start_date = optional_date(&value.start_date);
        let end_date = optional_date(&value.end_date);
        StageDto {
            tournament_id: value.tournament_id as usize,
            stage_order: value.stage_order as usize,
            name: value.name,
            best_of: value.best_of as usize,
            start_date,
            end_date,
        }
    }

    /// The stage as it is stored; its dates start at midnight.
    pub fn into_model(self) -> (r: stage::Model)
        ensures
            r.tournament_id == self.tournament_id as i32,
            r.stage_order == self.stage_order as i16,
            r.name@ == self.name@,
            r.best_of == self.best_of as i16,
            r.start_date == midnight_of(self.start_date),
            r.end_date == midnight_of(self.end_date),
    {
        let start_date = optional_midnight(&self.start_date);
        let end_date = optional_midnight(&self.end_date);
        stage::Model {
            tournament_id: self.tournament_id as i32,
            stage_order: self.stage_order as i16,
            name: self.name,
            best_of: self.best_of as i16,
            start_date,
            end_date,
        }
    }
}

/// A stage handed out and stored again keeps its tournament, order, name,
/// best-of and dates; only the times of its dates become midnight.
pub proof fn lemma_stage_round_trip(m: stage::Model, d: StageDto, back: stage::Model)
    requires
        d.tournament_id == m.tournament_id as usize,
        d.stage_order == m.stage_order as usize,
        d.name@ == m.name@,
        d.best_of == m.best_of as usize,
        d.start_date == date_of(m.start_date),
        d.end_date == date_of(m.end_date),
        back.tournament_id == d.tournament_id as i32,
        back.stage_order == d.stage_order as i16,
        back.name@ == d.name@,
        back.best_of == d.best_of as i16,
        back.start_date == midnight_of(d.start_date),
        back.end_date == midnight_of(d.end_date),
    ensures
        back.tournament_id == m.tournament_id,
        back.stage_order == m.stage_order,
        back.name@ == m.name@,
        back.best_of == m.best_of,
        date_of(back.start_date) == date_of(m.start_date),
        date_of(back.end_date) == date_of(m.end_date),
{
    let t = m.tournament_id;
    let s = m.stage_order;
    let b = m.best_of;
    assert(((t as usize) as i32) == t) by (bit_vector);
    assert(((s as usize) as i16) == s) by (bit_vector);
    assert(((b as usize) as i16) == b) by (bit_vector);
}

/// A rank range of a tournament.
#[derive(Debug, Clone, Copy, PartialEq, Eq, Structural)]
pub struct RankRangeDto {
    pub min: usize,
    pub max: usize,
}

/// A country allowed in a tournament.
#[derive(Debug, Clone, PartialEq, Eq)]
pub struct CountryDto {
    pub country_code: String,
}

/// The range of a rank restriction.
pub open spec fn rank_range_of(t: rank_restriction::Model) -> RankRangeDto {
    RankRangeDto { min: t.min as usize, max: t.max as usize }
}

impl RankRangeDto {
    /// The range of a rank restriction.
    pub fn from_model(t: &rank_restriction::Model) -> (r: RankRangeDto)
        ensures
            r == rank_range_of(*t),
    {
        RankRangeDto { min: t.min as usize, max: t.max as usize }
    }
}

impl CountryDto {
    /// The country of a country restriction.
    pub fn from_model(t: &country_restriction::Model) -> (r: CountryDto)
        ensures
            r.country_code@ == t.country_code@,
    {
        CountryDto { country_code: t.country_code.clone() }
    }
}

/// A tournament with its restrictions, as the API hands it out.
#[derive(Debug, Clone, PartialEq, Eq)]
pub struct TournamentDto {
    pub id: usize,
    pub name: String,
    pub shorthand: String,
    pub format: usize,
    pub bws: bool,
    pub mode: tournament::OsuMode,
    pub start_date: Option<NaiveDate>,
    pub end_date: Option<NaiveDate>,
    pub banner: Option<Vec<u8>>,
    pub rank_restrictions: Vec<RankRangeDto>,
    pub country_restrictions: Vec<CountryDto>,
}

/// The ranges of rank restrictions, in their order.
pub fn rank_ranges(ranks: &Vec<rank_restriction::Model>) -> (r: Vec<RankRangeDto>)
    ensures
        r@.len() == ranks@.len(),
        forall|i: int| 0 <= i < ranks@.len() ==> #[trigger] r@[i] == rank_range_of(ranks@[i]),
{
    let mut r: Vec<RankRangeDto> = Vec::new();
    let mut i: usize = 0;
    while i < ranks.len()
        invariant
            i <= ranks@.len(),
            r@.len() == i,
            forall|j: int| 0 <= j < i ==> #[trigger] r@[j] == rank_range_of(ranks@[j]),
        decreases ranks@.len() - i,
    {
        r.push(RankRangeDto::from_model(&ranks[i]));
        i = i + 1;
    }
    r
}

/// The countries of country restrictions, in their order.
pub fn countries(restrictions: &Vec<country_restriction::Model>) -> (r: Vec<CountryDto>)
    ensures
        r@.len() == restrictions@.len(),
        forall|i: int|
            0 <= i < restrictions@.len() ==> (#[trigger] r@[i]).country_code@
                == restrictions@[i].country_code@,
{
    let mut r: Vec<CountryDto> = Vec::new();
    let mut i: usize = 0;
    while i < restrictions.len()
        invariant
            i <= restrictions@.len(),
            r@.len() == i,
            forall|j: int|
                0 <= j < i ==> (#[trigger] r@[j]).country_code@ == restrictions@[j].country_code@,
        decreases restrictions@.len() - i,
    {
        r.push(CountryDto::from_model(&restrictions[i]));
        i = i + 1;
    }
    r
}

/// Whether `dto` is the tournament `t` with its rank restrictions `ranks`,
/// its country restrictions `countries` and the banner `banner`.
pub open spec fn tournament_dto_of(
    dto: TournamentDto,
    t: tournament::Model,
    ranks: Seq<rank_restriction::Model>,
    countries: Seq<country_restriction::Model>,
    banner: Option<Vec<u8>>,
) -> bool {
    &&& dto.id == t.id as usize
    &&& dto.name@ == t.name@
    &&& dto.shorthand@ == t.shorthand@
    &&& dto.format == t.format as usize
    &&& dto.bws == t.bws
    &&& dto.mode == t.mode
    &&& dto.start_date == date_of(t.start_date)
    &&& dto.end_date == date_of(t.end_date)
    &&& dto.banner == banner
    &&& dto.rank_restrictions@.len() == ranks.len()
    &&& (forall|i: int|
        0 <= i < ranks.len() ==> #[trigger] dto.rank_restrictions@[i] == rank_range_of(ranks[i]))
    &&& dto.country_restrictions@.len() == countries.len()
    &&& (forall|i: int|
        0 <= i < countries.len() ==> (#[trigger] dto.country_restrictions@[i]).country_code@
            == countries[i].country_code@)
}

impl TournamentDto {
    /// The tournament with its restrictions and banner.
    pub fn from_parts(
        tournament: tournament::Model,
        rank_restrictions: &Vec<rank_restriction::Model>,
        country_restrictions: &Vec<country_restriction::Model>,
        banner: Option<Vec<u8>>,
    ) -> (r: TournamentDto)
        ensures
            tournament_dto_of(r, tournament, rank_restrictions@, country_restrictions@, banner),
    {
        let start_date = optional_date(&tournament.start_date);
        let end_date = optional_date(&tournament.end_date);
        TournamentDto {
            id: tournament.id as usize,
            name: tournament.name,
            shorthand: tournament.shorthand,
            format: tournament.format as usize,
            bws: tournament.bws,
            mode: tournament.mode,
            start_date,
            end_date,
            banner,
            rank_restrictions: rank_ranges(rank_restrictions),
            country_restrictions: countries(country_restrictions),
        }
    }
}

/// A tournament with given records, restrictions and banner is described in
/// one way only: the entry that `assemble_tournaments` gives for a tournament
/// (the list of all tournaments) and what `TournamentDto::from_parts` gives for
/// it (a tournament by its id) agree in every field when they are built from
/// the same records.
pub proof fn lemma_tournament_dto_determined(
    d1: TournamentDto,
    d2: TournamentDto,
    t: tournament::Model,
    ranks: Seq<rank_restriction::Model>,
    countries: Seq<country_restriction::Model>,
    banner: Option<Vec<u8>>,
)
    requires
        tournament_dto_of(d1, t, ranks, countries, banner),
        tournament_dto_of(d2, t, ranks, countries, banner),
    ensures
        d1.id == d2.id,
        d1.name@ == d2.name@,
        d1.shorthand@ == d2.shorthand@,
        d1.format == d2.format,
        d1.bws == d2.bws,
        d1.mode == d2.mode,
        d1.start_date == d2.start_date,
        d1.end_date == d2.end_date,
        d1.banner == d2.banner,
        d1.rank_restrictions@ == d2.rank_restrictions@,
        d1.country_restrictions@.len() == d2.country_restrictions@.len(),
        forall|i: int|
            0 <= i < d1.country_restrictions@.len() ==> (#[trigger] d1.country_restrictions@[i]).country_code@
                == d2.country_restrictions@[i].country_code@,
{
    assert(d1.rank_restrictions@ =~= d2.rank_restrictions@);
}

/// Looking a tournament up by its id finds the record that the list of all
/// tournaments made its entry from: when the stored ids are distinct and not
/// negative (they are the table's primary key), an id that the list shows
/// belongs to exactly the record at that entry's position, and an id that no
/// record has appears in no entry. Together with
/// `lemma_tournament_dto_determined`, the tournament built from that record and
/// its restrictions and banner is the list's entry.
pub proof fn lemma_lookup_by_id_matches_list(
    tournaments: Seq<tournament::Model>,
    ranks: Seq<Seq<rank_restriction::Model>>,
    countries: Seq<Seq<country_restriction::Model>>,
    banners: Seq<Option<Vec<u8>>>,
    all: Seq<TournamentDto>,
    id: usize,
)
    requires
        all.len() <= tournaments.len(),
        all.len() <= ranks.len(),
        all.len() <= countries.len(),
        all.len() <= banners.len(),
        forall|i: int|
            0 <= i < all.len() ==> tournament_dto_of(
                #[trigger] all[i],
                tournaments[i],
                ranks[i],
                countries[i],
                banners[i],
            ),
        forall|i: int| 0 <= i < tournaments.len() ==> 0 <= #[trigger] tournaments[i].id,
        forall|i: int, j: int|
            0 <= i < j < tournaments.len() ==> #[trigger] tournaments[i].id != #[trigger] tournaments[j].id,
    ensures
        forall|i: int, j: int|
            0 <= i < all.len() && 0 <= j < tournaments.len() && #[trigger] tournaments[j].id as usize
                == #[trigger] all[i].id ==> j == i,
        (forall|j: int| 0 <= j < tournaments.len() ==> #[trigger] tournaments[j].id as usize != id) ==> forall|
            i: int,
        | 0 <= i < all.len() ==> #[trigger] all[i].id != id,
{
    assert forall|i: int, j: int|
        0 <= i < all.len() && 0 <= j < tournaments.len() && #[trigger] tournaments[j].id as usize
            == #[trigger] all[i].id implies j == i by {
        assert(tournament_dto_of(all[i], tournaments[i], ranks[i], countries[i], banners[i]));
        let a = tournaments[i].id;
        let b = tournaments[j].id;
        assert(0 <= a && 0 <= b);
        assert(a as usize == b as usize ==> a == b) by (bit_vector)
            requires
                0 <= a,
                0 <= b,
        ;
        if j != i {
            if j < i {
                assert(tournaments[j].id != tournaments[i].id);
            } else {
                assert(tournaments[i].id != tournaments[j].id);
            }
        }
    }
    if forall|j: int| 0 <= j < tournaments.len() ==> #[trigger] tournaments[j].id as usize != id {
        assert forall|i: int| 0 <= i < all.len() implies #[trigger] all[i].id != id by {
            assert(tournament_dto_of(all[i], tournaments[i], ranks[i], countries[i], banners[i]));
            assert(tournaments[i].id as usize != id);
        }
    }
}

/// The smallest of four lengths.
pub open spec fn min4(a: nat, b: nat, c: nat, d: nat) -> nat {
    let ab = if a <= b { a } else { b };
    let cd = if c <= d { c } else { d };
    if ab <= cd { ab } else { cd }
}

/// Puts the tournaments together with their restrictions and banners, which
/// are given position by position; extra entries of the longer lists are left out.
pub fn assemble_tournaments(
    tournaments: Vec<tournament::Model>,
    rank_restrictions: &Vec<Vec<rank_restriction::Model>>,
    country_restrictions: &Vec<Vec<country_restriction::Model>>,
    banners: Vec<Option<Vec<u8>>>,
) -> (r: Vec<TournamentDto>)
    ensures
        r@.len() == min4(
            tournaments@.len(),
            rank_restrictions@.len(),
            country_restrictions@.len(),
            banners@.len(),
        ),
        forall|i: int|
            0 <= i < r@.len() ==> tournament_dto_of(
                #[trigger] r@[i],
                tournaments@[i],
                rank_restrictions@[i]@,
                country_restrictions@[i]@,
                banners@[i],
            ),
{
    let ghost ts = tournaments@;
    let ghost bs = banners@;
    let n = tournaments.len();
    let mut count = if rank_restrictions.len() < n { rank_restrictions.len() } else { n };
    if country_restrictions.len() < count {
        count = country_restrictions.len();
    }
    if banners.len() < count {
        count = banners.len();
    }
    let mut rest = tournaments;
    let mut rest_banners = banners;
    let mut r: Vec<TournamentDto> = Vec::new();
    let mut i: usize = 0;
    while i < count
        invariant
            count == min4(ts.len(), rank_restrictions@.len(), country_restrictions@.len(), bs.len()),
            i <= count,
            r@.len() == i,
            rest@ == ts.subrange(i as int, ts.len() as int),
            rest_banners@ == bs.subrange(i as int, bs.len() as int),
            forall|j: int|
                0 <= j < i ==> tournament_dto_of(
                    #[trigger] r@[j],
                    ts[j],
                    rank_restrictions@[j]@,
                    country_restrictions@[j]@,
                    bs[j],
                ),
        decreases count - i,
    {
        let t = rest.remove(0);
        let banner = rest_banners.remove(0);
        r.push(TournamentDto::from_parts(t, &rank_restrictions[i], &country_restrictions[i], banner));
        i = i + 1;
        assert(rest@ =~= ts.subrange(i as int, ts.len() as int));
        assert(rest_banners@ =~= bs.subrange(i as int, bs.len() as int));
    }
    r
}

} // verus!
