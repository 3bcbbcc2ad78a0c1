//! Plans of the data with which the database is seeded for debugging: a
//! tournament, its restrictions, its teams, and the pools of its stages.
use vstd::prelude::*;

use crate::db::pool_map;

verus! {

/// A bracket of a stage's pool and the osu! ids of its maps, in order.
pub struct BracketSeed {
    pub bracket_order: i16,
    pub name: String,
    pub map_ids: Vec<i64>,
}

/// A stage and its pool brackets.
pub struct StageSeed {
    pub stage_order: i16,
    pub name: String,
    pub best_of: i16,
    pub brackets: Vec<BracketSeed>,
}

/// A team and the osu! ids of its members.
pub struct TeamSeed {
    pub name: String,
    pub members: Vec<i32>,
}

/// A rank restriction of the seeded tournament.
#[derive(Debug, Clone, Copy, PartialEq, Eq, Structural)]
pub struct RankSeed {
    pub tier: i32,
    pub min: i32,
    pub max: i32,
}

/// The seeded tournament itself.
pub struct TournamentSeed {
    pub name: String,
    pub shorthand: String,
    pub format: i32,
    pub bws: bool,
}

/// Everything that is inserted for one seeded tournament, in the osu! game mode.
pub struct SeedPlan {
    pub tournament: TournamentSeed,
    pub country_codes: Vec<String>,
    pub rank_restrictions: Vec<RankSeed>,
    pub teams: Vec<TeamSeed>,
    pub stages: Vec<StageSeed>,
}

/// The mathematical form of a bracket.
pub struct BracketView {
    pub bracket_order: i16,
    pub name: Seq<char>,
    pub map_ids: Seq<i64>,
}

/// The mathematical form of a stage.
pub struct StageView {
    pub stage_order: i16,
    pub name: Seq<char>,
    pub best_of: i16,
    pub brackets: Seq<BracketView>,
}

/// The mathematical form of a team.
pub struct TeamView {
    pub name: Seq<char>,
    pub members: Seq<i32>,
}

/// The mathematical form of a seed plan.
pub struct SeedPlanView {
    pub name: Seq<char>,
    pub shorthand: Seq<char>,
    pub format: i32,
    pub bws: bool,
    pub country_codes: Seq<Seq<char>>,
    pub rank_restrictions: Seq<RankSeed>,
    pub teams: Seq<TeamView>,
    pub stages: Seq<StageView>,
}

impl View for BracketSeed {
    type V = BracketView;

    open spec fn view(&self) -> BracketView {
        BracketView { bracket_order: self.bracket_order, name: self.name@, map_ids: self.map_ids@ }
    }
}

impl View for StageSeed {
    type V = StageView;

    open spec fn view(&self) -> StageView {
        StageView {
            stage_order: self.stage_order,
            name: self.name@,
            best_of: self.best_of,
            brackets: self.brackets@.map_values(|b: BracketSeed| b@),
        }
    }
}

impl View for TeamSeed {
    type V = TeamView;

    open spec fn view(&self) -> TeamView {
        TeamView { name: self.name@, members: self.members@ }
    }
}

impl View for SeedPlan {
    type V = SeedPlanView;

    open spec fn view(&self) -> SeedPlanView {
        SeedPlanView {
            name: self.tournament.name@,
            shorthand: self.tournament.shorthand@,
            format: self.tournament.format,
            bws: self.tournament.bws,
            country_codes: self.country_codes@.map_values(|c: String| c@),
            rank_restrictions: self.rank_restrictions@,
            teams: self.teams@.map_values(|t: TeamSeed| t@),
            stages: self.stages@.map_values(|s: StageSeed| s@),
        }
    }
}

/// Stage orders are distinct, bracket orders are distinct within each stage,
/// and each bracket's maps can be numbered with an `i16`.
pub open spec fn plan_wf(stages: Seq<StageView>) -> bool {
    &&& forall|i: int, j: int|
        0 <= i < j < stages.len() ==> #[trigger] stages[i].stage_order != #[trigger] stages[j].stage_order
    &&& forall|s: int| 0 <= s < stages.len() ==> #[trigger] brackets_wf(stages[s].brackets)
}

/// Bracket orders are distinct, and each bracket has at most `i16::MAX` maps.
pub open spec fn brackets_wf(brackets: Seq<BracketView>) -> bool {
    &&& forall|i: int, j: int|
        0 <= i < j < brackets.len() ==> #[trigger] brackets[i].bracket_order
            != #[trigger] brackets[j].bracket_order
    &&& forall|b: int| 0 <= b < brackets.len() ==> (#[trigger] brackets[b]).map_ids.len() <= i16::MAX
}

/// The pool map records of a bracket of the stage `stage_order`, numbered from 0.
pub open spec fn bracket_records(tournament_id: i32, stage_order: i16, b: BracketView) -> Seq<
    pool_map::Model,
> {
    Seq::new(
        b.map_ids.len(),
        |i: int|
            pool_map::Model {
                tournament_id,
                stage_order,
                bracket_order: b.bracket_order,
                map_order: i as i16,
                map_id: b.map_ids[i],
            },
    )
}

/// The pool map records of brackets of the stage `stage_order`, bracket by bracket.
pub open spec fn brackets_records(tournament_id: i32, stage_order: i16, brackets: Seq<BracketView>) -> Seq<
    pool_map::Model,
>
    decreases brackets.len(),
{
    if brackets.len() == 0 {
        seq![]
    } else {
        brackets_records(tournament_id, stage_order, brackets.drop_last()) + bracket_records(
            tournament_id,
            stage_order,
            brackets.last(),
        )
    }
}

/// The pool map records of stages, stage by stage.
pub open spec fn stages_records(tournament_id: i32, stages: Seq<StageView>) -> Seq<pool_map::Model>
    decreases stages.len(),
{
    if stages.len() == 0 {
        seq![]
    } else {
        stages_records(tournament_id, stages.drop_last()) + brackets_records(
            tournament_id,
            stages.last().stage_order,
            stages.last().brackets,
        )
    }
}

/// Whether two pool map records have the same primary key.
pub open spec fn same_key(a: pool_map::Model, b: pool_map::Model) -> bool {
    a.tournament_id == b.tournament_id && a.stage_order == b.stage_order && a.bracket_order
        == b.bracket_order && a.map_order == b.map_order
}

/// Whether no two records share a primary key.
pub open spec fn distinct_keys(records: Seq<pool_map::Model>) -> bool {
    forall|i: int, j: int| 0 <= i < j < records.len() ==> !same_key(#[trigger] records[i], #[trigger] records[j])
}

proof fn lemma_concat_distinct(a: Seq<pool_map::Model>, b: Seq<pool_map::Model>)
    requires
        distinct_keys(a),
        distinct_keys(b),
        forall|i: int, j: int| 0 <= i < a.len() && 0 <= j < b.len() ==> !same_key(#[trigger] a[i], #[trigger] b[j]),
    ensures
        distinct_keys(a + b),
{
    let c = a + b;
    assert forall|i: int, j: int| 0 <= i < j < c.len() implies !same_key(#[trigger] c[i], #[trigger] c[j]) by {
        if j < a.len() {
            assert(c[i] == a[i] && c[j] == a[j]);
        } else if i >= a.len() {
            assert(c[i] == b[i - a.len()] && c[j] == b[j - a.len()]);
        } else {
            assert(c[i] == a[i] && c[j] == b[j - a.len()]);
        }
    }
}

proof fn lemma_bracket_records(tournament_id: i32, stage_order: i16, b: BracketView)
    requires
        b.map_ids.len() <= i16::MAX,
    ensures
        distinct_keys(bracket_records(tournament_id, stage_order, b)),
        forall|k: int|
            0 <= k < bracket_records(tournament_id, stage_order, b).len() ==> {
                let x = #[trigger] bracket_records(tournament_id, stage_order, b)[k];
                &&& x.tournament_id == tournament_id
                &&& x.stage_order == stage_order
                &&& x.bracket_order == b.bracket_order
            },
{
    let r = bracket_records(tournament_id, stage_order, b);
    assert forall|i: int, j: int| 0 <= i < j < r.len() implies !same_key(#[trigger] r[i], #[trigger] r[j]) by {
        assert(r[i].map_order == i as i16);
        assert(r[j].map_order == j as i16);
    }
}

proof fn lemma_brackets_records(tournament_id: i32, stage_order: i16, brackets: Seq<BracketView>)
    requires
        brackets_wf(brackets),
    ensures
        distinct_keys(brackets_records(tournament_id, stage_order, brackets)),
        forall|k: int|
            0 <= k < brackets_records(tournament_id, stage_order, brackets).len() ==> {
                let x = #[trigger] brackets_records(tournament_id, stage_order, brackets)[k];
                &&& x.tournament_id == tournament_id
                &&& x.stage_order == stage_order
                &&& exists|b: int| 0 <= b < brackets.len() && x.bracket_order == #[trigger] brackets[b].bracket_order
            },
    decreases brackets.len(),
{
    if brackets.len() > 0 {
        let init = brackets.drop_last();
        let last = brackets.last();
        assert(brackets_wf(init)) by {
            assert forall|b: int| 0 <= b < init.len() implies (#[trigger] init[b]).map_ids.len() <= i16::MAX by {
                assert(init[b] == brackets[b]);
            }
            assert forall|i: int, j: int| 0 <= i < j < init.len() implies #[trigger] init[i].bracket_order
                != #[trigger] init[j].bracket_order by {
                assert(init[i] == brackets[i] && init[j] == brackets[j]);
            }
        }
        assert(last == brackets[brackets.len() - 1]);
        lemma_brackets_records(tournament_id, stage_order, init);
        lemma_bracket_records(tournament_id, stage_order, last);
        let a = brackets_records(tournament_id, stage_order, init);
        let bb = bracket_records(tournament_id, stage_order, last);
        assert forall|i: int, j: int| 0 <= i < a.len() && 0 <= j < bb.len() implies !same_key(#[trigger] a[i], #[trigger] bb[j]) by {
            let x = a[i];
            let b = choose|b: int| 0 <= b < init.len() && x.bracket_order == #[trigger] init[b].bracket_order;
            assert(init[b] == brackets[b]);
        }
        lemma_concat_distinct(a, bb);
        let r = a + bb;
        assert forall|k: int| 0 <= k < r.len() implies {
            let x = #[trigger] r[k];
            &&& x.tournament_id == tournament_id
            &&& x.stage_order == stage_order
            &&& exists|b: int| 0 <= b < brackets.len() && x.bracket_order == #[trigger] brackets[b].bracket_order
        } by {
            if k < a.len() {
                assert(r[k] == a[k]);
                let b = choose|b: int| 0 <= b < init.len() && a[k].bracket_order == #[trigger] init[b].bracket_order;
                assert(init[b] == brackets[b]);
            } else {
                assert(r[k] == bb[k - a.len()]);
                assert(brackets[brackets.len() - 1] == last);
            }
        }
    }
}

/// The seeded pool maps of a well-formed plan have distinct primary keys:
/// each (stage, bracket, position) names one map, so the seed never inserts
/// two pool maps in one place.
pub proof fn lemma_seeded_pool_maps_distinct(tournament_id: i32, stages: Seq<StageView>)
    requires
        plan_wf(stages),
    ensures
        distinct_keys(stages_records(tournament_id, stages)),
        forall|k: int|
            0 <= k < stages_records(tournament_id, stages).len() ==> {
                let x = #[trigger] stages_records(tournament_id, stages)[k];
                &&& x.tournament_id == tournament_id
                &&& exists|s: int| 0 <= s < stages.len() && x.stage_order == #[trigger] stages[s].stage_order
            },
    decreases stages.len(),
{
    if stages.len() > 0 {
        let init = stages.drop_last();
        let last = stages.last();
        assert(plan_wf(init)) by {
            assert forall|s: int| 0 <= s < init.len() implies #[trigger] brackets_wf(init[s].brackets) by {
                assert(init[s] == stages[s]);
            }
            assert forall|i: int, j: int| 0 <= i < j < init.len() implies #[trigger] init[i].stage_order
                != #[trigger] init[j].stage_order by {
                assert(init[i] == stages[i] && init[j] == stages[j]);
            }
        }
        assert(last == stages[stages.len() - 1]);
        assert(brackets_wf(stages[stages.len() - 1].brackets));
        lemma_seeded_pool_maps_distinct(tournament_id, init);
        lemma_brackets_records(tournament_id, last.stage_order, last.brackets);
        let a = stages_records(tournament_id, init);
        let bb = brackets_records(tournament_id, last.stage_order, last.brackets);
        assert forall|i: int, j: int| 0 <= i < a.len() && 0 <= j < bb.len() implies !same_key(#[trigger] a[i], #[trigger] bb[j]) by {
            let x = a[i];
            let s = choose|s: int| 0 <= s < init.len() && x.stage_order == #[trigger] init[s].stage_order;
            assert(init[s] == stages[s]);
        }
        lemma_concat_distinct(a, bb);
        let r = a + bb;
        assert forall|k: int| 0 <= k < r.len() implies {
            let x = #[trigger] r[k];
            &&& x.tournament_id == tournament_id
            &&& exists|s: int| 0 <= s < stages.len() && x.stage_order == #[trigger] stages[s].stage_order
        } by {
            if k < a.len() {
                assert(r[k] == a[k]);
                let s = choose|s: int| 0 <= s < init.len() && a[k].stage_order == #[trigger] init[s].stage_order;
                assert(init[s] == stages[s]);
            } else {
                assert(r[k] == bb[k - a.len()]);
                assert(stages[stages.len() - 1] == last);
            }
        }
    }
}

/// The mathematical form of stages.
pub open spec fn stages_view(stages: Seq<StageSeed>) -> Seq<StageView> {
    stages.map_values(|s: StageSeed| s@)
}

/// The pool map records that seeding the stages of the tournament with id
/// `tournament_id` inserts, stage by stage and bracket by bracket, each map
/// numbered by its position in its bracket.
pub fn pool_map_records(tournament_id: i32, stages: &Vec<StageSeed>) -> (r: Vec<pool_map::Model>)
    ensures
        r@ == stages_records(tournament_id, stages_view(stages@)),
{
    let ghost sv = stages_view(stages@);
    let mut r: Vec<pool_map::Model> = Vec::new();
    let mut s: usize = 0;
    while s < stages.len()
        invariant
            sv == stages_view(stages@),
            s <= stages@.len(),
            r@ == stages_records(tournament_id, sv.take(s as int)),
        decreases stages@.len() - s,
    {
        let stage = &stages[s];
        let ghost bv = sv[s as int].brackets;
        assert(bv == stage.brackets@.map_values(|b: BracketSeed| b@));
        let ghost before = r@;
        let mut b: usize = 0;
        while b < stage.brackets.len()
            invariant
                bv == stage.brackets@.map_values(|b: BracketSeed| b@),
                b <= stage.brackets@.len(),
                r@ == before + brackets_records(tournament_id, stage.stage_order, bv.take(b as int)),
            decreases stage.brackets@.len() - b,
        {
            let bracket = &stage.brackets[b];
            let ghost mid = r@;
            let mut m: usize = 0;
            while m < bracket.map_ids.len()
                invariant
                    m <= bracket.map_ids@.len(),
                    r@ == mid + bracket_records(tournament_id, stage.stage_order, bracket@).take(m as int),
                decreases bracket.map_ids@.len() - m,
            {
                r.push(
                    pool_map::Model {
                        tournament_id,
                        stage_order: stage.stage_order,
                        bracket_order: bracket.bracket_order,
                        map_order: m as i16,
                        map_id: bracket.map_ids[m],
                    },
                );
                m = m + 1;
                assert(r@ =~= mid + bracket_records(tournament_id, stage.stage_order, bracket@).take(m as int));
            }
            assert(bracket_records(tournament_id, stage.stage_order, bracket@).take(m as int)
                =~= bracket_records(tournament_id, stage.stage_order, bracket@));
            assert(bv.take(b + 1).drop_last() =~= bv.take(b as int));
            assert(bv.take(b + 1).last() == bracket@);
            b = b + 1;
            assert(r@ =~= before + brackets_records(tournament_id, stage.stage_order, bv.take(b as int)));
        }
        assert(bv.take(b as int) =~= bv);
        assert(sv.take(s + 1).drop_last() =~= sv.take(s as int));
        assert(sv.take(s + 1).last() == sv[s as int]);
        s = s + 1;
    }
    assert(sv.take(s as int) =~= sv);
    r
}

fn bracket_seed(bracket_order: i16, name: &str, map_ids: Vec<i64>) -> (b: BracketSeed)
    ensures
        b@ == (BracketView { bracket_order, name: name@, map_ids: map_ids@ }),
{
    BracketSeed { bracket_order, name: String::from_str(name), map_ids }
}

fn stage_seed(stage_order: i16, name: &str, best_of: i16, brackets: Vec<BracketSeed>) -> (s: StageSeed)
    ensures
        s@ == (StageView {
            stage_order,
            name: name@,
            best_of,
            brackets: brackets@.map_values(|b: BracketSeed| b@),
        }),
{
    StageSeed { stage_order, name: String::from_str(name), best_of, brackets }
}

/// The stages seeded for the Osu World Cup 2023.
pub open spec fn owc23_stages() -> Seq<StageView> {
    seq![
        StageView {
            stage_order: 0,
            name: "Q"@,
            best_of: 0,
            brackets: seq![
                BracketView { bracket_order: 0, name: "NM"@, map_ids: seq![4344435i64, 4344451, 4344441, 4344442] },
                BracketView { bracket_order: 1, name: "HD"@, map_ids: seq![4344469i64, 4344423] },
                BracketView { bracket_order: 2, name: "HR"@, map_ids: seq![4344412i64, 4344450] },
                BracketView { bracket_order: 3, name: "DT"@, map_ids: seq![4344474i64, 4344475, 4344422] },
            ],
        },
        StageView {
            stage_order: 1,
            name: "RO32"@,
            best_of: 9,
            brackets: seq![
                BracketView { bracket_order: 0, name: "NM"@, map_ids: seq![4352819i64, 4352824, 4351786, 3332588] },
                BracketView { bracket_order: 1, name: "HD"@, map_ids: seq![4352411i64, 4352324] },
                BracketView { bracket_order: 2, name: "HR"@, map_ids: seq![1414172i64, 2020374] },
                BracketView { bracket_order: 3, name: "DT"@, map_ids: seq![4352790i64, 3840580, 2149694] },
                BracketView { bracket_order: 4, name: "FM"@, map_ids: seq![2583501i64, 4351866, 4352856] },
                BracketView { bracket_order: 5, name: "TB"@, map_ids: seq![3121101i64] },
            ],
        },
    ]
}

/// The teams seeded for the Osu World Cup 2023.
pub open spec fn owc23_teams() -> Seq<TeamView> {
    seq![
        TeamView { name: "Germany"@, members: seq![8116659i32, 4504101, 3765989, 14385814, 13300203, 12952320, 11921197] },
        TeamView { name: "USA"@, members: seq![7075211i32, 7813296, 4108547, 2590257, 4787150, 13380270, 3533958, 4830687] },
    ]
}

/// Everything seeded for the Osu World Cup 2023.
pub open spec fn owc23_plan_view() -> SeedPlanView {
    SeedPlanView {
        name: "Osu World Cup 2023"@,
        shorthand: "OWC23"@,
        format: 4,
        bws: false,
        country_codes: Seq::empty(),
        rank_restrictions: Seq::empty(),
        teams: owc23_teams(),
        stages: owc23_stages(),
    }
}

/// The seed of the Osu World Cup 2023: its teams, and the pools of its stages.
pub fn owc23_plan() -> (p: SeedPlan)
    ensures
        p@ == owc23_plan_view(),
        plan_wf(p@.stages),
{
    let mut stages: Vec<StageSeed> = Vec::new();
    let mut brackets: Vec<BracketSeed> = Vec::new();
    brackets.push(bracket_seed(0, "NM", vec![4344435, 4344451, 4344441, 4344442]));
    brackets.push(bracket_seed(1, "HD", vec![4344469, 4344423]));
    brackets.push(bracket_seed(2, "HR", vec![4344412, 4344450]));
    brackets.push(bracket_seed(3, "DT", vec![4344474, 4344475, 4344422]));
    proof { assert(brackets@.map_values(|b: BracketSeed| b@) =~= owc23_stages()[0].brackets); }
    stages.push(stage_seed(0, "Q", 0, brackets));
    let mut brackets: Vec<BracketSeed> = Vec::new();
    brackets.push(bracket_seed(0, "NM", vec![4352819, 4352824, 4351786, 3332588]));
    brackets.push(bracket_seed(1, "HD", vec![4352411, 4352324]));
    brackets.push(bracket_seed(2, "HR", vec![1414172, 2020374]));
    brackets.push(bracket_seed(3, "DT", vec![4352790, 3840580, 2149694]));
    brackets.push(bracket_seed(4, "FM", vec![2583501, 4351866, 4352856]));
    brackets.push(bracket_seed(5, "TB", vec![3121101]));
    proof { assert(brackets@[5].map_ids@ =~= seq![3121101i64]); }
    proof { assert(brackets@.map_values(|b: BracketSeed| b@) =~= owc23_stages()[1].brackets); }
    stages.push(stage_seed(1, "RO32", 9, brackets));
    let mut teams: Vec<TeamSeed> = Vec::new();
    teams.push(TeamSeed { name: String::from_str("Germany"), members: vec![8116659, 4504101, 3765989, 14385814, 13300203, 12952320, 11921197] });
    teams.push(TeamSeed { name: String::from_str("USA"), members: vec![7075211, 7813296, 4108547, 2590257, 4787150, 13380270, 3533958, 4830687] });
    let plan = SeedPlan {
        tournament: TournamentSeed {
            name: String::from_str("Osu World Cup 2023"),
            shorthand: String::from_str("OWC23"),
            format: 4,
            bws: false,
        },
        country_codes: Vec::new(),
        rank_restrictions: Vec::new(),
        teams,
        stages,
    };
    proof {
        assert(plan@.stages =~= owc23_stages());
        assert(plan@.teams =~= owc23_teams());
        assert(plan@.country_codes =~= Seq::<Seq<char>>::empty());
        assert(plan@.rank_restrictions =~= Seq::<RankSeed>::empty());
    }
    plan
}

/// The stages seeded for the Deutsche Meisterschaft 8.
pub open spec fn dm8_stages() -> Seq<StageView> {
    seq![
        StageView {
            stage_order: 0,
            name: "Q"@,
            best_of: 0,
            brackets: seq![
                BracketView { bracket_order: 0, name: "NM"@, map_ids: seq![2230996i64, 3263098, 2593243, 3142496, 3129534] },
                BracketView { bracket_order: 1, name: "HD"@, map_ids: seq![3544219i64, 2588430] },
                BracketView { bracket_order: 2, name: "HR"@, map_ids: seq![2314568i64, 434438] },
                BracketView { bracket_order: 3, name: "DT"@, map_ids: seq![429797i64, 3153512] },
            ],
        },
        StageView {
            stage_order: 1,
            name: "RO64"@,
            best_of: 9,
            brackets: seq![
                BracketView { bracket_order: 0, name: "NM"@, map_ids: seq![3160790i64, 3650832, 2465287, 637391] },
                BracketView { bracket_order: 1, name: "HD"@, map_ids: seq![3830079i64, 1957037, 2134428] },
                BracketView { bracket_order: 2, name: "HR"@, map_ids: seq![1982100i64, 886269, 3167107] },
                BracketView { bracket_order: 3, name: "DT"@, map_ids: seq![2188430i64, 3457575, 3541087] },
                BracketView { bracket_order: 4, name: "TB"@, map_ids: seq![1233051i64, 1721284, 1295837] },
            ],
        },
    ]
}

/// The teams seeded for the Deutsche Meisterschaft 8.
pub open spec fn dm8_teams() -> Seq<TeamView> {
    Seq::empty()
}

/// Everything seeded for the Deutsche Meisterschaft 8.
pub open spec fn dm8_plan_view() -> SeedPlanView {
    SeedPlanView {
        name: "Deutsche Meisterschaft 8"@,
        shorthand: "DM8"@,
        format: 1,
        bws: false,
        country_codes: Seq::empty(),
        rank_restrictions: Seq::empty(),
        teams: dm8_teams(),
        stages: dm8_stages(),
    }
}

/// The seed of the Deutsche Meisterschaft 8: its teams, and the pools of its stages.
pub fn dm8_plan() -> (p: SeedPlan)
    ensures
        p@ == dm8_plan_view(),
        plan_wf(p@.stages),
{
    let mut stages: Vec<StageSeed> = Vec::new();
    let mut brackets: Vec<BracketSeed> = Vec::new();
    brackets.push(bracket_seed(0, "NM", vec![2230996, 3263098, 2593243, 3142496, 3129534]));
    brackets.push(bracket_seed(1, "HD", vec![3544219, 2588430]));
    brackets.push(bracket_seed(2, "HR", vec![2314568, 434438]));
    brackets.push(bracket_seed(3, "DT", vec![429797, 3153512]));
    proof { assert(brackets@.map_values(|b: BracketSeed| b@) =~= dm8_stages()[0].brackets); }
    stages.push(stage_seed(0, "Q", 0, brackets));
    let mut brackets: Vec<BracketSeed> = Vec::new();
    brackets.push(bracket_seed(0, "NM", vec![3160790, 3650832, 2465287, 637391]));
    brackets.push(bracket_seed(1, "HD", vec![3830079, 1957037, 2134428]));
    brackets.push(bracket_seed(2, "HR", vec![1982100, 886269, 3167107]));
    brackets.push(bracket_seed(3, "DT", vec![2188430, 3457575, 3541087]));
    brackets.push(bracket_seed(4, "TB", vec![1233051, 1721284, 1295837]));
    proof { assert(brackets@.map_values(|b: BracketSeed| b@) =~= dm8_stages()[1].brackets); }
    stages.push(stage_seed(1, "RO64", 9, brackets));
    let mut teams: Vec<TeamSeed> = Vec::new();
    let plan = SeedPlan {
        tournament: TournamentSeed {
            name: String::from_str("Deutsche Meisterschaft 8"),
            shorthand: String::from_str("DM8"),
            format: 1,
            bws: false,
        },
        country_codes: Vec::new(),
        rank_restrictions: Vec::new(),
        teams,
        stages,
    };
    proof {
        assert(plan@.stages =~= dm8_stages());
        assert(plan@.teams =~= dm8_teams());
        assert(plan@.country_codes =~= Seq::<Seq<char>>::empty());
        assert(plan@.rank_restrictions =~= Seq::<RankSeed>::empty());
    }
    plan
}
/// Entry `i` of the first word of a random tournament name.
pub open spec fn modifier_1_spec(i: int) -> Seq<char> {
    if i == 0 {
        "Amazing"@
    } else if i == 1 {
        "Mysterious"@
    } else if i == 2 {
        "Incredible"@
    } else if i == 3 {
        "Osu"@
    } else {
        "Great"@
    }
}

/// Entry `i` of the first word of a random tournament name.
pub fn modifier_1(i: usize) -> (r: &'static str)
    requires
        i < 5,
    ensures
        r@ == modifier_1_spec(i as int),
{
    if i == 0 {
        "Amazing"
    } else if i == 1 {
        "Mysterious"
    } else if i == 2 {
        "Incredible"
    } else if i == 3 {
        "Osu"
    } else {
        "Great"
    }
}

/// Entry `i` of the second word of a random tournament name.
pub open spec fn modifier_2_spec(i: int) -> Seq<char> {
    if i == 0 {
        "Newcomer"@
    } else if i == 1 {
        "Spring"@
    } else if i == 2 {
        "Fall"@
    } else if i == 3 {
        "World"@
    } else if i == 4 {
        "European"@
    } else if i == 5 {
        "Map"@
    } else if i == 6 {
        "Anime"@
    } else {
        "Waifu"@
    }
}

/// Entry `i` of the second word of a random tournament name.
pub fn modifier_2(i: usize) -> (r: &'static str)
    requires
        i < 8,
    ensures
        r@ == modifier_2_spec(i as int),
{
    if i == 0 {
        "Newcomer"
    } else if i == 1 {
        "Spring"
    } else if i == 2 {
        "Fall"
    } else if i == 3 {
        "World"
    } else if i == 4 {
        "European"
    } else if i == 5 {
        "Map"
    } else if i == 6 {
        "Anime"
    } else {
        "Waifu"
    }
}

/// Entry `i` of the third word of a random tournament name.
pub open spec fn tournament_noun_spec(i: int) -> Seq<char> {
    if i == 0 {
        "Cup"@
    } else if i == 1 {
        "Tournament"@
    } else if i == 2 {
        "Brawl"@
    } else if i == 3 {
        "Festival"@
    } else {
        "Showdown"@
    }
}

/// Entry `i` of the third word of a random tournament name.
pub fn tournament_noun(i: usize) -> (r: &'static str)
    requires
        i < 5,
    ensures
        r@ == tournament_noun_spec(i as int),
{
    if i == 0 {
        "Cup"
    } else if i == 1 {
        "Tournament"
    } else if i == 2 {
        "Brawl"
    } else if i == 3 {
        "Festival"
    } else {
        "Showdown"
    }
}

/// Entry `i` of the countries a random tournament may be restricted to.
pub open spec fn country_spec(i: int) -> Seq<char> {
    if i == 0 {
        "GE"@
    } else if i == 1 {
        "FR"@
    } else if i == 2 {
        "IT"@
    } else if i == 3 {
        "ES"@
    } else if i == 4 {
        "UK"@
    } else if i == 5 {
        "US"@
    } else if i == 6 {
        "CA"@
    } else if i == 7 {
        "RU"@
    } else if i == 8 {
        "JP"@
    } else if i == 9 {
        "CN"@
    } else if i == 10 {
        "KR"@
    } else if i == 11 {
        "AU"@
    } else if i == 12 {
        "NZ"@
    } else if i == 13 {
        "BR"@
    } else {
        "AR"@
    }
}

/// Entry `i` of the countries a random tournament may be restricted to.
pub fn country(i: usize) -> (r: &'static str)
    requires
        i < 15,
    ensures
        r@ == country_spec(i as int),
{
    if i == 0 {
        "GE"
    } else if i == 1 {
        "FR"
    } else if i == 2 {
        "IT"
    } else if i == 3 {
        "ES"
    } else if i == 4 {
        "UK"
    } else if i == 5 {
        "US"
    } else if i == 6 {
        "CA"
    } else if i == 7 {
        "RU"
    } else if i == 8 {
        "JP"
    } else if i == 9 {
        "CN"
    } else if i == 10 {
        "KR"
    } else if i == 11 {
        "AU"
    } else if i == 12 {
        "NZ"
    } else if i == 13 {
        "BR"
    } else {
        "AR"
    }
}

/// Entry `i` of the brackets of each random stage.
pub open spec fn bracket_name_spec(i: int) -> Seq<char> {
    if i == 0 {
        "NM"@
    } else if i == 1 {
        "HD"@
    } else {
        "HR"@
    }
}

/// Entry `i` of the brackets of each random stage.
pub fn bracket_name(i: usize) -> (r: &'static str)
    requires
        i < 3,
    ensures
        r@ == bracket_name_spec(i as int),
{
    if i == 0 {
        "NM"
    } else if i == 1 {
        "HD"
    } else {
        "HR"
    }
}

/// Entry `i` of the stages of a random tournament.
pub open spec fn stage_name_spec(i: int) -> Seq<char> {
    if i == 0 {
        "Q"@
    } else if i == 1 {
        "RO16"@
    } else if i == 2 {
        "QF"@
    } else if i == 3 {
        "SF"@
    } else if i == 4 {
        "F"@
    } else {
        "GF"@
    }
}

/// Entry `i` of the stages of a random tournament.
pub fn stage_name(i: usize) -> (r: &'static str)
    requires
        i < 6,
    ensures
        r@ == stage_name_spec(i as int),
{
    if i == 0 {
        "Q"
    } else if i == 1 {
        "RO16"
    } else if i == 2 {
        "QF"
    } else if i == 3 {
        "SF"
    } else if i == 4 {
        "F"
    } else {
        "GF"
    }
}

/// Entry `i` of the maps that random pools are drawn from.
pub open spec fn map_choice_spec(i: int) -> i64 {
    if i == 0 {
        3883456
    } else if i == 1 {
        4192228
    } else if i == 2 {
        4189337
    } else if i == 3 {
        3917025
    } else if i == 4 {
        4141288
    } else if i == 5 {
        4186607
    } else if i == 6 {
        3876751
    } else if i == 7 {
        4130092
    } else {
        4149939
    }
}

/// Entry `i` of the maps that random pools are drawn from.
pub fn map_choice(i: usize) -> (r: i64)
    requires
        i < 9,
    ensures
        r == map_choice_spec(i as int),
{
    if i == 0 {
        3883456
    } else if i == 1 {
        4192228
    } else if i == 2 {
        4189337
    } else if i == 3 {
        3917025
    } else if i == 4 {
        4141288
    } else if i == 5 {
        4186607
    } else if i == 6 {
        3876751
    } else if i == 7 {
        4130092
    } else {
        4149939
    }
}
proof fn lemma_name_words_nonempty()
    ensures
        forall|i: int| 0 <= i < 5 ==> #[trigger] modifier_1_spec(i).len() >= 1,
        forall|i: int| 0 <= i < 8 ==> #[trigger] modifier_2_spec(i).len() >= 1,
        forall|i: int| 0 <= i < 5 ==> #[trigger] tournament_noun_spec(i).len() >= 1,
{
    reveal_strlit("Amazing");
    reveal_strlit("Mysterious");
    reveal_strlit("Incredible");
    reveal_strlit("Osu");
    reveal_strlit("Great");
    reveal_strlit("Newcomer");
    reveal_strlit("Spring");
    reveal_strlit("Fall");
    reveal_strlit("World");
    reveal_strlit("European");
    reveal_strlit("Map");
    reveal_strlit("Anime");
    reveal_strlit("Waifu");
    reveal_strlit("Cup");
    reveal_strlit("Tournament");
    reveal_strlit("Brawl");
    reveal_strlit("Festival");
    reveal_strlit("Showdown");
    assert forall|i: int| 0 <= i < 5 implies #[trigger] modifier_1_spec(i).len() >= 1 by {
        if i == 0 {} else if i == 1 {} else if i == 2 {} else if i == 3 {} else if i == 4 {}
    }
    assert forall|i: int| 0 <= i < 8 implies #[trigger] modifier_2_spec(i).len() >= 1 by {
        if i == 0 {} else if i == 1 {} else if i == 2 {} else if i == 3 {} else if i == 4 {} else if i == 5 {} else if i == 6 {} else if i == 7 {}
    }
    assert forall|i: int| 0 <= i < 5 implies #[trigger] tournament_noun_spec(i).len() >= 1 by {
        if i == 0 {} else if i == 1 {} else if i == 2 {} else if i == 3 {} else if i == 4 {}
    }
}

/// What is drawn at random for a random tournament.
pub struct SeedChoices {
    /// Entries of the three word tables of the name, and the number that ends it.
    pub modifier_1: usize,
    pub modifier_2: usize,
    pub noun: usize,
    pub number: u32,
    /// Distinct entries of the country table.
    pub countries: Vec<usize>,
    /// The entry of the formats 1 to 4.
    pub format_index: usize,
    pub bws: bool,
    /// Whether the countries restrict the tournament.
    pub with_countries: bool,
    /// How many of the rank ranges restrict the tournament.
    pub rank_tiers: usize,
    /// For each stage, half of the best-of, rounded down.
    pub best_of_halves: Vec<i16>,
    /// For each stage, bracket and position in the bracket, the entry of the map table.
    pub maps: Vec<usize>,
}

/// Whether the choices are within the ranges they are drawn from.
pub open spec fn choices_ok(c: SeedChoices) -> bool {
    &&& c.modifier_1 < 5
    &&& c.modifier_2 < 8
    &&& c.noun < 5
    &&& c.number < 10
    &&& 1 <= c.countries@.len() <= 4
    &&& (forall|k: int| 0 <= k < c.countries@.len() ==> #[trigger] c.countries@[k] < 15)
    &&& c.countries@.no_duplicates()
    &&& c.format_index < 4
    &&& c.rank_tiers <= 3
    &&& c.best_of_halves@.len() == 6
    &&& (forall|k: int| 0 <= k < 6 ==> 3 <= #[trigger] c.best_of_halves@[k] <= 5)
    &&& c.maps@.len() == 36
    &&& (forall|k: int| 0 <= k < 36 ==> #[trigger] c.maps@[k] < 9)
}

/// The lower end of rank range `i`.
pub open spec fn rank_min_spec(i: int) -> i32 {
    if i == 0 {
        100
    } else if i == 1 {
        2500
    } else {
        5000
    }
}

/// The upper end of rank range `i`.
pub open spec fn rank_max_spec(i: int) -> i32 {
    if i == 0 {
        2500
    } else if i == 1 {
        5000
    } else {
        10000
    }
}

/// The rank restrictions of a random tournament are the first tiers of the
/// table (100, 2500), (2500, 5000), (5000, 10000): tier `i` is the `i`-th
/// entry, each range is non-empty, and each range starts where the one before
/// it ends.
pub proof fn lemma_random_rank_ranges(c: SeedChoices)
    requires
        choices_ok(c),
    ensures
        ({
            let r = random_plan_view(c).rank_restrictions;
            &&& r.len() == c.rank_tiers
            &&& forall|i: int| 0 <= i < r.len() ==> (#[trigger] r[i]).tier == i && r[i].min < r[i].max
            &&& forall|i: int| 0 < i < r.len() ==> (#[trigger] r[i]).min == r[i - 1].max
            &&& r.len() > 0 ==> r[0].min == 100 && r[0].max == 2500
            &&& r.len() > 1 ==> r[1].min == 2500 && r[1].max == 5000
            &&& r.len() > 2 ==> r[2].min == 5000 && r[2].max == 10000
        }),
{
}

/// The name of a random tournament: the three words and the number, separated by spaces.
pub open spec fn random_name(c: SeedChoices) -> Seq<char> {
    modifier_1_spec(c.modifier_1 as int) + " "@ + modifier_2_spec(c.modifier_2 as int) + " "@
        + tournament_noun_spec(c.noun as int) + " "@ + crate::cache_key::decimal(c.number as nat)
}

/// The shorthand of a random tournament: the first character of each word of its name.
pub open spec fn random_shorthand(c: SeedChoices) -> Seq<char> {
    seq![
        modifier_1_spec(c.modifier_1 as int)[0],
        modifier_2_spec(c.modifier_2 as int)[0],
        tournament_noun_spec(c.noun as int)[0],
        crate::cache_key::decimal(c.number as nat)[0],
    ]
}

/// Bracket `bo` of stage `so` of a random tournament.
pub open spec fn random_bracket(c: SeedChoices, so: int, bo: int) -> BracketView {
    BracketView {
        bracket_order: bo as i16,
        name: bracket_name_spec(bo),
        map_ids: seq![
            map_choice_spec(c.maps@[(so * 3 + bo) * 2] as int),
            map_choice_spec(c.maps@[(so * 3 + bo) * 2 + 1] as int),
        ],
    }
}

/// Stage `so` of a random tournament.
pub open spec fn random_stage(c: SeedChoices, so: int) -> StageView {
    StageView {
        stage_order: so as i16,
        name: stage_name_spec(so),
        best_of: (c.best_of_halves@[so] * 2 + 1) as i16,
        brackets: Seq::new(3, |bo: int| random_bracket(c, so, bo)),
    }
}

/// Everything seeded for a random tournament.
pub open spec fn random_plan_view(c: SeedChoices) -> SeedPlanView {
    SeedPlanView {
        name: random_name(c),
        shorthand: random_shorthand(c),
        format: (c.format_index + 1) as i32,
        bws: c.bws,
        country_codes: if c.with_countries {
            Seq::new(c.countries@.len(), |k: int| country_spec(c.countries@[k] as int))
        } else {
            Seq::empty()
        },
        rank_restrictions: Seq::new(
            c.rank_tiers as nat,
            |i: int| RankSeed { tier: i as i32, min: rank_min_spec(i), max: rank_max_spec(i) },
        ),
        teams: Seq::empty(),
        stages: Seq::new(6, |so: int| random_stage(c, so)),
    }
}

fn first_char(word: &str) -> (r: &str)
    requires
        word@.len() >= 1,
    ensures
        r@ == seq![word@[0]],
{
    let r = word.substring_char(0, 1);
    assert(r@ =~= seq![word@[0]]);
    r
}

fn random_bracket_seed(c: &SeedChoices, so: usize, bo: usize) -> (b: BracketSeed)
    requires
        choices_ok(*c),
        so < 6,
        bo < 3,
    ensures
        b@ == random_bracket(*c, so as int, bo as int),
{
    let k = (so * 3 + bo) * 2;
    let maps = vec![map_choice(c.maps[k]), map_choice(c.maps[k + 1])];
    bracket_seed(bo as i16, bracket_name(bo), maps)
}

fn random_stage_seed(c: &SeedChoices, so: usize) -> (s: StageSeed)
    requires
        choices_ok(*c),
        so < 6,
    ensures
        s@ == random_stage(*c, so as int),
{
    let mut brackets: Vec<BracketSeed> = Vec::new();
    let mut bo: usize = 0;
    while bo < 3
        invariant
            choices_ok(*c),
            so < 6,
            bo <= 3,
            brackets@.len() == bo,
            forall|k: int| 0 <= k < bo ==> #[trigger] brackets@[k]@ == random_bracket(*c, so as int, k),
        decreases 3 - bo,
    {
        brackets.push(random_bracket_seed(c, so, bo));
        bo = bo + 1;
    }
    let best_of = c.best_of_halves[so] * 2 + 1;
    let s = stage_seed(so as i16, stage_name(so), best_of, brackets);
    assert(s@.brackets =~= Seq::new(3, |k: int| random_bracket(*c, so as int, k)));
    s
}

/// Plans a random tournament from the choices drawn for it.
pub fn random_plan(c: &SeedChoices) -> (p: SeedPlan)
    requires
        choices_ok(*c),
    ensures
        p@ == random_plan_view(*c),
        plan_wf(p@.stages),
{
    proof {
        lemma_name_words_nonempty();
        crate::cache_key::lemma_decimal_digits(c.number as nat);
    }
    let w1 = modifier_1(c.modifier_1);
    let w2 = modifier_2(c.modifier_2);
    let w3 = tournament_noun(c.noun);
    let number = crate::cache_key::u32_to_decimal(c.number);
    proof { reveal_strlit(" "); }
    let mut name = String::from_str(w1);
    name.append(" ");
    name.append(w2);
    name.append(" ");
    name.append(w3);
    name.append(" ");
    name.append(number.as_str());
    let mut shorthand = String::from_str(first_char(w1));
    shorthand.append(first_char(w2));
    shorthand.append(first_char(w3));
    shorthand.append(first_char(number.as_str()));
    assert(shorthand@ =~= random_shorthand(*c));

    let mut country_codes: Vec<String> = Vec::new();
    if c.with_countries {
        let mut k: usize = 0;
        while k < c.countries.len()
            invariant
                choices_ok(*c),
                k <= c.countries@.len(),
                country_codes@.len() == k,
                forall|j: int| 0 <= j < k ==> (#[trigger] country_codes@[j])@ == country_spec(c.countries@[j] as int),
            decreases c.countries@.len() - k,
        {
            country_codes.push(String::from_str(country(c.countries[k])));
            k = k + 1;
        }
    }

    let mut rank_restrictions: Vec<RankSeed> = Vec::new();
    let mut i: usize = 0;
    while i < c.rank_tiers
        invariant
            c.rank_tiers <= 3,
            i <= c.rank_tiers,
            rank_restrictions@ == Seq::new(
                i as nat,
                |t: int| RankSeed { tier: t as i32, min: rank_min_spec(t), max: rank_max_spec(t) },
            ),
        decreases c.rank_tiers - i,
    {
        let (min, max): (i32, i32) = if i == 0 {
            (100, 2500)
        } else if i == 1 {
            (2500, 5000)
        } else {
            (5000, 10000)
        };
        rank_restrictions.push(RankSeed { tier: i as i32, min, max });
        i = i + 1;
        assert(rank_restrictions@ =~= Seq::new(
            i as nat,
            |t: int| RankSeed { tier: t as i32, min: rank_min_spec(t), max: rank_max_spec(t) },
        ));
    }

    let mut stages: Vec<StageSeed> = Vec::new();
    let mut so: usize = 0;
    while so < 6
        invariant
            choices_ok(*c),
            so <= 6,
            stages@.len() == so,
            forall|k: int| 0 <= k < so ==> #[trigger] stages@[k]@ == random_stage(*c, k),
        decreases 6 - so,
    {
        stages.push(random_stage_seed(c, so));
        so = so + 1;
    }

    let plan = SeedPlan {
        tournament: TournamentSeed {
            name,
            shorthand,
            format: (c.format_index + 1) as i32,
            bws: c.bws,
        },
        country_codes,
        rank_restrictions,
        teams: Vec::new(),
        stages,
    };
    proof {
        let v = plan@;
        assert(v.stages =~= Seq::new(6, |so: int| random_stage(*c, so)));
        assert(v.country_codes =~= random_plan_view(*c).country_codes);
        assert(v.teams =~= Seq::<TeamView>::empty());
        assert(v.name =~= random_name(*c));
        assert forall|i: int, j: int| 0 <= i < j < v.stages.len() implies #[trigger] v.stages[i].stage_order
            != #[trigger] v.stages[j].stage_order by {}
        assert forall|si: int| 0 <= si < v.stages.len() implies #[trigger] brackets_wf(v.stages[si].brackets) by {
            let bs = v.stages[si].brackets;
            assert forall|i: int, j: int| 0 <= i < j < bs.len() implies #[trigger] bs[i].bracket_order
                != #[trigger] bs[j].bracket_order by {}
        }
    }
    plan
}

/// The random number generator that the seed draws from.
#[verifier::external_type_specification]
#[verifier::external_body]
pub struct ExStdRng(rand::rngs::StdRng);

/// Draws a number below `bound` with rand's `Rng::gen_range(0..bound)`;
/// which number comes out is left open.
#[verifier::external_body]
fn random_below(rng: &mut rand::rngs::StdRng, bound: usize) -> (r: usize)
    requires
        bound > 0,
    ensures
        r < bound,
{
    rand::Rng::gen_range(rng, 0..bound)
}

/// Draws a number in `low..high` with rand's `Rng::gen_range`; which number
/// comes out is left open.
#[verifier::external_body]
fn random_in_range(rng: &mut rand::rngs::StdRng, low: i16, high: i16) -> (r: i16)
    requires
        low < high,
    ensures
        low <= r < high,
{
    rand::Rng::gen_range(rng, low..high)
}

/// Draws a boolean with rand's `Rng::gen`; which comes out is left open.
#[verifier::external_body]
fn random_bool(rng: &mut rand::rngs::StdRng) -> (r: bool) {
    rand::Rng::gen(rng)
}

/// Draws a boolean that is true with probability one half, with rand's
/// `Rng::gen_ratio(1, 2)`; which comes out is left open.
#[verifier::external_body]
fn random_half(rng: &mut rand::rngs::StdRng) -> (r: bool) {
    rand::Rng::gen_ratio(rng, 1, 2)
}

/// Draws `amount` distinct indices below `length` with rand's
/// `seq::index::sample`, as slices' `choose_multiple` does; which indices
/// come out, and in which order, is left open.
#[verifier::external_body]
fn random_sample(rng: &mut rand::rngs::StdRng, length: usize, amount: usize) -> (r: Vec<usize>)
    requires
        amount <= length,
    ensures
        r@.len() == amount,
        forall|k: int| 0 <= k < r@.len() ==> #[trigger] r@[k] < length,
        r@.no_duplicates(),
{
    rand::seq::index::sample(rng, length, amount).into_vec()
}

/// Draws the choices of a random tournament, in the order in which they are
/// made: the name, the countries, the format, the badge weighting, whether the
/// countries restrict the tournament, the number of rank ranges, and, stage by
/// stage, the best-of and the maps of each bracket.
pub fn draw_seed_choices(rng: &mut rand::rngs::StdRng) -> (c: SeedChoices)
    ensures
        choices_ok(c),
{
    let modifier_1 = random_below(rng, 5);
    let modifier_2 = random_below(rng, 8);
    let noun = random_below(rng, 5);
    let number = random_below(rng, 10) as u32;
    let num_restrictions = random_below(rng, 4) + 1;
    let countries = random_sample(rng, 15, num_restrictions);
    let format_index = random_below(rng, 4);
    let bws = random_bool(rng);
    let with_countries = random_half(rng);
    let rank_tiers = random_below(rng, 4);
    let mut best_of_halves: Vec<i16> = Vec::new();
    let mut maps: Vec<usize> = Vec::new();
    let mut so: usize = 0;
    while so < 6
        invariant
            so <= 6,
            best_of_halves@.len() == so,
            forall|k: int| 0 <= k < so ==> 3 <= #[trigger] best_of_halves@[k] <= 5,
            maps@.len() == so * 6,
            forall|k: int| 0 <= k < maps@.len() ==> #[trigger] maps@[k] < 9,
        decreases 6 - so,
    {
        best_of_halves.push(random_in_range(rng, 3, 6));
        let mut m: usize = 0;
        while m < 6
            invariant
                m <= 6,
                maps@.len() == so * 6 + m,
                forall|k: int| 0 <= k < maps@.len() ==> #[trigger] maps@[k] < 9,
            decreases 6 - m,
        {
            maps.push(random_below(rng, 9));
            m = m + 1;
        }
        so = so + 1;
    }
    SeedChoices {
        modifier_1,
        modifier_2,
        noun,
        number,
        countries,
        format_index,
        bws,
        with_countries,
        rank_tiers,
        best_of_halves,
        maps,
    }
}

} // verus!
