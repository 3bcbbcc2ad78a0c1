//! The map pool of a tournament stage, as the API hands it out.
use vstd::prelude::*;

use crate::db::{pool_bracket, pool_map};
use crate::osu::BeatmapDto;

verus! {

/// The pool of one stage: its brackets in order.
#[derive(Debug, Clone, PartialEq)]
pub struct PoolDto<D> {
    pub tournament_id: usize,
    pub stage_order: usize,
    pub brackets: Vec<PoolBracketDto<D>>,
}

/// One bracket of a pool, such as "NM" or "HD", with its beatmaps in order.
#[derive(Debug, Clone, PartialEq)]
pub struct PoolBracketDto<D> {
    /// The position of the bracket in the pool, counted from 0.
    pub order: usize,
    pub name: String,
    pub maps: Vec<BeatmapDto<D>>,
}

/// The osu! ids under which the maps of a bracket are looked up, in the
/// order of the maps. A stored id is read as its low 32 bits.
pub fn pool_map_ids(maps: &Vec<pool_map::Model>) -> (r: Vec<u32>)
    ensures
        r@.len() == maps@.len(),
        forall|i: int| 0 <= i < maps@.len() ==> r@[i] == #[trigger] maps@[i].map_id as u32,
{
    let mut r: Vec<u32> = Vec::new();
    let mut i: usize = 0;
    while i < maps.len()
        invariant
            i <= maps@.len(),
            r@.len() == i,
            forall|j: int| 0 <= j < i ==> r@[j] == #[trigger] maps@[j].map_id as u32,
        decreases maps@.len() - i,
    {
        r.push(maps[i].map_id as u32);
        i += 1;
    }
    r
}

/// Whether the stored map `m` belongs to the stored bracket `b`.
pub open spec fn in_bracket(b: pool_bracket::Model, m: pool_map::Model) -> bool {
    &&& m.tournament_id == b.tournament_id
    &&& m.stage_order == b.stage_order
    &&& m.bracket_order == b.bracket_order
}

/// The maps of `maps` that belong to bracket `b`, in the order of `maps`.
pub open spec fn maps_in(b: pool_bracket::Model, maps: Seq<pool_map::Model>) -> Seq<pool_map::Model>
    decreases maps.len(),
{
    if maps.len() == 0 {
        Seq::empty()
    } else if in_bracket(b, maps.last()) {
        maps_in(b, maps.drop_last()).push(maps.last())
    } else {
        maps_in(b, maps.drop_last())
    }
}

/// Whether the maps come in the order of their position in the bracket.
pub open spec fn maps_in_order(maps: Seq<pool_map::Model>) -> bool {
    forall|i: int, j: int| 0 <= i < j < maps.len() ==> #[trigger] maps[i].map_order <= #[trigger] maps[j].map_order
}

/// The maps of bracket `bracket` among the stored `maps`, in the order of their
/// position in the bracket.
pub fn bracket_maps(bracket: &pool_bracket::Model, maps: &Vec<pool_map::Model>) -> (r: Vec<pool_map::Model>)
    ensures
        r@.to_multiset() == maps_in(*bracket, maps@).to_multiset(),
        maps_in_order(r@),
        forall|k: int| 0 <= k < r@.len() ==> in_bracket(*bracket, #[trigger] r@[k]),
{
    let mut r: Vec<pool_map::Model> = Vec::new();
    let mut i: usize = 0;
    while i < maps.len()
        invariant
            i <= maps@.len(),
            maps_in_order(r@),
            forall|k: int| 0 <= k < r@.len() ==> in_bracket(*bracket, #[trigger] r@[k]),
            r@.to_multiset() == maps_in(*bracket, maps@.take(i as int)).to_multiset(),
        decreases maps@.len() - i,
    {
        let m = maps[i];
        let ghost t = maps@.take(i + 1);
        assert(t.drop_last() =~= maps@.take(i as int));
        assert(t.last() == m);
        if m.tournament_id == bracket.tournament_id && m.stage_order == bracket.stage_order
            && m.bracket_order == bracket.bracket_order
        {
            let mut p: usize = 0;
            while p < r.len() && r[p].map_order <= m.map_order
                invariant
                    p <= r@.len(),
                    forall|k: int| 0 <= k < p ==> #[trigger] r@[k].map_order <= m.map_order,
                decreases r@.len() - p,
            {
                p = p + 1;
            }
            let ghost before = r@;
            r.insert(p, m);
            proof {
                vstd::seq_lib::to_multiset_insert(before, p as int, m);
                vstd::seq_lib::to_multiset_build(maps_in(*bracket, maps@.take(i as int)), m);
            }
            assert(maps_in(*bracket, t) == maps_in(*bracket, maps@.take(i as int)).push(m));
            assert forall|a: int, b: int| 0 <= a < b < r@.len() implies #[trigger] r@[a].map_order
                <= #[trigger] r@[b].map_order by {
                if a < p as int && b == p as int {
                } else if a == p as int {
                    assert(before[b - 1].map_order >= before[p as int].map_order);
                } else if a < p as int {
                    assert(before[a].map_order <= before[b - 1].map_order);
                } else {
                    assert(before[a - 1].map_order <= before[b - 1].map_order);
                }
            }
        } else {
            assert(maps_in(*bracket, t) == maps_in(*bracket, maps@.take(i as int)));
        }
        i += 1;
    }
    assert(maps@.take(maps@.len() as int) =~= maps@);
    r
}

/// Whether the stored bracket belongs to stage `stage_order` of tournament `tournament_id`.
pub open spec fn in_stage(tournament_id: i32, stage_order: i16, b: pool_bracket::Model) -> bool {
    b.tournament_id == tournament_id && b.stage_order == stage_order
}

/// The brackets of `brackets` that belong to the stage, in the order of `brackets`.
pub open spec fn brackets_in(tournament_id: i32, stage_order: i16, brackets: Seq<pool_bracket::Model>) -> Seq<
    pool_bracket::Model,
>
    decreases brackets.len(),
{
    if brackets.len() == 0 {
        Seq::empty()
    } else if in_stage(tournament_id, stage_order, brackets.last()) {
        brackets_in(tournament_id, stage_order, brackets.drop_last()).push(brackets.last())
    } else {
        brackets_in(tournament_id, stage_order, brackets.drop_last())
    }
}

/// Whether the brackets come in the order of their position in the pool.
pub open spec fn brackets_in_order(brackets: Seq<pool_bracket::Model>) -> bool {
    forall|i: int, j: int|
        0 <= i < j < brackets.len() ==> #[trigger] brackets[i].bracket_order <= #[trigger] brackets[j].bracket_order
}

/// The brackets of the pool of stage `stage_order` of tournament
/// `tournament_id` among the stored `brackets`, in their order in the pool.
pub fn stage_brackets(tournament_id: i32, stage_order: i16, brackets: Vec<pool_bracket::Model>) -> (r: Vec<
    pool_bracket::Model,
>)
    ensures
        r@.to_multiset() == brackets_in(tournament_id, stage_order, brackets@).to_multiset(),
        brackets_in_order(r@),
        forall|k: int| 0 <= k < r@.len() ==> in_stage(tournament_id, stage_order, #[trigger] r@[k]),
{
    let ghost input = brackets@;
    let total: usize = brackets.len();
    let mut rest = brackets;
    let mut r: Vec<pool_bracket::Model> = Vec::new();
    let mut i: usize = 0;
    while rest.len() > 0
        invariant
            input.len() == total,
            i + rest@.len() == total,
            rest@ == input.subrange(i as int, total as int),
            brackets_in_order(r@),
            forall|k: int| 0 <= k < r@.len() ==> in_stage(tournament_id, stage_order, #[trigger] r@[k]),
            r@.to_multiset() == brackets_in(tournament_id, stage_order, input.take(i as int)).to_multiset(),
        decreases rest@.len(),
    {
        let b = rest.remove(0);
        let ghost t = input.take(i + 1);
        assert(t.drop_last() =~= input.take(i as int));
        assert(t.last() == b);
        if b.tournament_id == tournament_id && b.stage_order == stage_order {
            let mut p: usize = 0;
            while p < r.len() && r[p].bracket_order <= b.bracket_order
                invariant
                    p <= r@.len(),
                    forall|k: int| 0 <= k < p ==> #[trigger] r@[k].bracket_order <= b.bracket_order,
                decreases r@.len() - p,
            {
                p = p + 1;
            }
            let ghost before = r@;
            let ghost bb = b;
            r.insert(p, b);
            proof {
                vstd::seq_lib::to_multiset_insert(before, p as int, bb);
                vstd::seq_lib::to_multiset_build(brackets_in(tournament_id, stage_order, input.take(i as int)), bb);
            }
            assert(brackets_in(tournament_id, stage_order, t) == brackets_in(
                tournament_id,
                stage_order,
                input.take(i as int),
            ).push(bb));
            assert forall|a: int, c: int| 0 <= a < c < r@.len() implies #[trigger] r@[a].bracket_order
                <= #[trigger] r@[c].bracket_order by {
                if a < p as int && c == p as int {
                } else if a == p as int {
                    assert(before[c - 1].bracket_order >= before[p as int].bracket_order);
                } else if a < p as int {
                    assert(before[a].bracket_order <= before[c - 1].bracket_order);
                } else {
                    assert(before[a - 1].bracket_order <= before[c - 1].bracket_order);
                }
            }
        } else {
            assert(brackets_in(tournament_id, stage_order, t) == brackets_in(
                tournament_id,
                stage_order,
                input.take(i as int),
            ));
        }
        i += 1;
        assert(rest@ =~= input.subrange(i as int, total as int));
    }
    assert(input.take(total as int) =~= input);
    r
}

/// Whether `b` is the bracket at position `order` of a pool, made from the
/// stored bracket `stored` and the beatmaps `maps`.
pub open spec fn bracket_of<D>(
    b: PoolBracketDto<D>,
    order: int,
    stored: pool_bracket::Model,
    maps: Seq<BeatmapDto<D>>,
) -> bool {
    &&& b.order == order
    &&& b.name@ == stored.name@
    &&& b.maps@ == maps
}

impl<D> PoolDto<D> {
    /// The pool of stage `stage_order` of tournament `tournament_id`, made
    /// from the stored brackets, each with the beatmaps of its maps: the
    /// brackets keep their order and are numbered from 0 in it.
    pub fn assemble(
        tournament_id: usize,
        stage_order: usize,
        brackets: Vec<(pool_bracket::Model, Vec<BeatmapDto<D>>)>,
    ) -> (r: PoolDto<D>)
        ensures
            r.tournament_id == tournament_id,
            r.stage_order == stage_order,
            r.brackets@.len() == brackets@.len(),
            forall|i: int|
                0 <= i < brackets@.len() ==> bracket_of(
                    #[trigger] r.brackets@[i],
                    i,
                    brackets@[i].0,
                    brackets@[i].1@,
                ),
    {
        let ghost input = brackets@;
        let total: usize = brackets.len();
        let mut rest = brackets;
        let mut out: Vec<PoolBracketDto<D>> = Vec::new();
        let mut order: usize = 0;
        while rest.len() > 0
            invariant
                input.len() == total,
                order + rest@.len() == input.len(),
                rest@ == input.subrange(order as int, input.len() as int),
                out@.len() == order,
                forall|i: int|
                    0 <= i < order ==> bracket_of(
                        #[trigger] out@[i],
                        i,
                        input[i].0,
                        input[i].1@,
                    ),
            decreases rest@.len(),
        {
            let (stored, maps) = rest.remove(0);
            assert(input[order as int] == (stored, maps));
            out.push(PoolBracketDto { order, name: stored.name, maps });
            order += 1;
            assert(rest@ =~= input.subrange(order as int, input.len() as int));
        }
        PoolDto { tournament_id, stage_order, brackets: out }
    }
}

} // verus!
