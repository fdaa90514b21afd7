use vstd::prelude::*;
use crate::action::{action_finish_event, action_finish_objs, action_finish_sim, Action};
use crate::advert::{offer_spec, Advert, Need};
use crate::object::{FoodMachine, Obj};
use crate::pos::{dist_spec, Pos};
use crate::sim::{
    decay_spec, plan_need_spec, plan_spec, select_spec, sim_update_spec, SimV,
};
use crate::ObjId;

verus! {

/// The hunger stat falls by exactly one precisely when the tick number
/// is a multiple of five — independent of the sleep stat and of the
/// agent's action state, neither of which decay reads. (At the very
/// bottom of the representable range the stat saturates instead of
/// falling, so that value is left out here.)
pub proof fn lemma_hunger_decay(s: SimV, cycle: int)
    requires
        s.food > i8::MIN,
    ensures
        (decay_spec(s, cycle).food == s.food - 1) <==> (cycle % 5 == 0),
        cycle % 5 != 0 ==> decay_spec(s, cycle).food == s.food,
        decay_spec(s, cycle).queue == s.queue,
        decay_spec(s, cycle).current == s.current,
        decay_spec(s, cycle).pos == s.pos,
{
}

/// An agent with a non-empty in-flight slot never starts a second
/// action and never consults the planner in the same tick: while the
/// remaining duration is positive it falls by exactly one and nothing
/// else changes; when it has run out, the completion effect fires
/// exactly once and the slot is cleared.
pub proof fn lemma_in_flight_exclusive(
    s: SimV,
    cycle: int,
    ads: Seq<(ObjId, Advert)>,
    objs: Seq<Obj>,
    a: Action,
    dur: u8,
)
    requires
        s.current == Some((a, dur)),
    ensures
        ({
            let r = sim_update_spec(s, cycle, ads, objs);
            &&& dur > 0 ==> r.0 == (SimV {
                current: Some((a, (dur - 1) as u8)),
                ..decay_spec(s, cycle)
            }) && r.1 == objs && r.2 is None
            &&& dur == 0 ==> r.0 == action_finish_sim(
                a,
                SimV { current: None, ..decay_spec(s, cycle) },
            ) && r.0.current is None && r.0.queue == s.queue && r.1 == action_finish_objs(a, objs)
                && r.2 == action_finish_event(a, objs)
        }),
{
}

/// A completed "move to P" action sets the agent's position to exactly
/// P, clears the in-flight slot, and leaves the queue and the registry
/// as they were — so the next tick proceeds to queue-draining or
/// planning, never to re-executing the finished move.
pub proof fn lemma_move_completion(
    s: SimV,
    cycle: int,
    ads: Seq<(ObjId, Advert)>,
    objs: Seq<Obj>,
    p: Pos,
)
    requires
        s.current == Some((Action::Goto(p), 0u8)),
    ensures
        ({
            let r = sim_update_spec(s, cycle, ads, objs);
            &&& r.0.pos == p
            &&& r.0.current is None
            &&& r.0.queue == s.queue
            &&& r.1 == objs
            &&& r.2 is None
        }),
{
}

/// While the food stat is at or above its threshold of 2, planning
/// appends no food-seeking pair, whatever the advertisements say: the
/// planner's whole effect is the independent sleep check.
pub proof fn lemma_no_food_plan_when_fed(s: SimV, ads: Seq<(ObjId, Advert)>, objs: Seq<Obj>)
    requires
        s.food >= 2,
    ensures
        plan_spec(s, ads, objs) == plan_need_spec(s, ads, objs, Need::Sleep),
{
}

/// Whether advertisement entry `k` offers a strictly positive amount
/// for the need.
pub open spec fn entry_offers(ads: Seq<(ObjId, Advert)>, n: Need, k: int) -> bool {
    0 <= k < ads.len() && offer_spec(ads[k].1, n) > 0
}

/// The distance from `from` to the object that entry `k` advertises.
pub open spec fn entry_dist(ads: Seq<(ObjId, Advert)>, objs: Seq<Obj>, from: Pos, k: int) -> int {
    dist_spec(objs[ads[k].0 as int].pos_spec(), from)
}

/// The advertisement entry the greedy scan settles on, tracked by its
/// place in the list rather than by the registry index it carries.
pub open spec fn sel_ix(ads: Seq<(ObjId, Advert)>, objs: Seq<Obj>, from: Pos, n: Need) -> Option<
    int,
>
    decreases ads.len(),
{
    if ads.len() == 0 {
        None
    } else {
        let prev = sel_ix(ads.drop_last(), objs, from, n);
        let k = ads.len() - 1;
        if offer_spec(ads[k as int].1, n) <= 0 {
            prev
        } else {
            match prev {
                None => Some(k as int),
                Some(p) => if entry_dist(ads, objs, from, k as int) < entry_dist(
                    ads,
                    objs,
                    from,
                    p,
                ) {
                    Some(k as int)
                } else {
                    Some(p)
                },
            }
        }
    }
}

/// What the greedy scan returns, characterized: it settles on an entry
/// exactly when one offers the need; the entry it settles on offers the
/// need, lies at the minimum distance over all offering entries, and is
/// the earliest entry at that distance; and the scan's result is that
/// entry's registry index with that distance.
pub proof fn lemma_select_characterized(
    ads: Seq<(ObjId, Advert)>,
    objs: Seq<Obj>,
    from: Pos,
    n: Need,
)
    ensures
        sel_ix(ads, objs, from, n) is None <==> (forall|m: int| !entry_offers(ads, n, m)),
        sel_ix(ads, objs, from, n) is None ==> select_spec(ads, objs, from, n) is None,
        sel_ix(ads, objs, from, n) is Some ==> ({
            let k = sel_ix(ads, objs, from, n).unwrap();
            &&& entry_offers(ads, n, k)
            &&& select_spec(ads, objs, from, n) == Some(
                (ads[k].0, entry_dist(ads, objs, from, k) as u8),
            )
            &&& forall|m: int|
                entry_offers(ads, n, m) ==> entry_dist(ads, objs, from, m) >= entry_dist(
                    ads,
                    objs,
                    from,
                    k,
                )
            &&& forall|m: int|
                entry_offers(ads, n, m) && m < k ==> entry_dist(ads, objs, from, m) > entry_dist(
                    ads,
                    objs,
                    from,
                    k,
                )
        }),
    decreases ads.len(),
{
    if ads.len() > 0 {
        let pre = ads.drop_last();
        lemma_select_characterized(pre, objs, from, n);
        assert forall|m: int| 0 <= m < pre.len() implies #[trigger] pre[m] == ads[m] by {}
        assert forall|m: int| entry_offers(pre, n, m) implies entry_offers(ads, n, m)
            && entry_dist(pre, objs, from, m) == entry_dist(ads, objs, from, m) by {}
        assert forall|m: int| entry_offers(ads, n, m) && m < ads.len() - 1 implies entry_offers(
            pre,
            n,
            m,
        ) && entry_dist(pre, objs, from, m) == entry_dist(ads, objs, from, m) by {}
        let k0 = ads.len() - 1;
        if offer_spec(ads[k0 as int].1, n) <= 0 {
            assert(!entry_offers(ads, n, k0 as int));
        }
        if sel_ix(ads, objs, from, n) is None {
            assert forall|m: int| !entry_offers(ads, n, m) by {
                if 0 <= m < k0 {
                    assert(!entry_offers(pre, n, m));
                }
            }
        }
        if forall|m: int| !entry_offers(ads, n, m) {
            assert forall|m: int| !entry_offers(pre, n, m) by {
                if 0 <= m < pre.len() {
                    assert(!entry_offers(ads, n, m));
                }
            }
            assert(!entry_offers(ads, n, k0 as int));
            assert(sel_ix(ads, objs, from, n) is None);
        }
    }
}

/// Tie-break determinism: when entry `i` offers the need at the
/// minimum distance, no earlier offering entry is as close, and a later
/// entry `j` offers the need at the very same distance, the scan still
/// settles on `i`, the earlier of the two.
pub proof fn lemma_tie_break_earliest(
    ads: Seq<(ObjId, Advert)>,
    objs: Seq<Obj>,
    from: Pos,
    n: Need,
    i: int,
    j: int,
)
    requires
        entry_offers(ads, n, i),
        entry_offers(ads, n, j),
        i < j,
        entry_dist(ads, objs, from, i) == entry_dist(ads, objs, from, j),
        forall|m: int|
            entry_offers(ads, n, m) ==> entry_dist(ads, objs, from, m) >= entry_dist(
                ads,
                objs,
                from,
                i,
            ),
        forall|m: int|
            entry_offers(ads, n, m) && m < i ==> entry_dist(ads, objs, from, m) > entry_dist(
                ads,
                objs,
                from,
                i,
            ),
    ensures
        sel_ix(ads, objs, from, n) == Some(i),
        select_spec(ads, objs, from, n) == Some((ads[i].0, entry_dist(ads, objs, from, i) as u8)),
{
    lemma_select_characterized(ads, objs, from, n);
    let k = sel_ix(ads, objs, from, n).unwrap();
    assert(entry_dist(ads, objs, from, i) >= entry_dist(ads, objs, from, k));
    assert(entry_dist(ads, objs, from, k) >= entry_dist(ads, objs, from, i));
}

/// A depleted food machine is silent for good: with no stock left it is
/// inactive and advertises nothing, and each of the two interaction
/// effects — the only operations that ever touch a machine — leaves it
/// depleted, well formed and silent. No later tick can bring its
/// advertisement back.
pub proof fn lemma_depleted_machine_stays_silent(m: FoodMachine)
    requires
        m.wf(),
        m.food == 0,
    ensures
        !m.active,
        m.advertise_spec() is None,
        m.after_start_spec().wf(),
        m.after_start_spec().food == 0,
        m.after_start_spec().advertise_spec() is None,
        m.after_finish_spec().wf(),
        m.after_finish_spec().food == 0,
        m.after_finish_spec().advertise_spec() is None,
{
}

} // verus!
