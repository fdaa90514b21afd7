use vstd::prelude::*;
use crate::action::{
    action_finish_event, action_finish_objs, action_finish_sim, action_start_dur,
    action_start_event, action_start_objs, action_start_sim, Action, Event,
};
use crate::advert::{offer, offer_spec, Advert, Need};
use crate::object::Obj;
use crate::pos::{dist, dist_spec, Pos};
use crate::stat::{dec_spec, stat_dec, Stat};
use crate::{Duration, ObjId};

verus! {

/// An agent: a name, a pending-action queue, at most one in-flight
/// action with its remaining duration, a position, and the two needs.
/// The in-flight slot and the queue are mutually exclusive sources of
/// the next action: the slot always drains before the queue is pulled.
pub struct Sim {
    pub name: String,
    pub queue: Vec<Action>,
    pub current: Option<(Action, Duration)>,
    pub pos: Pos,
    pub food: Stat,
    pub sleep: Stat,
}

/// The mathematical image of an agent, with sequences in place of the
/// executable collections.
#[verifier::ext_equal]
pub struct SimV {
    pub name: Seq<char>,
    pub queue: Seq<Action>,
    pub current: Option<(Action, Duration)>,
    pub pos: Pos,
    pub food: Stat,
    pub sleep: Stat,
}

impl View for Sim {
    type V = SimV;

    open spec fn view(&self) -> SimV {
        SimV {
            name: self.name@,
            queue: self.queue@,
            current: self.current,
            pos: self.pos,
            food: self.food,
            sleep: self.sleep,
        }
    }
}

/// An agent is well formed for a registry of `nobjs` objects when
/// every action it holds addresses an index inside the registry.
pub open spec fn sim_wf(s: SimV, nobjs: nat) -> bool {
    &&& forall|i: int| 0 <= i < s.queue.len() ==> (#[trigger] s.queue[i]).wf(nobjs)
    &&& match s.current {
        Some((a, _)) => a.wf(nobjs),
        None => true,
    }
}

/// An advertisement list is well formed for a registry of `nobjs`
/// objects when every entry names an index inside the registry.
pub open spec fn adverts_wf(ads: Seq<(ObjId, Advert)>, nobjs: nat) -> bool {
    forall|i: int| 0 <= i < ads.len() ==> (#[trigger] ads[i]).0 < nobjs
}

/// Stat decay at the start of tick `cycle`: food drops by one on every
/// fifth tick, sleep on every tenth, each independent of everything
/// else about the agent.
pub open spec fn decay_spec(s: SimV, cycle: int) -> SimV {
    SimV {
        food: if cycle % 5 == 0 {
            dec_spec(s.food)
        } else {
            s.food
        },
        sleep: if cycle % 10 == 0 {
            dec_spec(s.sleep)
        } else {
            s.sleep
        },
        ..s
    }
}

/// Whether a need is pressing enough to plan for. The two thresholds
/// differ: food is sought below 2, sleep below 0.
pub open spec fn threshold_spec(s: SimV, n: Need) -> bool {
    match n {
        Need::Food => s.food < 2,
        Need::Sleep => s.sleep < 0,
    }
}

/// The greedy choice over the advertisement list: among the entries
/// that offer a strictly positive amount for the need, the one whose
/// object lies nearest to `from`; an earlier entry beats a later one at
/// the same distance. The result carries the registry index and the
/// distance.
pub open spec fn select_spec(
    ads: Seq<(ObjId, Advert)>,
    objs: Seq<Obj>,
    from: Pos,
    n: Need,
) -> Option<(ObjId, u8)>
    decreases ads.len(),
{
    if ads.len() == 0 {
        None
    } else {
        let prev = select_spec(ads.drop_last(), objs, from, n);
        let id = ads.last().0;
        let ad = ads.last().1;
        if offer_spec(ad, n) <= 0 {
            prev
        } else {
            let d = dist_spec(objs[id as int].pos_spec(), from);
            match prev {
                None => Some((id, d as u8)),
                Some((pid, pd)) => if d < pd {
                    Some((id, d as u8))
                } else {
                    Some((pid, pd))
                },
            }
        }
    }
}

/// Planning for one need: when the need is below its threshold and a
/// qualifying object is advertised, exactly two actions are appended to
/// the queue — walk to the chosen object, then use it.
pub open spec fn plan_need_spec(
    s: SimV,
    ads: Seq<(ObjId, Advert)>,
    objs: Seq<Obj>,
    n: Need,
) -> SimV {
    if threshold_spec(s, n) {
        match select_spec(ads, objs, s.pos, n) {
            Some((id, _)) => SimV {
                queue: s.queue.push(Action::Goto(objs[id as int].pos_spec())).push(
                    Action::Interact(id),
                ),
                ..s
            },
            None => s,
        }
    } else {
        s
    }
}

/// Planning for both needs, food first and sleep second, each
/// independently of the other; both may append a pair in one tick.
pub open spec fn plan_spec(s: SimV, ads: Seq<(ObjId, Advert)>, objs: Seq<Obj>) -> SimV {
    plan_need_spec(plan_need_spec(s, ads, objs, Need::Food), ads, objs, Need::Sleep)
}

/// One tick of an agent: decay, then exactly one of — count the
/// in-flight action down, complete it when its duration has run out,
/// start the next queued action, or plan. The result is the agent, the
/// registry, and the event announced this tick, if any.
pub open spec fn sim_update_spec(
    s: SimV,
    cycle: int,
    ads: Seq<(ObjId, Advert)>,
    objs: Seq<Obj>,
) -> (SimV, Seq<Obj>, Option<Event>) {
    let s0 = decay_spec(s, cycle);
    match s0.current {
        Some((a, dur)) => {
            if dur == 0 {
                let s1 = SimV { current: None, ..s0 };
                (action_finish_sim(a, s1), action_finish_objs(a, objs), action_finish_event(a, objs))
            } else {
                (SimV { current: Some((a, (dur - 1) as u8)), ..s0 }, objs, None)
            }
        },
        None => {
            if s0.queue.len() > 0 {
                let a = s0.queue[0];
                let s1 = SimV { queue: s0.queue.drop_first(), ..s0 };
                let s2 = action_start_sim(a, s1, objs);
                let d = action_start_dur(a, s1, objs);
                (
                    SimV { current: Some((a, d)), ..s2 },
                    action_start_objs(a, objs),
                    Some(action_start_event(a, objs)),
                )
            } else {
                (plan_spec(s0, ads, objs), objs, None)
            }
        },
    }
}

/// A well-formed advertisement list stays well formed when its last
/// entry is dropped, and whatever the greedy choice picks from it is an
/// index inside the registry.
pub proof fn lemma_select_in_bounds(
    ads: Seq<(ObjId, Advert)>,
    objs: Seq<Obj>,
    from: Pos,
    n: Need,
)
    requires
        adverts_wf(ads, objs.len()),
    ensures
        match select_spec(ads, objs, from, n) {
            Some((id, _)) => id < objs.len(),
            None => true,
        },
    decreases ads.len(),
{
    if ads.len() > 0 {
        assert forall|i: int| 0 <= i < ads.drop_last().len() implies (#[trigger] ads.drop_last()[i]).0
            < objs.len() by {
            assert(ads.drop_last()[i] == ads[i]);
        }
        lemma_select_in_bounds(ads.drop_last(), objs, from, n);
    }
}

/// A tick preserves well-formedness: the registry keeps its length,
/// the agent's actions keep addressing the registry, and well-formed
/// objects stay well formed.
pub proof fn lemma_sim_update_wf(
    s: SimV,
    cycle: int,
    ads: Seq<(ObjId, Advert)>,
    objs: Seq<Obj>,
)
    requires
        sim_wf(s, objs.len()),
        adverts_wf(ads, objs.len()),
    ensures
        ({
            let r = sim_update_spec(s, cycle, ads, objs);
            &&& r.1.len() == objs.len()
            &&& sim_wf(r.0, objs.len())
            &&& (forall|i: int| 0 <= i < objs.len() ==> (#[trigger] objs[i]).wf()) ==> (forall|
                i: int,
            |
                0 <= i < r.1.len() ==> (#[trigger] r.1[i]).wf())
        }),
{
    let s0 = decay_spec(s, cycle);
    let r = sim_update_spec(s, cycle, ads, objs);
    match s0.current {
        Some((a, dur)) => {
            if dur == 0 {
                assert(sim_wf(r.0, objs.len()));
            } else {
                assert(sim_wf(r.0, objs.len()));
            }
        },
        None => {
            if s0.queue.len() > 0 {
                let a = s0.queue[0];
                assert(a.wf(objs.len()));
                assert forall|i: int| 0 <= i < r.0.queue.len() implies (#[trigger] r.0.queue[i]).wf(
                    objs.len(),
                ) by {
                    assert(r.0.queue[i] == s0.queue[i + 1]);
                }
            } else {
                lemma_select_in_bounds(ads, objs, s0.pos, Need::Food);
                let s1 = plan_need_spec(s0, ads, objs, Need::Food);
                lemma_select_in_bounds(ads, objs, s1.pos, Need::Sleep);
                assert forall|i: int| 0 <= i < r.0.queue.len() implies (#[trigger] r.0.queue[i]).wf(
                    objs.len(),
                ) by {
                    if i < s0.queue.len() {
                        assert(r.0.queue[i] == s0.queue[i]);
                    }
                }
            }
        },
    }
}

/// Scans the advertisement list for the nearest object that offers a
/// strictly positive amount for the need; ties go to the earlier entry.
pub fn select_nearest(
    ads: &Vec<(ObjId, Advert)>,
    objs: &Vec<Obj>,
    from: Pos,
    n: Need,
) -> (r: Option<(ObjId, u8)>)
    requires
        adverts_wf(ads@, objs@.len()),
    ensures
        r == select_spec(ads@, objs@, from, n),
{
    let mut cur: Option<(ObjId, u8)> = None;
    let mut i: usize = 0;
    while i < ads.len()
        invariant
            i <= ads@.len(),
            adverts_wf(ads@, objs@.len()),
            cur == select_spec(ads@.take(i as int), objs@, from, n),
        decreases ads@.len() - i,
    {
        let (id, ad) = ads[i];
        proof {
            assert(ads@.take(i + 1).drop_last() =~= ads@.take(i as int));
            assert(ads@.take(i + 1).last() == ads@[i as int]);
        }
        if offer(ad, n) > 0 {
            let d = dist(objs[id].pos(), from);
            match cur {
                None => { cur = Some((id, d)); },
                Some((_pid, pd)) => {
                    if d < pd {
                        cur = Some((id, d));
                    }
                },
            }
        }
        i = i + 1;
    }
    proof {
        assert(ads@.take(ads@.len() as int) =~= ads@);
    }
    cur
}

impl Sim {
    /// One tick of this agent against the tick's advertisement snapshot
    /// and the shared object registry. Strictly in order: decay, then
    /// either advance or complete the in-flight action, or start the
    /// next queued action, or — only with nothing queued or active —
    /// plan. Returns the event announced this tick, if any.
    pub fn update(
        &mut self,
        cycle: usize,
        adverts: &Vec<(ObjId, Advert)>,
        objs: &mut Vec<Obj>,
    ) -> (ev: Option<Event>)
        requires
            sim_wf(old(self)@, old(objs)@.len()),
            adverts_wf(adverts@, old(objs)@.len()),
        ensures
            ({
                let r = sim_update_spec(old(self)@, cycle as int, adverts@, old(objs)@);
                &&& final(self)@ == r.0
                &&& final(objs)@ == r.1
                &&& ev == r.2
            }),
    {
        let ghost s_in = self@;
        // stat decay
        if cycle % 5 == 0 {
            self.food = stat_dec(self.food);
        }
        if cycle % 10 == 0 {
            self.sleep = stat_dec(self.sleep);
        }
        proof {
            assert(self@ =~= decay_spec(s_in, cycle as int));
        }
        let ghost s0 = self@;
        // enactment: an in-flight action counts down, or completes
        if let Some((a, dur)) = self.current {
            if dur == 0 {
                self.current = None;
                let ev = a.finish(self, objs);
                proof {
                    assert(self@ =~= sim_update_spec(s_in, cycle as int, adverts@, old(objs)@).0);
                }
                return ev;
            } else {
                self.current = Some((a, dur - 1));
                proof {
                    assert(self@ =~= sim_update_spec(s_in, cycle as int, adverts@, old(objs)@).0);
                }
                return None;
            }
        }
        // enact prep: pull the next action from the queue and start it
        if self.queue.len() > 0 {
            let a = self.queue.remove(0);
            proof {
                assert(self@ =~= (SimV { queue: s0.queue.drop_first(), ..s0 }));
            }
            let r = a.start(self, objs);
            self.current = Some((a, r.0));
            proof {
                assert(self@ =~= sim_update_spec(s_in, cycle as int, adverts@, old(objs)@).0);
            }
            return Some(r.1);
        }
        // plan: each pressing need appends a walk-then-use pair for the
        // nearest advertising object, when there is one
        if self.food < 2 {
            proof {
                lemma_select_in_bounds(adverts@, objs@, self.pos, Need::Food);
            }
            if let Some((id, _d)) = select_nearest(adverts, objs, self.pos, Need::Food) {
                let p = objs[id].pos();
                self.queue.push(Action::Goto(p));
                self.queue.push(Action::Interact(id));
            }
        }
        proof {
            assert(self@ =~= plan_need_spec(s0, adverts@, old(objs)@, Need::Food));
        }
        let ghost s1 = self@;
        if self.sleep < 0 {
            proof {
                lemma_select_in_bounds(adverts@, objs@, self.pos, Need::Sleep);
            }
            if let Some((id, _d)) = select_nearest(adverts, objs, self.pos, Need::Sleep) {
                let p = objs[id].pos();
                self.queue.push(Action::Goto(p));
                self.queue.push(Action::Interact(id));
            }
        }
        proof {
            assert(self@ =~= plan_need_spec(s1, adverts@, old(objs)@, Need::Sleep));
            assert(self@ =~= sim_update_spec(s_in, cycle as int, adverts@, old(objs)@).0);
        }
        None
    }
}

} // verus!
