use vstd::prelude::*;
use crate::action::Event;
use crate::advert::Advert;
use crate::object::Obj;
use crate::sim::{
    adverts_wf, lemma_sim_update_wf, sim_update_spec, sim_wf, Sim, SimV,
};
use crate::ObjId;

verus! {

/// The whole simulation: the agents, the object registry, and the
/// current tick's advertisement snapshot (rebuilt every tick, never
/// kept across ticks).
pub struct World {
    pub sims: Vec<Sim>,
    pub objs: Vec<Obj>,
    pub adverts: Vec<(ObjId, Advert)>,
}

/// The advertisement snapshot of a registry: every advertising object's
/// advertisement paired with the object's registry index, in registry
/// order.
pub open spec fn adverts_of(objs: Seq<Obj>) -> Seq<(ObjId, Advert)>
    decreases objs.len(),
{
    if objs.len() == 0 {
        Seq::empty()
    } else {
        let pre = adverts_of(objs.drop_last());
        match objs.last().advertise_spec() {
            Some(ad) => pre.push((((objs.len() - 1) as usize), ad)),
            None => pre,
        }
    }
}

/// The snapshot is truthful: every entry names an index inside the
/// registry, and carries exactly what that object advertises.
pub proof fn lemma_adverts_of_wf(objs: Seq<Obj>)
    requires
        objs.len() <= usize::MAX,
    ensures
        adverts_wf(adverts_of(objs), objs.len()),
        forall|i: int|
            0 <= i < adverts_of(objs).len() ==> objs[(#[trigger] adverts_of(objs)[i]).0 as int]
                .advertise_spec() == Some(adverts_of(objs)[i].1),
    decreases objs.len(),
{
    if objs.len() > 0 {
        lemma_adverts_of_wf(objs.drop_last());
        let pre = adverts_of(objs.drop_last());
        assert forall|i: int|
            0 <= i < adverts_of(objs).len() implies objs[(#[trigger] adverts_of(objs)[i]).0 as int]
            .advertise_spec() == Some(adverts_of(objs)[i].1) by {
            if i < pre.len() {
                assert(adverts_of(objs)[i] == pre[i]);
                assert(objs.drop_last()[pre[i].0 as int] == objs[pre[i].0 as int]);
            }
        }
    }
}

/// The agents' mathematical images, in registration order.
pub open spec fn views_of(sims: Seq<Sim>) -> Seq<SimV> {
    sims.map_values(|s: Sim| s@)
}

/// One tick over all agents, in registration order, each against the
/// same frozen advertisement snapshot and the live registry. The result
/// is the agents, the registry, and the announced events paired with
/// the index of the agent that announced them.
pub open spec fn run_sims_spec(
    sims: Seq<SimV>,
    cycle: int,
    ads: Seq<(ObjId, Advert)>,
    objs: Seq<Obj>,
) -> (Seq<SimV>, Seq<Obj>, Seq<(usize, Event)>)
    decreases sims.len(),
{
    if sims.len() == 0 {
        (Seq::empty(), objs, Seq::empty())
    } else {
        let r = run_sims_spec(sims.drop_last(), cycle, ads, objs);
        let u = sim_update_spec(sims.last(), cycle, ads, r.1);
        (
            r.0.push(u.0),
            u.1,
            match u.2 {
                Some(e) => r.2.push((((sims.len() - 1) as usize), e)),
                None => r.2,
            },
        )
    }
}

impl World {
    /// The world is well formed when every agent's actions address the
    /// registry and every object is well formed.
    pub open spec fn wf(self) -> bool {
        &&& forall|i: int|
            0 <= i < self.sims@.len() ==> sim_wf((#[trigger] self.sims@[i])@, self.objs@.len())
        &&& forall|i: int| 0 <= i < self.objs@.len() ==> (#[trigger] self.objs@[i]).wf()
    }

    /// An empty world.
    pub fn new() -> (w: World)
        ensures
            w.sims@.len() == 0,
            w.objs@.len() == 0,
            w.adverts@.len() == 0,
            w.wf(),
    {
        World { sims: Vec::new(), objs: Vec::new(), adverts: Vec::new() }
    }

    /// Polls every object for this tick's advertisement and pairs each
    /// answer with the object's registry index.
    pub fn view_adverts(&self) -> (r: Vec<(ObjId, Advert)>)
        ensures
            r@ == adverts_of(self.objs@),
    {
        let mut r: Vec<(ObjId, Advert)> = Vec::new();
        let mut i: usize = 0;
        while i < self.objs.len()
            invariant
                i <= self.objs@.len(),
                r@ == adverts_of(self.objs@.take(i as int)),
            decreases self.objs@.len() - i,
        {
            proof {
                assert(self.objs@.take(i + 1).drop_last() =~= self.objs@.take(i as int));
                assert(self.objs@.take(i + 1).last() == self.objs@[i as int]);
            }
            match self.objs[i].advertise() {
                Some(ad) => {
                    r.push((i, ad));
                },
                None => {},
            }
            i = i + 1;
        }
        proof {
            assert(self.objs@.take(self.objs@.len() as int) =~= self.objs@);
        }
        r
    }

    /// Advances the world by one tick: rebuilds the advertisement
    /// snapshot, then processes every agent in registration order
    /// against that one frozen snapshot and the live registry. Returns
    /// the events the agents announced, each paired with its agent's
    /// index.
    pub fn update(&mut self, cycle: usize) -> (events: Vec<(usize, Event)>)
        requires
            old(self).wf(),
        ensures
            ({
                let ads = adverts_of(old(self).objs@);
                let r = run_sims_spec(
                    views_of(old(self).sims@),
                    cycle as int,
                    ads,
                    old(self).objs@,
                );
                &&& final(self).adverts@ == ads
                &&& views_of(final(self).sims@) == r.0
                &&& final(self).objs@ == r.1
                &&& events@ == r.2
                &&& final(self).wf()
                &&& final(self).sims@.len() == old(self).sims@.len()
                &&& final(self).objs@.len() == old(self).objs@.len()
            }),
    {
        let ads = self.view_adverts();
        let n_objs: usize = self.objs.len();
        proof {
            assert(self.objs@.len() == n_objs);
            lemma_adverts_of_wf(self.objs@);
        }
        let ghost full = views_of(old(self).sims@);
        let mut events: Vec<(usize, Event)> = Vec::new();
        let mut i: usize = 0;
        while i < self.sims.len()
            invariant
                i <= self.sims@.len(),
                self.sims@.len() == old(self).sims@.len(),
                self.objs@.len() == old(self).objs@.len(),
                full == views_of(old(self).sims@),
                ads@ == adverts_of(old(self).objs@),
                adverts_wf(ads@, self.objs@.len()),
                forall|j: int|
                    i <= j < self.sims@.len() ==> (#[trigger] self.sims@[j]) == old(
                        self,
                    ).sims@[j],
                ({
                    let r = run_sims_spec(
                        full.take(i as int),
                        cycle as int,
                        ads@,
                        old(self).objs@,
                    );
                    &&& views_of(self.sims@.take(i as int)) == r.0
                    &&& self.objs@ == r.1
                    &&& events@ == r.2
                }),
                forall|j: int|
                    0 <= j < self.sims@.len() ==> sim_wf(
                        (#[trigger] self.sims@[j])@,
                        self.objs@.len(),
                    ),
                forall|j: int| 0 <= j < self.objs@.len() ==> (#[trigger] self.objs@[j]).wf(),
            decreases self.sims@.len() - i,
        {
            let ghost sims_before = self.sims@;
            let ghost objs_before = self.objs@;
            let mut s = self.sims.remove(i);
            let ghost s_pre = s@;
            proof {
                lemma_sim_update_wf(s_pre, cycle as int, ads@, objs_before);
                assert(full.take(i + 1).drop_last() =~= full.take(i as int));
                assert(full.take(i + 1).last() == full[i as int]);
                assert(full[i as int] == s_pre);
            }
            let ev = s.update(cycle, &ads, &mut self.objs);
            self.sims.insert(i, s);
            proof {
                assert(self.sims@ =~= sims_before.update(i as int, s));
            }
            if let Some(e) = ev {
                events.push((i, e));
            }
            proof {
                let r1 = run_sims_spec(full.take(i + 1), cycle as int, ads@, old(self).objs@);
                assert(views_of(self.sims@.take(i + 1)) =~= views_of(
                    self.sims@.take(i as int),
                ).push(s@));
                assert(views_of(self.sims@.take(i as int)) =~= views_of(
                    sims_before.take(i as int),
                ));
                assert(events@ == r1.2);
            }
            i = i + 1;
        }
        proof {
            assert(full.take(full.len() as int) =~= full);
            assert(self.sims@.take(self.sims@.len() as int) =~= self.sims@);
        }
        self.adverts = ads;
        events
    }
}

} // verus!
