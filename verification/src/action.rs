use vstd::prelude::*;
use crate::pos::{dist, dist_spec, Pos};
use crate::object::Obj;
use crate::sim::{Sim, SimV};
use crate::{Duration, ObjId};

verus! {

/// One step of an agent's plan: walk somewhere, or use the object at a
/// registry index. An action is single-use: once started it is consumed
/// on completion.
#[derive(Clone, Copy, PartialEq, Eq, Debug)]
pub enum Action {
    Goto(Pos),
    Interact(ObjId),
}

/// A structured narration event: what an agent just began or finished.
/// The caller decides how (and whether) to present it.
#[derive(Clone, Copy, PartialEq, Eq, Debug)]
pub enum Event {
    Walking(Pos),
    UsingFoodMachine,
    Refreshed,
    Sleeping,
    WokeUp,
}

impl Action {
    /// An action is well formed for a registry of `nobjs` objects when
    /// any index it holds falls inside the registry.
    pub open spec fn wf(self, nobjs: nat) -> bool {
        match self {
            Action::Goto(_) => true,
            Action::Interact(id) => id < nobjs,
        }
    }
}

/// The agent after an action's start effect: walking changes nothing
/// yet; using an object applies the object's immediate effect.
pub open spec fn action_start_sim(a: Action, s: SimV, objs: Seq<Obj>) -> SimV {
    match a {
        Action::Goto(_) => s,
        Action::Interact(id) => objs[id as int].sim_after_start_spec(s),
    }
}

/// The registry after an action's start effect.
pub open spec fn action_start_objs(a: Action, objs: Seq<Obj>) -> Seq<Obj> {
    match a {
        Action::Goto(_) => objs,
        Action::Interact(id) => objs.update(id as int, objs[id as int].after_start_spec()),
    }
}

/// How many ticks the started action occupies: the walking distance for
/// a move, the object's own duration for an interaction.
pub open spec fn action_start_dur(a: Action, s: SimV, objs: Seq<Obj>) -> Duration {
    match a {
        Action::Goto(p) => dist_spec(s.pos, p) as u8,
        Action::Interact(id) => objs[id as int].start_duration_spec(),
    }
}

/// The event a started action announces.
pub open spec fn action_start_event(a: Action, objs: Seq<Obj>) -> Event {
    match a {
        Action::Goto(p) => Event::Walking(p),
        Action::Interact(id) => objs[id as int].start_event_spec(),
    }
}

/// The agent after an action's completion effect: a finished move
/// commits the target position; a finished interaction leaves the agent
/// as it is.
pub open spec fn action_finish_sim(a: Action, s: SimV) -> SimV {
    match a {
        Action::Goto(p) => SimV { pos: p, ..s },
        Action::Interact(_) => s,
    }
}

/// The registry after an action's completion effect.
pub open spec fn action_finish_objs(a: Action, objs: Seq<Obj>) -> Seq<Obj> {
    match a {
        Action::Goto(_) => objs,
        Action::Interact(id) => objs.update(id as int, objs[id as int].after_finish_spec()),
    }
}

/// The event a completed action announces, if any.
pub open spec fn action_finish_event(a: Action, objs: Seq<Obj>) -> Option<Event> {
    match a {
        Action::Goto(_) => None,
        Action::Interact(id) => Some(objs[id as int].finish_event_spec()),
    }
}

impl Action {
    /// Begins the action: a move computes its duration from the walking
    /// distance; an interaction delegates to the addressed object,
    /// which may apply an immediate effect.
    pub fn start(&self, sim: &mut Sim, objs: &mut Vec<Obj>) -> (r: (Duration, Event))
        requires
            self.wf(old(objs)@.len()),
        ensures
            final(sim)@ == action_start_sim(*self, old(sim)@, old(objs)@),
            final(objs)@ == action_start_objs(*self, old(objs)@),
            r.0 == action_start_dur(*self, old(sim)@, old(objs)@),
            r.1 == action_start_event(*self, old(objs)@),
    {
        match *self {
            Action::Goto(p) => {
                let d = dist(sim.pos, p);
                (d, Event::Walking(p))
            }
            Action::Interact(id) => {
                let mut o = objs.remove(id);
                let (d, ev) = o.interact_start(sim);
                objs.insert(id, o);
                proof {
                    assert(objs@ =~= old(objs)@.update(
                        id as int,
                        old(objs)@[id as int].after_start_spec(),
                    ));
                }
                (d, ev)
            }
        }
    }

    /// Applies the action's completion effect: a move commits the
    /// target position; an interaction delegates to the addressed
    /// object.
    pub fn finish(self, sim: &mut Sim, objs: &mut Vec<Obj>) -> (ev: Option<Event>)
        requires
            self.wf(old(objs)@.len()),
        ensures
            final(sim)@ == action_finish_sim(self, old(sim)@),
            final(objs)@ == action_finish_objs(self, old(objs)@),
            ev == action_finish_event(self, old(objs)@),
    {
        match self {
            Action::Goto(p) => {
                sim.pos = p;
                proof {
                    assert(sim@ =~= action_finish_sim(self, old(sim)@));
                }
                None
            }
            Action::Interact(id) => {
                let mut o = objs.remove(id);
                let ev = o.interact_finish(sim);
                objs.insert(id, o);
                proof {
                    assert(objs@ =~= old(objs)@.update(
                        id as int,
                        old(objs)@[id as int].after_finish_spec(),
                    ));
                }
                Some(ev)
            }
        }
    }
}

} // verus!
