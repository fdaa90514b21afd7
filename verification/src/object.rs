use vstd::prelude::*;
use crate::advert::Advert;
use crate::action::Event;
use crate::pos::Pos;
use crate::sim::{Sim, SimV};
use crate::stat::{satisfy_spec, stat_satisfy};
use crate::Duration;

verus! {

/// A dispenser that restores the food need, with a finite stock.
#[derive(Clone, Copy, PartialEq, Eq, Debug)]
pub struct FoodMachine {
    pub active: bool,
    pub pos: Pos,
    pub food: u8,
}

impl FoodMachine {
    /// A machine only offers itself while it still has stock.
    pub open spec fn wf(self) -> bool {
        self.active ==> self.food >= 1
    }

    pub open spec fn advertise_spec(self) -> Option<Advert> {
        if self.active {
            Some(Advert { food: 5, sleep: 0 })
        } else {
            None
        }
    }

    /// The machine after an agent begins using it: it goes inactive and
    /// one unit of stock is consumed.
    pub open spec fn after_start_spec(self) -> FoodMachine {
        FoodMachine {
            active: false,
            food: if self.food > 0 {
                (self.food - 1) as u8
            } else {
                0
            },
            ..self
        }
    }

    /// The machine after an interaction ends: it comes back only while
    /// stock remains.
    pub open spec fn after_finish_spec(self) -> FoodMachine {
        FoodMachine {
            active: if self.food > 0 {
                true
            } else {
                self.active
            },
            ..self
        }
    }

    /// Constructs a machine at a position with the given stock; it
    /// starts active only when it has anything to dispense.
    pub fn new(pos: Pos, food: u8) -> (m: FoodMachine)
        ensures
            m == (FoodMachine { active: food > 0, pos, food }),
            m.wf(),
    {
        FoodMachine { active: food > 0, pos, food }
    }

    /// While active, offers food; otherwise nothing.
    pub fn advertise(&self) -> (r: Option<Advert>)
        ensures
            r == self.advertise_spec(),
    {
        if !self.active {
            return None;
        }
        Some(Advert { food: 5, sleep: 0 })
    }

    /// Begins a use: deactivates the machine, consumes one unit of
    /// stock, and raises the agent's food stat at once. The use
    /// occupies two ticks.
    pub fn interact_start(&mut self, sim: &mut Sim) -> (d: Duration)
        ensures
            *final(self) == old(self).after_start_spec(),
            final(sim)@ == (SimV { food: satisfy_spec(old(sim)@.food, 5), ..old(sim)@ }),
            d == 2,
    {
        self.active = false;
        sim.food = stat_satisfy(sim.food, 5);
        if self.food > 0 {
            self.food = self.food - 1;
        }
        proof {
            assert(sim@ =~= (SimV { food: satisfy_spec(old(sim)@.food, 5), ..old(sim)@ }));
        }
        2
    }

    /// Ends a use: the machine reactivates while stock remains; the
    /// agent is left as it is.
    pub fn interact_finish(&mut self, sim: &mut Sim)
        ensures
            *final(self) == old(self).after_finish_spec(),
            final(sim)@ == old(sim)@,
    {
        if self.food > 0 {
            self.active = true;
        }
    }

    /// The machine's fixed location.
    pub fn pos(&self) -> (p: Pos)
        ensures
            p == self.pos,
    {
        self.pos
    }
}

/// A bed that restores the sleep need.
#[derive(Clone, Copy, PartialEq, Eq, Debug)]
pub struct Bed {
    pub active: bool,
    pub pos: Pos,
}

impl Bed {
    pub open spec fn advertise_spec(self) -> Option<Advert> {
        if self.active {
            Some(Advert { food: 0, sleep: 10 })
        } else {
            None
        }
    }

    /// The bed after an agent lies down: it goes inactive.
    pub open spec fn after_start_spec(self) -> Bed {
        Bed { active: false, ..self }
    }

    /// The bed after the sleep ends: it is free again.
    pub open spec fn after_finish_spec(self) -> Bed {
        Bed { active: true, ..self }
    }

    /// Constructs a free bed at a position.
    pub fn new(pos: Pos) -> (b: Bed)
        ensures
            b == (Bed { active: true, pos }),
    {
        Bed { active: true, pos }
    }

    /// While free, offers sleep; otherwise nothing.
    pub fn advertise(&self) -> (r: Option<Advert>)
        ensures
            r == self.advertise_spec(),
    {
        if !self.active {
            return None;
        }
        Some(Advert { food: 0, sleep: 10 })
    }

    /// Begins a sleep: occupies the bed and raises the agent's sleep
    /// stat at once. The sleep occupies five ticks.
    pub fn interact_start(&mut self, sim: &mut Sim) -> (d: Duration)
        ensures
            *final(self) == old(self).after_start_spec(),
            final(sim)@ == (SimV { sleep: satisfy_spec(old(sim)@.sleep, 10), ..old(sim)@ }),
            d == 5,
    {
        self.active = false;
        sim.sleep = stat_satisfy(sim.sleep, 10);
        proof {
            assert(sim@ =~= (SimV { sleep: satisfy_spec(old(sim)@.sleep, 10), ..old(sim)@ }));
        }
        5
    }

    /// Ends a sleep: the bed is free again; the agent is left as it is.
    pub fn interact_finish(&mut self, sim: &mut Sim)
        ensures
            *final(self) == old(self).after_finish_spec(),
            final(sim)@ == old(sim)@,
    {
        self.active = true;
    }

    /// The bed's fixed location.
    pub fn pos(&self) -> (p: Pos)
        ensures
            p == self.pos,
    {
        self.pos
    }
}

/// A world object, addressed by its stable index in the registry. The
/// registry never reorders or removes entries, so an index stays valid
/// for the process lifetime. Every kind exposes the same capability
/// set: advertise, begin interaction, end interaction, report position.
#[derive(Clone, Copy, PartialEq, Eq, Debug)]
pub enum Obj {
    Food(FoodMachine),
    Bed(Bed),
}

impl Obj {
    pub open spec fn wf(self) -> bool {
        match self {
            Obj::Food(m) => m.wf(),
            Obj::Bed(_) => true,
        }
    }

    pub open spec fn pos_spec(self) -> Pos {
        match self {
            Obj::Food(m) => m.pos,
            Obj::Bed(b) => b.pos,
        }
    }

    pub open spec fn advertise_spec(self) -> Option<Advert> {
        match self {
            Obj::Food(m) => m.advertise_spec(),
            Obj::Bed(b) => b.advertise_spec(),
        }
    }

    /// The object after an agent begins interacting with it.
    pub open spec fn after_start_spec(self) -> Obj {
        match self {
            Obj::Food(m) => Obj::Food(m.after_start_spec()),
            Obj::Bed(b) => Obj::Bed(b.after_start_spec()),
        }
    }

    /// The object after an interaction with it ends.
    pub open spec fn after_finish_spec(self) -> Obj {
        match self {
            Obj::Food(m) => Obj::Food(m.after_finish_spec()),
            Obj::Bed(b) => Obj::Bed(b.after_finish_spec()),
        }
    }

    /// The agent after the object's immediate start effect.
    pub open spec fn sim_after_start_spec(self, s: SimV) -> SimV {
        match self {
            Obj::Food(_) => SimV { food: satisfy_spec(s.food, 5), ..s },
            Obj::Bed(_) => SimV { sleep: satisfy_spec(s.sleep, 10), ..s },
        }
    }

    /// How many ticks an interaction with the object occupies.
    pub open spec fn start_duration_spec(self) -> Duration {
        match self {
            Obj::Food(_) => 2,
            Obj::Bed(_) => 5,
        }
    }

    pub open spec fn start_event_spec(self) -> Event {
        match self {
            Obj::Food(_) => Event::UsingFoodMachine,
            Obj::Bed(_) => Event::Sleeping,
        }
    }

    pub open spec fn finish_event_spec(self) -> Event {
        match self {
            Obj::Food(_) => Event::Refreshed,
            Obj::Bed(_) => Event::WokeUp,
        }
    }

    /// Polls the object for its advertisement; nothing while it cannot
    /// serve an agent.
    pub fn advertise(&self) -> (r: Option<Advert>)
        ensures
            r == self.advertise_spec(),
    {
        match self {
            Obj::Food(m) => m.advertise(),
            Obj::Bed(b) => b.advertise(),
        }
    }

    /// Begins an interaction: mutates the object and possibly the
    /// agent, and reports the duration and the announcing event.
    pub fn interact_start(&mut self, sim: &mut Sim) -> (r: (Duration, Event))
        ensures
            *final(self) == old(self).after_start_spec(),
            final(sim)@ == old(self).sim_after_start_spec(old(sim)@),
            r.0 == old(self).start_duration_spec(),
            r.1 == old(self).start_event_spec(),
    {
        match self {
            Obj::Food(m) => {
                let d = m.interact_start(sim);
                (d, Event::UsingFoodMachine)
            }
            Obj::Bed(b) => {
                let d = b.interact_start(sim);
                (d, Event::Sleeping)
            }
        }
    }

    /// Ends an interaction: applies the object's completion effect and
    /// reports the announcing event.
    pub fn interact_finish(&mut self, sim: &mut Sim) -> (ev: Event)
        ensures
            *final(self) == old(self).after_finish_spec(),
            final(sim)@ == old(sim)@,
            ev == old(self).finish_event_spec(),
    {
        match self {
            Obj::Food(m) => {
                m.interact_finish(sim);
                Event::Refreshed
            }
            Obj::Bed(b) => {
                b.interact_finish(sim);
                Event::WokeUp
            }
        }
    }

    /// The object's fixed location.
    pub fn pos(&self) -> (p: Pos)
        ensures
            p == self.pos_spec(),
    {
        match self {
            Obj::Food(m) => m.pos(),
            Obj::Bed(b) => b.pos(),
        }
    }
}

} // verus!
