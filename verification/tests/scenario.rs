use needsim::action::{Action, Event};
use needsim::advert::Advert;
use needsim::object::{Bed, FoodMachine, Obj};
use needsim::sim::Sim;
use needsim::world::World;

fn sim(name: &str, pos: (i8, i8), food: i8, sleep: i8) -> Sim {
    Sim {
        name: String::from(name),
        queue: Vec::new(),
        current: None,
        pos,
        food,
        sleep,
    }
}

#[test]
fn view_adverts_pairs_registry_indices_with_offers() {
    let world = World {
        sims: Vec::new(),
        objs: vec![
            Obj::Food(FoodMachine::new((15, 0), 80)),
            Obj::Bed(Bed::new((15, 15))),
            Obj::Food(FoodMachine::new((1, 1), 0)), // silent: no stock
        ],
        adverts: Vec::new(),
    };
    let ads = world.view_adverts();
    assert_eq!(
        ads,
        vec![
            (0, Advert { food: 5, sleep: 0 }),
            (1, Advert { food: 0, sleep: 10 }),
        ]
    );
}

#[test]
fn sleepy_agent_walks_to_the_bed_and_recovers() {
    let mut world = World {
        sims: vec![sim("Dave", (-5, 5), 8, 1)],
        objs: vec![Obj::Bed(Bed::new((15, 15)))],
        adverts: Vec::new(),
    };

    for cycle in 1..=19 {
        world.update(cycle);
        assert_eq!(world.sims[0].queue.len(), 0);
        assert_eq!(world.sims[0].current, None);
    }

    // cycle 20: sleep decays to -1, crossing its threshold; the planner
    // appends the walk-then-use pair for the bed
    world.update(20);
    assert_eq!(world.sims[0].sleep, -1);
    assert_eq!(
        world.sims[0].queue,
        vec![Action::Goto((15, 15)), Action::Interact(0)]
    );

    // cycle 21: the walk starts; its duration is the Manhattan distance
    let events = world.update(21);
    assert_eq!(events, vec![(0, Event::Walking((15, 15)))]);
    assert_eq!(world.sims[0].current, Some((Action::Goto((15, 15)), 30)));
    assert_eq!(world.sims[0].queue, vec![Action::Interact(0)]);

    // mid-walk the agent is busy: hungry, but never re-planning
    for cycle in 22..=51 {
        world.update(cycle);
        assert_eq!(world.sims[0].queue.len(), 1);
    }
    assert_eq!(world.sims[0].pos, (-5, 5));
    assert_eq!(world.sims[0].current, Some((Action::Goto((15, 15)), 0)));

    // cycle 52: the move completes, 30 ticks after walking began
    world.update(52);
    assert_eq!(world.sims[0].pos, (15, 15));
    assert_eq!(world.sims[0].current, None);

    // cycle 53: the interaction starts; sleep is reset at once and the
    // bed is occupied; the food stat is untouched by the bed
    let events = world.update(53);
    assert_eq!(events, vec![(0, Event::Sleeping)]);
    assert_eq!(world.sims[0].sleep, 10); // max(-4 + 10, 10)
    assert_eq!(world.sims[0].food, -2);
    assert_eq!(world.sims[0].current, Some((Action::Interact(0), 5)));
    assert_eq!(world.objs[0], Obj::Bed(Bed { active: false, pos: (15, 15) }));

    // the interaction occupies five further ticks
    for cycle in 54..=58 {
        world.update(cycle);
    }
    assert_eq!(world.sims[0].current, Some((Action::Interact(0), 0)));

    // cycle 59: it completes and the bed reactivates
    let events = world.update(59);
    assert_eq!(events, vec![(0, Event::WokeUp)]);
    assert_eq!(world.sims[0].sleep, 10);
    assert_eq!(world.sims[0].current, None);
    assert_eq!(world.objs[0], Obj::Bed(Bed { active: true, pos: (15, 15) }));
}

#[test]
fn agents_share_one_snapshot_per_tick() {
    // Both agents plan against the same frozen advertisement list, so
    // both claim the same machine in the same tick; the staleness is
    // accepted, not special-cased.
    let mut world = World {
        sims: vec![sim("Dave", (0, 0), 1, 3), sim("Steve", (1, 0), 1, 3)],
        objs: vec![Obj::Food(FoodMachine::new((3, 0), 9))],
        adverts: Vec::new(),
    };
    world.update(1);
    assert_eq!(
        world.sims[0].queue,
        vec![Action::Goto((3, 0)), Action::Interact(0)]
    );
    assert_eq!(
        world.sims[1].queue,
        vec![Action::Goto((3, 0)), Action::Interact(0)]
    );
}

#[test]
fn agents_are_processed_in_registration_order() {
    let mut world = World {
        sims: vec![sim("Dave", (1, 0), 8, -1), sim("Steve", (2, 0), 8, -1)],
        objs: vec![Obj::Bed(Bed::new((0, 0)))],
        adverts: Vec::new(),
    };
    // tick 1: both queue the bed pair from the shared snapshot
    world.update(1);
    // tick 2: both start walking; events come back in agent order
    let events = world.update(2);
    assert_eq!(
        events,
        vec![(0, Event::Walking((0, 0))), (1, Event::Walking((0, 0)))]
    );
}

#[test]
fn long_run_keeps_the_world_sound() {
    let mut world = World {
        sims: vec![sim("Dave", (-5, 5), 8, 1), sim("Steve", (-5, 5), 6, 10)],
        objs: vec![
            Obj::Food(FoodMachine::new((15, 0), 80)),
            Obj::Bed(Bed::new((15, 15))),
        ],
        adverts: Vec::new(),
    };
    for cycle in 1..=200 {
        world.update(cycle);
        assert_eq!(world.sims.len(), 2);
        assert_eq!(world.objs.len(), 2);
        for s in &world.sims {
            if let Some((Action::Interact(id), _)) = s.current {
                assert!(id < world.objs.len());
            }
            for a in &s.queue {
                if let Action::Interact(id) = a {
                    assert!(*id < world.objs.len());
                }
            }
        }
    }
}
