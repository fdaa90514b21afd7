use needsim::action::Action;
use needsim::advert::{Advert, Need};
use needsim::object::{Bed, FoodMachine, Obj};
use needsim::sim::{select_nearest, Sim};

fn idle_sim(pos: (i8, i8), food: i8, sleep: i8) -> Sim {
    Sim {
        name: String::from("Dave"),
        queue: Vec::new(),
        current: None,
        pos,
        food,
        sleep,
    }
}

#[test]
fn select_nearest_picks_the_closest_offering_object() {
    let objs: Vec<Obj> = vec![
        Obj::Food(FoodMachine::new((10, 0), 9)),
        Obj::Food(FoodMachine::new((2, 0), 9)),
        Obj::Bed(Bed::new((1, 0))),
    ];
    let ads: Vec<(usize, Advert)> = vec![
        (0, Advert { food: 5, sleep: 0 }),
        (1, Advert { food: 5, sleep: 0 }),
        (2, Advert { food: 0, sleep: 10 }),
    ];
    // the bed is closest but offers no food
    assert_eq!(select_nearest(&ads, &objs, (0, 0), Need::Food), Some((1, 2)));
    assert_eq!(select_nearest(&ads, &objs, (0, 0), Need::Sleep), Some((2, 1)));
}

#[test]
fn select_nearest_breaks_ties_by_registry_order() {
    let objs: Vec<Obj> = vec![
        Obj::Food(FoodMachine::new((5, 0), 9)),
        Obj::Food(FoodMachine::new((0, 5), 9)),
    ];
    let ads: Vec<(usize, Advert)> = vec![
        (0, Advert { food: 5, sleep: 0 }),
        (1, Advert { food: 5, sleep: 0 }),
    ];
    // both at distance 5: the earlier entry wins
    assert_eq!(select_nearest(&ads, &objs, (0, 0), Need::Food), Some((0, 5)));
}

#[test]
fn select_nearest_finds_nothing_without_a_positive_offer() {
    let objs: Vec<Obj> = vec![Obj::Bed(Bed::new((1, 0)))];
    let ads: Vec<(usize, Advert)> = vec![(0, Advert { food: 0, sleep: 10 })];
    assert_eq!(select_nearest(&ads, &objs, (0, 0), Need::Food), None);
    let empty: Vec<(usize, Advert)> = Vec::new();
    assert_eq!(select_nearest(&empty, &objs, (0, 0), Need::Sleep), None);
}

#[test]
fn hungry_agent_queues_a_move_then_interact_pair() {
    let objs_src = vec![
        Obj::Food(FoodMachine::new((5, 0), 9)),
        Obj::Food(FoodMachine::new((0, 5), 9)),
    ];
    let ads: Vec<(usize, Advert)> = vec![
        (0, Advert { food: 5, sleep: 0 }),
        (1, Advert { food: 5, sleep: 0 }),
    ];
    let mut objs = objs_src;
    let mut s = idle_sim((0, 0), 1, 3);
    s.update(1, &ads, &mut objs);
    // tie at distance 5: the pair targets the earlier machine
    assert_eq!(s.queue, vec![Action::Goto((5, 0)), Action::Interact(0)]);
}

#[test]
fn fed_agent_never_queues_a_food_pair() {
    let mut objs = vec![Obj::Food(FoodMachine::new((1, 0), 9))];
    let ads: Vec<(usize, Advert)> = vec![(0, Advert { food: 5, sleep: 0 })];
    let mut s = idle_sim((0, 0), 2, 3);
    s.update(1, &ads, &mut objs);
    assert_eq!(s.queue.len(), 0);
}

#[test]
fn sleep_threshold_is_zero_not_two() {
    let mut objs = vec![Obj::Bed(Bed::new((1, 0)))];
    let ads: Vec<(usize, Advert)> = vec![(0, Advert { food: 0, sleep: 10 })];

    // sleep == 0 is not pressing yet
    let mut s = idle_sim((0, 0), 8, 0);
    s.update(1, &ads, &mut objs);
    assert_eq!(s.queue.len(), 0);

    // sleep < 0 is
    let mut s = idle_sim((0, 0), 8, -1);
    s.update(1, &ads, &mut objs);
    assert_eq!(s.queue, vec![Action::Goto((1, 0)), Action::Interact(0)]);
}

#[test]
fn both_needs_can_plan_in_one_tick() {
    let mut objs = vec![
        Obj::Food(FoodMachine::new((5, 0), 9)),
        Obj::Bed(Bed::new((0, 5))),
    ];
    let ads: Vec<(usize, Advert)> = vec![
        (0, Advert { food: 5, sleep: 0 }),
        (1, Advert { food: 0, sleep: 10 }),
    ];
    let mut s = idle_sim((0, 0), 0, -1);
    s.update(1, &ads, &mut objs);
    assert_eq!(
        s.queue,
        vec![
            Action::Goto((5, 0)),
            Action::Interact(0),
            Action::Goto((0, 5)),
            Action::Interact(1),
        ]
    );
}

#[test]
fn no_qualifying_advert_means_no_actions() {
    let mut objs: Vec<Obj> = vec![Obj::Food(FoodMachine::new((5, 0), 9))];
    let ads: Vec<(usize, Advert)> = Vec::new();
    let mut s = idle_sim((0, 0), 0, -1);
    s.update(1, &ads, &mut objs);
    assert_eq!(s.queue.len(), 0);
    assert_eq!(s.current, None);
}
