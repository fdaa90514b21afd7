use vstd::prelude::*;
use crate::stat::Stat;

verus! {

/// What an interactable object broadcasts each tick: an estimate of how
/// much it can raise each need. Rebuilt every tick; never kept across
/// ticks.
#[derive(Clone, Copy, PartialEq, Eq, Debug)]
pub struct Advert {
    pub food: Stat,
    pub sleep: Stat,
}

/// The two needs an agent tracks.
#[derive(Clone, Copy, PartialEq, Eq, Debug)]
pub enum Need {
    Food,
    Sleep,
}

/// How much an advertisement offers for a given need.
pub open spec fn offer_spec(ad: Advert, n: Need) -> int {
    match n {
        Need::Food => ad.food as int,
        Need::Sleep => ad.sleep as int,
    }
}

/// Reads the field of the advertisement that belongs to the need.
pub fn offer(ad: Advert, n: Need) -> (r: Stat)
    ensures
        r == offer_spec(ad, n),
{
    match n {
        Need::Food => ad.food,
        Need::Sleep => ad.sleep,
    }
}

} // verus!
