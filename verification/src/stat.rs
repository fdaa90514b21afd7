use vstd::prelude::*;

verus! {

/// A need level: a small signed integer, conventionally in -10..10.
/// Decay may drive it below that range; the planner treats a low value
/// as its trigger signal.
pub type Stat = i8;

/// One decay step: the stat drops by exactly one, except at the very
/// bottom of the representable range, where it stays put.
pub open spec fn dec_spec(s: Stat) -> Stat {
    if s > i8::MIN {
        (s - 1) as i8
    } else {
        s
    }
}

/// Saturating addition on stats.
pub open spec fn stat_add_spec(a: Stat, b: Stat) -> Stat {
    let s = a + b;
    if s > i8::MAX {
        i8::MAX
    } else if s < i8::MIN {
        i8::MIN
    } else {
        s as i8
    }
}

/// The value of a stat after an interaction boosts it by `amount`:
/// the boosted value, but never less than 10.
pub open spec fn satisfy_spec(s: Stat, amount: Stat) -> Stat {
    let b = stat_add_spec(s, amount);
    if b < 10 {
        10
    } else {
        b
    }
}

/// One decay step of a stat.
pub fn stat_dec(s: Stat) -> (r: Stat)
    ensures
        r == dec_spec(s),
{
    if s > i8::MIN {
        s - 1
    } else {
        s
    }
}

/// Raises a stat by `amount` (saturating) and then to at least 10.
pub fn stat_satisfy(s: Stat, amount: Stat) -> (r: Stat)
    ensures
        r == satisfy_spec(s, amount),
{
    let w: i16 = s as i16 + amount as i16;
    let b: i16 = if w > 127 {
        127
    } else if w < -128 {
        -128
    } else {
        w
    };
    if b < 10 {
        10
    } else {
        b as i8
    }
}

} // verus!
