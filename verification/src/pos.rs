use vstd::prelude::*;

verus! {

/// A location on the 2-D integer grid.
pub type Pos = (i8, i8);

/// Absolute value of a mathematical integer.
pub open spec fn abs_val(a: int) -> int {
    if a < 0 {
        -a
    } else {
        a
    }
}

/// Manhattan distance between two positions, saturated at the largest
/// value a `u8` can hold.
pub open spec fn dist_spec(a: Pos, b: Pos) -> int {
    let d = abs_val(a.0 - b.0) + abs_val(a.1 - b.1);
    if d > 255 {
        255
    } else {
        d
    }
}

/// Walking distance between two positions: the sum of the absolute
/// coordinate differences, saturated at `u8::MAX`.
pub fn dist(a: Pos, b: Pos) -> (d: u8)
    ensures
        d == dist_spec(a, b),
{
    let dx: i16 = a.0 as i16 - b.0 as i16;
    let dx: i16 = if dx < 0 {
        -dx
    } else {
        dx
    };
    let dy: i16 = a.1 as i16 - b.1 as i16;
    let dy: i16 = if dy < 0 {
        -dy
    } else {
        dy
    };
    let sum: i16 = dx + dy;
    if sum > 255 {
        255
    } else {
        sum as u8
    }
}

} // verus!
