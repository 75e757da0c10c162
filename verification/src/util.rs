use vstd::prelude::*;

verus! {

/// Convert a signed `isize` into the nearest `usize`, flooring negatives at
/// zero. Damage, hit points and armor class can never be negative, so every
/// signed quantity is clamped here at the moment it becomes unsigned.
pub fn clamp_isize(i: isize) -> (r: usize)
    ensures
        r == if i < 0 {
            0int
        } else {
            i as int
        },
{
    if i < 0 {
        0
    } else {
        i as usize
    }
}

} // verus!
