//! Saturating offset arithmetic shared by cursor motion, deletion and history
//! navigation.

use vstd::prelude::*;

verus! {

/// `value` moved by the signed step `delta`: a negative step stops at `0`, a
/// non-negative step stops at `max`.
pub open spec fn saturating_offset(value: int, delta: int, max: int) -> int {
    if delta < 0 {
        if value + delta < 0 {
            0
        } else {
            value + delta
        }
    } else {
        if value + delta > max {
            max
        } else {
            value + delta
        }
    }
}

/// Moves `current` by `to_add` without ever wrapping: below zero the result is
/// `0`, above `max` it is `max`.
pub fn safe_addition(current: usize, to_add: i64, max: usize) -> (result: usize)
    ensures
        result == saturating_offset(current as int, to_add as int, max as int),
{
    if to_add < 0 {
        let magnitude: u64 = if to_add == i64::MIN {
            0x8000_0000_0000_0000u64
        } else {
            (-to_add) as u64
        };
        if magnitude >= current as u64 {
            0
        } else {
            current - magnitude as usize
        }
    } else if current >= max {
        max
    } else {
        let room: usize = max - current;
        if to_add as u64 >= room as u64 {
            max
        } else {
            current + to_add as usize
        }
    }
}

} // verus!
