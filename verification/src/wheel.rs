//! Wheel-notch accumulation.
//!
//! High-resolution wheel deltas are forwarded as they come, but classic wheel
//! events move in whole notches of 120 units. Each axis keeps an accumulator:
//! once its magnitude exceeds one notch, the whole notches are emitted and
//! only the remainder is carried over.

use vstd::prelude::*;

verus! {

/// Units of high-resolution wheel travel per classic wheel notch.
pub const NOTCH: i32 = 120;

/// Feed one delta into an axis accumulator. Returns the new accumulator
/// value and, if the accumulated travel exceeded one notch, the number of
/// whole (signed) notches to emit.
pub fn wheel_step(acc: i32, delta: i32) -> (r: (i32, Option<i32>))
    requires
        -120 <= acc <= 120,
        i32::MIN < acc + delta <= i32::MAX,
    ensures
        ({
            let sum = acc + delta;
            &&& (-120 <= sum <= 120 ==> r == (sum as i32, None::<i32>))
            &&& (sum > 120 ==> match r.1 {
                Some(n) => sum == 120 * n + r.0 && 0 <= r.0 < 120 && n >= 1,
                None => false,
            })
            &&& (sum < -120 ==> match r.1 {
                Some(n) => sum == 120 * n + r.0 && -120 < r.0 <= 0 && n <= -1,
                None => false,
            })
            &&& -120 <= r.0 <= 120
        }),
{
    let sum = acc + delta;
    if sum > NOTCH {
        let s = sum as u32;
        let n = (s / 120) as i32;
        let rem = (s % 120) as i32;
        (rem, Some(n))
    } else if sum < -NOTCH {
        let s = (-sum) as u32;
        let n = (s / 120) as i32;
        let rem = (s % 120) as i32;
        (-rem, Some(-n))
    } else {
        (sum, None)
    }
}

} // verus!
