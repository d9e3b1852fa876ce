//! Heading arithmetic: wrapping an angle into one turn of the compass and
//! moving a heading toward a target by a bounded step.

use vstd::prelude::*;

verus! {

/// The largest change of heading that one command may ask for.
pub const MAX_TURN: u32 = 20;

/// A heading is valid when it lies in `[0, 359]`.
pub open spec fn valid_heading(h: int) -> bool {
    0 <= h < 360
}

/// The angle `h` wrapped into `[0, 359]`.
pub open spec fn wrap_degrees(h: int) -> int {
    (h + 360) % 360
}

/// `cur` moved toward `target` by at most `step`, in whichever direction
/// the target lies, stopping at the target.
pub open spec fn approach(cur: int, target: int, step: int) -> int {
    if cur < target {
        if cur + step < target { cur + step } else { target }
    } else if cur > target {
        if cur - step > target { cur - step } else { target }
    } else {
        target
    }
}

/// `cur` raised by one full step, but to no more than `limit`, wrapped.
/// Where `cur` is already above `limit`, this is `limit` itself.
pub open spec fn raised_to(cur: int, limit: int) -> int {
    wrap_degrees(if cur + MAX_TURN < limit { cur + MAX_TURN } else { limit })
}

/// `cur` lowered by one full step, but to no less than `limit`, wrapped.
/// Where `cur` is already below `limit`, this is `limit` itself.
pub open spec fn lowered_to(cur: int, limit: int) -> int {
    wrap_degrees(if cur - MAX_TURN > limit { cur - MAX_TURN } else { limit })
}

/// The distance between two headings along the number line.
pub open spec fn gap(a: int, b: int) -> int {
    if a <= b { b - a } else { a - b }
}

/// Wraps a 64-bit angle into `[0, 359]`.
fn wrap_wide(angle: i64) -> (r: i32)
    requires
        -0x1_0000_0000 <= angle <= 0x1_0000_0000,
    ensures
        r == wrap_degrees(angle as int),
        valid_heading(r as int),
{
    // 11930465 full turns lift every admitted angle above zero.
    let lifted: i64 = angle + 4294967400;
    assert(lifted == angle + 360 * 11930465);
    let rem: i64 = lifted % 360;
    assert(rem == (angle + 360) % 360) by {
        assert((angle + 360 * 11930465) % 360 == (angle + 360) % 360);
    }
    rem as i32
}

/// Normalizes any angle to `[0, 359]`; negative angles wrap upward, so
/// `-1` becomes `359`.
pub fn normalize_heading(heading: i32) -> (r: i32)
    ensures
        r == wrap_degrees(heading as int),
        valid_heading(r as int),
{
    wrap_wide(heading as i64)
}

/// Moves `current` toward `target` by at most `max_step` degrees, never
/// past the target, and wraps the result.
pub fn step_toward(current: i32, target: i32, max_step: u32) -> (r: i32)
    ensures
        r == wrap_degrees(approach(current as int, target as int, max_step as int)),
        valid_heading(r as int),
{
    let cur: i64 = current as i64;
    let goal: i64 = target as i64;
    let step: i64 = max_step as i64;
    let moved: i64 = if cur < goal {
        if cur + step < goal { cur + step } else { goal }
    } else if cur > goal {
        if cur - step > goal { cur - step } else { goal }
    } else {
        goal
    };
    wrap_wide(moved)
}

/// Raises `current` by one full step, but to no more than `limit`.
pub fn raise_to(current: i32, limit: i32) -> (r: i32)
    ensures
        r == raised_to(current as int, limit as int),
        valid_heading(r as int),
{
    let cur: i64 = current as i64;
    let top: i64 = limit as i64;
    let step: i64 = MAX_TURN as i64;
    let moved: i64 = if cur + step < top { cur + step } else { top };
    wrap_wide(moved)
}

/// Lowers `current` by one full step, but to no less than `limit`.
pub fn lower_to(current: i32, limit: i32) -> (r: i32)
    ensures
        r == lowered_to(current as int, limit as int),
        valid_heading(r as int),
{
    let cur: i64 = current as i64;
    let floor: i64 = limit as i64;
    let step: i64 = MAX_TURN as i64;
    let moved: i64 = if cur - step > floor { cur - step } else { floor };
    wrap_wide(moved)
}

/// Turns `current` by `delta` degrees and wraps the result.
pub fn turn_by(current: i32, delta: i32) -> (r: i32)
    ensures
        r == wrap_degrees(current as int + delta as int),
        valid_heading(r as int),
{
    wrap_wide(current as i64 + delta as i64)
}

/// Wrapping always lands in `[0, 359]`, agrees with the remainder of the
/// angle itself, leaves a valid heading alone, and is idempotent.
pub proof fn lemma_wrap_degrees(h: int)
    ensures
        valid_heading(wrap_degrees(h)),
        wrap_degrees(h) == h % 360,
        valid_heading(h) ==> wrap_degrees(h) == h,
        wrap_degrees(wrap_degrees(h)) == wrap_degrees(h),
{
}

/// Stepping toward a target never widens the gap to it, and lands exactly
/// on the target once the gap is no more than the step.
pub proof fn lemma_step_toward_closes(cur: int, target: int, step: int)
    requires
        valid_heading(cur),
        valid_heading(target),
        0 <= step,
    ensures
        wrap_degrees(approach(cur, target, step)) == approach(cur, target, step),
        gap(approach(cur, target, step), target) <= gap(cur, target),
        gap(cur, target) <= step ==> approach(cur, target, step) == target,
        gap(cur, target) > step ==> gap(approach(cur, target, step), target) == gap(cur, target)
            - step,
        cur == target ==> approach(cur, target, step) == target,
{
}

/// Where the current heading lies on the far side of the limit, the
/// one-sided steps agree with the two-sided one.
pub proof fn lemma_one_sided_steps(cur: int, limit: int)
    ensures
        cur <= limit ==> raised_to(cur, limit) == wrap_degrees(
            approach(cur, limit, MAX_TURN as int),
        ),
        cur >= limit ==> lowered_to(cur, limit) == wrap_degrees(
            approach(cur, limit, MAX_TURN as int),
        ),
{
}

} // verus!
