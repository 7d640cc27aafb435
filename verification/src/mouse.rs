//! The axis shaper: non-linear mouse motion and scroll commands.
//!
//! A stick component in thousandths of full deflection is shaped into a
//! motion magnitude by rounding its exponential and squaring; the near-full
//! "turbo zone" moves by one fixed, boosted magnitude instead. Scroll picks
//! the dominant component and emits its sign, inverted on the vertical axis.

use vstd::prelude::*;

verus! {

/// Largest magnitude, in thousandths, whose exponential still rounds to 1:
/// rounding reaches 2 from 406 on (ln 1.5 = 0.405465...).
pub const EXP_ROUNDS_TO_ONE_MAX_MILLIS: i32 = 405;

/// Largest magnitude, in thousandths, whose exponential rounds to 2:
/// rounding reaches 3 from 917 on (ln 2.5 = 0.916290...).
pub const EXP_ROUNDS_TO_TWO_MAX_MILLIS: i32 = 916;

/// Magnitudes at or above this (0.99 of full deflection) are in the turbo
/// zone and move by [`TURBO_MAGNITUDE`].
pub const TURBO_MILLIS: i32 = 990;

/// The turbo zone's fixed magnitude: the square of the exponential there
/// taken whole (exp of 0.99..1.0 is 2.69..2.72, whole part 2), times eight.
/// The boost applies to the whole part, not the rounded value, so the
/// magnitude jumps from 9 to 32 at the zone's edge rather than to 72.
pub const TURBO_MAGNITUDE: i32 = 32;

/// A scroll fires only when the dominant component's magnitude exceeds this.
pub const SCROLL_THRESHOLD_MILLIS: i32 = 200;

/// Magnitude of a value.
pub open spec fn abs_of(v: int) -> int {
    if v < 0 {
        -v
    } else {
        v
    }
}

/// The exponential of |v| / 1000 rounded to the nearest integer: 1 up to
/// 0.405 of full deflection, 2 up to 0.916, 3 beyond.
pub open spec fn exp_round(v: int) -> int
    recommends
        abs_of(v) <= 1000,
{
    if abs_of(v) <= EXP_ROUNDS_TO_ONE_MAX_MILLIS as int {
        1
    } else if abs_of(v) <= EXP_ROUNDS_TO_TWO_MAX_MILLIS as int {
        2
    } else {
        3
    }
}

/// Shaped motion magnitude of one axis component: 0 when centered, the square
/// of the rounded exponential otherwise, and the fixed boosted magnitude in
/// the turbo zone.
pub open spec fn mouse_magnitude(v: int) -> int {
    if v == 0 {
        0
    } else if abs_of(v) < TURBO_MILLIS as int {
        exp_round(v) * exp_round(v)
    } else {
        TURBO_MAGNITUDE as int
    }
}

/// The relative mouse move for one stick reading: each component's shaped
/// magnitude with its direction (screen convention: positive raw Y moves up,
/// so its sign is flipped), or nothing when both magnitudes are 0.
pub open spec fn mouse_delta(x: int, y: int) -> Option<(int, int)> {
    let mx = mouse_magnitude(x);
    let my = mouse_magnitude(y);
    if mx == 0 && my == 0 {
        None
    } else {
        Some(
            (
                mx * (if x > 0 {
                    1int
                } else {
                    -1int
                }),
                my * (if y > 0 {
                    -1int
                } else {
                    1int
                }),
            ),
        )
    }
}

/// Which axis a scroll command turns.
#[derive(Debug, Clone, Copy, PartialEq, Eq, Structural)]
pub enum ScrollAxis {
    Horizontal,
    Vertical,
}

/// The scroll command for one stick reading: the dominant component (ties go
/// to vertical) scrolls by its sign when it exceeds the threshold, inverted on
/// the vertical axis; nothing otherwise.
pub open spec fn scroll_command(x: int, y: int) -> Option<(int, ScrollAxis)> {
    let horizontal = abs_of(x) > abs_of(y);
    let v = if horizontal {
        x
    } else {
        y
    };
    if abs_of(v) > SCROLL_THRESHOLD_MILLIS as int {
        let amount = if v > 0 {
            1int
        } else {
            -1int
        };
        if horizontal {
            Some((amount, ScrollAxis::Horizontal))
        } else {
            Some((-amount, ScrollAxis::Vertical))
        }
    } else {
        None
    }
}

/// Shaped motion magnitude of one axis component, exact to
/// [`mouse_magnitude`].
pub fn calculate_mouse_movement_value(axis_val: i32) -> (m: i32)
    requires
        -1000 <= axis_val <= 1000,
    ensures
        m == mouse_magnitude(axis_val as int),
{
    if axis_val == 0 {
        return 0;
    }
    let magnitude = if axis_val < 0 {
        -axis_val
    } else {
        axis_val
    };
    if magnitude >= TURBO_MILLIS {
        return TURBO_MAGNITUDE;
    }
    let rounded_val: i32 = if magnitude <= EXP_ROUNDS_TO_ONE_MAX_MILLIS {
        1
    } else if magnitude <= EXP_ROUNDS_TO_TWO_MAX_MILLIS {
        2
    } else {
        3
    };
    rounded_val * rounded_val
}

/// The relative mouse move for one stick reading, exact to [`mouse_delta`]:
/// `None` means no injection is to be made.
pub fn handle_mouse_move(axis_data: (i32, i32)) -> (r: Option<(i32, i32)>)
    requires
        -1000 <= axis_data.0 <= 1000,
        -1000 <= axis_data.1 <= 1000,
    ensures
        ({
            let d = mouse_delta(axis_data.0 as int, axis_data.1 as int);
            match (r, d) {
                (Some(rv), Some(dv)) => rv.0 == dv.0 && rv.1 == dv.1,
                (None, None) => true,
                _ => false,
            }
        }),
{
    let (x_axis_val, y_axis_val) = axis_data;
    let x_direction: i32 = if x_axis_val > 0 {
        1
    } else {
        -1
    };
    let y_direction: i32 = if y_axis_val > 0 {
        -1
    } else {
        1
    };
    let x = calculate_mouse_movement_value(x_axis_val);
    let y = calculate_mouse_movement_value(y_axis_val);

    if x == 0 && y == 0 {
        return None;
    }

    Some((x * x_direction, y * y_direction))
}

/// The scroll command for one stick reading, exact to [`scroll_command`]:
/// `None` means no injection is to be made.
pub fn handle_scroll(axis_data: (i32, i32)) -> (r: Option<(i32, ScrollAxis)>)
    requires
        -1000 <= axis_data.0 <= 1000,
        -1000 <= axis_data.1 <= 1000,
    ensures
        ({
            let d = scroll_command(axis_data.0 as int, axis_data.1 as int);
            match (r, d) {
                (Some(rv), Some(dv)) => rv.0 == dv.0 && rv.1 == dv.1,
                (None, None) => true,
                _ => false,
            }
        }),
{
    let (x_axis_val, y_axis_val) = axis_data;
    let x_abs = if x_axis_val < 0 {
        -x_axis_val
    } else {
        x_axis_val
    };
    let y_abs = if y_axis_val < 0 {
        -y_axis_val
    } else {
        y_axis_val
    };
    let horizontal = x_abs > y_abs;
    let scroll_axis_val = if horizontal {
        x_axis_val
    } else {
        y_axis_val
    };
    let scroll_abs = if horizontal {
        x_abs
    } else {
        y_abs
    };

    let scroll: i32 = if scroll_abs > SCROLL_THRESHOLD_MILLIS {
        if scroll_axis_val > 0 {
            1
        } else {
            -1
        }
    } else {
        0
    };
    let scroll_direction: i32 = if horizontal {
        1
    } else {
        -1
    };
    if scroll != 0 {
        Some(
            (
                scroll * scroll_direction,
                if horizontal {
                    ScrollAxis::Horizontal
                } else {
                    ScrollAxis::Vertical
                },
            ),
        )
    } else {
        None
    }
}

/// A centered axis component contributes no motion, whatever its sign bit
/// would have said.
pub proof fn lemma_magnitude_zero()
    ensures
        mouse_magnitude(0) == 0,
{
}

/// Below the turbo zone, a deflected component's shaped magnitude is exactly
/// the square of its rounded exponential.
pub proof fn lemma_magnitude_normal(v: int)
    requires
        v != 0,
        abs_of(v) < TURBO_MILLIS as int,
    ensures
        mouse_magnitude(v) == exp_round(v) * exp_round(v),
{
}

/// In the turbo zone the shaped magnitude is the fixed boosted value.
pub proof fn lemma_magnitude_turbo(v: int)
    requires
        abs_of(v) >= TURBO_MILLIS as int,
    ensures
        mouse_magnitude(v) == TURBO_MAGNITUDE,
{
}

} // verus!
