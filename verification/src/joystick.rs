//! Direction quantization and the compass-style focus indexer.
//!
//! A stick reading (two components in thousandths of full deflection) is
//! quantized against a deadzone into `{-1, 0, 1}` per component, and a
//! quantized pair is mapped to one of eight compass indices, clockwise from
//! due right, or `-1` for centered.

use vstd::prelude::*;

verus! {

/// Deadzone threshold in thousandths: a component of magnitude at least this
/// quantizes to its sign, anything smaller to 0.
pub const DEADZONE_MILLIS: i32 = 500;

/// One quantized axis component: -1, 0 or 1.
pub open spec fn quantize_component(v: int) -> int {
    if v >= DEADZONE_MILLIS as int {
        1
    } else if v <= -(DEADZONE_MILLIS as int) {
        -1
    } else {
        0
    }
}

/// Compass index of a quantized direction, clockwise from due right;
/// -1 for the centered pair.
pub open spec fn index_of(qx: int, qy: int) -> int {
    if qx == 1 && qy == 0 {
        0
    } else if qx == 1 && qy == 1 {
        1
    } else if qx == 0 && qy == 1 {
        2
    } else if qx == -1 && qy == 1 {
        3
    } else if qx == -1 && qy == 0 {
        4
    } else if qx == -1 && qy == -1 {
        5
    } else if qx == 0 && qy == -1 {
        6
    } else if qx == 1 && qy == -1 {
        7
    } else {
        -1
    }
}

/// The quantized direction that carries a compass index: the inverse of
/// [`index_of`] on 0..8, and the centered pair everywhere else.
pub open spec fn pair_of_index(i: int) -> (int, int) {
    if i == 0 {
        (1, 0)
    } else if i == 1 {
        (1, 1)
    } else if i == 2 {
        (0, 1)
    } else if i == 3 {
        (-1, 1)
    } else if i == 4 {
        (-1, 0)
    } else if i == 5 {
        (-1, -1)
    } else if i == 6 {
        (0, -1)
    } else if i == 7 {
        (1, -1)
    } else {
        (0, 0)
    }
}

/// The combined focus of the two sticks: the sentinel `(-1, -1)` when both
/// quantize to centered, otherwise each stick's own compass index.
pub open spec fn focus_for(lx: int, ly: int, rx: int, ry: int) -> (int, int) {
    let qlx = quantize_component(lx);
    let qly = quantize_component(ly);
    let qrx = quantize_component(rx);
    let qry = quantize_component(ry);
    if qlx == 0 && qly == 0 && qrx == 0 && qry == 0 {
        (-1, -1)
    } else {
        (index_of(qlx, qly), index_of(qrx, qry))
    }
}

/// Quantizes one stick reading against the deadzone, per component.
pub fn get_filtered_axis_data(axis_position: (i32, i32)) -> (q: (i32, i32))
    ensures
        q.0 == quantize_component(axis_position.0 as int),
        q.1 == quantize_component(axis_position.1 as int),
{
    let x: i32 = if axis_position.0 >= DEADZONE_MILLIS {
        1
    } else if axis_position.0 <= -DEADZONE_MILLIS {
        -1
    } else {
        0
    };
    let y: i32 = if axis_position.1 >= DEADZONE_MILLIS {
        1
    } else if axis_position.1 <= -DEADZONE_MILLIS {
        -1
    } else {
        0
    };
    (x, y)
}

/// Compass index of a quantized direction, exact to [`index_of`].
pub fn get_index_data(axis_position: (i32, i32)) -> (r: i32)
    ensures
        r == index_of(axis_position.0 as int, axis_position.1 as int),
{
    match axis_position {
        (1, 0) => 0,
        (1, 1) => 1,
        (0, 1) => 2,
        (-1, 1) => 3,
        (-1, 0) => 4,
        (-1, -1) => 5,
        (0, -1) => 6,
        (1, -1) => 7,
        _ => -1,
    }
}

/// Combined focus of both sticks, exact to [`focus_for`].
pub fn get_keyboard_focus_input(left_axis_data: (i32, i32), right_axis_data: (i32, i32)) -> (f: (
    i32,
    i32,
))
    ensures
        (f.0 as int, f.1 as int) == focus_for(
            left_axis_data.0 as int,
            left_axis_data.1 as int,
            right_axis_data.0 as int,
            right_axis_data.1 as int,
        ),
{
    let filtered_left_axis_data = get_filtered_axis_data(left_axis_data);
    let filtered_right_axis_data = get_filtered_axis_data(right_axis_data);
    if filtered_left_axis_data.0 == 0 && filtered_left_axis_data.1 == 0
        && filtered_right_axis_data.0 == 0 && filtered_right_axis_data.1 == 0 {
        return (-1, -1);
    }
    (get_index_data(filtered_left_axis_data), get_index_data(filtered_right_axis_data))
}

/// The focus indexer is total on quantized pairs: the centered pair is the one
/// pair sent to -1, and the eight deflected pairs correspond one-to-one with
/// the indices 0..8, with [`pair_of_index`] as the inverse.
pub proof fn lemma_index_of_bijective()
    ensures
        index_of(0, 0) == -1,
        forall|qx: int, qy: int|
            -1 <= qx <= 1 && -1 <= qy <= 1 && !(qx == 0 && qy == 0) ==> 0 <= #[trigger] index_of(
                qx,
                qy,
            ) < 8,
        forall|qx: int, qy: int|
            -1 <= qx <= 1 && -1 <= qy <= 1 && !(qx == 0 && qy == 0) ==> pair_of_index(
                #[trigger] index_of(qx, qy),
            ) == (qx, qy),
        forall|i: int| 0 <= i < 8 ==> index_of(pair_of_index(i).0, pair_of_index(i).1) == i,
{
}

} // verus!
