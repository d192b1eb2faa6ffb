//! Trackpad gestures as pointer events.
//!
//! A motion is not injected as one jump. It is cut into two events that are
//! injected one motion step apart, the first carrying the odd unit if there is
//! one, so that the pointer ends exactly where one jump would have put it.

use vstd::prelude::*;
use crate::config::TrackpadButton;

verus! {

/// Motion steps per second.
pub const MOTION_RATE_HZ: u64 = 120;

/// Time between the two events of one motion: one motion step, in whole
/// microseconds.
pub const MOTION_PAUSE_MICROS: u64 = 1_000_000 / MOTION_RATE_HZ;

/// Direction of a scroll.
#[derive(Clone, Copy, Debug, PartialEq, Eq, Structural)]
pub enum Axis {
    Horizontal,
    Vertical,
}

/// One event handed to the host's pointer.
#[derive(Clone, Copy, Debug, PartialEq, Eq, Structural)]
pub enum PointerEvent {
    /// Move by a relative amount.
    Move { dx: i32, dy: i32 },
    /// Press and release a button.
    Click { button: TrackpadButton },
    /// Scroll along one axis by a non-zero amount.
    Scroll { amount: i32, axis: Axis },
}

/// Half of `d`, rounded toward zero.
pub open spec fn half(d: int) -> int {
    if d >= 0 {
        d / 2
    } else {
        -((-d) / 2)
    }
}

/// What two halves leave of `d`: 0 if `d` is even, else 1 or -1 with the sign
/// of `d`.
pub open spec fn odd_unit(d: int) -> int {
    d - 2 * half(d)
}

/// The part of `d` that the first event of a motion carries.
pub open spec fn first_part(d: int) -> int {
    half(d) + odd_unit(d)
}

/// The part of `d` that the second event of a motion carries.
pub open spec fn second_part(d: int) -> int {
    half(d)
}

/// Both parts of one axis of a motion.
pub fn split_delta(d: i32) -> (parts: (i32, i32))
    ensures
        parts.0 == first_part(d as int),
        parts.1 == second_part(d as int),
        parts.0 + parts.1 == d,
{
    let h: i32 = d / 2;
    let r: i32 = d % 2;
    (h + r, h)
}

/// The two events of a motion by `(delta_x, delta_y)`, in the order in which
/// they are injected.
pub open spec fn motion_events(delta_x: i32, delta_y: i32) -> (PointerEvent, PointerEvent) {
    (
        PointerEvent::Move {
            dx: first_part(delta_x as int) as i32,
            dy: first_part(delta_y as int) as i32,
        },
        PointerEvent::Move {
            dx: second_part(delta_x as int) as i32,
            dy: second_part(delta_y as int) as i32,
        },
    )
}

/// Cuts a motion into its two events.
pub fn split_motion(delta_x: i32, delta_y: i32) -> (events: (PointerEvent, PointerEvent))
    ensures
        events == motion_events(delta_x, delta_y),
        events.0 matches PointerEvent::Move { dx: first_x, dy: first_y }
            && events.1 matches PointerEvent::Move { dx: second_x, dy: second_y }
            && first_x + second_x == delta_x
            && first_y + second_y == delta_y,
{
    let x: (i32, i32) = split_delta(delta_x);
    let y: (i32, i32) = split_delta(delta_y);
    (PointerEvent::Move { dx: x.0, dy: y.0 }, PointerEvent::Move { dx: x.1, dy: y.1 })
}

/// The events of a scroll by `(delta_x, delta_y)`: the vertical one first,
/// and none for an axis whose amount is zero.
pub open spec fn scroll_events(delta_x: i32, delta_y: i32) -> Seq<PointerEvent> {
    let vertical = if delta_y != 0 {
        seq![PointerEvent::Scroll { amount: delta_y, axis: Axis::Vertical }]
    } else {
        Seq::<PointerEvent>::empty()
    };
    let horizontal = if delta_x != 0 {
        seq![PointerEvent::Scroll { amount: delta_x, axis: Axis::Horizontal }]
    } else {
        Seq::<PointerEvent>::empty()
    };
    vertical + horizontal
}

/// Lists the events of a scroll.
pub fn scroll(delta_x: i32, delta_y: i32) -> (events: Vec<PointerEvent>)
    ensures
        events@ == scroll_events(delta_x, delta_y),
{
    let mut events: Vec<PointerEvent> = Vec::new();
    if delta_y != 0 {
        events.push(PointerEvent::Scroll { amount: delta_y, axis: Axis::Vertical });
    }
    if delta_x != 0 {
        events.push(PointerEvent::Scroll { amount: delta_x, axis: Axis::Horizontal });
    }
    events
}

/// The event of a click.
pub fn click(button: TrackpadButton) -> (event: PointerEvent)
    ensures
        event == (PointerEvent::Click { button }),
{
    PointerEvent::Click { button }
}

/// The two events of a motion add up to the motion, on each axis and for
/// every delta.
pub proof fn lemma_motion_parts_sum(d: int)
    ensures
        first_part(d) + second_part(d) == d,
        second_part(d) == half(d),
        d % 2 == 0 ==> first_part(d) == second_part(d),
        d % 2 != 0 && d > 0 ==> first_part(d) == second_part(d) + 1,
        d % 2 != 0 && d < 0 ==> first_part(d) == second_part(d) - 1,
{
}

/// A scroll has an event for each axis whose amount is not zero and for no
/// other, so no event scrolls by nothing.
pub proof fn lemma_scroll_events(delta_x: i32, delta_y: i32)
    ensures
        scroll_events(delta_x, delta_y).len() == (if delta_x != 0 {
            1int
        } else {
            0int
        }) + (if delta_y != 0 {
            1int
        } else {
            0int
        }),
        forall|i: int|
            0 <= i < scroll_events(delta_x, delta_y).len() ==> (#[trigger] scroll_events(
                delta_x,
                delta_y,
            )[i] matches PointerEvent::Scroll { amount, axis } && amount != 0 && amount == (
            match axis {
                Axis::Horizontal => delta_x,
                Axis::Vertical => delta_y,
            })),
{
}

/// Both parts of a delta that fits in an `i32` fit in an `i32`.
pub proof fn lemma_motion_parts_fit(d: int)
    requires
        i32::MIN <= d <= i32::MAX,
    ensures
        i32::MIN <= second_part(d) <= i32::MAX,
        i32::MIN <= first_part(d) <= i32::MAX,
{
}

} // verus!
