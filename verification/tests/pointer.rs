use dark_remote::config::TrackpadButton;
use dark_remote::pointer::{
    click, scroll, split_delta, split_motion, Axis, PointerEvent, MOTION_PAUSE_MICROS, MOTION_RATE_HZ,
};

#[test]
fn split_delta_rounds_toward_zero_and_puts_the_odd_unit_first() {
    let table: [(i32, i32, i32); 17] = [
        (0, 0, 0),
        (1, 1, 0),
        (-1, -1, 0),
        (2, 1, 1),
        (-2, -1, -1),
        (3, 2, 1),
        (-3, -2, -1),
        (6, 3, 3),
        (-6, -3, -3),
        (7, 4, 3),
        (-7, -4, -3),
        (100, 50, 50),
        (-101, -51, -50),
        (i32::MAX, 1073741824, 1073741823),
        (i32::MAX - 1, 1073741823, 1073741823),
        (i32::MIN, -1073741824, -1073741824),
        (i32::MIN + 1, -1073741824, -1073741823),
    ];
    for (delta, first, second) in table {
        assert_eq!(split_delta(delta), (first, second), "{delta}");
    }
}

#[test]
fn the_parts_of_a_delta_add_up_to_it() {
    let mut delta: i64 = i32::MIN as i64;
    while delta <= i32::MAX as i64 {
        let (first, second) = split_delta(delta as i32);
        assert_eq!(first as i64 + second as i64, delta);
        assert!((first as i64 - second as i64).abs() <= 1);
        delta += 9_999_991;
    }
    for delta in -1000..=1000 {
        let (first, second) = split_delta(delta);
        assert_eq!(first + second, delta);
        assert_eq!(second, delta / 2);
        assert_eq!(first, delta / 2 + delta % 2);
    }
}

#[test]
fn split_motion_treats_each_axis_alone() {
    assert_eq!(
        split_motion(7, -7),
        (PointerEvent::Move { dx: 4, dy: -4 }, PointerEvent::Move { dx: 3, dy: -3 })
    );
    assert_eq!(
        split_motion(0, 1),
        (PointerEvent::Move { dx: 0, dy: 1 }, PointerEvent::Move { dx: 0, dy: 0 })
    );
    assert_eq!(
        split_motion(i32::MIN, i32::MAX),
        (
            PointerEvent::Move { dx: -1073741824, dy: 1073741824 },
            PointerEvent::Move { dx: -1073741824, dy: 1073741823 }
        )
    );
}

#[test]
fn a_motion_of_nothing_is_two_events_of_nothing() {
    assert_eq!(
        split_motion(0, 0),
        (PointerEvent::Move { dx: 0, dy: 0 }, PointerEvent::Move { dx: 0, dy: 0 })
    );
}

#[test]
fn the_pause_of_a_motion_is_one_step_in_whole_microseconds() {
    assert_eq!(MOTION_RATE_HZ, 120);
    assert_eq!(MOTION_PAUSE_MICROS, 8333);
}

#[test]
fn a_vertical_scroll_is_one_event() {
    assert_eq!(scroll(0, 5), vec![PointerEvent::Scroll { amount: 5, axis: Axis::Vertical }]);
}

#[test]
fn a_horizontal_scroll_is_one_event() {
    assert_eq!(scroll(3, 0), vec![PointerEvent::Scroll { amount: 3, axis: Axis::Horizontal }]);
}

#[test]
fn a_scroll_of_nothing_is_no_event() {
    assert_eq!(scroll(0, 0), Vec::<PointerEvent>::new());
}

#[test]
fn a_scroll_on_both_axes_is_vertical_first() {
    assert_eq!(
        scroll(-2, i32::MIN),
        vec![
            PointerEvent::Scroll { amount: i32::MIN, axis: Axis::Vertical },
            PointerEvent::Scroll { amount: -2, axis: Axis::Horizontal },
        ]
    );
}

#[test]
fn a_click_names_its_button() {
    assert_eq!(click(TrackpadButton::Left), PointerEvent::Click { button: TrackpadButton::Left });
    assert_eq!(click(TrackpadButton::Right), PointerEvent::Click { button: TrackpadButton::Right });
    assert_eq!(click(TrackpadButton::Middle), PointerEvent::Click { button: TrackpadButton::Middle });
}
