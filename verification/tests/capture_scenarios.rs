use capture_core::capture::{
    format_event_details, CaptureState, RawEvent, DEFAULT_MOUSE_MOVE_INTERVAL_NANOS,
};
use capture_core::event::EventKind;

const MS: u64 = 1_000_000;

fn text(value: &str) -> String {
    value.to_string()
}

fn pointer_move(x: &str, y: &str) -> RawEvent {
    RawEvent::MouseMove { x: text(x), y: text(y) }
}

fn run(state: &mut CaptureState, inputs: &[(bool, RawEvent, u64)]) -> Vec<String> {
    let mut seen = Vec::new();
    for (capturing, input, at) in inputs {
        if let Some(event) = state.on_raw_event(*capturing, input, *at, text("stamp")) {
            assert_eq!(event.timestamp, "stamp");
            seen.push(format!("{} {}", event.name.name(), event.details));
        }
    }
    seen
}

#[test]
fn repeated_key_down_then_up_gives_press_and_release() {
    let mut state = CaptureState::new();
    let seen = run(
        &mut state,
        &[
            (true, RawEvent::KeyPress(text("A")), 0),
            (true, RawEvent::KeyPress(text("A")), MS),
            (true, RawEvent::KeyRelease(text("A")), 2 * MS),
        ],
    );
    assert_eq!(seen, vec![text("KeyPress A"), text("KeyRelease A")]);
    assert!(!state.is_key_pressed(&text("A")));
}

#[test]
fn many_presses_of_one_key_emit_once() {
    let mut state = CaptureState::new();
    let mut emitted = 0;
    for i in 0..50u64 {
        if state.classify(true, &RawEvent::KeyPress(text("ShiftLeft")), i * MS).is_some() {
            emitted += 1;
        }
    }
    assert_eq!(emitted, 1);
    assert!(state.is_key_pressed(&text("ShiftLeft")));
}

#[test]
fn presses_of_different_keys_each_emit() {
    let mut state = CaptureState::new();
    assert_eq!(state.classify(true, &RawEvent::KeyPress(text("A")), 0), Some(EventKind::KeyPress));
    assert_eq!(state.classify(true, &RawEvent::KeyPress(text("B")), 0), Some(EventKind::KeyPress));
    assert_eq!(state.classify(true, &RawEvent::KeyPress(text("A")), 0), None);
    assert_eq!(state.classify(true, &RawEvent::KeyRelease(text("A")), 0), Some(EventKind::KeyRelease));
    assert!(state.is_key_pressed(&text("B")));
    assert!(!state.is_key_pressed(&text("A")));
    assert_eq!(state.classify(true, &RawEvent::KeyPress(text("A")), 0), Some(EventKind::KeyPress));
}

#[test]
fn key_release_without_press_still_emits() {
    let mut state = CaptureState::new();
    assert_eq!(
        state.classify(true, &RawEvent::KeyRelease(text("Escape")), 0),
        Some(EventKind::KeyRelease)
    );
    assert_eq!(
        state.classify(true, &RawEvent::KeyRelease(text("Escape")), 1),
        Some(EventKind::KeyRelease)
    );
    assert!(!state.is_key_pressed(&text("Escape")));
}

#[test]
fn buttons_follow_the_rules_of_keys() {
    let mut state = CaptureState::new();
    let seen = run(
        &mut state,
        &[
            (true, RawEvent::ButtonPress(text("Left")), 0),
            (true, RawEvent::ButtonPress(text("Left")), 1),
            (true, RawEvent::ButtonRelease(text("Left")), 2),
            (true, RawEvent::ButtonRelease(text("Right")), 3),
        ],
    );
    assert_eq!(
        seen,
        vec![
            text("MouseButtonPress Left"),
            text("MouseButtonRelease Left"),
            text("MouseButtonRelease Right"),
        ]
    );
    assert!(!state.is_button_pressed(&text("Left")));
}

#[test]
fn keys_and_buttons_of_one_name_are_kept_apart() {
    let mut state = CaptureState::new();
    assert!(state.classify(true, &RawEvent::KeyPress(text("Left")), 0).is_some());
    assert_eq!(
        state.classify(true, &RawEvent::ButtonPress(text("Left")), 0),
        Some(EventKind::MouseButtonPress)
    );
    assert!(state.is_key_pressed(&text("Left")));
    assert!(state.is_button_pressed(&text("Left")));
}

#[test]
fn nothing_is_emitted_while_stopped() {
    let mut state = CaptureState::new();
    let seen = run(
        &mut state,
        &[
            (false, RawEvent::KeyPress(text("A")), 0),
            (false, RawEvent::KeyRelease(text("A")), 1),
            (false, RawEvent::ButtonPress(text("Left")), 2),
            (false, pointer_move("1", "2"), 3),
            (false, RawEvent::Wheel { delta_x: 0, delta_y: 1 }, 4),
        ],
    );
    assert!(seen.is_empty());
    assert!(!state.is_key_pressed(&text("A")));
    assert!(!state.is_button_pressed(&text("Left")));
    assert_eq!(state.last_move(), None);
}

#[test]
fn held_key_gives_no_second_press_after_a_pause() {
    let mut state = CaptureState::new();
    let seen = run(
        &mut state,
        &[
            (true, RawEvent::KeyPress(text("A")), 0),
            (false, RawEvent::KeyRelease(text("A")), 1),
            (false, RawEvent::KeyPress(text("A")), 2),
            (true, RawEvent::KeyPress(text("A")), 3),
            (true, RawEvent::KeyRelease(text("A")), 4),
            (true, RawEvent::KeyPress(text("A")), 5),
        ],
    );
    assert_eq!(seen, vec![text("KeyPress A"), text("KeyRelease A"), text("KeyPress A")]);
}

#[test]
fn second_move_inside_the_interval_is_dropped() {
    let mut state = CaptureState::new();
    assert_eq!(state.move_interval(), 50 * MS);
    let seen = run(
        &mut state,
        &[(true, pointer_move("10", "20"), 0), (true, pointer_move("11", "21"), 10 * MS)],
    );
    assert_eq!(seen, vec![text("MouseMove 10,20")]);
    assert_eq!(state.last_move(), Some(0));
}

#[test]
fn only_the_first_move_of_each_window_is_emitted() {
    let mut state = CaptureState::new();
    let mut inputs = Vec::new();
    for i in 0..120u64 {
        inputs.push((true, pointer_move(&i.to_string(), "0"), i * MS));
    }
    let seen = run(&mut state, &inputs);
    assert_eq!(seen, vec![text("MouseMove 0,0"), text("MouseMove 50,0"), text("MouseMove 100,0")]);
}

#[test]
fn moves_spaced_by_the_interval_are_all_emitted() {
    let mut state = CaptureState::new();
    let mut emitted = 0;
    for i in 0..20u64 {
        if state.classify(true, &pointer_move("1", "1"), i * 50 * MS).is_some() {
            emitted += 1;
        }
    }
    assert_eq!(emitted, 20);
    assert_eq!(state.classify(true, &pointer_move("1", "1"), 19 * 50 * MS + 50 * MS - 1), None);
}

#[test]
fn interval_can_be_changed() {
    let mut state = CaptureState::new();
    assert_eq!(DEFAULT_MOUSE_MOVE_INTERVAL_NANOS, 50_000_000);
    state.set_move_interval(0);
    assert_eq!(state.move_interval(), 0);
    for _ in 0..5 {
        assert_eq!(state.classify(true, &pointer_move("1", "1"), 7), Some(EventKind::MouseMove));
    }
    state.set_move_interval(100 * MS);
    assert_eq!(state.classify(true, &pointer_move("1", "1"), 99 * MS), None);
    assert_eq!(
        state.classify(true, &pointer_move("1", "1"), 107 * MS),
        Some(EventKind::MouseMove)
    );
}

#[test]
fn a_clock_that_steps_back_counts_as_no_time_passed() {
    let mut state = CaptureState::new();
    assert!(state.classify(true, &pointer_move("1", "1"), 1000 * MS).is_some());
    assert_eq!(state.classify(true, &pointer_move("1", "1"), 10 * MS), None);
    assert_eq!(state.last_move(), Some(1000 * MS));
}

#[test]
fn wheel_events_are_never_suppressed() {
    let mut state = CaptureState::new();
    let wheel = RawEvent::Wheel { delta_x: -3, delta_y: 12 };
    for _ in 0..3 {
        assert_eq!(state.classify(true, &wheel, 0), Some(EventKind::MouseWheel));
    }
}

#[test]
fn details_render_the_payload() {
    assert_eq!(format_event_details(&RawEvent::KeyPress(text("KeyA"))), "KeyA");
    assert_eq!(format_event_details(&RawEvent::KeyRelease(text("Unknown(33)"))), "Unknown(33)");
    assert_eq!(format_event_details(&RawEvent::ButtonPress(text("Left"))), "Left");
    assert_eq!(format_event_details(&RawEvent::ButtonRelease(text("Middle"))), "Middle");
    assert_eq!(format_event_details(&pointer_move("100.5", "7")), "100.5,7");
    assert_eq!(
        format_event_details(&RawEvent::Wheel { delta_x: -3, delta_y: 12 }),
        "dx=-3,dy=12"
    );
    assert_eq!(
        format_event_details(&RawEvent::Wheel { delta_x: i64::MIN, delta_y: i64::MAX }),
        format!("dx={},dy={}", i64::MIN, i64::MAX)
    );
    assert_eq!(format_event_details(&RawEvent::Wheel { delta_x: 0, delta_y: 0 }), "dx=0,dy=0");
}

#[test]
fn event_kinds_have_their_published_names() {
    assert_eq!(EventKind::KeyPress.name(), "KeyPress");
    assert_eq!(EventKind::KeyRelease.name(), "KeyRelease");
    assert_eq!(EventKind::MouseButtonPress.name(), "MouseButtonPress");
    assert_eq!(EventKind::MouseButtonRelease.name(), "MouseButtonRelease");
    assert_eq!(EventKind::MouseMove.name(), "MouseMove");
    assert_eq!(EventKind::MouseWheel.name(), "MouseWheel");
    assert_eq!(EventKind::SystemInfo.name(), "SystemInfo");
    assert_eq!(EventKind::SystemInfoChange.name(), "SystemInfoChange");
}
