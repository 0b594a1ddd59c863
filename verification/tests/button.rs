use display_core::rotary::{button_poll_step, InputEvent, BUTTON_POLL_MS, LONG_PRESS_MS};

/// Runs the hold-poll loop as the decode thread does: starting at the falling
/// edge, poll every `BUTTON_POLL_MS`, stop at the first decision. The line
/// reads low until `held_ms` have passed.
fn run_press(held_ms: u64) -> Vec<InputEvent> {
    let mut events = Vec::new();
    let mut elapsed: u64 = 0;
    loop {
        let line_low = elapsed <= held_ms;
        match button_poll_step(elapsed, line_low) {
            Some(event) => {
                events.push(event);
                break;
            }
            None => elapsed += BUTTON_POLL_MS,
        }
    }
    events
}

#[test]
fn held_just_under_threshold_yields_exactly_click() {
    assert_eq!(run_press(999), vec![InputEvent::Click]);
}

#[test]
fn held_to_threshold_yields_exactly_long_press() {
    assert_eq!(run_press(1000), vec![InputEvent::LongPress]);
    assert_eq!(run_press(25_000), vec![InputEvent::LongPress]);
}

#[test]
fn short_tap_yields_exactly_click() {
    assert_eq!(run_press(0), vec![InputEvent::Click]);
    assert_eq!(run_press(150), vec![InputEvent::Click]);
}

#[test]
fn poll_decisions_at_the_boundaries() {
    assert_eq!(button_poll_step(0, true), None);
    assert_eq!(button_poll_step(LONG_PRESS_MS - 1, true), None);
    assert_eq!(
        button_poll_step(LONG_PRESS_MS, true),
        Some(InputEvent::LongPress)
    );
    // Once the line is back high the elapsed time no longer matters.
    assert_eq!(button_poll_step(999, false), Some(InputEvent::Click));
    assert_eq!(button_poll_step(5000, false), Some(InputEvent::Click));
}
