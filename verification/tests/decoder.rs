use display_core::rotary::{Direction, InputEvent, Level, QuadratureDecoder};

fn feed(decoder: &mut QuadratureDecoder, observations: &[(Level, Level)]) -> Vec<InputEvent> {
    let mut events = Vec::new();
    for &(left, right) in observations {
        if let Some(event) = decoder.handle_rotation(left, right) {
            events.push(event);
        }
    }
    events
}

#[test]
fn full_detent_right_emits_single_right() {
    let mut decoder = QuadratureDecoder::new();
    let events = feed(
        &mut decoder,
        &[
            (Level::Low, Level::High),
            (Level::High, Level::High),
            (Level::High, Level::Low),
            (Level::Low, Level::Low),
        ],
    );
    assert_eq!(events, vec![InputEvent::Right]);
    assert_eq!(decoder.left, Level::Low);
    assert_eq!(decoder.right, Level::Low);
}

#[test]
fn full_detent_left_emits_single_left() {
    let mut decoder = QuadratureDecoder::new();
    let events = feed(
        &mut decoder,
        &[
            (Level::High, Level::Low),
            (Level::High, Level::High),
            (Level::Low, Level::High),
            (Level::Low, Level::Low),
        ],
    );
    assert_eq!(events, vec![InputEvent::Left]);
    assert_eq!(decoder.left, Level::Low);
    assert_eq!(decoder.right, Level::Low);
}

#[test]
fn detent_direction_follows_first_edge_not_prior_hint() {
    // A latched hint from an earlier half-turn is overwritten by the first
    // departing edge of the next detent.
    let mut decoder = QuadratureDecoder::new();
    feed(&mut decoder, &[(Level::Low, Level::High), (Level::Low, Level::Low)]);
    assert_eq!(decoder.hint, Direction::Right);
    let events = feed(
        &mut decoder,
        &[
            (Level::High, Level::Low),
            (Level::High, Level::High),
            (Level::Low, Level::High),
            (Level::Low, Level::Low),
        ],
    );
    assert_eq!(events, vec![InputEvent::Left]);
}

#[test]
fn off_table_jump_emits_nothing_and_keeps_hint() {
    let mut decoder = QuadratureDecoder::new();
    let emitted = decoder.handle_rotation(Level::High, Level::High);
    assert_eq!(emitted, None);
    assert_eq!(decoder.hint, Direction::Unknown);
    assert_eq!(decoder.left, Level::High);
    assert_eq!(decoder.right, Level::High);
}

#[test]
fn repeated_observation_emits_nothing() {
    let mut decoder = QuadratureDecoder::new();
    let emitted = decoder.handle_rotation(Level::Low, Level::Low);
    assert_eq!(emitted, None);
    assert_eq!(decoder.hint, Direction::Unknown);
}

#[test]
fn bounce_back_to_rest_is_dropped() {
    // One edge out and straight back: the hint says Right, but the return
    // path is the Left-completing one, so nothing is emitted.
    let mut decoder = QuadratureDecoder::new();
    let events = feed(&mut decoder, &[(Level::Low, Level::High), (Level::Low, Level::Low)]);
    assert!(events.is_empty());
    assert_eq!(decoder.hint, Direction::Right);
}

#[test]
fn missed_edge_recovery_uses_latched_hint() {
    // The interrupt for the 11 -> 10 edge is lost: the state falls from the
    // midpoint straight to rest, and the latched hint supplies the event.
    let mut decoder = QuadratureDecoder::new();
    let events = feed(
        &mut decoder,
        &[
            (Level::Low, Level::High),
            (Level::High, Level::High),
            (Level::Low, Level::Low),
        ],
    );
    assert_eq!(events, vec![InputEvent::Right]);
}

#[test]
fn missed_edge_without_hint_is_dropped() {
    let mut decoder = QuadratureDecoder::new();
    decoder.handle_rotation(Level::High, Level::High);
    let emitted = decoder.handle_rotation(Level::Low, Level::Low);
    assert_eq!(emitted, None);
}
