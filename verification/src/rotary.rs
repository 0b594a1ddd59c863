//! Quadrature decoding of a two-phase rotary encoder, and the short/long
//! button press decision.
//!
//! The decoder consumes the pair of line levels observed on each edge
//! interrupt. Transitions between Gray-code-adjacent states latch a
//! provisional direction hint on the first edge of a detent; the hint is
//! confirmed into a [`InputEvent::Left`] or [`InputEvent::Right`] emission when
//! the lines return to rest. Any transition outside the table is treated as
//! noise and ignored.

use vstd::prelude::*;

verus! {

/// A discrete user intent produced once by the decoder and consumed once by
/// the dispatcher.
#[derive(Clone, Copy, PartialEq, Eq, Structural, Debug)]
pub enum InputEvent {
    Left,
    Right,
    Click,
    LongPress,
}

/// The level of one digital input line.
#[derive(Clone, Copy, PartialEq, Eq, Structural, Debug)]
pub enum Level {
    Low,
    High,
}

/// Provisional memory of the first edge of a detent: the direction that edge
/// implied, or `Unknown` before any edge has been latched.
#[derive(Clone, Copy, PartialEq, Eq, Structural, Debug)]
pub enum Direction {
    Unknown,
    Left,
    Right,
}

/// The rotation state machine: the pair of line levels last observed, plus the
/// latched direction hint.
#[derive(Clone, Copy, PartialEq, Eq, Structural, Debug)]
pub struct QuadratureDecoder {
    pub left: Level,
    pub right: Level,
    pub hint: Direction,
}

/// The direction hint after observing the pair `(new_left, new_right)` from
/// state `d`: the first or confirming edge of a detent latches a direction,
/// every other transition (emitting or not) leaves the hint untouched.
pub open spec fn hint_after(d: QuadratureDecoder, new_left: Level, new_right: Level) -> Direction {
    match (d.left, d.right, new_left, new_right) {
        (Level::Low, Level::Low, Level::Low, Level::High) => Direction::Right,
        (Level::Low, Level::Low, Level::High, Level::Low) => Direction::Left,
        (Level::Low, Level::High, Level::High, Level::High) => Direction::Right,
        (Level::High, Level::Low, Level::High, Level::High) => Direction::Left,
        (Level::High, Level::High, Level::Low, Level::High) => Direction::Left,
        (Level::High, Level::High, Level::High, Level::Low) => Direction::Right,
        _ => d.hint,
    }
}

/// The event emitted when the pair `(new_left, new_right)` is observed from
/// state `d`: a return to rest emits the latched hint if it matches the path
/// taken, the recovery transition from full turn straight to rest emits
/// whatever hint is latched, and every other transition emits nothing.
pub open spec fn emit_of(d: QuadratureDecoder, new_left: Level, new_right: Level) -> Option<
    InputEvent,
> {
    match (d.left, d.right, new_left, new_right) {
        (Level::Low, Level::High, Level::Low, Level::Low) => if d.hint == Direction::Left {
            Some(InputEvent::Left)
        } else {
            None
        },
        (Level::High, Level::Low, Level::Low, Level::Low) => if d.hint == Direction::Right {
            Some(InputEvent::Right)
        } else {
            None
        },
        (Level::High, Level::High, Level::Low, Level::Low) => match d.hint {
            Direction::Left => Some(InputEvent::Left),
            Direction::Right => Some(InputEvent::Right),
            Direction::Unknown => None,
        },
        _ => None,
    }
}

/// The decoder state after one observation: the stored pair always becomes the
/// observed pair, the hint follows [`hint_after`].
pub open spec fn step(d: QuadratureDecoder, new_left: Level, new_right: Level) -> QuadratureDecoder {
    QuadratureDecoder { left: new_left, right: new_right, hint: hint_after(d, new_left, new_right) }
}

/// Whether the transition from `(old_left, old_right)` to `(new_left, new_right)`
/// appears in the decoder's transition table.
pub open spec fn in_table(
    old_left: Level,
    old_right: Level,
    new_left: Level,
    new_right: Level,
) -> bool {
    match (old_left, old_right, new_left, new_right) {
        (Level::Low, Level::Low, Level::Low, Level::High) => true,
        (Level::Low, Level::Low, Level::High, Level::Low) => true,
        (Level::Low, Level::High, Level::High, Level::High) => true,
        (Level::Low, Level::High, Level::Low, Level::Low) => true,
        (Level::High, Level::Low, Level::High, Level::High) => true,
        (Level::High, Level::Low, Level::Low, Level::Low) => true,
        (Level::High, Level::High, Level::Low, Level::High) => true,
        (Level::High, Level::High, Level::High, Level::Low) => true,
        (Level::High, Level::High, Level::Low, Level::Low) => true,
        _ => false,
    }
}

impl QuadratureDecoder {
    /// A decoder at rest: both lines low, no direction latched.
    pub fn new() -> (d: QuadratureDecoder)
        ensures
            d == (QuadratureDecoder {
                left: Level::Low,
                right: Level::Low,
                hint: Direction::Unknown,
            }),
    {
        QuadratureDecoder { left: Level::Low, right: Level::Low, hint: Direction::Unknown }
    }

    /// Feed one observed pair of line levels, sampled on an edge interrupt.
    /// Returns the rotation event this observation completes, if any; the
    /// stored state becomes the observed pair exactly once per invocation,
    /// whether or not an event was emitted.
    pub fn handle_rotation(&mut self, new_left: Level, new_right: Level) -> (emitted: Option<
        InputEvent,
    >)
        ensures
            *final(self) == step(*old(self), new_left, new_right),
            emitted == emit_of(*old(self), new_left, new_right),
    {
        let emitted: Option<InputEvent> = match (self.left, self.right) {
            // At rest either line may rise first; that first edge is ambiguous,
            // so it only latches a provisional direction.
            (Level::Low, Level::Low) => {
                if new_left == Level::Low && new_right == Level::High {
                    self.hint = Direction::Right;
                } else if new_left == Level::High && new_right == Level::Low {
                    self.hint = Direction::Left;
                }
                None
            },
            // Falling back to rest completes a detent if the latched hint
            // agrees with the side we came from; otherwise it is a bounce.
            (Level::Low, Level::High) => {
                if new_left == Level::High && new_right == Level::High {
                    self.hint = Direction::Right;
                    None
                } else if new_left == Level::Low && new_right == Level::Low {
                    if self.hint == Direction::Left {
                        Some(InputEvent::Left)
                    } else {
                        None
                    }
                } else {
                    None
                }
            },
            (Level::High, Level::Low) => {
                if new_left == Level::High && new_right == Level::High {
                    self.hint = Direction::Left;
                    None
                } else if new_left == Level::Low && new_right == Level::Low {
                    if self.hint == Direction::Right {
                        Some(InputEvent::Right)
                    } else {
                        None
                    }
                } else {
                    None
                }
            },
            (Level::High, Level::High) => {
                if new_left == Level::Low && new_right == Level::High {
                    self.hint = Direction::Left;
                    None
                } else if new_left == Level::High && new_right == Level::Low {
                    self.hint = Direction::Right;
                    None
                } else if new_left == Level::Low && new_right == Level::Low {
                    // An interrupt was missed: we are back at rest straight
                    // from the full-turn midpoint, so infer the skipped edge
                    // from the latched hint.
                    match self.hint {
                        Direction::Left => Some(InputEvent::Left),
                        Direction::Right => Some(InputEvent::Right),
                        Direction::Unknown => None,
                    }
                } else {
                    None
                }
            },
        };
        self.left = new_left;
        self.right = new_right;
        emitted
    }
}

/// The decoder state and the events emitted after feeding a whole sequence of
/// observed line-level pairs, first observation first.
pub open spec fn run(d: QuadratureDecoder, observations: Seq<(Level, Level)>) -> (
    QuadratureDecoder,
    Seq<InputEvent>,
)
    decreases observations.len(),
{
    if observations.len() == 0 {
        (d, Seq::empty())
    } else {
        let now = match emit_of(d, observations[0].0, observations[0].1) {
            Some(e) => seq![e],
            None => Seq::empty(),
        };
        let rest = run(step(d, observations[0].0, observations[0].1), observations.drop_first());
        (rest.0, now + rest.1)
    }
}

/// The observation sequence of one full detent whose first departing edge
/// implies a right turn: rest, first edge, midpoint, second edge, rest.
pub open spec fn detent_right() -> Seq<(Level, Level)> {
    seq![
        (Level::Low, Level::High),
        (Level::High, Level::High),
        (Level::High, Level::Low),
        (Level::Low, Level::Low),
    ]
}

/// The mirror detent, whose first departing edge implies a left turn.
pub open spec fn detent_left() -> Seq<(Level, Level)> {
    seq![
        (Level::High, Level::Low),
        (Level::High, Level::High),
        (Level::Low, Level::High),
        (Level::Low, Level::Low),
    ]
}

/// A full detent observed from rest emits exactly one event, matching the
/// direction of the first departing edge, whatever hint was latched before;
/// the decoder ends back at rest.
pub proof fn lemma_full_detent_emits_once(d: QuadratureDecoder)
    requires
        d.left == Level::Low,
        d.right == Level::Low,
    ensures
        run(d, detent_right()).1 =~= seq![InputEvent::Right],
        run(d, detent_left()).1 =~= seq![InputEvent::Left],
        run(d, detent_right()).0.left == Level::Low,
        run(d, detent_right()).0.right == Level::Low,
        run(d, detent_left()).0.left == Level::Low,
        run(d, detent_left()).0.right == Level::Low,
{
    reveal_with_fuel(run, 5);
    let r = detent_right();
    let r1 = step(d, Level::Low, Level::High);
    let r2 = step(r1, Level::High, Level::High);
    let r3 = step(r2, Level::High, Level::Low);
    assert(r.drop_first() =~= seq![
        (Level::High, Level::High),
        (Level::High, Level::Low),
        (Level::Low, Level::Low),
    ]);
    assert(r.drop_first().drop_first() =~= seq![(Level::High, Level::Low), (Level::Low, Level::Low)]);
    assert(r.drop_first().drop_first().drop_first() =~= seq![(Level::Low, Level::Low)]);
    assert(r.drop_first().drop_first().drop_first().drop_first() =~= Seq::<(Level, Level)>::empty());
    assert(r1.hint == Direction::Right);
    assert(r3.hint == Direction::Right);
    assert(run(d, r).1 =~= seq![InputEvent::Right]);

    let l = detent_left();
    let l1 = step(d, Level::High, Level::Low);
    let l2 = step(l1, Level::High, Level::High);
    let l3 = step(l2, Level::Low, Level::High);
    assert(l.drop_first() =~= seq![
        (Level::High, Level::High),
        (Level::Low, Level::High),
        (Level::Low, Level::Low),
    ]);
    assert(l.drop_first().drop_first() =~= seq![(Level::Low, Level::High), (Level::Low, Level::Low)]);
    assert(l.drop_first().drop_first().drop_first() =~= seq![(Level::Low, Level::Low)]);
    assert(l.drop_first().drop_first().drop_first().drop_first() =~= Seq::<(Level, Level)>::empty());
    assert(l1.hint == Direction::Left);
    assert(l3.hint == Direction::Left);
    assert(run(d, l).1 =~= seq![InputEvent::Left]);
}

/// A transition outside the table never emits an event and leaves the hint
/// untouched; the stored pair still becomes the observed pair, so the decoder
/// remains in a valid state.
pub proof fn lemma_off_table_is_inert(d: QuadratureDecoder, new_left: Level, new_right: Level)
    requires
        !in_table(d.left, d.right, new_left, new_right),
    ensures
        emit_of(d, new_left, new_right) is None,
        step(d, new_left, new_right) == (QuadratureDecoder {
            left: new_left,
            right: new_right,
            hint: d.hint,
        }),
{
}

/// How long a button press must last to count as a long press.
pub const LONG_PRESS_MS: u64 = 1000;

/// The cadence at which the decode thread polls the button line while it is
/// held low.
pub const BUTTON_POLL_MS: u64 = 100;

/// The decision taken at one button poll, `elapsed_ms` after the falling
/// edge that armed the hold timer: once the line returns high the press was a
/// click; if it is still low after the long-press threshold the press is a
/// long press; otherwise keep polling.
pub open spec fn button_decision(elapsed_ms: int, line_low: bool) -> Option<InputEvent> {
    if !line_low {
        Some(InputEvent::Click)
    } else if elapsed_ms >= LONG_PRESS_MS {
        Some(InputEvent::LongPress)
    } else {
        None
    }
}

/// One poll of the held button: returns the event to emit now, or `None` to
/// poll again after [`BUTTON_POLL_MS`].
pub fn button_poll_step(elapsed_ms: u64, line_low: bool) -> (decision: Option<InputEvent>)
    ensures
        decision == button_decision(elapsed_ms as int, line_low),
{
    if !line_low {
        Some(InputEvent::Click)
    } else if elapsed_ms >= LONG_PRESS_MS {
        Some(InputEvent::LongPress)
    } else {
        None
    }
}

/// Whether the button line reads low `t_ms` after the falling edge, for a
/// press that is held for `held_ms` and then released.
pub open spec fn press_line_low(held_ms: int, t_ms: int) -> bool {
    t_ms <= held_ms
}

/// The events a press-release cycle emits when the poll loop runs from time
/// `t_ms` onward at the [`BUTTON_POLL_MS`] cadence, following
/// [`button_decision`] at each poll and stopping at the first emission.
pub open spec fn press_events(held_ms: int, t_ms: int) -> Seq<InputEvent>
    decreases LONG_PRESS_MS + BUTTON_POLL_MS - t_ms,
{
    match button_decision(t_ms, press_line_low(held_ms, t_ms)) {
        Some(event) => seq![event],
        None => press_events(held_ms, t_ms + BUTTON_POLL_MS),
    }
}

proof fn lemma_press_click_from(held_ms: int, t_ms: int)
    requires
        0 <= held_ms < LONG_PRESS_MS,
        0 <= t_ms,
    ensures
        press_events(held_ms, t_ms) =~= seq![InputEvent::Click],
    decreases LONG_PRESS_MS + BUTTON_POLL_MS - t_ms,
{
    if press_line_low(held_ms, t_ms) {
        lemma_press_click_from(held_ms, t_ms + BUTTON_POLL_MS);
    }
}

proof fn lemma_press_long_from(held_ms: int, t_ms: int)
    requires
        held_ms >= LONG_PRESS_MS,
        0 <= t_ms <= LONG_PRESS_MS,
        t_ms % (BUTTON_POLL_MS as int) == 0,
    ensures
        press_events(held_ms, t_ms) =~= seq![InputEvent::LongPress],
    decreases LONG_PRESS_MS + BUTTON_POLL_MS - t_ms,
{
    if t_ms < LONG_PRESS_MS {
        lemma_press_long_from(held_ms, t_ms + BUTTON_POLL_MS);
    }
}

/// A press held low for less than the long-press threshold and then released
/// yields exactly one `Click`; one held past the threshold yields exactly one
/// `LongPress` the moment the threshold poll fires. Never both, never
/// neither: the cycle's event sequence always has length one.
pub proof fn lemma_press_emits_exactly_one(held_ms: int)
    requires
        0 <= held_ms,
    ensures
        held_ms < LONG_PRESS_MS ==> press_events(held_ms, 0) =~= seq![InputEvent::Click],
        held_ms >= LONG_PRESS_MS ==> press_events(held_ms, 0) =~= seq![InputEvent::LongPress],
        press_events(held_ms, 0).len() == 1,
{
    if held_ms < LONG_PRESS_MS {
        lemma_press_click_from(held_ms, 0);
    } else {
        lemma_press_long_from(held_ms, 0);
    }
}

} // verus!

