//! Event-driven screen selection: the two-mode state machine that routes
//! decoded input events either to the active screen or to the selection of
//! which screen is active.
//!
//! The dispatcher owns only the decision logic. The render loop around it
//! drains at most one pending event per tick, hands it to
//! [`ScreenDispatcher::tick`], and then performs the returned [`TickPlan`]:
//! forward an event to the active screen, draw that screen once, and draw the
//! selection-indicator overlay after it while selecting.

use vstd::prelude::*;

use crate::rotary::InputEvent;

verus! {

/// The dispatcher's mode: `Normal` forwards events to the active screen,
/// `Selecting` (entered by a long press) uses rotation to change which screen
/// is active until a click or another long press returns to `Normal`.
#[derive(Clone, Copy, PartialEq, Eq, Structural, Debug)]
pub enum Mode {
    Normal,
    Selecting,
}

/// The screen-selection state machine: how many screens exist, which one is
/// active, and the current mode.
#[derive(Clone, Copy, PartialEq, Eq, Structural, Debug)]
pub struct ScreenDispatcher {
    pub screen_count: usize,
    pub screen_index: usize,
    pub mode: Mode,
}

/// What the render loop must do on one tick: draw the screen at `draw_index`
/// exactly once, first forwarding `forward` to it if there is one, and draw
/// the selection-indicator overlay immediately after if `draw_overlay`.
#[derive(Clone, Copy, PartialEq, Eq, Structural, Debug)]
pub struct TickPlan {
    pub draw_index: usize,
    pub forward: Option<InputEvent>,
    pub draw_overlay: bool,
}

/// The index one step to the left of `i`, wrapping among `n` screens.
pub open spec fn index_left_of(i: usize, n: usize) -> usize
    recommends
        0 < n,
{
    ((i + n - 1) % (n as int)) as usize
}

/// The index one step to the right of `i`, wrapping among `n` screens.
pub open spec fn index_right_of(i: usize, n: usize) -> usize
    recommends
        0 < n,
{
    ((i + 1) % (n as int)) as usize
}

/// The dispatcher state after consuming one event, following the transition
/// table: in `Normal` mode only a long press changes anything (it enters
/// `Selecting`); in `Selecting` mode rotation moves the active index one step
/// with wrap-around, and a click or long press returns to `Normal` with the
/// event swallowed.
pub open spec fn dispatch_step(d: ScreenDispatcher, event: InputEvent) -> ScreenDispatcher {
    match d.mode {
        Mode::Normal => match event {
            InputEvent::LongPress => ScreenDispatcher { mode: Mode::Selecting, ..d },
            _ => d,
        },
        Mode::Selecting => match event {
            InputEvent::Left => ScreenDispatcher {
                screen_index: index_left_of(d.screen_index, d.screen_count),
                ..d
            },
            InputEvent::Right => ScreenDispatcher {
                screen_index: index_right_of(d.screen_index, d.screen_count),
                ..d
            },
            _ => ScreenDispatcher { mode: Mode::Normal, ..d },
        },
    }
}

/// The event handed on to the active screen: in `Normal` mode every event but
/// the long press is forwarded; in `Selecting` mode nothing is.
pub open spec fn forwarded(d: ScreenDispatcher, event: InputEvent) -> Option<InputEvent> {
    if d.mode == Mode::Normal && event != InputEvent::LongPress {
        Some(event)
    } else {
        None
    }
}

/// The dispatcher state after consuming a whole sequence of events, first
/// event first.
pub open spec fn dispatch_run(d: ScreenDispatcher, events: Seq<InputEvent>) -> ScreenDispatcher
    decreases events.len(),
{
    if events.len() == 0 {
        d
    } else {
        dispatch_run(dispatch_step(d, events[0]), events.drop_first())
    }
}

impl ScreenDispatcher {
    /// There is at least one screen and the active index stays within bounds.
    pub open spec fn wf(self) -> bool {
        0 < self.screen_count && self.screen_index < self.screen_count
    }

    /// A dispatcher over `screen_count` screens, starting at the first screen
    /// in `Normal` mode.
    pub fn new(screen_count: usize) -> (d: ScreenDispatcher)
        requires
            0 < screen_count,
        ensures
            d == (ScreenDispatcher { screen_count, screen_index: 0, mode: Mode::Normal }),
            d.wf(),
    {
        ScreenDispatcher { screen_count, screen_index: 0, mode: Mode::Normal }
    }

    /// Consume one decoded event, following the transition table, and return
    /// the event to forward to the active screen, if any.
    pub fn handle_event(&mut self, event: InputEvent) -> (forward: Option<InputEvent>)
        requires
            old(self).wf(),
        ensures
            *final(self) == dispatch_step(*old(self), event),
            forward == forwarded(*old(self), event),
            final(self).wf(),
    {
        proof {
            lemma_step_preserves_wf(*self, event);
        }
        match self.mode {
            Mode::Normal => match event {
                InputEvent::LongPress => {
                    self.mode = Mode::Selecting;
                    None
                },
                _ => Some(event),
            },
            Mode::Selecting => {
                match event {
                    InputEvent::Left => {
                        self.screen_index = if self.screen_index == 0 {
                            self.screen_count - 1
                        } else {
                            self.screen_index - 1
                        };
                        proof {
                            lemma_index_left_of_unfolded(
                                old(self).screen_index,
                                old(self).screen_count,
                            );
                        }
                    },
                    InputEvent::Right => {
                        self.screen_index = if self.screen_index + 1 == self.screen_count {
                            0
                        } else {
                            self.screen_index + 1
                        };
                        proof {
                            lemma_index_right_of_unfolded(
                                old(self).screen_index,
                                old(self).screen_count,
                            );
                        }
                    },
                    _ => {
                        self.mode = Mode::Normal;
                    },
                }
                None
            },
        }
    }

    /// One render tick: consume the drained event, if any, and say what to
    /// draw. The active screen is drawn exactly once per tick; the selection
    /// overlay is drawn exactly while the dispatcher is left selecting.
    pub fn tick(&mut self, event: Option<InputEvent>) -> (plan: TickPlan)
        requires
            old(self).wf(),
        ensures
            *final(self) == (match event {
                Some(e) => dispatch_step(*old(self), e),
                None => *old(self),
            }),
            plan.forward == (match event {
                Some(e) => forwarded(*old(self), e),
                None => None::<InputEvent>,
            }),
            plan.draw_index == final(self).screen_index,
            plan.draw_overlay == (final(self).mode == Mode::Selecting),
            final(self).wf(),
    {
        let forward = match event {
            Some(e) => self.handle_event(e),
            None => None,
        };
        TickPlan {
            draw_index: self.screen_index,
            forward,
            draw_overlay: self.mode == Mode::Selecting,
        }
    }
}

/// Stepping left wraps `i` to `i - 1` modulo `n`.
proof fn lemma_index_left_of_unfolded(i: usize, n: usize)
    requires
        i < n,
    ensures
        index_left_of(i, n) == if i == 0 {
            (n - 1) as usize
        } else {
            (i - 1) as usize
        },
{
    if i == 0 {
        vstd::arithmetic::div_mod::lemma_small_mod((n - 1) as nat, n as nat);
    } else {
        vstd::arithmetic::div_mod::lemma_mod_add_multiples_vanish(i - 1, n as int);
        vstd::arithmetic::div_mod::lemma_small_mod((i - 1) as nat, n as nat);
    }
}

/// Stepping right wraps `i` to `i + 1` modulo `n`.
proof fn lemma_index_right_of_unfolded(i: usize, n: usize)
    requires
        i < n,
    ensures
        index_right_of(i, n) == if i + 1 == n {
            0usize
        } else {
            (i + 1) as usize
        },
{
    if i + 1 == n {
        vstd::arithmetic::div_mod::lemma_mod_self_0(n as int);
    } else {
        vstd::arithmetic::div_mod::lemma_small_mod((i + 1) as nat, n as nat);
    }
}

/// One step keeps the screen count and keeps the active index within bounds,
/// whatever the event.
pub proof fn lemma_step_preserves_wf(d: ScreenDispatcher, event: InputEvent)
    requires
        d.wf(),
    ensures
        dispatch_step(d, event).wf(),
        dispatch_step(d, event).screen_count == d.screen_count,
{
    lemma_index_left_of_unfolded(d.screen_index, d.screen_count);
    lemma_index_right_of_unfolded(d.screen_index, d.screen_count);
}

/// The active index stays within `[0, screen_count)` for any input sequence.
pub proof fn lemma_run_preserves_wf(d: ScreenDispatcher, events: Seq<InputEvent>)
    requires
        d.wf(),
    ensures
        dispatch_run(d, events).wf(),
        dispatch_run(d, events).screen_count == d.screen_count,
    decreases events.len(),
{
    if events.len() > 0 {
        lemma_step_preserves_wf(d, events[0]);
        lemma_run_preserves_wf(dispatch_step(d, events[0]), events.drop_first());
    }
}

/// While selecting, a left step followed by a right step restores the state
/// exactly, and so does a right step followed by a left step; repeating the
/// pair therefore always returns to the original screen.
pub proof fn lemma_select_left_right_cancel(d: ScreenDispatcher)
    requires
        d.wf(),
        d.mode == Mode::Selecting,
    ensures
        dispatch_step(dispatch_step(d, InputEvent::Left), InputEvent::Right) == d,
        dispatch_step(dispatch_step(d, InputEvent::Right), InputEvent::Left) == d,
{
    let i = d.screen_index;
    let n = d.screen_count;
    lemma_index_left_of_unfolded(i, n);
    lemma_index_right_of_unfolded(i, n);
    lemma_index_right_of_unfolded(index_left_of(i, n), n);
    lemma_index_left_of_unfolded(index_right_of(i, n), n);
}

/// `k` repetitions of a left step followed by a right step.
pub open spec fn left_right_pairs(k: nat) -> Seq<InputEvent>
    decreases k,
{
    if k == 0 {
        Seq::empty()
    } else {
        seq![InputEvent::Left, InputEvent::Right] + left_right_pairs((k - 1) as nat)
    }
}

/// Repeatedly applying Left then Right while selecting restores the original
/// state — in particular the original screen index — however often the pair
/// is repeated.
pub proof fn lemma_select_left_right_repeats_restore(d: ScreenDispatcher, k: nat)
    requires
        d.wf(),
        d.mode == Mode::Selecting,
    ensures
        dispatch_run(d, left_right_pairs(k)) == d,
    decreases k,
{
    reveal_with_fuel(dispatch_run, 3);
    if k > 0 {
        let s = left_right_pairs(k);
        lemma_select_left_right_cancel(d);
        assert(s[0] == InputEvent::Left);
        assert(s.drop_first() =~= seq![InputEvent::Right] + left_right_pairs((k - 1) as nat));
        assert(s.drop_first()[0] == InputEvent::Right);
        assert(s.drop_first().drop_first() =~= left_right_pairs((k - 1) as nat));
        lemma_select_left_right_repeats_restore(d, (k - 1) as nat);
    }
}

} // verus!

