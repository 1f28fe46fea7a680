//! Debounced push-button input.
//!
//! A `Button` keeps a rolling 16-sample history of raw pin levels and reports
//! a press or release only once the signal has settled: the newest six
//! samples must sit uniformly at the new level while the oldest four sat at
//! the prior level, the six in between being ignored as an ambiguous
//! transition band. `Button::tick` is the per-poll step of the input
//! dispatcher: it feeds one sample into the history and emits at most one
//! `ButtonEvent`, deriving `Held` from elapsed dwell time.

use vstd::prelude::*;

verus! {

/// Milliseconds a press must stay down before it counts as a long press.
pub const LONG_PRESS_MS: u64 = 3000;

/// Period, in milliseconds, at which the dispatcher polls the pin.
pub const POLL_PERIOD_MS: u64 = 10;

/// Guard mask over the 16-sample history: the low six bits are the
/// settled-new-level window, the high four bits the settled-prior-level
/// window; the middle six bits are excluded as an ambiguous transition band.
pub const HISTORY_MASK: u16 = 0b1111_0000_0011_1111;

/// Masked history confirming a rising edge: the last six samples high, the
/// window ten to sixteen samples back uniformly low.
pub const RISE_PATTERN: u16 = 0b0000_0000_0011_1111;

/// Masked history confirming a falling edge: the last six samples low, the
/// window ten to sixteen samples back uniformly high.
pub const FALL_PATTERN: u16 = 0b1111_0000_0000_0000;

/// A clean, debounced transition of the button.
#[derive(PartialEq, Eq, Structural, Clone, Copy, Debug)]
pub enum ButtonEvent {
    Up,
    Down,
    Held,
}

/// Debounce state of one physical button, owned exclusively by the input
/// dispatcher.
pub struct Button {
    /// True for an active-low (idle-high, pulled-up) button: a falling
    /// electrical edge then means press and a rising edge means release.
    pub inverted: bool,
    /// Rolling window of the most recent 16 raw samples, newest in bit 0.
    pub history: u16,
    /// Time at which the open press was confirmed; `None` while released.
    pub down_time: Option<u64>,
    /// Time at which the open press becomes a long press; cleared once the
    /// `Held` event has fired or the press has closed.
    pub next_long_time: Option<u64>,
}

/// Whether a history register confirms a rising edge.
pub open spec fn rose_fires(history: u16) -> bool {
    history & HISTORY_MASK == RISE_PATTERN
}

/// Whether a history register confirms a falling edge.
pub open spec fn fell_fires(history: u16) -> bool {
    history & HISTORY_MASK == FALL_PATTERN
}

/// The history register after one more raw sample is shifted in.
pub open spec fn shifted(history: u16, level: bool) -> u16 {
    (history << 1u16) | (if level { 1u16 } else { 0u16 })
}

/// Whether the current history confirms a release, under the button's
/// polarity: a rising electrical edge on an inverted button, a falling one
/// otherwise.
pub open spec fn up_fires(b: Button) -> bool {
    if b.inverted {
        rose_fires(b.history)
    } else {
        fell_fires(b.history)
    }
}

/// Whether the current history confirms a press, under the button's polarity.
pub open spec fn down_fires(b: Button) -> bool {
    if b.inverted {
        fell_fires(b.history)
    } else {
        rose_fires(b.history)
    }
}

/// The history register an edge confirmation settles to: all-1s after a
/// confirmed rise, all-0s after a confirmed fall, so the same edge cannot
/// retrigger until the signal genuinely changes level again.
pub open spec fn settled_after(rose: bool) -> u16 {
    if rose {
        0xFFFFu16
    } else {
        0u16
    }
}

/// One dispatcher poll as a pure transition: shift the new sample in, then
/// emit at most one of `Up`, `Held`, `Down`.
pub open spec fn spec_tick(b: Button, level: bool, now_ms: u64) -> (Button, Option<ButtonEvent>) {
    let sampled = Button { history: shifted(b.history, level), ..b };
    if sampled.down_time is Some && up_fires(sampled) {
        (
            (Button {
                history: settled_after(sampled.inverted),
                down_time: None,
                next_long_time: None,
                ..sampled
            }),
            Some(ButtonEvent::Up),
        )
    } else if sampled.down_time is Some && (match sampled.next_long_time {
        Some(t) => now_ms >= t,
        None => false,
    }) {
        ((Button { next_long_time: None, ..sampled }), Some(ButtonEvent::Held))
    } else if sampled.down_time is None && down_fires(sampled) {
        (
            (Button {
                history: settled_after(!sampled.inverted),
                down_time: Some(now_ms),
                next_long_time: Some((now_ms + LONG_PRESS_MS) as u64),
                ..sampled
            }),
            Some(ButtonEvent::Down),
        )
    } else {
        (sampled, None)
    }
}

impl Button {
    /// A button in its electrically idle state: history all-1s when the idle
    /// level is high (inverted button), all-0s otherwise, with no press open.
    pub fn new(inverted: bool) -> (b: Button)
        ensures
            b == idle_state(inverted),
            b.inverted == inverted,
            b.history == (if inverted { 0xFFFFu16 } else { 0u16 }),
            b.down_time is None,
            b.next_long_time is None,
    {
        Button {
            inverted,
            history: if inverted { 0xFFFF } else { 0x0000 },
            down_time: None,
            next_long_time: None,
        }
    }

    /// Shifts one raw pin sample into the history, newest in bit 0; the
    /// oldest sample falls out.
    pub fn button_update(&mut self, level: bool)
        ensures
            final(self).history == shifted(old(self).history, level),
            final(self).inverted == old(self).inverted,
            final(self).down_time == old(self).down_time,
            final(self).next_long_time == old(self).next_long_time,
    {
        let bit: u16 = if level { 1 } else { 0 };
        self.history = (self.history << 1u16) | bit;
    }

    /// Reports a confirmed rising edge, at most once per genuine transition:
    /// on confirmation the history is forced to all-1s, which does not match
    /// the rise pattern, so a repeat call with no new qualifying samples
    /// returns false.
    pub fn button_rose(&mut self) -> (confirmed: bool)
        ensures
            confirmed == rose_fires(old(self).history),
            final(self).history == (if confirmed { 0xFFFFu16 } else { old(self).history }),
            final(self).inverted == old(self).inverted,
            final(self).down_time == old(self).down_time,
            final(self).next_long_time == old(self).next_long_time,
    {
        if self.history & HISTORY_MASK == RISE_PATTERN {
            self.history = 0xFFFF;
            true
        } else {
            false
        }
    }

    /// Reports a confirmed falling edge, at most once per genuine transition:
    /// on confirmation the history is forced to all-0s.
    pub fn button_fell(&mut self) -> (confirmed: bool)
        ensures
            confirmed == fell_fires(old(self).history),
            final(self).history == (if confirmed { 0u16 } else { old(self).history }),
            final(self).inverted == old(self).inverted,
            final(self).down_time == old(self).down_time,
            final(self).next_long_time == old(self).next_long_time,
    {
        if self.history & HISTORY_MASK == FALL_PATTERN {
            self.history = 0x0000;
            true
        } else {
            false
        }
    }

    /// Reports a confirmed release: a rising electrical edge for an inverted
    /// button, a falling one otherwise.
    pub fn button_up(&mut self) -> (confirmed: bool)
        ensures
            confirmed == up_fires(*old(self)),
            final(self).history == (if confirmed {
                settled_after(old(self).inverted)
            } else {
                old(self).history
            }),
            final(self).inverted == old(self).inverted,
            final(self).down_time == old(self).down_time,
            final(self).next_long_time == old(self).next_long_time,
    {
        if self.inverted {
            self.button_rose()
        } else {
            self.button_fell()
        }
    }

    /// Reports a confirmed press: a falling electrical edge for an inverted
    /// button, a rising one otherwise.
    pub fn button_down(&mut self) -> (confirmed: bool)
        ensures
            confirmed == down_fires(*old(self)),
            final(self).history == (if confirmed {
                settled_after(!old(self).inverted)
            } else {
                old(self).history
            }),
            final(self).inverted == old(self).inverted,
            final(self).down_time == old(self).down_time,
            final(self).next_long_time == old(self).next_long_time,
    {
        if self.inverted {
            self.button_fell()
        } else {
            self.button_rose()
        }
    }

    /// One dispatcher poll: shift the sampled level in, then emit at most one
    /// event. A confirmed release closes the open press and clears both
    /// timestamps; otherwise an open press whose long-press time has elapsed
    /// emits `Held` once, clearing only the long-press time so a later
    /// release still emits `Up`; otherwise a confirmed press opens one and
    /// arms the long-press time.
    pub fn tick(&mut self, level: bool, now_ms: u64) -> (event: Option<ButtonEvent>)
        requires
            now_ms + LONG_PRESS_MS <= u64::MAX,
        ensures
            (*final(self), event) == spec_tick(*old(self), level, now_ms),
    {
        self.button_update(level);
        if self.down_time.is_some() && self.button_up() {
            self.down_time = None;
            self.next_long_time = None;
            Some(ButtonEvent::Up)
        } else if self.down_time.is_some() && (match self.next_long_time {
            Some(t) => now_ms >= t,
            None => false,
        }) {
            self.next_long_time = None;
            Some(ButtonEvent::Held)
        } else if self.down_time.is_none() && self.button_down() {
            self.down_time = Some(now_ms);
            self.next_long_time = Some(now_ms + LONG_PRESS_MS);
            Some(ButtonEvent::Down)
        } else {
            None
        }
    }
}

/// The button state after a sequence of polls, paired with every event the
/// polls emitted, oldest first.
pub open spec fn spec_tick_run(b: Button, inputs: Seq<(bool, u64)>) -> (Button, Seq<ButtonEvent>)
    decreases inputs.len(),
{
    if inputs.len() == 0 {
        (b, Seq::empty())
    } else {
        let stepped = spec_tick(b, inputs[0].0, inputs[0].1);
        let rest = spec_tick_run(stepped.0, inputs.drop_first());
        (
            rest.0,
            match stepped.1 {
                Some(event) => seq![event] + rest.1,
                None => rest.1,
            },
        )
    }
}

/// The state a press has just been confirmed in, for an inverted button: the
/// history settled to all-0s, the press open since `t`, the long-press time
/// armed.
pub open spec fn post_down_state(t: u64) -> Button {
    Button {
        inverted: true,
        history: 0u16,
        down_time: Some(t),
        next_long_time: Some((t + LONG_PRESS_MS) as u64),
    }
}

/// Running a poll sequence split in two runs the first part, then the second
/// from where the first left off, and emits the two event sequences in
/// order.
pub proof fn lemma_run_concat(b: Button, first: Seq<(bool, u64)>, second: Seq<(bool, u64)>)
    ensures
        spec_tick_run(b, first + second) == ({
            let mid = spec_tick_run(b, first);
            let rest = spec_tick_run(mid.0, second);
            (rest.0, mid.1 + rest.1)
        }),
    decreases first.len(),
{
    let mid = spec_tick_run(b, first);
    let rest = spec_tick_run(mid.0, second);
    if first.len() == 0 {
        assert(first + second =~= second);
        assert(mid.1 + rest.1 =~= rest.1);
    } else {
        let stepped = spec_tick(b, first[0].0, first[0].1);
        lemma_run_concat(stepped.0, first.drop_first(), second);
        assert((first + second).drop_first() =~= first.drop_first() + second);
        assert((first + second)[0] == first[0]);
        match stepped.1 {
            Some(event) => {
                assert(seq![event] + (spec_tick_run(stepped.0, first.drop_first()).1
                    + rest.1) =~= (seq![event] + spec_tick_run(stepped.0, first.drop_first()).1)
                    + rest.1);
            },
            None => {},
        }
    }
}

/// An open press on an inverted button, with the history settled after the
/// confirmed fall and the long-press time as given.
pub open spec fn open_press_state(t: u64, next_long_time: Option<u64>) -> Button {
    Button { inverted: true, history: 0u16, down_time: Some(t), next_long_time }
}

/// While the pin stays at the pressed level of an inverted button, the
/// settled all-0s history never confirms an edge.
proof fn lemma_pressed_level_is_quiet()
    ensures
        shifted(0u16, false) == 0u16,
        !rose_fires(0u16),
        !fell_fires(0u16),
{
    assert(((0u16 << 1u16) | 0u16) == 0u16) by (bit_vector);
    assert(!(0u16 & HISTORY_MASK == RISE_PATTERN)) by (bit_vector);
    assert(!(0u16 & HISTORY_MASK == FALL_PATTERN)) by (bit_vector);
}

/// After `Held` has fired (the long-press time is cleared), polls at the
/// pressed level emit nothing more and leave the press open.
proof fn lemma_hold_after_held_is_quiet(t: u64, inputs: Seq<(bool, u64)>)
    requires
        forall|i: int| 0 <= i < inputs.len() ==> !(#[trigger] inputs[i]).0,
    ensures
        spec_tick_run(open_press_state(t, None), inputs) == (
            open_press_state(t, None),
            Seq::<ButtonEvent>::empty(),
        ),
    decreases inputs.len(),
{
    lemma_pressed_level_is_quiet();
    if inputs.len() > 0 {
        lemma_hold_after_held_is_quiet(t, inputs.drop_first());
    }
}

/// Before the long-press time arrives, polls at the pressed level emit
/// nothing and leave the open press as it was.
proof fn lemma_hold_before_long_is_quiet(t: u64, inputs: Seq<(bool, u64)>)
    requires
        t + LONG_PRESS_MS <= u64::MAX,
        forall|i: int| 0 <= i < inputs.len() ==> !(#[trigger] inputs[i]).0 && inputs[i].1 < t
            + LONG_PRESS_MS,
    ensures
        spec_tick_run(post_down_state(t), inputs) == (
            post_down_state(t),
            Seq::<ButtonEvent>::empty(),
        ),
    decreases inputs.len(),
{
    lemma_pressed_level_is_quiet();
    if inputs.len() > 0 {
        lemma_hold_before_long_is_quiet(t, inputs.drop_first());
    }
}

/// Given a press confirmed at `t` (its `Down` already emitted) that is then
/// held with no release, with some poll at or past the long-press time, the
/// polls emit exactly one further event: `Held` — never a second.
pub proof fn lemma_held_fires_exactly_once(t: u64, inputs: Seq<(bool, u64)>)
    requires
        t + LONG_PRESS_MS <= u64::MAX,
        forall|i: int| 0 <= i < inputs.len() ==> !(#[trigger] inputs[i]).0,
        exists|i: int| 0 <= i < inputs.len() && (#[trigger] inputs[i]).1 >= t + LONG_PRESS_MS,
    ensures
        spec_tick_run(post_down_state(t), inputs).1 =~= seq![ButtonEvent::Held],
    decreases inputs.len(),
{
    lemma_pressed_level_is_quiet();
    let witness: int = choose|i: int| 0 <= i < inputs.len() && (#[trigger] inputs[i]).1 >= t
        + LONG_PRESS_MS;
    if inputs[0].1 >= t + LONG_PRESS_MS {
        lemma_hold_after_held_is_quiet(t, inputs.drop_first());
    } else {
        assert(witness >= 1);
        assert(0 <= witness - 1 < inputs.drop_first().len() && inputs.drop_first()[witness - 1].1
            >= t + LONG_PRESS_MS);
        lemma_held_fires_exactly_once(t, inputs.drop_first());
    }
}

/// Given a press confirmed at `t` (its `Down` already emitted) that is
/// released before the long-press time — pressed-level polls, then six
/// polls at the released level, all before `t` plus the threshold — the
/// polls emit exactly one further event: `Up`, and no `Held`.
pub proof fn lemma_early_release_emits_up(
    t: u64,
    held: Seq<(bool, u64)>,
    release: Seq<(bool, u64)>,
)
    requires
        t + LONG_PRESS_MS <= u64::MAX,
        forall|i: int| 0 <= i < held.len() ==> !(#[trigger] held[i]).0 && held[i].1 < t
            + LONG_PRESS_MS,
        release.len() == 6,
        forall|i: int| 0 <= i < release.len() ==> (#[trigger] release[i]).0 && release[i].1 < t
            + LONG_PRESS_MS,
    ensures
        spec_tick_run(post_down_state(t), held + release).1 =~= seq![ButtonEvent::Up],
{
    lemma_run_concat(post_down_state(t), held, release);
    lemma_hold_before_long_is_quiet(t, held);
    assert(shifted(0u16, true) == 1u16 && shifted(1u16, true) == 3u16 && shifted(3u16, true)
        == 7u16 && shifted(7u16, true) == 15u16 && shifted(15u16, true) == 31u16 && shifted(
        31u16,
        true,
    ) == 63u16) by (bit_vector);
    assert(!(1u16 & HISTORY_MASK == RISE_PATTERN) && !(1u16 & HISTORY_MASK == FALL_PATTERN) && !(
    3u16 & HISTORY_MASK == RISE_PATTERN) && !(3u16 & HISTORY_MASK == FALL_PATTERN) && !(7u16
        & HISTORY_MASK == RISE_PATTERN) && !(7u16 & HISTORY_MASK == FALL_PATTERN) && !(15u16
        & HISTORY_MASK == RISE_PATTERN) && !(15u16 & HISTORY_MASK == FALL_PATTERN) && !(31u16
        & HISTORY_MASK == RISE_PATTERN) && !(31u16 & HISTORY_MASK == FALL_PATTERN)) by (bit_vector);
    assert(63u16 & HISTORY_MASK == RISE_PATTERN) by (bit_vector);
    let b0 = post_down_state(t);
    let nlt = Some((t + LONG_PRESS_MS) as u64);
    let b1 = Button { inverted: true, history: 1u16, down_time: Some(t), next_long_time: nlt };
    let b2 = Button { inverted: true, history: 3u16, down_time: Some(t), next_long_time: nlt };
    let b3 = Button { inverted: true, history: 7u16, down_time: Some(t), next_long_time: nlt };
    let b4 = Button { inverted: true, history: 15u16, down_time: Some(t), next_long_time: nlt };
    let b5 = Button { inverted: true, history: 31u16, down_time: Some(t), next_long_time: nlt };
    let b6 = Button { inverted: true, history: 0xFFFFu16, down_time: None, next_long_time: None };
    let r1 = release.drop_first();
    let r2 = r1.drop_first();
    let r3 = r2.drop_first();
    let r4 = r3.drop_first();
    let r5 = r4.drop_first();
    let r6 = r5.drop_first();
    assert(r1[0] == release[1] && r2[0] == release[2] && r3[0] == release[3] && r4[0]
        == release[4] && r5[0] == release[5]);
    assert(spec_tick(b0, release[0].0, release[0].1) == (b1, None::<ButtonEvent>));
    assert(spec_tick(b1, r1[0].0, r1[0].1) == (b2, None::<ButtonEvent>));
    assert(spec_tick(b2, r2[0].0, r2[0].1) == (b3, None::<ButtonEvent>));
    assert(spec_tick(b3, r3[0].0, r3[0].1) == (b4, None::<ButtonEvent>));
    assert(spec_tick(b4, r4[0].0, r4[0].1) == (b5, None::<ButtonEvent>));
    assert(spec_tick(b5, r5[0].0, r5[0].1) == (b6, Some(ButtonEvent::Up)));
    assert(r6.len() == 0);
    assert(spec_tick_run(b6, r6) == (b6, Seq::<ButtonEvent>::empty()));
    assert(spec_tick_run(b5, r5).1 =~= seq![ButtonEvent::Up]);
    assert(spec_tick_run(b4, r4).1 =~= seq![ButtonEvent::Up]);
    assert(spec_tick_run(b3, r3).1 =~= seq![ButtonEvent::Up]);
    assert(spec_tick_run(b2, r2).1 =~= seq![ButtonEvent::Up]);
    assert(spec_tick_run(b1, r1).1 =~= seq![ButtonEvent::Up]);
    assert(spec_tick_run(b0, release).1 =~= seq![ButtonEvent::Up]);
}

/// The electrically idle state `Button::new` starts in.
pub open spec fn idle_state(inverted: bool) -> Button {
    Button {
        inverted,
        history: if inverted {
            0xFFFFu16
        } else {
            0u16
        },
        down_time: None,
        next_long_time: None,
    }
}

/// From the idle state of an inverted button, six polls at the pressed
/// (low) level confirm the press: the sixth poll emits `Down`, opening the
/// press at that poll's time and arming the long-press time.
pub proof fn lemma_press_confirms_down(press: Seq<(bool, u64)>)
    requires
        press.len() == 6,
        forall|i: int| 0 <= i < press.len() ==> !(#[trigger] press[i]).0,
        press[5].1 + LONG_PRESS_MS <= u64::MAX,
    ensures
        spec_tick_run(idle_state(true), press) == (
            post_down_state(press[5].1),
            seq![ButtonEvent::Down],
        ),
{
    assert(shifted(0xFFFFu16, false) == 0xFFFEu16 && shifted(0xFFFEu16, false) == 0xFFFCu16
        && shifted(0xFFFCu16, false) == 0xFFF8u16 && shifted(0xFFF8u16, false) == 0xFFF0u16
        && shifted(0xFFF0u16, false) == 0xFFE0u16 && shifted(0xFFE0u16, false) == 0xFFC0u16)
        by (bit_vector);
    assert(!(0xFFFEu16 & HISTORY_MASK == RISE_PATTERN) && !(0xFFFEu16 & HISTORY_MASK
        == FALL_PATTERN) && !(0xFFFCu16 & HISTORY_MASK == RISE_PATTERN) && !(0xFFFCu16
        & HISTORY_MASK == FALL_PATTERN) && !(0xFFF8u16 & HISTORY_MASK == RISE_PATTERN) && !(
    0xFFF8u16 & HISTORY_MASK == FALL_PATTERN) && !(0xFFF0u16 & HISTORY_MASK == RISE_PATTERN) && !(
    0xFFF0u16 & HISTORY_MASK == FALL_PATTERN) && !(0xFFE0u16 & HISTORY_MASK == RISE_PATTERN) && !(
    0xFFE0u16 & HISTORY_MASK == FALL_PATTERN)) by (bit_vector);
    assert(0xFFC0u16 & HISTORY_MASK == FALL_PATTERN && !(0xFFC0u16 & HISTORY_MASK
        == RISE_PATTERN)) by (bit_vector);
    let b0 = idle_state(true);
    let b1 = Button { history: 0xFFFEu16, ..b0 };
    let b2 = Button { history: 0xFFFCu16, ..b0 };
    let b3 = Button { history: 0xFFF8u16, ..b0 };
    let b4 = Button { history: 0xFFF0u16, ..b0 };
    let b5 = Button { history: 0xFFE0u16, ..b0 };
    let r1 = press.drop_first();
    let r2 = r1.drop_first();
    let r3 = r2.drop_first();
    let r4 = r3.drop_first();
    let r5 = r4.drop_first();
    let r6 = r5.drop_first();
    assert(r1[0] == press[1] && r2[0] == press[2] && r3[0] == press[3] && r4[0] == press[4]
        && r5[0] == press[5]);
    assert(spec_tick(b0, press[0].0, press[0].1) == (b1, None::<ButtonEvent>));
    assert(spec_tick(b1, r1[0].0, r1[0].1) == (b2, None::<ButtonEvent>));
    assert(spec_tick(b2, r2[0].0, r2[0].1) == (b3, None::<ButtonEvent>));
    assert(spec_tick(b3, r3[0].0, r3[0].1) == (b4, None::<ButtonEvent>));
    assert(spec_tick(b4, r4[0].0, r4[0].1) == (b5, None::<ButtonEvent>));
    assert(spec_tick(b5, r5[0].0, r5[0].1) == (
        post_down_state(press[5].1),
        Some(ButtonEvent::Down),
    ));
    assert(r6.len() == 0);
    assert(spec_tick_run(post_down_state(press[5].1), r6) == (
        post_down_state(press[5].1),
        Seq::<ButtonEvent>::empty(),
    ));
    assert(spec_tick_run(b5, r5).1 =~= seq![ButtonEvent::Down]);
    assert(spec_tick_run(b5, r5).0 == post_down_state(press[5].1));
    assert(spec_tick_run(b4, r4).1 =~= seq![ButtonEvent::Down]);
    assert(spec_tick_run(b4, r4).0 == post_down_state(press[5].1));
    assert(spec_tick_run(b3, r3).1 =~= seq![ButtonEvent::Down]);
    assert(spec_tick_run(b3, r3).0 == post_down_state(press[5].1));
    assert(spec_tick_run(b2, r2).1 =~= seq![ButtonEvent::Down]);
    assert(spec_tick_run(b2, r2).0 == post_down_state(press[5].1));
    assert(spec_tick_run(b1, r1).1 =~= seq![ButtonEvent::Down]);
    assert(spec_tick_run(b1, r1).0 == post_down_state(press[5].1));
    assert(spec_tick_run(b0, press).1 =~= seq![ButtonEvent::Down]);
    assert(spec_tick_run(b0, press).0 == post_down_state(press[5].1));
}

/// Given a press held at least the long-press threshold with no release,
/// the whole event sequence is exactly `Down`, `Held` — `Held` never fires
/// twice.
pub proof fn lemma_press_and_hold_sequence(press: Seq<(bool, u64)>, hold: Seq<(bool, u64)>)
    requires
        press.len() == 6,
        forall|i: int| 0 <= i < press.len() ==> !(#[trigger] press[i]).0,
        press[5].1 + LONG_PRESS_MS <= u64::MAX,
        forall|i: int| 0 <= i < hold.len() ==> !(#[trigger] hold[i]).0,
        exists|i: int|
            0 <= i < hold.len() && (#[trigger] hold[i]).1 >= press[5].1 + LONG_PRESS_MS,
    ensures
        spec_tick_run(idle_state(true), press + hold).1 =~= seq![
            ButtonEvent::Down,
            ButtonEvent::Held,
        ],
{
    lemma_press_confirms_down(press);
    lemma_run_concat(idle_state(true), press, hold);
    lemma_held_fires_exactly_once(press[5].1, hold);
    assert(seq![ButtonEvent::Down] + spec_tick_run(post_down_state(press[5].1), hold).1 =~= seq![
        ButtonEvent::Down,
        ButtonEvent::Held,
    ]);
}

/// Given a press released before the long-press threshold, the whole event
/// sequence is exactly `Down`, `Up` — no `Held`.
pub proof fn lemma_press_and_release_sequence(
    press: Seq<(bool, u64)>,
    held: Seq<(bool, u64)>,
    release: Seq<(bool, u64)>,
)
    requires
        press.len() == 6,
        forall|i: int| 0 <= i < press.len() ==> !(#[trigger] press[i]).0,
        press[5].1 + LONG_PRESS_MS <= u64::MAX,
        forall|i: int| 0 <= i < held.len() ==> !(#[trigger] held[i]).0 && held[i].1 < press[5].1
            + LONG_PRESS_MS,
        release.len() == 6,
        forall|i: int| 0 <= i < release.len() ==> (#[trigger] release[i]).0 && release[i].1
            < press[5].1 + LONG_PRESS_MS,
    ensures
        spec_tick_run(idle_state(true), press + (held + release)).1 =~= seq![
            ButtonEvent::Down,
            ButtonEvent::Up,
        ],
{
    lemma_press_confirms_down(press);
    lemma_run_concat(idle_state(true), press, held + release);
    lemma_early_release_emits_up(press[5].1, held, release);
    assert(seq![ButtonEvent::Down] + spec_tick_run(post_down_state(press[5].1), held + release).1
        =~= seq![ButtonEvent::Down, ButtonEvent::Up]);
}

/// A history matching the rise pattern under the guard mask confirms a
/// rising edge exactly once: confirmation settles the history to all-1s,
/// which no longer matches, so a repeat check with no new qualifying samples
/// reports nothing.
pub proof fn lemma_rise_confirms_once(history: u16)
    requires
        history & HISTORY_MASK == RISE_PATTERN,
    ensures
        rose_fires(history),
        !rose_fires(0xFFFFu16),
{
    assert(!(0xFFFFu16 & HISTORY_MASK == RISE_PATTERN)) by (bit_vector);
}

/// The symmetric property for a falling edge: confirmation settles the
/// history to all-0s, which no longer matches the fall pattern.
pub proof fn lemma_fall_confirms_once(history: u16)
    requires
        history & HISTORY_MASK == FALL_PATTERN,
    ensures
        fell_fires(history),
        !fell_fires(0u16),
{
    assert(!(0u16 & HISTORY_MASK == FALL_PATTERN)) by (bit_vector);
}

/// For an inverted (active-low) button a confirmed electrical rise means
/// release and a confirmed fall means press; for a non-inverted button the
/// mapping is direct.
pub proof fn lemma_polarity_maps_edges(b: Button)
    ensures
        b.inverted ==> up_fires(b) == rose_fires(b.history) && down_fires(b) == fell_fires(
            b.history,
        ),
        !b.inverted ==> up_fires(b) == fell_fires(b.history) && down_fires(b) == rose_fires(
            b.history,
        ),
{
}

#[verifier::external_type_specification]
#[verifier::external_body]
#[verifier::reject_recursive_types(T)]
pub struct ExReceiver<T>(std::sync::mpsc::Receiver<T>);

/// Relies on std::sync::mpsc::Receiver::try_recv: returns the oldest queued
/// value if one is waiting, without blocking, and nothing when the queue is
/// empty or the sender is gone. What is queued depends on the sending thread,
/// so nothing is promised of the result.
#[verifier::external_body]
fn try_recv_event(queue: &std::sync::mpsc::Receiver<ButtonEvent>) -> Option<ButtonEvent> {
    queue.try_recv().ok()
}

/// Whether a received event is the one a blocking wait is for.
pub(crate) fn is_wanted_event(received: &ButtonEvent, wanted: &ButtonEvent) -> (r: bool)
    ensures
        r == (received == wanted),
{
    *received == *wanted
}

/// Relies on std::sync::mpsc::Receiver::iter and Iterator::find: blocks,
/// taking queued values in arrival order, until one for which the closure
/// returns true arrives (returned) or the sending side is gone and the queue
/// has drained (nothing). Values taken before the match are discarded. The
/// closure only calls `is_wanted_event`.
#[verifier::external_body]
fn recv_until_match(
    queue: &std::sync::mpsc::Receiver<ButtonEvent>,
    wanted: ButtonEvent,
) -> Option<ButtonEvent> {
    queue.iter().find(|received| is_wanted_event(received, &wanted))
}

/// Relies on std::sync::mpsc::Receiver::try_iter: takes every value already
/// queued, in arrival order, without blocking, and returns them.
#[verifier::external_body]
fn take_pending(queue: &std::sync::mpsc::Receiver<ButtonEvent>) -> Vec<ButtonEvent> {
    queue.try_iter().collect()
}

/// Consumer end of the dispatcher's event channel: an unbounded FIFO of
/// `ButtonEvent` with a single producer (the dispatcher) and a single
/// consumer (the control loop).
pub struct ButtonEventHandle {
    event_queue: std::sync::mpsc::Receiver<ButtonEvent>,
}

impl ButtonEventHandle {
    /// Wraps the receiving end of the dispatcher's event channel.
    pub fn new(event_queue: std::sync::mpsc::Receiver<ButtonEvent>) -> (handle: ButtonEventHandle)
    {
        ButtonEventHandle { event_queue }
    }

    /// Non-blocking poll: the oldest queued event if any, else nothing.
    pub fn get_event(&self) -> (event: Option<ButtonEvent>) {
        try_recv_event(&self.event_queue)
    }

    /// Blocks until the requested event is observed, discarding every
    /// dequeued event that does not equal it; returns early only if the
    /// producer side is gone, which the appliance treats as fatal to this
    /// wait.
    pub fn wait_for_event(&self, event: ButtonEvent) {
        let _ = recv_until_match(&self.event_queue, event);
    }

    /// Discards all currently queued events without inspecting them; used
    /// before a protocol that must ignore stale input.
    pub fn clear_events(&self) {
        let _ = take_pending(&self.event_queue);
    }
}

} // verus!
