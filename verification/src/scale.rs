//! Action resolution and the calibration protocol.
//!
//! `Scale` folds the debounced `Down`/`Up`/`Held` event stream into the two
//! user-facing actions — tare and calibrate — and drives the interactive
//! calibration sequence as an explicit state machine. The machine owns every
//! decision of the protocol; the caller performs the commanded outside work
//! (prompting, waiting on the button, taring, reading the sensor, the
//! floating-point division, persisting) and reports each outcome back as an
//! event. The stored grams-per-raw-unit factor is carried as its raw 32-bit
//! pattern, which is also exactly what is persisted, so a reload reconstructs
//! it bit for bit.

use vstd::prelude::*;

use crate::button::ButtonEvent;
use crate::button::ButtonEventHandle;

verus! {

/// Samples averaged to establish the zero offset while taring.
pub const TARE_NUM_SAMPLES: usize = 16;

/// Samples averaged to compute the calibration factor.
pub const CALIBRATION_NUM_SAMPLES: usize = 16;

/// Mass of the known reference weight placed during calibration.
pub const CALIBRATION_WEIGHT_GRAMS: u32 = 2000;

/// Pause between successful samples while averaging, to avoid oversampling
/// transients.
pub const SAMPLE_DELAY_MS: u64 = 5;

/// Backoff after a failed sensor read before the next attempt.
pub const SAMPLE_RETRY_SLEEP_MS: u64 = 10;

/// A user-facing action resolved from the button event stream.
#[derive(PartialEq, Eq, Structural, Clone, Copy, Debug)]
pub enum ScaleAction {
    Tare,
    Calibrate,
}

/// Control-loop state of the scale: the consumer end of the button channel,
/// the applied calibration factor as its raw bit pattern (`None` until first
/// successful calibration), and the most recently consumed button event.
pub struct Scale {
    pub button_event_handle: ButtonEventHandle,
    pub scale_factor_bits: Option<u32>,
    pub last_button_event: Option<ButtonEvent>,
}

/// The resolver policy as a pure transition: `Down` only sets state; `Held`
/// yields `Calibrate` and `Up` yields `Tare` exactly when the event being
/// replaced was `Down`. Because `Held` overwrites the stored event, an `Up`
/// later in the same press sees `Held`, not `Down`, and yields nothing —
/// deliberately kept, not corrected.
pub open spec fn spec_resolve(last: Option<ButtonEvent>, event: ButtonEvent) -> (Option<
    ButtonEvent,
>, Option<ScaleAction>) {
    match event {
        ButtonEvent::Down => (Some(ButtonEvent::Down), None),
        ButtonEvent::Held => (
            Some(ButtonEvent::Held),
            if last == Some(ButtonEvent::Down) {
                Some(ScaleAction::Calibrate)
            } else {
                None
            },
        ),
        ButtonEvent::Up => (
            Some(ButtonEvent::Up),
            if last == Some(ButtonEvent::Down) {
                Some(ScaleAction::Tare)
            } else {
                None
            },
        ),
    }
}

/// Where the calibration protocol stands, in the order the protocol runs.
#[derive(PartialEq, Eq, Structural, Clone, Copy, Debug)]
pub enum CalibrationPhase {
    /// Pending events drained; the operator was told to empty the scale and
    /// press the button.
    AwaitFirstDown,
    /// First press seen; the scale is being tared with nothing on it.
    Taring,
    /// The operator was told to place the reference weight and press the
    /// button.
    AwaitSecondDown,
    /// Raw samples are being collected for the averaged reading.
    Sampling,
    /// A non-zero averaged reading was taken; the factor is being computed
    /// from it.
    AwaitFactor,
    /// The factor was applied and handed off for persisting.
    Complete,
    /// The averaged reading was exactly zero; nothing was changed.
    Failed,
}

/// What the outside world reports back to the calibration machine.
#[derive(PartialEq, Eq, Structural, Clone, Copy, Debug)]
pub enum CalibrationEvent {
    /// The awaited button press arrived.
    DownSeen,
    /// The tare with the empty platform finished.
    Tared,
    /// One raw sensor sample was read successfully.
    SampleRead(i32),
    /// A sensor read failed; the machine keeps asking, retrying
    /// transparently.
    SampleFailed,
    /// The factor was computed from the commanded sum and count; its raw
    /// 32-bit pattern.
    FactorComputed(u32),
}

/// What the calibration machine asks the outside world to do next.
#[derive(PartialEq, Eq, Structural, Clone, Copy, Debug)]
pub enum CalibrationCmd {
    /// Prompt the operator and block until a `Down` event arrives.
    AwaitDown,
    /// Tare the scale with the empty platform.
    Tare,
    /// Read one raw sensor sample, backing off on failure.
    ReadSample,
    /// Divide the reference weight by the average of `sum` over `count`
    /// samples and report the factor's raw bits.
    ComputeFactor { sum: i64, count: usize },
    /// Apply these factor bits to the sensor, persist them under the fixed
    /// key (a failure to persist is logged and swallowed), and drain pending
    /// events.
    PersistFactor(u32),
    /// Report that calibration failed on a zero average; nothing was stored
    /// or applied.
    ReportFailure,
    /// Nothing to do: the protocol has ended or the event did not belong to
    /// the current phase.
    Idle,
}

/// In-progress calibration: the phase, and the running sum and count of the
/// raw samples taken so far.
pub struct Calibration {
    pub phase: CalibrationPhase,
    pub sum: i64,
    pub count: usize,
}

impl Calibration {
    /// The state a fresh calibration starts in.
    pub open spec fn spec_init() -> Calibration {
        Calibration { phase: CalibrationPhase::AwaitFirstDown, sum: 0, count: 0 }
    }

    /// The running sum stays within what `count` samples can reach, the
    /// count never passes the target, and sampling is only open while short
    /// of the target — which keeps the sum additions free of overflow.
    pub open spec fn wf(self) -> bool {
        &&& self.count <= CALIBRATION_NUM_SAMPLES
        &&& self.sum as int <= self.count as int * (i32::MAX as int)
        &&& self.sum as int >= self.count as int * (i32::MIN as int)
        &&& (self.phase is Sampling ==> self.count < CALIBRATION_NUM_SAMPLES)
    }

    /// Starts a calibration run; the caller drains stale events and prompts
    /// before awaiting the first press.
    pub fn new() -> (c: Calibration)
        ensures
            c == Calibration::spec_init(),
            c.wf(),
    {
        Calibration { phase: CalibrationPhase::AwaitFirstDown, sum: 0, count: 0 }
    }
}

/// One step of the calibration protocol as a pure transition on the stored
/// factor bits and the in-progress state. Sampling accumulates until the
/// target count; a zero sum then fails the run without touching the factor,
/// a non-zero sum asks for the factor, and the computed factor is stored and
/// handed off for persisting. An event that does not belong to the current
/// phase changes nothing.
pub open spec fn spec_calibrate_step(
    factor: Option<u32>,
    cal: Calibration,
    event: CalibrationEvent,
) -> (Option<u32>, Calibration, CalibrationCmd) {
    match (cal.phase, event) {
        (CalibrationPhase::AwaitFirstDown, CalibrationEvent::DownSeen) => (
            factor,
            (Calibration { phase: CalibrationPhase::Taring, ..cal }),
            CalibrationCmd::Tare,
        ),
        (CalibrationPhase::Taring, CalibrationEvent::Tared) => (
            factor,
            (Calibration { phase: CalibrationPhase::AwaitSecondDown, ..cal }),
            CalibrationCmd::AwaitDown,
        ),
        (CalibrationPhase::AwaitSecondDown, CalibrationEvent::DownSeen) => (
            factor,
            (Calibration { phase: CalibrationPhase::Sampling, sum: 0, count: 0 }),
            CalibrationCmd::ReadSample,
        ),
        (CalibrationPhase::Sampling, CalibrationEvent::SampleRead(reading)) => {
            let sum = (cal.sum + reading) as i64;
            let count = (cal.count + 1) as usize;
            if count < CALIBRATION_NUM_SAMPLES {
                (
                    factor,
                    (Calibration { phase: CalibrationPhase::Sampling, sum, count }),
                    CalibrationCmd::ReadSample,
                )
            } else if sum == 0 {
                (
                    factor,
                    (Calibration { phase: CalibrationPhase::Failed, sum, count }),
                    CalibrationCmd::ReportFailure,
                )
            } else {
                (
                    factor,
                    (Calibration { phase: CalibrationPhase::AwaitFactor, sum, count }),
                    CalibrationCmd::ComputeFactor { sum, count },
                )
            }
        },
        (CalibrationPhase::Sampling, CalibrationEvent::SampleFailed) => (
            factor,
            cal,
            CalibrationCmd::ReadSample,
        ),
        (CalibrationPhase::AwaitFactor, CalibrationEvent::FactorComputed(bits)) => (
            Some(bits),
            (Calibration { phase: CalibrationPhase::Complete, ..cal }),
            CalibrationCmd::PersistFactor(bits),
        ),
        _ => (factor, cal, CalibrationCmd::Idle),
    }
}

/// The stored factor, calibration state and commands issued after a
/// sequence of reported events, commands oldest first.
pub open spec fn spec_calibrate_run(
    factor: Option<u32>,
    cal: Calibration,
    events: Seq<CalibrationEvent>,
) -> (Option<u32>, Calibration, Seq<CalibrationCmd>)
    decreases events.len(),
{
    if events.len() == 0 {
        (factor, cal, Seq::empty())
    } else {
        let stepped = spec_calibrate_step(factor, cal, events[0]);
        let rest = spec_calibrate_run(stepped.0, stepped.1, events.drop_first());
        (rest.0, rest.1, seq![stepped.2] + rest.2)
    }
}

/// The sum of a sequence of raw samples.
pub open spec fn sum_of(samples: Seq<i32>) -> int
    decreases samples.len(),
{
    if samples.len() == 0 {
        0
    } else {
        samples[0] + sum_of(samples.drop_first())
    }
}

/// The events reporting a sequence of successful raw samples, in order.
pub open spec fn sample_events(samples: Seq<i32>) -> Seq<CalibrationEvent> {
    samples.map(|i: int, reading: i32| CalibrationEvent::SampleRead(reading))
}

/// Feeding the remaining samples of a run whose total will be zero drives
/// the machine to `Failed`: the factor is untouched and no step issues a
/// persist command.
proof fn lemma_sampling_to_zero_fails(factor: Option<u32>, cal: Calibration, samples: Seq<i32>)
    requires
        cal.wf(),
        cal.phase is Sampling,
        cal.count + samples.len() == CALIBRATION_NUM_SAMPLES,
        cal.sum + sum_of(samples) == 0,
        samples.len() >= 1,
    ensures
        ({
            let run = spec_calibrate_run(factor, cal, sample_events(samples));
            &&& run.0 == factor
            &&& run.1.phase is Failed
            &&& forall|i: int| 0 <= i < run.2.len() ==> !((#[trigger] run.2[i]) is PersistFactor)
        }),
    decreases samples.len(),
{
    let events = sample_events(samples);
    assert(events[0] == CalibrationEvent::SampleRead(samples[0]));
    let stepped = spec_calibrate_step(factor, cal, events[0]);
    assert(events.drop_first() =~= sample_events(samples.drop_first()));
    if samples.len() == 1 {
        assert(sum_of(samples.drop_first()) == 0);
        assert(cal.sum + samples[0] == 0);
        assert(stepped.1.phase is Failed && stepped.2 == CalibrationCmd::ReportFailure);
        let run = spec_calibrate_run(factor, cal, events);
        assert(run.2 =~= seq![CalibrationCmd::ReportFailure]);
    } else {
        assert(stepped.1.phase is Sampling && stepped.2 == CalibrationCmd::ReadSample);
        lemma_sampling_to_zero_fails(stepped.0, stepped.1, samples.drop_first());
    }
}

/// A calibration run whose sixteen raw samples sum to zero — an averaged
/// reading of exactly zero — reports failure: the stored factor is left
/// unchanged and no step of the run issues a persist command.
pub proof fn lemma_zero_average_changes_nothing(factor: Option<u32>, samples: Seq<i32>)
    requires
        samples.len() == CALIBRATION_NUM_SAMPLES,
        sum_of(samples) == 0,
    ensures
        ({
            let events = seq![
                CalibrationEvent::DownSeen,
                CalibrationEvent::Tared,
                CalibrationEvent::DownSeen,
            ] + sample_events(samples);
            let run = spec_calibrate_run(factor, Calibration::spec_init(), events);
            &&& run.0 == factor
            &&& run.1.phase is Failed
            &&& forall|i: int| 0 <= i < run.2.len() ==> !((#[trigger] run.2[i]) is PersistFactor)
        }),
{
    let prefix = seq![
        CalibrationEvent::DownSeen,
        CalibrationEvent::Tared,
        CalibrationEvent::DownSeen,
    ];
    let events = prefix + sample_events(samples);
    let c0 = Calibration::spec_init();
    let c1 = Calibration { phase: CalibrationPhase::Taring, ..c0 };
    let c2 = Calibration { phase: CalibrationPhase::AwaitSecondDown, ..c0 };
    let c3 = Calibration { phase: CalibrationPhase::Sampling, sum: 0, count: 0 };
    assert(events[0] == CalibrationEvent::DownSeen && events[1] == CalibrationEvent::Tared
        && events[2] == CalibrationEvent::DownSeen);
    assert(spec_calibrate_step(factor, c0, events[0]) == (factor, c1, CalibrationCmd::Tare));
    assert(spec_calibrate_step(factor, c1, events[1]) == (factor, c2, CalibrationCmd::AwaitDown));
    assert(spec_calibrate_step(factor, c2, events[2]) == (
        factor,
        c3,
        CalibrationCmd::ReadSample,
    ));
    let e1 = events.drop_first();
    let e2 = e1.drop_first();
    let e3 = e2.drop_first();
    assert(e1[0] == CalibrationEvent::Tared && e2[0] == CalibrationEvent::DownSeen);
    assert(e3 =~= sample_events(samples));
    lemma_sampling_to_zero_fails(factor, c3, samples);
    let tail = spec_calibrate_run(factor, c3, sample_events(samples));
    let run2 = spec_calibrate_run(factor, c2, e2);
    let run1 = spec_calibrate_run(factor, c1, e1);
    let run = spec_calibrate_run(factor, c0, events);
    assert(run2 == (tail.0, tail.1, seq![CalibrationCmd::ReadSample] + tail.2));
    assert(run1 == (tail.0, tail.1, seq![CalibrationCmd::AwaitDown] + run2.2));
    assert(run == (tail.0, tail.1, seq![CalibrationCmd::Tare] + run1.2));
    assert(forall|i: int| 0 <= i < run.2.len() ==> !((#[trigger] run.2[i]) is PersistFactor));
}

/// Persisting a computed factor round-trips: the step that completes
/// calibration stores exactly the computed bit pattern and hands the same
/// pattern off for persisting, and a scale reloaded from stored bits starts
/// with them — the factor is reconstructed bit for bit, never re-parsed.
pub proof fn lemma_factor_round_trip(factor: Option<u32>, cal: Calibration, bits: u32)
    requires
        cal.phase is AwaitFactor,
    ensures
        ({
            let stepped = spec_calibrate_step(factor, cal, CalibrationEvent::FactorComputed(bits));
            &&& stepped.0 == Some(bits)
            &&& stepped.2 == CalibrationCmd::PersistFactor(bits)
        }),
{
}

/// The documented asymmetry of the resolver: whatever was stored before, a
/// `Held` overwrites it, so the `Up` closing the same press never resolves
/// `Tare` — deliberately kept, not corrected.
pub proof fn lemma_up_after_held_resolves_nothing(last: Option<ButtonEvent>)
    ensures
        spec_resolve(spec_resolve(last, ButtonEvent::Held).0, ButtonEvent::Up).1 is None,
{
}

impl Scale {
    /// A scale wired to its button channel, loaded with the factor bits read
    /// back from the persistent store (`None` when nothing was stored): the
    /// factor is reconstructed from its raw pattern, never re-parsed.
    pub fn new(button_event_handle: ButtonEventHandle, stored_factor_bits: Option<u32>) -> (s:
        Scale)
        ensures
            s.scale_factor_bits == stored_factor_bits,
            s.last_button_event is None,
    {
        Scale { button_event_handle, scale_factor_bits: stored_factor_bits, last_button_event: None }
    }

    /// Whether no calibration factor is available yet, so calibration must
    /// run before weighing.
    pub fn needs_calibration(&self) -> (r: bool)
        ensures
            r == (self.scale_factor_bits is None),
    {
        self.scale_factor_bits.is_none()
    }

    /// Folds one consumed button event into the resolver state, returning
    /// the resolved action if any, exactly as `spec_resolve` states.
    pub fn resolve_action(&mut self, event: ButtonEvent) -> (action: Option<ScaleAction>)
        ensures
            (final(self).last_button_event, action) == spec_resolve(
                old(self).last_button_event,
                event,
            ),
            final(self).scale_factor_bits == old(self).scale_factor_bits,
            final(self).button_event_handle == old(self).button_event_handle,
    {
        match event {
            ButtonEvent::Down => {
                self.last_button_event = Some(ButtonEvent::Down);
                None
            },
            ButtonEvent::Held => {
                let was_down = match self.last_button_event {
                    Some(ButtonEvent::Down) => true,
                    _ => false,
                };
                self.last_button_event = Some(ButtonEvent::Held);
                if was_down {
                    Some(ScaleAction::Calibrate)
                } else {
                    None
                }
            },
            ButtonEvent::Up => {
                let was_down = match self.last_button_event {
                    Some(ButtonEvent::Down) => true,
                    _ => false,
                };
                self.last_button_event = Some(ButtonEvent::Up);
                if was_down {
                    Some(ScaleAction::Tare)
                } else {
                    None
                }
            },
        }
    }

    /// Advances the calibration protocol by one reported event, exactly as
    /// `spec_calibrate_step` states: the returned command is the next piece
    /// of outside work, and the stored factor bits change only when a
    /// computed factor arrives in the phase that awaits one.
    pub fn calibrate_step(&mut self, cal: &mut Calibration, event: CalibrationEvent) -> (cmd:
        CalibrationCmd)
        requires
            old(cal).wf(),
        ensures
            final(cal).wf(),
            (final(self).scale_factor_bits, *final(cal), cmd) == spec_calibrate_step(
                old(self).scale_factor_bits,
                *old(cal),
                event,
            ),
            final(self).last_button_event == old(self).last_button_event,
            final(self).button_event_handle == old(self).button_event_handle,
    {
        match (cal.phase, event) {
            (CalibrationPhase::AwaitFirstDown, CalibrationEvent::DownSeen) => {
                cal.phase = CalibrationPhase::Taring;
                CalibrationCmd::Tare
            },
            (CalibrationPhase::Taring, CalibrationEvent::Tared) => {
                cal.phase = CalibrationPhase::AwaitSecondDown;
                CalibrationCmd::AwaitDown
            },
            (CalibrationPhase::AwaitSecondDown, CalibrationEvent::DownSeen) => {
                cal.phase = CalibrationPhase::Sampling;
                cal.sum = 0;
                cal.count = 0;
                CalibrationCmd::ReadSample
            },
            (CalibrationPhase::Sampling, CalibrationEvent::SampleRead(reading)) => {
                cal.sum = cal.sum + reading as i64;
                cal.count = cal.count + 1;
                if cal.count < CALIBRATION_NUM_SAMPLES {
                    CalibrationCmd::ReadSample
                } else if cal.sum == 0 {
                    cal.phase = CalibrationPhase::Failed;
                    CalibrationCmd::ReportFailure
                } else {
                    cal.phase = CalibrationPhase::AwaitFactor;
                    CalibrationCmd::ComputeFactor { sum: cal.sum, count: cal.count }
                }
            },
            (CalibrationPhase::Sampling, CalibrationEvent::SampleFailed) => {
                CalibrationCmd::ReadSample
            },
            (CalibrationPhase::AwaitFactor, CalibrationEvent::FactorComputed(bits)) => {
                self.scale_factor_bits = Some(bits);
                cal.phase = CalibrationPhase::Complete;
                CalibrationCmd::PersistFactor(bits)
            },
            _ => CalibrationCmd::Idle,
        }
    }

    /// Polls the event channel once, without blocking, and resolves the
    /// event if one was queued: either nothing was queued and the resolver
    /// state is untouched, or some event was consumed and folded exactly as
    /// `spec_resolve` states.
    pub fn poll_action(&mut self) -> (action: Option<ScaleAction>)
        ensures
            final(self).scale_factor_bits == old(self).scale_factor_bits,
            final(self).button_event_handle == old(self).button_event_handle,
            (action is None && final(self).last_button_event == old(self).last_button_event)
                || (exists|event: ButtonEvent|
                (final(self).last_button_event, action) == spec_resolve(
                    old(self).last_button_event,
                    event,
                )),
    {
        match self.button_event_handle.get_event() {
            Some(button_event) => {
                let action = self.resolve_action(button_event);
                proof {
                    assert((self.last_button_event, action) == spec_resolve(
                        old(self).last_button_event,
                        button_event,
                    ));
                }
                action
            },
            None => None,
        }
    }
}

} // verus!
