use scale_core::button::{ButtonEvent, ButtonEventHandle};
use scale_core::scale::{
    Calibration, CalibrationCmd, CalibrationEvent, Scale, ScaleAction, CALIBRATION_NUM_SAMPLES,
    CALIBRATION_WEIGHT_GRAMS,
};

fn fresh_scale(stored_factor_bits: Option<u32>) -> Scale {
    let (_tx, rx) = std::sync::mpsc::channel();
    Scale::new(ButtonEventHandle::new(rx), stored_factor_bits)
}

#[test]
fn needs_calibration_exactly_when_no_factor_is_stored() {
    assert!(fresh_scale(None).needs_calibration());
    assert!(!fresh_scale(Some(0.5f32.to_bits())).needs_calibration());
}

#[test]
fn down_alone_resolves_no_action() {
    let mut scale = fresh_scale(None);
    assert_eq!(scale.resolve_action(ButtonEvent::Down), None);
}

#[test]
fn down_then_up_resolves_tare() {
    let mut scale = fresh_scale(None);
    assert_eq!(scale.resolve_action(ButtonEvent::Down), None);
    assert_eq!(scale.resolve_action(ButtonEvent::Up), Some(ScaleAction::Tare));
}

#[test]
fn down_then_held_resolves_calibrate() {
    let mut scale = fresh_scale(None);
    assert_eq!(scale.resolve_action(ButtonEvent::Down), None);
    assert_eq!(scale.resolve_action(ButtonEvent::Held), Some(ScaleAction::Calibrate));
}

#[test]
fn up_after_held_resolves_nothing_further() {
    // The documented asymmetry: Held overwrote the stored Down, so the Up
    // closing the same press yields no Tare.
    let mut scale = fresh_scale(None);
    assert_eq!(scale.resolve_action(ButtonEvent::Down), None);
    assert_eq!(scale.resolve_action(ButtonEvent::Held), Some(ScaleAction::Calibrate));
    assert_eq!(scale.resolve_action(ButtonEvent::Up), None);
}

#[test]
fn up_or_held_without_preceding_down_resolves_nothing() {
    let mut scale = fresh_scale(None);
    assert_eq!(scale.resolve_action(ButtonEvent::Up), None);
    assert_eq!(scale.resolve_action(ButtonEvent::Held), None);
    // Up preceded by Up, not Down.
    assert_eq!(scale.resolve_action(ButtonEvent::Up), None);
}

#[test]
fn poll_action_consumes_queued_events_in_order() {
    let (tx, rx) = std::sync::mpsc::channel();
    let mut scale = Scale::new(ButtonEventHandle::new(rx), None);
    tx.send(ButtonEvent::Down).unwrap();
    tx.send(ButtonEvent::Up).unwrap();
    assert_eq!(scale.poll_action(), None);
    assert_eq!(scale.poll_action(), Some(ScaleAction::Tare));
    assert_eq!(scale.poll_action(), None);
}

/// Runs a full calibration up to the point where every sample has been
/// reported, returning the commands issued along the way.
fn run_through_samples(scale: &mut Scale, cal: &mut Calibration, samples: &[i32]) -> Vec<CalibrationCmd> {
    let mut cmds = Vec::new();
    cmds.push(scale.calibrate_step(cal, CalibrationEvent::DownSeen));
    cmds.push(scale.calibrate_step(cal, CalibrationEvent::Tared));
    cmds.push(scale.calibrate_step(cal, CalibrationEvent::DownSeen));
    for &reading in samples {
        cmds.push(scale.calibrate_step(cal, CalibrationEvent::SampleRead(reading)));
    }
    cmds
}

#[test]
fn calibration_walks_its_phases_in_order() {
    let mut scale = fresh_scale(None);
    let mut cal = Calibration::new();
    assert_eq!(scale.calibrate_step(&mut cal, CalibrationEvent::DownSeen), CalibrationCmd::Tare);
    assert_eq!(scale.calibrate_step(&mut cal, CalibrationEvent::Tared), CalibrationCmd::AwaitDown);
    assert_eq!(
        scale.calibrate_step(&mut cal, CalibrationEvent::DownSeen),
        CalibrationCmd::ReadSample
    );
    for _ in 0..CALIBRATION_NUM_SAMPLES - 1 {
        assert_eq!(
            scale.calibrate_step(&mut cal, CalibrationEvent::SampleRead(4000)),
            CalibrationCmd::ReadSample
        );
    }
    assert_eq!(
        scale.calibrate_step(&mut cal, CalibrationEvent::SampleRead(4000)),
        CalibrationCmd::ComputeFactor { sum: 64000, count: 16 }
    );
}

#[test]
fn zero_average_fails_without_storing_or_persisting() {
    let mut scale = fresh_scale(None);
    let mut cal = Calibration::new();
    // Eight positive and eight negative samples: the sum, and so the
    // average, is exactly zero.
    let mut samples = [5i32; 16];
    for value in samples.iter_mut().skip(8) {
        *value = -5;
    }
    let cmds = run_through_samples(&mut scale, &mut cal, &samples);
    assert_eq!(cmds.last(), Some(&CalibrationCmd::ReportFailure));
    assert!(cmds.iter().all(|cmd| !matches!(cmd, CalibrationCmd::PersistFactor(_))));
    assert!(scale.needs_calibration());
    // The failed run is over: further events change nothing.
    assert_eq!(scale.calibrate_step(&mut cal, CalibrationEvent::SampleRead(7)), CalibrationCmd::Idle);
}

#[test]
fn zero_average_leaves_an_existing_factor_untouched() {
    let stored = 0.25f32.to_bits();
    let mut scale = fresh_scale(Some(stored));
    let mut cal = Calibration::new();
    let mut samples = [1i32; 16];
    for value in samples.iter_mut().skip(8) {
        *value = -1;
    }
    let cmds = run_through_samples(&mut scale, &mut cal, &samples);
    assert_eq!(cmds.last(), Some(&CalibrationCmd::ReportFailure));
    assert_eq!(scale.scale_factor_bits, Some(stored));
}

#[test]
fn failed_sample_reads_are_retried_transparently() {
    let mut scale = fresh_scale(None);
    let mut cal = Calibration::new();
    scale.calibrate_step(&mut cal, CalibrationEvent::DownSeen);
    scale.calibrate_step(&mut cal, CalibrationEvent::Tared);
    scale.calibrate_step(&mut cal, CalibrationEvent::DownSeen);
    // Two failures: the machine keeps asking, and the count is unaffected.
    assert_eq!(
        scale.calibrate_step(&mut cal, CalibrationEvent::SampleFailed),
        CalibrationCmd::ReadSample
    );
    assert_eq!(
        scale.calibrate_step(&mut cal, CalibrationEvent::SampleFailed),
        CalibrationCmd::ReadSample
    );
    for _ in 0..CALIBRATION_NUM_SAMPLES - 1 {
        assert_eq!(
            scale.calibrate_step(&mut cal, CalibrationEvent::SampleRead(100)),
            CalibrationCmd::ReadSample
        );
    }
    assert_eq!(
        scale.calibrate_step(&mut cal, CalibrationEvent::SampleRead(100)),
        CalibrationCmd::ComputeFactor { sum: 1600, count: 16 }
    );
}

#[test]
fn event_outside_its_phase_changes_nothing() {
    let mut scale = fresh_scale(None);
    let mut cal = Calibration::new();
    assert_eq!(
        scale.calibrate_step(&mut cal, CalibrationEvent::FactorComputed(1)),
        CalibrationCmd::Idle
    );
    assert_eq!(scale.calibrate_step(&mut cal, CalibrationEvent::Tared), CalibrationCmd::Idle);
    assert!(scale.needs_calibration());
    // The run still proceeds normally from where it stood.
    assert_eq!(scale.calibrate_step(&mut cal, CalibrationEvent::DownSeen), CalibrationCmd::Tare);
}

#[test]
fn persisted_factor_reloads_bit_identical() {
    let mut scale = fresh_scale(None);
    let mut cal = Calibration::new();
    let cmds = run_through_samples(&mut scale, &mut cal, &[4000; 16]);
    assert_eq!(cmds.last(), Some(&CalibrationCmd::ComputeFactor { sum: 64000, count: 16 }));
    // The factor the appliance computes from that command.
    let average = (64000f64 / 16f64) as f32;
    let factor = CALIBRATION_WEIGHT_GRAMS as f32 / average;
    let persisted = match scale.calibrate_step(&mut cal, CalibrationEvent::FactorComputed(factor.to_bits())) {
        CalibrationCmd::PersistFactor(bits) => bits,
        other => panic!("expected a persist command, got {:?}", other),
    };
    assert_eq!(scale.scale_factor_bits, Some(factor.to_bits()));
    // Reload from the persisted bits: bit-identical, no decimal drift.
    let reloaded = fresh_scale(Some(persisted));
    assert_eq!(reloaded.scale_factor_bits, Some(factor.to_bits()));
    assert_eq!(f32::from_bits(persisted).to_bits(), factor.to_bits());
    assert_eq!(f32::from_bits(persisted), factor);
}

#[test]
fn reference_weight_over_average_gives_factor_and_scaled_weight() {
    let mut scale = fresh_scale(None);
    let mut cal = Calibration::new();
    let cmds = run_through_samples(&mut scale, &mut cal, &[4000; 16]);
    let (sum, count) = match cmds.last() {
        Some(&CalibrationCmd::ComputeFactor { sum, count }) => (sum, count),
        other => panic!("expected a compute command, got {:?}", other),
    };
    let average = (sum as f64 / count as f64) as f32;
    assert_eq!(average, 4000.0);
    let factor = CALIBRATION_WEIGHT_GRAMS as f32 / average;
    assert_eq!(factor, 0.5);
    assert_eq!(
        scale.calibrate_step(&mut cal, CalibrationEvent::FactorComputed(factor.to_bits())),
        CalibrationCmd::PersistFactor(0.5f32.to_bits())
    );
    // Applying the factor to a raw reading of 1000 yields 500 grams.
    assert_eq!(1000f32 * factor, 500.0);
}
