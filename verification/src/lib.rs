//! Input and calibration core of a push-button kitchen scale.
//!
//! `button` turns a stream of raw pin samples into debounced `Down`, `Up` and
//! `Held` events and carries them over a single-producer channel; `scale`
//! folds those events into tare and calibrate actions and drives the
//! interactive calibration protocol as a verified state machine.

pub mod button;
pub mod scale;

