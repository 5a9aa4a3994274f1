//! Closed-loop optical-gain probing engine.
//!
//! The crate models a tick-driven probing pipeline: sinusoidal perturbations
//! are injected into a shared mode-coefficient buffer, the loop's filtered
//! response is withheld during warm-up by [`Delay`], and per-probe injected and
//! filtered histories are accumulated for gain estimation.
//!
//! The sample scalar is kept generic: every structural rule of the engine
//! (probe addressing, buffer replacement, history bookkeeping, warm-up
//! withholding) is stated and verified here, while the sinusoid and demodulation
//! arithmetic on the concrete scalar is supplied by the caller.

pub mod config;
pub mod delay;
pub mod gain;
pub mod probe;

pub use config::ProbingSignals;
pub use delay::Delay;
pub use gain::OpticalGain;
pub use probe::Probe;
