//! Cycle-accurate integer core of the AY-3-8910 / YM2149 programmable sound
//! generator: three square-wave tone channels, a noise generator, an envelope
//! generator and the register file that drives them, together with the two
//! buffers that an audio path around the chip needs, the window of an 8x
//! decimating filter and the delay line of a moving average.
//!
//! Every chip tick is a pure step on the chip's state. The contracts state each
//! step and each register write over the views of the types. Each type keeps
//! its periods, levels and counters within the ranges of the silicon as an
//! invariant of the type, so no operation asks anything of the state that it
//! is called on.

pub mod channel;
pub mod chip;
pub mod delay_line;
pub mod envelope_generator;
pub mod error;
pub mod fir_window;
pub mod noise_generator;

pub use channel::Channel;
pub use chip::{ChipType, PSG};
pub use delay_line::DelayLine;
pub use envelope_generator::EnvelopeGenerator;
pub use error::Error;
pub use fir_window::FirWindow;
pub use noise_generator::NoiseGenerator;
