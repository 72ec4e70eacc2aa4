//! A hard-clipping waveshaper with DC-offset and stereo skew controls.
//!
//! Amplitudes, gains and control values are fixed-point numbers: an `i64`
//! holding millionths, so `FX_ONE` (1 000 000) stands for 1.0. The crate
//! provides the two halves of the signal path: parameter smoothers that turn
//! stepwise target changes into per-sample trajectories, and the per-sample
//! transfer function that clips, re-centers and rescales each channel with an
//! alternating skew sign.

pub mod fixed;
pub mod params;
pub mod processor;
pub mod smoother;
pub mod transfer;

pub use fixed::FX_ONE;
