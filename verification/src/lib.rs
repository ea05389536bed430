//! The integer side of a live audio spectrum display: bounded capture of
//! interleaved samples, channel splitting, and the index arithmetic behind the
//! spectrum bars and the frequency axis.
//!
//! Samples travel through this crate as the bit patterns of 32-bit floats
//! (`u32`); the floating-point transforms themselves live with the caller.
pub mod ring;

pub mod capture;
pub mod channels;
pub mod spectrum;
pub mod bars;
pub mod axis;
pub mod stream;
