//! Sidereal-time library: civil UTC date and time to Modified Julian Date,
//! Greenwich and local mean sidereal time, and the countdown to a fixed
//! target sidereal clock time. All time quantities are held as exact integer
//! nanosecond counts, so every conversion in the pipeline is verified exactly.

pub mod calendar;
pub mod codec;
pub mod countdown;
pub mod errors;
pub mod pipeline;
pub mod sidereal;
pub mod timezone;
