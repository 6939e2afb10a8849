//! Counting consecutive observations that share a key.
//!
//! A [`counter::ConsecutiveCounter`] takes a stream of `(key, increment)`
//! observations and keeps the total of the run in progress; when the key
//! changes it hands out, once, the run that has just ended. The rules it
//! follows are stated over the mathematical state in [`model`], and what holds
//! of whole streams of observations is proved in [`laws`].
//!
//! [`time_measure`] measures the time since a reading of the wall clock, in
//! whole seconds: the key by which frames are counted per second.

pub mod model;
pub mod counter;
pub mod laws;
pub mod time_measure;
