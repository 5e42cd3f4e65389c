//! Result-backend protocol for a distributed task queue: the envelopes that
//! hold task outcomes, the decisions of the client's polling loop, and the
//! classification of failures written by native and foreign workers.

pub mod classify;
pub mod client;
pub mod envelope;
pub mod failure;
pub mod message;
pub mod polling;
pub mod text;
pub mod time;
