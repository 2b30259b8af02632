//! A minimal HTTP request tool's verified core: request dispatch and the
//! response bridge.
//!
//! The library covers the logic of one submission lifecycle: parsing the
//! verb, composing the headers, turning a transport result into an outcome,
//! rendering the outcome as display text, carrying that text through a FIFO
//! bridge, and guarding against a second submission while one is in flight.
//! The blocking network call and the interactive surface live outside the
//! library; they exchange plain values with it.

pub mod bridge;
pub mod coordinator;
pub mod format;
pub mod method;
pub mod outcome;
pub mod text;
