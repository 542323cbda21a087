//! Playback of one audio file through a two-node processing graph.
//!
//! The library holds the rules of a playback session: the algebra of stream
//! formats, the meaning of native status codes as typed errors, the
//! lifecycle of the processing graph, the scheduled region and the order in
//! which the steps of a session are performed and released. The native audio
//! subsystem itself is driven by the caller, step by step.

pub mod error;
pub mod format;
pub mod graph;
pub mod region;
pub mod session;
