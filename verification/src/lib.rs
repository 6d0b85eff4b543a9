//! The driver of a smart-contract script.
//!
//! A script is prepared, run and replayed against an execution engine that
//! this library does not contain. The library decides what is asked of the
//! engine, one request at a time, and what becomes of each reply; its tasks
//! are resumed with the replies by whoever holds the engine.

pub mod call;
pub mod engine;
pub mod gas;
pub mod primitives;
pub mod result;
pub mod runner;
pub mod setup;
pub mod simulate;
