//! Session orchestration for an operator console that drives an external,
//! deduplicating archive engine: which repository to work on, whether it can
//! be reached, which engine calls to make and how to read their outcome, and
//! the navigation between the console's screens.
//!
//! The library decides and computes. It reads the clock where it names a
//! new archive, and performs no other input or output: whoever embeds it
//! runs the engine, asks the operator and reads the file system, and hands
//! back what came of it as plain values.

pub mod backup;
pub mod config;
pub mod credentials;
pub mod engine;
pub mod error;
pub mod menu;
pub mod mount;
pub mod nav;
pub mod paths;
pub mod probe;
pub mod screens;
pub mod select;
pub mod text;
pub mod wizard;
