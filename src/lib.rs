//! Checks configuration and zone text through a native validation engine and
//! turns what the engine reports into positioned diagnostics.
//!
//! - `buffer`: the bounded byte region text is handed to the engine in.
//! - `sink`: the capture of the engine's diagnostic output, read and cleared in one step.
//! - `parser`: the parser and validated-object lifecycle, and what engine result codes mean.
//! - `zone`: the steps of one zone check, as a state machine the caller drives.
//! - `translate`: captured text to records and to positioned diagnostics.

pub mod buffer;
pub mod parser;
pub mod sink;
pub mod translate;
pub mod zone;
