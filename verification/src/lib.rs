//! A real-time audio block processor around a small embedded interpreter.
//!
//! A host writes a block of samples into a fixed-capacity input buffer, calls
//! `process_block`, and reads the processed block from the output buffer. Per
//! block the engine assembles an interpreter stack (persistent state for
//! stateful effects, then the samples, then scalar parameters), executes a
//! program compiled once at construction, pops the result arrays, and commits
//! them: the state store partially, the output buffer with a per-sample
//! fallback wherever the program returned fewer samples than requested, so
//! that audio degrades instead of stopping.
//!
//! Samples and parameters cross this crate as the bit patterns of IEEE
//! floats held in plain integers; the IEEE arithmetic behind them is done in
//! software by `rustc_apfloat`, and the interpreter is `uiua`, both behind
//! trusted wrappers.

pub mod words;
pub mod fault;
pub mod interp;
pub mod engine;
pub mod shim;
pub mod laws;
