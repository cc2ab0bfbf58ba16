//! Turn a math expression, read as raw bytes, into a trimmed PNG.
//!
//! The work is a single linear pipeline: wrap the expression in a fixed
//! document template, then drive three external tools in strict sequence
//! (typesetting compiler, raster renderer, image post-processor) inside a
//! fixed scratch directory, cleaning up the fixed intermediate files at the
//! start of every run and after any failure.
//!
//! This crate holds the pipeline's logic: the template text and its
//! concatenation, the fixed program names, argument lists and file names,
//! and the run's state machine together with a model of which scratch files
//! each step leaves behind. The surrounding binary performs the actual I/O
//! (reading standard input, writing files, spawning the tools) and feeds
//! each step's outcome back into the state machine.

pub mod pipeline;
pub mod stages;
pub mod template;
