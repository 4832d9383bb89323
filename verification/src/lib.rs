//! Decision logic of a batch file-format converter.
//!
//! The library derives output filenames from input paths and a target
//! format, dispatches command-line arguments, plans the converter
//! invocations, and turns each converter run into the exact report lines
//! to print.  Everything here is pure decision logic: the surrounding
//! binary reads the arguments, launches the converter, samples the clock
//! and prints the lines.

pub mod classify;
pub mod cli;
pub mod decimal;
pub mod names;
pub mod report;
