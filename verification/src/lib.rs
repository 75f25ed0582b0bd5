//! Rule-driven validation of a WebAssembly binary.
//!
//! A configuration document names one target binary and the checks to run on
//! it, each with an optional preset. The library resolves such a document,
//! runs the checks in declaration order and reports a verdict for each and
//! for the whole.
//!
//! - [`document`]: configuration documents, and [`yaml`], which reads them
//!   from YAML text.
//! - [`config`]: the resolver, from a document to a
//!   [`config::ChiselContext`].
//! - [`artifact`]: decoding the target binary.
//! - [`checks`]: the dispatcher, which runs one declared module.
//! - [`run`]: the aggregator, which runs them all and builds the
//!   [`run::Report`], the lines to print and the exit code.
//! - [`stage`]: the stages that a run passes through.
//! - [`error`]: the failures that end a run before any check is attempted.
//!
//! The library reads no file and prints nothing. Its caller reads the
//! configuration file and the binary, hands over what it read, and prints
//! what it is handed back.

pub mod artifact;
pub mod checks;
pub mod config;
pub mod document;
pub mod error;
pub mod run;
pub mod stage;
pub mod yaml;
