//! Build-orchestration core for compiling a vendored numerical library
//! with its external make-based build system.
//!
//! The library decides *how* the external build tool is invoked, parses
//! the configuration report that the tool emits, inspects the produced
//! binary artifacts, and validates the result against the requested
//! configuration.  All filesystem, network and subprocess work is left
//! to the embedding program; this crate holds the verified logic.

pub mod config;
pub mod error;
pub mod inspect;
pub mod layout;
pub mod orchestrator;
pub mod report;
pub mod source;
pub mod target;
pub mod text;

pub use error::Error;
