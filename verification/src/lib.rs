//! Scaffolding and build planning for small C projects.
//!
//! The library is the decision core of a command-line tool: it parses the
//! argument list into a command, renders the fixed file templates, lays out
//! the ordered filesystem operations that scaffold a new project, and decides
//! the outcome of a build from the events the compiler run produced.  All
//! actual I/O (directory creation, file writes, launching the compiler) is
//! performed by a thin shell around the library, which feeds the results back
//! in as plain values.

pub mod args;
pub mod dispatch;
pub mod errors;
pub mod runner;
pub mod scaffold;
pub mod templates;
pub mod text;
