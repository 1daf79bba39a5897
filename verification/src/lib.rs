//! Core of a project-scaffolding tool.
//!
//! The library covers the two coupled hard parts of scaffolding: the
//! compatibility matrix that decides which framework / build-tool /
//! language / platform combinations are legal, and the template
//! materialization engine that turns a read-only template tree into a
//! plan of directories and files to create, substituting a handful of
//! project-identity variables in parametrized files.
//!
//! All terminal interaction, flag parsing and file I/O live outside the
//! library; it consumes plain selections and template trees and produces
//! plain results.

pub mod cli;
pub mod consistency;
pub mod materialize;
pub mod matrix;
pub mod parse;
pub mod pathkey;
pub mod render;
pub mod resolve;
pub mod store;
pub mod validate;
pub mod text;
