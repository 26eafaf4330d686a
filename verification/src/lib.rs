//! Scaffolding of Rust modules: validate a module path, plan the files to
//! create, and patch the module declaration into the root file of the
//! package.
//!
//! The library touches no file. It reads the command line ([`runner`]) and
//! the manifest ([`manifest`]), plans the entries of a new module
//! ([`module`], [`package`], [`workspace`]), decides the steps by which
//! they are created ([`creation`]), computes the new text of the root file
//! ([`patch`]) and decides the steps by which that text replaces the old
//! one ([`transaction`]). The caller probes and changes the file system as
//! the library tells it to.

pub mod creation;
pub mod errors;
pub mod manifest;
pub mod module;
pub mod package;
pub mod patch;
pub mod path;
pub mod runner;
pub mod text;
pub mod transaction;
pub mod utils;
pub mod workspace;

pub use errors::Error;
