//! Global package installation redirector.
//!
//! Installing a package "globally" is redirected into a private, per-package
//! directory by injecting environment variables into the package manager's
//! child process, without patching the package manager itself. The library
//! holds the decisions of one install request — which platform to use, the
//! exact command and environment to run, and how to read the process's
//! outcome — as verified functions; the caller performs the surrounding I/O.

pub mod command;
pub mod envvars;
pub mod machine;
pub mod outcome;
pub mod package;
