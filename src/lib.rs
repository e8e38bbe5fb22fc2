//! The operation bridge of a desktop document application: it checks a
//! request, chooses where an interactive operation writes, assembles the
//! worker program's command line and turns the worker's exit status and
//! output streams into a typed result for the user interface.
pub mod bridge;
pub mod error;
pub mod invocation;
pub mod operation;
pub mod request;
pub mod text;
pub mod translate;
