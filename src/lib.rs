//! Path redirection for a filesystem-call interposition shim.
//!
//! An injected shim intercepts the calls that open files and directories and
//! asks this library where each one should really go: to a file under a
//! shadow root, or to the path the program asked for. The library holds the
//! decisions: how the settings read from the environment are parsed, how the
//! shadow root is validated, how a path is joined onto it, which call kinds
//! are redirected, and what diagnostic line each decision produces. Reading
//! the environment, asking the disk whether a path exists and calling the
//! original functions are left to the caller.

pub mod text;
pub mod config;
pub mod engine;
pub mod trace;
pub mod laws;
