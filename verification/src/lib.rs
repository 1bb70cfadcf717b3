//! A process bridge for an external generation script.
//!
//! The library holds the verified half of a small desktop shell: it builds
//! the command line for the external script, interprets the finished
//! process's exit status and captured streams as either a filename or a
//! typed error, and renders each error as a user-visible message.  The
//! unverifiable half — spawning the process and the GUI event loop — lives
//! outside and hands this library plain values.

pub mod bridge;
pub mod decode;
pub mod greeting;
pub mod text;
