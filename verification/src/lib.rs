//! Builds the command that starts the OmniSharp language server for a Unity
//! C# workspace: which binary to run, with which arguments, and which
//! solution file to point it at.

pub mod command;
pub mod guarantees;
pub mod resolver;
pub mod search;
pub mod solution;
