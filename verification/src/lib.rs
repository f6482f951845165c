//! Discovery of the container runtimes installed on a host, and the decision
//! whether their image storage may be read directly.
//!
//! The library never touches the host itself. Whatever it needs to learn
//! (an environment variable, whether a file exists, whether a command
//! succeeds) it names as a [`probe::host::Query`]; the caller looks the
//! answer up on the real machine and records it. Every contract is stated
//! against a mathematical model of the host, [`probe::host::Host`].

pub mod cmd;
pub mod config;
pub mod inspector;
pub mod probe;
pub mod text;
