//! A pseudo-terminal session bridge.
//!
//! The crate holds the verified core of a single-session terminal host:
//! the byte-level decoding of terminal output ([`decode`]), the buffered
//! reader state with its delivery discipline ([`reader`]), the one-shot
//! shell-creation state machine ([`session`]), the child-exit supervisor
//! ([`supervisor`]), the window-size requests ([`pty`]), and the
//! configuration-file path rules ([`config`]).
//!
//! The operating-system side — opening the pseudo-terminal pair, spawning
//! the shell, and moving bytes over the master end — is plain I/O and is
//! driven by an unverified host around this crate; every decision that
//! host takes, it takes by calling in here.

pub mod config;
pub mod decode;
pub mod pty;
pub mod reader;
pub mod session;
pub mod supervisor;
pub mod writer;

pub use decode::utf8_is_valid;
